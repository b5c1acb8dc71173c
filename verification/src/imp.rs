//! The implementation-side binding.
//!
//! The implementation annotation emits no forwarding code of its own: it
//! restates the producer definitions for the chosen concrete type (through
//! the invocation the interface side exported) and pins down the byte-layout
//! contract with a capacity assertion: the concrete type must fit the
//! proxy representation's capacity.

use vstd::prelude::*;

use crate::decl::ImplArgs;
use crate::repr::WORD_BYTES;
use crate::ty::{copy_type, type_dv, Type, TypeV};

verus! {

/// The two layout policies an erased proxy can use: the fixed two-word
/// register representation, or a byte buffer sized to the worst case.
pub enum ReprPolicy {
    RegisterPair,
    SizedBuffer(usize),
}

/// The capacity, in bytes, a concrete implementation type must fit in
/// under each policy.
pub open spec fn capacity(p: ReprPolicy) -> usize {
    match p {
        ReprPolicy::RegisterPair => (2 * WORD_BYTES) as usize,
        ReprPolicy::SizedBuffer(m) => m,
    }
}

/// The capacity of a policy, as a runtime value.
pub fn capacity_of(p: &ReprPolicy) -> (n: usize)
    ensures
        n == capacity(*p),
{
    match p {
        ReprPolicy::RegisterPair => 2 * WORD_BYTES,
        ReprPolicy::SizedBuffer(m) => *m,
    }
}

/// The compile-time size obligation of the proxy representation: a concrete
/// type of the given size is eligible exactly when it fits the policy's
/// capacity.  Under the register policy the further obligation — that the
/// value passes through integer registers only — cannot be checked here and
/// remains the implementer's promise.
pub fn check_capacity(p: &ReprPolicy, size: usize) -> (b: bool)
    ensures
        b == (size <= capacity(*p)),
{
    size <= capacity_of(p)
}

/// The rejections of the implementation-side annotation.
#[derive(Clone, Copy, PartialEq, Eq, Structural, Debug)]
pub enum ImplError {
    /// The annotated item must be a trait implementation.
    NotTraitImpl,
    /// A bridged implementation may not have generic parameters.
    ImplGenerics,
    /// A bridged implementation may not have a `where` clause.
    ImplWhereClause,
}

/// The implementation block, as the front end hands it over.
pub struct ImplBlock {
    pub is_trait_impl: bool,
    pub trait_name: String,
    pub self_ty: Type,
    pub generics_n: usize,
    pub has_where_clause: bool,
}

/// The emitted capacity assertion: the concrete type against the policy's
/// capacity in bytes, phrased against the representation of the named
/// support crate.
pub struct SizeAssertion {
    pub ty: Type,
    pub max_bytes: usize,
    pub crate_path: String,
}

/// The emitted restatement of the producer definitions for the concrete
/// type: the invocation of what the interface side exported.
pub struct BridgeInvocation {
    pub trait_name: String,
    pub self_ty: Type,
}

/// The whole implementation-side expansion.
pub struct ImplExpansion {
    pub size_assertion: SizeAssertion,
    pub invocation: BridgeInvocation,
}

/// Binds one concrete implementation to its interface: only a
/// generics-free, `where`-free trait implementation is accepted; the
/// emitted artifacts are the capacity assertion under the register-pair
/// policy and the producer invocation.
pub fn expand(args: &ImplArgs, input: &ImplBlock) -> (r: Result<ImplExpansion, ImplError>)
    ensures
        r is Err <==> (!input.is_trait_impl || input.generics_n > 0 || input.has_where_clause),
        r == Err::<ImplExpansion, ImplError>(ImplError::NotTraitImpl) <==> !input.is_trait_impl,
        r matches Err(e) && e == ImplError::ImplGenerics <==> (input.is_trait_impl
            && input.generics_n > 0),
        r matches Err(e) && e == ImplError::ImplWhereClause <==> (input.is_trait_impl
            && input.generics_n == 0 && input.has_where_clause),
        r matches Ok(e) ==> {
            &&& type_dv(e.size_assertion.ty) == type_dv(input.self_ty)
            &&& e.size_assertion.max_bytes == capacity(ReprPolicy::RegisterPair)
            &&& e.size_assertion.crate_path@ == args.crate_path@
            &&& e.invocation.trait_name@ == input.trait_name@
            &&& type_dv(e.invocation.self_ty) == type_dv(input.self_ty)
        },
{
    if !input.is_trait_impl {
        return Err(ImplError::NotTraitImpl);
    }
    if input.generics_n > 0 {
        return Err(ImplError::ImplGenerics);
    }
    if input.has_where_clause {
        return Err(ImplError::ImplWhereClause);
    }
    Ok(
        ImplExpansion {
            size_assertion: SizeAssertion {
                ty: copy_type(&input.self_ty),
                max_bytes: 2 * WORD_BYTES,
                crate_path: args.crate_path.clone(),
            },
            invocation: BridgeInvocation {
                trait_name: input.trait_name.clone(),
                self_ty: copy_type(&input.self_ty),
            },
        },
    )
}

} // verus!
