//! Signature normalization: the interface normalizer.
//!
//! Each declared method is validated and canonicalized before any bridge
//! code is derived from it.  Unsupported forms — `const`, suspendable or
//! generic methods, `where` clauses, variadics, and self-placeholders in
//! unrecognized shapes — are rejected with a structural diagnostic; the
//! surviving methods carry their parameters as either a tagged
//! self-placeholder or a concrete type, which is all later stages need.

use vstd::prelude::*;

use crate::ty::{
    contains_self, copy_opt_string, copy_type, lemma_seq_ty_dv, opt_str_dv, self_kind_apply,
    self_kind_dv, self_kind_of, seq_ty_dv, type_dv, SelfKind, SelfKindV, Type, TypeExt, TypeV,
};

verus! {

/// A raw method signature, as the front end hands it over.
pub struct Signature {
    pub is_const: bool,
    pub is_async: bool,
    pub is_unsafe: bool,
    pub abi: Option<String>,
    pub generics_n: usize,
    pub has_where_clause: bool,
    pub is_variadic: bool,
    pub ident: String,
    pub inputs: Vec<Type>,
    pub output: Option<Type>,
}

/// The mathematical twin of [`Signature`].
pub struct SignatureV {
    pub is_const: bool,
    pub is_async: bool,
    pub is_unsafe: bool,
    pub abi: Option<Seq<char>>,
    pub generics_n: usize,
    pub has_where_clause: bool,
    pub is_variadic: bool,
    pub ident: Seq<char>,
    pub inputs: Seq<TypeV>,
    pub output: Option<TypeV>,
}

/// Projects a raw signature onto its twin.
pub open spec fn sig_dv(s: Signature) -> SignatureV {
    SignatureV {
        is_const: s.is_const,
        is_async: s.is_async,
        is_unsafe: s.is_unsafe,
        abi: opt_str_dv(s.abi),
        generics_n: s.generics_n,
        has_where_clause: s.has_where_clause,
        is_variadic: s.is_variadic,
        ident: s.ident@,
        inputs: seq_ty_dv(s.inputs@),
        output: match s.output {
            Some(t) => Some(type_dv(t)),
            None => None,
        },
    }
}

/// A canonicalized parameter or return position: either a recognized
/// self-placeholder shape or a concrete type.
pub enum MaybeSelf {
    Self_(SelfKind),
    Typed(Type),
}

/// The mathematical twin of [`MaybeSelf`].
pub enum MaybeSelfV {
    Self_(SelfKindV),
    Typed(TypeV),
}

/// Projects a canonicalized position onto its twin.
pub open spec fn maybe_self_dv(m: MaybeSelf) -> MaybeSelfV {
    match m {
        MaybeSelf::Self_(k) => MaybeSelfV::Self_(self_kind_dv(k)),
        MaybeSelf::Typed(t) => MaybeSelfV::Typed(type_dv(t)),
    }
}

/// Substitutes a concrete type for the position: the type for a
/// self-placeholder under its shape, the recorded type otherwise.
pub open spec fn maybe_self_apply(m: MaybeSelfV, elem: TypeV) -> TypeV {
    match m {
        MaybeSelfV::Self_(k) => self_kind_apply(k, elem),
        MaybeSelfV::Typed(t) => t,
    }
}

/// The structural rejections of the normalizer, one per unsupported form.
#[derive(Clone, Copy, PartialEq, Eq, Structural, Debug)]
pub enum SigError {
    /// `const fn` cannot cross the boundary.
    ConstFn,
    /// Suspendable methods cannot cross the boundary.
    AsyncFn,
    /// Generic methods cannot be bridged through one symbol.
    GenericFn,
    /// A `where` clause implies generics.
    WhereClauseFn,
    /// Variadic signatures are not supported.
    VariadicFn,
    /// The parameter at this position mentions the self-placeholder in an
    /// unrecognized shape.
    TooComplexSelfArg(usize),
    /// The return type mentions the self-placeholder in an unrecognized
    /// shape.
    TooComplexSelfReturn,
}

/// A method signature the normalizer accepted: its surviving attributes and
/// the canonicalized positions.
pub struct VerifiedSignature {
    pub is_unsafe: bool,
    pub abi: Option<String>,
    pub ident: String,
    pub inputs: Vec<MaybeSelf>,
    pub output: Option<MaybeSelf>,
}

/// The mathematical twin of [`VerifiedSignature`].
pub struct VerifiedSignatureV {
    pub is_unsafe: bool,
    pub abi: Option<Seq<char>>,
    pub ident: Seq<char>,
    pub inputs: Seq<MaybeSelfV>,
    pub output: Option<MaybeSelfV>,
}

/// Projects an accepted signature onto its twin.
pub open spec fn vsig_dv(v: VerifiedSignature) -> VerifiedSignatureV {
    VerifiedSignatureV {
        is_unsafe: v.is_unsafe,
        abi: opt_str_dv(v.abi),
        ident: v.ident@,
        inputs: inputs_dv(v.inputs@),
        output: match v.output {
            Some(m) => Some(maybe_self_dv(m)),
            None => None,
        },
    }
}

/// Projects a list of canonicalized positions.
pub open spec fn inputs_dv(ms: Seq<MaybeSelf>) -> Seq<MaybeSelfV>
    decreases ms,
{
    if ms.len() == 0 {
        Seq::empty()
    } else {
        inputs_dv(ms.drop_last()).push(maybe_self_dv(ms.last()))
    }
}

/// The projection of a position list projects element-wise.
pub proof fn lemma_inputs_dv(ms: Seq<MaybeSelf>)
    ensures
        inputs_dv(ms).len() == ms.len(),
        forall|i: int| 0 <= i < ms.len() ==> inputs_dv(ms)[i] == maybe_self_dv(ms[i]),
    decreases ms,
{
    if ms.len() > 0 {
        lemma_inputs_dv(ms.drop_last());
    }
}

/// Classifies one position: a concrete type if no self-placeholder occurs in
/// it, the tagged shape if the whole position is a recognized placeholder
/// shape, and nothing otherwise.
pub open spec fn classify(t: TypeV) -> Option<MaybeSelfV> {
    if !contains_self(t) {
        Some(MaybeSelfV::Typed(t))
    } else {
        match self_kind_of(t) {
            Some(k) => Some(MaybeSelfV::Self_(k)),
            None => None,
        }
    }
}

/// Classifies the parameters in order; the first unrecognized position wins.
pub open spec fn classify_inputs(ts: Seq<TypeV>) -> Result<Seq<MaybeSelfV>, int>
    decreases ts,
{
    if ts.len() == 0 {
        Ok(Seq::empty())
    } else {
        match classify(ts[0]) {
            None => Err(0),
            Some(m) => match classify_inputs(ts.drop_first()) {
                Ok(rest) => Ok(seq![m] + rest),
                Err(i) => Err(i + 1),
            },
        }
    }
}

/// When every parameter classifies, the classification is the element-wise
/// one.
pub proof fn lemma_classify_inputs_ok(ts: Seq<TypeV>, ms: Seq<MaybeSelfV>)
    requires
        ms.len() == ts.len(),
        forall|i: int| 0 <= i < ts.len() ==> classify(ts[i]) == Some(ms[i]),
    ensures
        classify_inputs(ts) == Ok::<Seq<MaybeSelfV>, int>(ms),
    decreases ts,
{
    if ts.len() > 0 {
        assert forall|i: int| 0 <= i < ts.drop_first().len() implies classify(ts.drop_first()[i])
            == Some(ms.drop_first()[i]) by {
            assert(ts.drop_first()[i] == ts[i + 1]);
            assert(ms.drop_first()[i] == ms[i + 1]);
        }
        lemma_classify_inputs_ok(ts.drop_first(), ms.drop_first());
        assert(seq![ms[0]] + ms.drop_first() =~= ms);
    } else {
        assert(ms =~= Seq::<MaybeSelfV>::empty());
    }
}

/// The first unrecognized parameter determines the rejection.
pub proof fn lemma_classify_inputs_err(ts: Seq<TypeV>, i: int)
    requires
        0 <= i < ts.len(),
        classify(ts[i]) is None,
        forall|j: int| 0 <= j < i ==> classify(ts[j]) is Some,
    ensures
        classify_inputs(ts) == Err::<Seq<MaybeSelfV>, int>(i),
    decreases ts,
{
    if i == 0 {
    } else {
        assert forall|j: int| 0 <= j < i - 1 implies classify(ts.drop_first()[j]) is Some by {
            assert(ts.drop_first()[j] == ts[j + 1]);
        }
        assert(ts.drop_first()[i - 1] == ts[i]);
        lemma_classify_inputs_err(ts.drop_first(), i - 1);
    }
}

/// The whole normalization: the validation rules in priority order, then
/// the canonicalized positions.
pub open spec fn verify_sig(s: SignatureV) -> Result<VerifiedSignatureV, SigError> {
    if s.is_const {
        Err(SigError::ConstFn)
    } else if s.is_async {
        Err(SigError::AsyncFn)
    } else if s.generics_n > 0 {
        Err(SigError::GenericFn)
    } else if s.has_where_clause {
        Err(SigError::WhereClauseFn)
    } else if s.is_variadic {
        Err(SigError::VariadicFn)
    } else {
        match classify_inputs(s.inputs) {
            Err(i) => Err(SigError::TooComplexSelfArg(i as usize)),
            Ok(ins) => match s.output {
                None => Ok(
                    VerifiedSignatureV {
                        is_unsafe: s.is_unsafe,
                        abi: s.abi,
                        ident: s.ident,
                        inputs: ins,
                        output: None,
                    },
                ),
                Some(t) => match classify(t) {
                    None => Err(SigError::TooComplexSelfReturn),
                    Some(m) => Ok(
                        VerifiedSignatureV {
                            is_unsafe: s.is_unsafe,
                            abi: s.abi,
                            ident: s.ident,
                            inputs: ins,
                            output: Some(m),
                        },
                    ),
                },
            },
        }
    }
}

/// A parameter name in generated bridge code: the receiver keyword or a
/// positional placeholder, because only the first parameter may carry the
/// receiver's calling convention.
#[derive(Clone, Copy, PartialEq, Eq, Structural, Debug)]
pub enum ArgName {
    SelfName,
    Positional(usize),
}

/// The consumer-stub parameter names: the receiver keyword in the first
/// position where it is a self-placeholder, positional names elsewhere.
pub open spec fn arg_names_v(ms: Seq<MaybeSelfV>) -> Seq<ArgName> {
    Seq::new(
        ms.len(),
        |i: int|
            if i == 0 && ms[0] is Self_ {
                ArgName::SelfName
            } else {
                ArgName::Positional(i as usize)
            },
    )
}

/// The producer-definition parameter names: all positional.
pub open spec fn arg_names_no_self_v(ms: Seq<MaybeSelfV>) -> Seq<ArgName> {
    Seq::new(ms.len(), |i: int| ArgName::Positional(i as usize))
}

/// The parameter types with a substituted self type.
pub open spec fn arg_types_v(ms: Seq<MaybeSelfV>, st: TypeV) -> Seq<TypeV> {
    Seq::new(ms.len(), |i: int| maybe_self_apply(ms[i], st))
}

/// The return type with a substituted self type.
pub open spec fn ret_type_v(out: Option<MaybeSelfV>, st: TypeV) -> Option<TypeV> {
    match out {
        Some(m) => Some(maybe_self_apply(m, st)),
        None => None,
    }
}

/// Classifies one position, as executable code.
fn classify_x(t: &Type) -> (r: Option<MaybeSelf>)
    ensures
        match r {
            Some(m) => classify(type_dv(*t)) == Some(maybe_self_dv(m)),
            None => classify(type_dv(*t)) is None,
        },
{
    if t.contains_self() {
        match t.self_kind() {
            Some(k) => Some(MaybeSelf::Self_(k)),
            None => None,
        }
    } else {
        Some(MaybeSelf::Typed(copy_type(t)))
    }
}

impl MaybeSelf {
    /// Substitutes a concrete type for the position.
    pub fn to_type(&self, elem: &Type) -> (r: Type)
        ensures
            type_dv(r) == maybe_self_apply(maybe_self_dv(*self), type_dv(*elem)),
    {
        match self {
            MaybeSelf::Self_(kind) => kind.into_type_for(copy_type(elem)),
            MaybeSelf::Typed(ty) => copy_type(ty),
        }
    }

    /// Whether the position is the self-placeholder by value.
    pub fn is_self_value(&self) -> (r: bool)
        ensures
            r == (maybe_self_dv(*self) matches MaybeSelfV::Self_(SelfKindV::Value)),
    {
        match self {
            MaybeSelf::Self_(SelfKind::Value) => true,
            _ => false,
        }
    }
}

impl VerifiedSignature {
    /// Validates and canonicalizes a raw signature, or reports the first
    /// unsupported form.
    pub fn try_new(sig: &Signature) -> (r: Result<VerifiedSignature, SigError>)
        ensures
            match r {
                Ok(v) => verify_sig(sig_dv(*sig)) == Ok::<VerifiedSignatureV, SigError>(
                    vsig_dv(v),
                ),
                Err(e) => verify_sig(sig_dv(*sig)) == Err::<VerifiedSignatureV, SigError>(e),
            },
    {
        if sig.is_const {
            return Err(SigError::ConstFn);
        }
        if sig.is_async {
            return Err(SigError::AsyncFn);
        }
        if sig.generics_n > 0 {
            return Err(SigError::GenericFn);
        }
        if sig.has_where_clause {
            return Err(SigError::WhereClauseFn);
        }
        if sig.is_variadic {
            return Err(SigError::VariadicFn);
        }
        proof {
            lemma_seq_ty_dv(sig.inputs@);
        }
        let mut inputs: Vec<MaybeSelf> = Vec::new();
        let mut i: usize = 0;
        while i < sig.inputs.len()
            invariant
                !sig.is_const,
                !sig.is_async,
                sig.generics_n == 0,
                !sig.has_where_clause,
                !sig.is_variadic,
                i <= sig.inputs@.len(),
                inputs@.len() == i,
                inputs_dv(inputs@).len() == i,
                seq_ty_dv(sig.inputs@).len() == sig.inputs@.len(),
                forall|j: int|
                    0 <= j < sig.inputs@.len() ==> seq_ty_dv(sig.inputs@)[j] == type_dv(
                        sig.inputs@[j],
                    ),
                forall|j: int|
                    0 <= j < i ==> classify(seq_ty_dv(sig.inputs@)[j]) == Some(
                        inputs_dv(inputs@)[j],
                    ),
                forall|j: int|
                    0 <= j < i ==> inputs_dv(inputs@)[j] == maybe_self_dv(inputs@[j]),
            decreases sig.inputs@.len() - i,
        {
            match classify_x(&sig.inputs[i]) {
                Some(m) => {
                    let ghost prev = inputs@;
                    let ghost mv = maybe_self_dv(m);
                    inputs.push(m);
                    proof {
                        lemma_inputs_dv(prev);
                        lemma_inputs_dv(inputs@);
                        assert(inputs@ =~= prev.push(m));
                        assert forall|j: int| 0 <= j <= i implies classify(
                            seq_ty_dv(sig.inputs@)[j],
                        ) == Some(inputs_dv(inputs@)[j]) by {
                            assert(inputs_dv(inputs@)[j] == maybe_self_dv(inputs@[j]));
                            if j < i {
                                assert(inputs@[j] == prev[j]);
                                assert(inputs_dv(prev)[j] == maybe_self_dv(prev[j]));
                            } else {
                                assert(inputs@[j] == m);
                            }
                        }
                    }
                },
                None => {
                    proof {
                        let ts = seq_ty_dv(sig.inputs@);
                        assert(ts[i as int] == type_dv(sig.inputs@[i as int]));
                        assert(classify(ts[i as int]) is None);
                        assert forall|j: int| 0 <= j < i implies classify(ts[j]) is Some by {
                            assert(classify(ts[j]) == Some(inputs_dv(inputs@)[j]));
                        }
                        lemma_classify_inputs_err(ts, i as int);
                        assert(classify_inputs(ts) == Err::<Seq<MaybeSelfV>, int>(i as int));
                    }
                    return Err(SigError::TooComplexSelfArg(i));
                },
            }
            i = i + 1;
        }
        proof {
            lemma_inputs_dv(inputs@);
            lemma_classify_inputs_ok(seq_ty_dv(sig.inputs@), inputs_dv(inputs@));
        }
        let output: Option<MaybeSelf> = match &sig.output {
            None => None,
            Some(t) => match classify_x(t) {
                Some(m) => Some(m),
                None => {
                    return Err(SigError::TooComplexSelfReturn);
                },
            },
        };
        Ok(
            VerifiedSignature {
                is_unsafe: sig.is_unsafe,
                abi: copy_opt_string(&sig.abi),
                ident: sig.ident.clone(),
                inputs,
                output,
            },
        )
    }

    /// The parameter names of a bridged method: only the first position may
    /// carry the receiver name, every other position is numbered.
    pub fn arg_names(&self) -> (r: Vec<ArgName>)
        ensures
            r@ == arg_names_v(vsig_dv(*self).inputs),
    {
        proof {
            lemma_inputs_dv(self.inputs@);
        }
        let mut out: Vec<ArgName> = Vec::new();
        let mut i: usize = 0;
        while i < self.inputs.len()
            invariant
                i <= self.inputs@.len(),
                out@.len() == i,
                inputs_dv(self.inputs@).len() == self.inputs@.len(),
                forall|j: int|
                    0 <= j < self.inputs@.len() ==> inputs_dv(self.inputs@)[j] == maybe_self_dv(
                        self.inputs@[j],
                    ),
                forall|j: int| 0 <= j < i ==> out@[j] == arg_names_v(inputs_dv(self.inputs@))[j],
            decreases self.inputs@.len() - i,
        {
            let name = match &self.inputs[i] {
                MaybeSelf::Self_(_) => {
                    if i == 0 {
                        ArgName::SelfName
                    } else {
                        ArgName::Positional(i)
                    }
                },
                MaybeSelf::Typed(_) => ArgName::Positional(i),
            };
            out.push(name);
            i = i + 1;
        }
        proof {
            assert(out@ =~= arg_names_v(vsig_dv(*self).inputs));
        }
        out
    }

    /// The purely positional parameter names of a producer definition.
    pub fn arg_names_no_self(&self) -> (r: Vec<ArgName>)
        ensures
            r@ == arg_names_no_self_v(vsig_dv(*self).inputs),
    {
        proof {
            lemma_inputs_dv(self.inputs@);
        }
        let mut out: Vec<ArgName> = Vec::new();
        let mut i: usize = 0;
        while i < self.inputs.len()
            invariant
                i <= self.inputs@.len(),
                out@.len() == i,
                inputs_dv(self.inputs@).len() == self.inputs@.len(),
                forall|j: int| 0 <= j < i ==> out@[j] == ArgName::Positional(j as usize),
            decreases self.inputs@.len() - i,
        {
            out.push(ArgName::Positional(i));
            i = i + 1;
        }
        proof {
            assert(out@ =~= arg_names_no_self_v(vsig_dv(*self).inputs));
        }
        out
    }

    /// The parameter types of a bridged method, with the given type
    /// substituted for every self-placeholder.
    pub fn arg_types(&self, self_type: &Type) -> (r: Vec<Type>)
        ensures
            seq_ty_dv(r@) == arg_types_v(vsig_dv(*self).inputs, type_dv(*self_type)),
    {
        proof {
            lemma_inputs_dv(self.inputs@);
        }
        let mut out: Vec<Type> = Vec::new();
        let mut i: usize = 0;
        while i < self.inputs.len()
            invariant
                i <= self.inputs@.len(),
                out@.len() == i,
                inputs_dv(self.inputs@).len() == self.inputs@.len(),
                forall|j: int|
                    0 <= j < self.inputs@.len() ==> inputs_dv(self.inputs@)[j] == maybe_self_dv(
                        self.inputs@[j],
                    ),
                forall|j: int|
                    0 <= j < i ==> type_dv(out@[j]) == maybe_self_apply(
                        inputs_dv(self.inputs@)[j],
                        type_dv(*self_type),
                    ),
            decreases self.inputs@.len() - i,
        {
            out.push(self.inputs[i].to_type(self_type));
            i = i + 1;
        }
        proof {
            lemma_seq_ty_dv(out@);
            assert(seq_ty_dv(out@) =~= arg_types_v(vsig_dv(*self).inputs, type_dv(*self_type)));
        }
        out
    }

    /// The return type of a bridged method, with the given type substituted
    /// for a self-placeholder result.
    pub fn return_type(&self, self_type: &Type) -> (r: Option<Type>)
        ensures
            (match r {
                Some(t) => Some(type_dv(t)),
                None => None::<TypeV>,
            }) == ret_type_v(vsig_dv(*self).output, type_dv(*self_type)),
    {
        match &self.output {
            None => None,
            Some(m) => Some(m.to_type(self_type)),
        }
    }

    /// Whether the method returns the self-placeholder by value, so the
    /// producer must repack the result into the erased representation.
    pub fn is_return_self_value(&self) -> (r: bool)
        ensures
            r == (vsig_dv(*self).output matches Some(
                MaybeSelfV::Self_(SelfKindV::Value),
            )),
    {
        match &self.output {
            Some(m) => m.is_self_value(),
            None => false,
        }
    }
}

} // verus!
