//! The runtime protocol of a bridged value.
//!
//! On the consumer side a concrete implementation value exists only as an
//! erased proxy: its packed two-word representation plus the type-identity
//! token of the one implementation type bound to the interface.  Every
//! conversion back to a concrete type is gated on that token; with the bound
//! type the operations below never fail, with any other type they refuse —
//! never silently producing a value of the wrong type.

use vstd::prelude::*;

use crate::repr::{IntRegRepr, Repr};

verus! {

/// What an erased proxy value is: its identity token and its packed payload.
pub struct ProxyValueV {
    pub token: u64,
    pub repr: Repr,
}

/// The erased, boundary-safe stand-in for a concrete implementation value.
pub struct ProxyValue {
    token: u64,
    repr: Repr,
}

impl View for ProxyValue {
    type V = ProxyValueV;

    closed spec fn view(&self) -> ProxyValueV {
        ProxyValueV { token: self.token, repr: self.repr }
    }
}

impl ProxyValue {
    /// Whether the proxy's token is the one of the implementation type `T`:
    /// the single safety gate in front of every conversion.
    pub fn is_impl<T: IntRegRepr>(&self) -> (r: bool)
        ensures
            r == (self@.token == T::token()),
    {
        self.token == T::type_token()
    }

    /// Erases a concrete implementation value into a proxy.
    pub fn from_impl<T: IntRegRepr>(value: T) -> (p: ProxyValue)
        ensures
            p@.token == T::token(),
            p@.repr == value.repr_spec(),
    {
        ProxyValue { token: T::type_token(), repr: value.into_repr() }
    }

    /// Converts the proxy back into the implementation value it was packed
    /// from, consuming the proxy.
    pub fn into_impl<T: IntRegRepr>(self) -> (v: T)
        requires
            self@.token == T::token(),
        ensures
            v == T::val_spec(self@.repr),
    {
        T::from_repr(self.repr)
    }

    /// Reads the implementation value out of the buffered representation.
    /// The caller must hold the bound type; the value is unpacked by copy.
    pub fn downcast_ref<T: IntRegRepr>(&self) -> (v: T)
        requires
            self@.token == T::token(),
        ensures
            v == T::val_spec(self@.repr),
    {
        T::from_repr(self.repr)
    }

    /// Writes an implementation value into the buffered representation.
    /// The caller must hold the bound type; later reads see this value.
    pub fn downcast_mut<T: IntRegRepr>(&mut self, value: T)
        requires
            old(self)@.token == T::token(),
        ensures
            final(self)@.token == old(self)@.token,
            final(self)@.repr == value.repr_spec(),
    {
        self.repr = value.into_repr();
    }

    /// Reads the implementation value out, or refuses when the supplied
    /// type is not the bound one.
    pub fn try_downcast_ref<T: IntRegRepr>(&self) -> (r: Option<T>)
        ensures
            r is Some <==> self@.token == T::token(),
            r matches Some(v) ==> v == T::val_spec(self@.repr),
    {
        if self.is_impl::<T>() {
            Some(T::from_repr(self.repr))
        } else {
            None
        }
    }

    /// Converts the proxy back, or returns it unchanged when the supplied
    /// type is not the bound one.
    pub fn try_into_impl<T: IntRegRepr>(self) -> (r: Result<T, ProxyValue>)
        ensures
            r is Ok <==> self@.token == T::token(),
            r matches Ok(v) ==> v == T::val_spec(self@.repr),
            r matches Err(p) ==> p@ == self@,
    {
        if self.is_impl::<T>() {
            Ok(T::from_repr(self.repr))
        } else {
            Err(self)
        }
    }
}

/// Round-trip law: erasing an implementation value and converting it back
/// with the same type yields a value identical to the original.
pub proof fn lemma_round_trip<T: IntRegRepr>(value: T)
    ensures
        T::val_spec(value.repr_spec()) == value,
{
    value.lemma_round_trip();
}

/// Aliasing-consistency law: a value written through `downcast_mut` is the
/// value every later `downcast_ref` with the same type reads, as long as the
/// payload is not overwritten in between.
pub proof fn lemma_downcast_consistency<T: IntRegRepr>(before: ProxyValueV, after: ProxyValueV, value: T)
    requires
        before.token == T::token(),
        after.token == before.token,
        after.repr == value.repr_spec(),
    ensures
        T::val_spec(after.repr) == value,
{
    value.lemma_round_trip();
}

} // verus!
