//! The erased value representation.
//!
//! A concrete implementation value crosses the boundary inside a fixed
//! two-word value: the proxy's whole byte-layout contract.  A type is
//! eligible only if it can be packed into the two words and unpacked again
//! without loss; here that obligation is a proof every implementation of
//! [`IntRegRepr`] must discharge, rather than an unchecked promise.

use vstd::prelude::*;

verus! {

/// The number of bytes one register word carries.
pub const WORD_BYTES: usize = 8;

/// The fixed two-word erased representation every proxy value is stored in.
#[derive(Clone, Copy, PartialEq, Eq, Structural, Debug)]
pub struct Repr {
    pub lo: u64,
    pub hi: u64,
}

/// The identity function under which the calling convention of a packed
/// value is recovered on the producer side.
pub fn reflect<T>(this: T) -> (r: T)
    ensures
        r == this,
{
    this
}

/// A type with an integer-register-compatible representation: it packs into
/// the two words of [`Repr`] and unpacks again to the identical value.
///
/// `token` is the type-identity token stored beside a packed value; every
/// implementation picks a token, and a downcast is answered by comparing
/// tokens.  `lemma_round_trip` is the proof obligation that packing loses
/// nothing.
pub trait IntRegRepr: Sized {
    /// The packed form of a value.
    spec fn repr_spec(self) -> Repr;

    /// The value read back from a packed form.
    spec fn val_spec(r: Repr) -> Self;

    /// The type-identity token of this implementation type.
    spec fn token() -> u64;

    /// Packing then unpacking returns the original value.
    proof fn lemma_round_trip(self)
        ensures
            Self::val_spec(self.repr_spec()) == self,
    ;

    /// Packs the value into the erased representation.
    fn into_repr(self) -> (r: Repr)
        ensures
            r == self.repr_spec(),
    ;

    /// Unpacks a value from the erased representation.
    fn from_repr(r: Repr) -> (v: Self)
        ensures
            v == Self::val_spec(r),
    ;

    /// The type-identity token, as a runtime value.
    fn type_token() -> (t: u64)
        ensures
            t == Self::token(),
    ;
}

impl IntRegRepr for () {
    open spec fn repr_spec(self) -> Repr {
        Repr { lo: 0, hi: 0 }
    }

    open spec fn val_spec(r: Repr) -> () {
        ()
    }

    open spec fn token() -> u64 {
        1
    }

    proof fn lemma_round_trip(self) {
    }

    fn into_repr(self) -> Repr {
        Repr { lo: 0, hi: 0 }
    }

    fn from_repr(r: Repr) -> () {
        ()
    }

    fn type_token() -> u64 {
        1
    }
}

impl IntRegRepr for bool {
    open spec fn repr_spec(self) -> Repr {
        Repr { lo: if self { 1 } else { 0 }, hi: 0 }
    }

    open spec fn val_spec(r: Repr) -> bool {
        r.lo != 0
    }

    open spec fn token() -> u64 {
        2
    }

    proof fn lemma_round_trip(self) {
    }

    fn into_repr(self) -> Repr {
        Repr { lo: if self { 1 } else { 0 }, hi: 0 }
    }

    fn from_repr(r: Repr) -> bool {
        r.lo != 0
    }

    fn type_token() -> u64 {
        2
    }
}

impl IntRegRepr for u64 {
    open spec fn repr_spec(self) -> Repr {
        Repr { lo: self, hi: 0 }
    }

    open spec fn val_spec(r: Repr) -> u64 {
        r.lo
    }

    open spec fn token() -> u64 {
        3
    }

    proof fn lemma_round_trip(self) {
    }

    fn into_repr(self) -> Repr {
        Repr { lo: self, hi: 0 }
    }

    fn from_repr(r: Repr) -> u64 {
        r.lo
    }

    fn type_token() -> u64 {
        3
    }
}

impl IntRegRepr for u32 {
    open spec fn repr_spec(self) -> Repr {
        Repr { lo: self as u64, hi: 0 }
    }

    open spec fn val_spec(r: Repr) -> u32 {
        r.lo as u32
    }

    open spec fn token() -> u64 {
        4
    }

    proof fn lemma_round_trip(self) {
    }

    fn into_repr(self) -> Repr {
        Repr { lo: self as u64, hi: 0 }
    }

    fn from_repr(r: Repr) -> u32 {
        #[verifier::truncate] (r.lo as u32)
    }

    fn type_token() -> u64 {
        4
    }
}

impl IntRegRepr for usize {
    open spec fn repr_spec(self) -> Repr {
        Repr { lo: self as u64, hi: 0 }
    }

    open spec fn val_spec(r: Repr) -> usize {
        r.lo as usize
    }

    open spec fn token() -> u64 {
        5
    }

    proof fn lemma_round_trip(self) {
    }

    fn into_repr(self) -> Repr {
        Repr { lo: self as u64, hi: 0 }
    }

    fn from_repr(r: Repr) -> usize {
        #[verifier::truncate] (r.lo as usize)
    }

    fn type_token() -> u64 {
        5
    }
}

impl IntRegRepr for i32 {
    open spec fn repr_spec(self) -> Repr {
        Repr { lo: self as u64, hi: 0 }
    }

    open spec fn val_spec(r: Repr) -> i32 {
        r.lo as i32
    }

    open spec fn token() -> u64 {
        6
    }

    proof fn lemma_round_trip(self) {
        assert(((self as u64) as i32) == self) by (bit_vector);
    }

    fn into_repr(self) -> Repr {
        Repr { lo: self as u64, hi: 0 }
    }

    fn from_repr(r: Repr) -> i32 {
        #[verifier::truncate] (r.lo as i32)
    }

    fn type_token() -> u64 {
        6
    }
}

impl IntRegRepr for i64 {
    open spec fn repr_spec(self) -> Repr {
        Repr { lo: self as u64, hi: 0 }
    }

    open spec fn val_spec(r: Repr) -> i64 {
        r.lo as i64
    }

    open spec fn token() -> u64 {
        7
    }

    proof fn lemma_round_trip(self) {
        assert(((self as u64) as i64) == self) by (bit_vector);
    }

    fn into_repr(self) -> Repr {
        Repr { lo: self as u64, hi: 0 }
    }

    fn from_repr(r: Repr) -> i64 {
        #[verifier::truncate] (r.lo as i64)
    }

    fn type_token() -> u64 {
        7
    }
}

impl IntRegRepr for (u64, u64) {
    open spec fn repr_spec(self) -> Repr {
        Repr { lo: self.0, hi: self.1 }
    }

    open spec fn val_spec(r: Repr) -> (u64, u64) {
        (r.lo, r.hi)
    }

    open spec fn token() -> u64 {
        8
    }

    proof fn lemma_round_trip(self) {
    }

    fn into_repr(self) -> Repr {
        Repr { lo: self.0, hi: self.1 }
    }

    fn from_repr(r: Repr) -> (u64, u64) {
        (r.lo, r.hi)
    }

    fn type_token() -> u64 {
        8
    }
}

impl IntRegRepr for (usize, usize) {
    open spec fn repr_spec(self) -> Repr {
        Repr { lo: self.0 as u64, hi: self.1 as u64 }
    }

    open spec fn val_spec(r: Repr) -> (usize, usize) {
        (r.lo as usize, r.hi as usize)
    }

    open spec fn token() -> u64 {
        9
    }

    proof fn lemma_round_trip(self) {
    }

    fn into_repr(self) -> Repr {
        Repr { lo: self.0 as u64, hi: self.1 as u64 }
    }

    fn from_repr(r: Repr) -> (usize, usize) {
        (#[verifier::truncate] (r.lo as usize), #[verifier::truncate] (r.hi as usize))
    }

    fn type_token() -> u64 {
        9
    }
}

impl IntRegRepr for (u32, u32, u32, u32) {
    open spec fn repr_spec(self) -> Repr {
        Repr {
            lo: (self.0 as u64) | ((self.1 as u64) << 32),
            hi: (self.2 as u64) | ((self.3 as u64) << 32),
        }
    }

    open spec fn val_spec(r: Repr) -> (u32, u32, u32, u32) {
        (r.lo as u32, (r.lo >> 32) as u32, r.hi as u32, (r.hi >> 32) as u32)
    }

    open spec fn token() -> u64 {
        10
    }

    proof fn lemma_round_trip(self) {
        let a = self.0;
        let b = self.1;
        assert((((a as u64) | ((b as u64) << 32)) as u32) == a) by (bit_vector);
        assert(((((a as u64) | ((b as u64) << 32)) >> 32) as u32) == b) by (bit_vector);
        let c = self.2;
        let d = self.3;
        assert((((c as u64) | ((d as u64) << 32)) as u32) == c) by (bit_vector);
        assert(((((c as u64) | ((d as u64) << 32)) >> 32) as u32) == d) by (bit_vector);
    }

    fn into_repr(self) -> Repr {
        Repr {
            lo: (self.0 as u64) | ((self.1 as u64) << 32),
            hi: (self.2 as u64) | ((self.3 as u64) << 32),
        }
    }

    fn from_repr(r: Repr) -> (u32, u32, u32, u32) {
        (
            #[verifier::truncate] (r.lo as u32),
            #[verifier::truncate] ((r.lo >> 32) as u32),
            #[verifier::truncate] (r.hi as u32),
            #[verifier::truncate] ((r.hi >> 32) as u32),
        )
    }

    fn type_token() -> u64 {
        10
    }
}

} // verus!
