//! Compile-time bridge generation for abstract interfaces whose single
//! concrete implementation lives in an independently compiled module.
//!
//! The pipeline turns an interface declaration into a pair of artifacts: a
//! consumer-side proxy whose methods forward through deterministically derived
//! link symbols, and producer-side definitions exported under the identical
//! symbols.  The modules mirror the stages of that pipeline:
//!
//! * [`sym`] derives the deterministic, collision-free boundary symbols;
//! * [`ty`] models the type shapes the generator inspects;
//! * [`sig`] normalizes and validates method signatures;
//! * [`repr`] defines the erased two-word value representation;
//! * [`bridge`] is the runtime protocol: packing, unpacking, identity checks;
//! * [`caps`] relays the fixed catalog of auxiliary capabilities;
//! * [`decl`] assembles the whole interface-side expansion;
//! * [`imp`] produces the implementation-side binding and its size assertion.

pub mod bridge;
pub mod caps;
pub mod decl;
pub mod imp;
pub mod repr;
pub mod sig;
pub mod sym;
pub mod ty;

pub use sym::hash;
pub use sym::Symbol;
pub use repr::IntRegRepr;
pub use repr::Repr;
