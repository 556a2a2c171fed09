//! Marshaling between host values and a flat foreign address space.
//!
//! The foreign side sees only addresses, integers and `{address, length}`
//! descriptors. Each marshaler pairs one host value shape with one foreign
//! representation, and its contracts state which side owns the value after a
//! conversion and how reference counts move.
use vstd::prelude::*;

mod arc;
mod boxed;
mod call;
mod error;
mod scalar;
mod space;
mod string;
mod vec;

pub use arc::{lemma_shared_reads_then_reclaim, lemma_shared_round_trip, ArcMarshaler, ArcRefMarshaler};
pub use call::{deliver, reaches_limit, Outcome};
pub use boxed::{BoxMarshaler, BoxRefMarshaler};
pub use error::{is_absent, null_ptr_error, MarshalError};
pub use scalar::{lemma_bool_mapping, BoolMarshaler, CopyMarshaler, UnitMarshaler};
pub use space::{released, shared_count, slot_at, Allocation, AddressSpace, SharedHandle};
pub use string::{
    decoded, ends_text_at, lemma_text_end, lemma_text_round_trip, nul_free, terminated, text_of, utf8_lossy,
    StringMarshaler,
};
pub use vec::{lemma_buffer_release, Slice, VecMarshaler, VecRefMarshaler};

verus! {

/// A marshaler that can produce a foreign value for a failed call.
pub trait ReturnType {
    type Foreign;

    spec fn spec_foreign_default() -> Self::Foreign;

    fn foreign_default() -> (r: Self::Foreign)
        ensures
            r == Self::spec_foreign_default(),
    ;
}

/// A marshaler that accepts a foreign value as a call argument.
pub trait InputType {
    type Foreign;
}

/// Conversion of a host value to its foreign representation.
pub trait ToForeign<Local, Foreign>: Sized {
    type Error;

    spec fn outbound(local: Local) -> Result<Foreign, Self::Error>;

    fn to_foreign(local: Local) -> (r: Result<Foreign, Self::Error>)
        ensures
            r == Self::outbound(local),
    ;
}

/// Conversion of a foreign value back to a host value.
pub trait FromForeign<Foreign, Local>: Sized {
    type Error;

    spec fn inbound(foreign: Foreign) -> Result<Local, Self::Error>;

    fn from_foreign(foreign: Foreign) -> (r: Result<Local, Self::Error>)
        ensures
            r == Self::inbound(foreign),
    ;
}

} // verus!
