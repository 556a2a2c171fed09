use vstd::prelude::*;

use crate::arc::ArcRefMarshaler;
use crate::error::MarshalError;
use crate::scalar::BoolMarshaler;
use crate::space::AddressSpace;
use crate::{ReturnType, ToForeign};

verus! {

/// What a boundary call hands back: the foreign return value and, when a
/// conversion failed, the message for the caller's error callback.
pub struct Outcome<R> {
    pub value: R,
    pub error: Option<String>,
}

/// Ends a boundary call: a success returns its value; a failure returns the
/// declared fallback and the error's message, for the callback if there is one.
pub fn deliver<R>(result: Result<R, MarshalError>, fallback: R) -> (o: Outcome<R>)
    ensures
        result is Ok ==> o.value == result->Ok_0 && o.error is None,
        result is Err ==> o.value == fallback && (o.error matches Some(m) && m@ == result->Err_0.spec_message()),
{
    match result {
        Ok(value) => Outcome { value, error: None },
        Err(e) => Outcome { value: fallback, error: Some(e.message()) },
    }
}

/// A boundary function: takes a shared `u64` by reference and a limit, and
/// answers as a foreign boolean whether the value reaches the limit. An
/// absent address fails with "null pointer" and answers `0`.
pub fn reaches_limit(space: &AddressSpace<u64>, shared: usize, limit: u64) -> (o: Outcome<u8>)
    requires
        shared == 0 || space.is_shared(shared),
    ensures
        shared == 0 ==> o.value == 0 && (o.error matches Some(m) && m@ == "null pointer"@),
        shared != 0 ==> o.error is None && o.value == (if space.value_of(shared) >= limit { 1u8 } else { 0u8 }),
{
    let result: Result<u8, MarshalError> = match ArcRefMarshaler::from_foreign(space, shared) {
        Ok(v) => <BoolMarshaler as ToForeign<bool, u8>>::to_foreign(*v >= limit),
        Err(e) => Err(e),
    };
    deliver(result, <BoolMarshaler as ReturnType>::foreign_default())
}

} // verus!
