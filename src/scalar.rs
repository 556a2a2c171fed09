use std::marker::PhantomData;
use vstd::prelude::*;

use crate::error::MarshalError;
use crate::{FromForeign, InputType, ReturnType, ToForeign};

verus! {

/// Passes a boolean as one byte: `1` for true, `0` for false; any non-zero
/// byte reads back as true.
pub struct BoolMarshaler;

/// Passes a plain copyable value through unchanged.
pub struct CopyMarshaler<T>(PhantomData<T>);

/// Passes the unit value, which has nothing to carry.
pub struct UnitMarshaler;

impl InputType for BoolMarshaler {
    type Foreign = u8;
}

impl ReturnType for BoolMarshaler {
    type Foreign = u8;

    open spec fn spec_foreign_default() -> u8 {
        0
    }

    fn foreign_default() -> (r: u8) {
        0
    }
}

impl ToForeign<bool, u8> for BoolMarshaler {
    type Error = MarshalError;

    open spec fn outbound(local: bool) -> Result<u8, MarshalError> {
        Ok(if local { 1u8 } else { 0u8 })
    }

    fn to_foreign(local: bool) -> (r: Result<u8, MarshalError>) {
        Ok(if local { 1 } else { 0 })
    }
}

impl FromForeign<u8, bool> for BoolMarshaler {
    type Error = MarshalError;

    open spec fn inbound(foreign: u8) -> Result<bool, MarshalError> {
        Ok(foreign != 0)
    }

    fn from_foreign(foreign: u8) -> (r: Result<bool, MarshalError>) {
        Ok(foreign != 0)
    }
}

impl<T: Copy> InputType for CopyMarshaler<T> {
    type Foreign = T;
}

impl<T: Copy> ToForeign<T, T> for CopyMarshaler<T> {
    type Error = MarshalError;

    open spec fn outbound(local: T) -> Result<T, MarshalError> {
        Ok(local)
    }

    fn to_foreign(local: T) -> (r: Result<T, MarshalError>) {
        Ok(local)
    }
}

impl<T: Copy> FromForeign<T, T> for CopyMarshaler<T> {
    type Error = MarshalError;

    open spec fn inbound(foreign: T) -> Result<T, MarshalError> {
        Ok(foreign)
    }

    fn from_foreign(foreign: T) -> (r: Result<T, MarshalError>) {
        Ok(foreign)
    }
}

impl InputType for UnitMarshaler {
    type Foreign = ();
}

impl ReturnType for UnitMarshaler {
    type Foreign = ();

    open spec fn spec_foreign_default() -> () {
        ()
    }

    fn foreign_default() -> (r: ()) {
    }
}

impl ToForeign<(), ()> for UnitMarshaler {
    type Error = MarshalError;

    open spec fn outbound(local: ()) -> Result<(), MarshalError> {
        Ok(())
    }

    fn to_foreign(local: ()) -> (r: Result<(), MarshalError>) {
        Ok(())
    }
}

impl FromForeign<(), ()> for UnitMarshaler {
    type Error = MarshalError;

    open spec fn inbound(foreign: ()) -> Result<(), MarshalError> {
        Ok(())
    }

    fn from_foreign(foreign: ()) -> (r: Result<(), MarshalError>) {
        Ok(())
    }
}

/// The boolean mapping: true goes out as `1` and false as `0`; `0` comes in
/// as false and every other byte as true; and a boolean survives a round trip.
pub proof fn lemma_bool_mapping(b: bool, n: u8)
    ensures
        <BoolMarshaler as ToForeign<bool, u8>>::outbound(true) == Ok::<u8, MarshalError>(1),
        <BoolMarshaler as ToForeign<bool, u8>>::outbound(false) == Ok::<u8, MarshalError>(0),
        <BoolMarshaler as FromForeign<u8, bool>>::inbound(0) == Ok::<bool, MarshalError>(false),
        n != 0 ==> <BoolMarshaler as FromForeign<u8, bool>>::inbound(n) == Ok::<bool, MarshalError>(true),
        <BoolMarshaler as FromForeign<u8, bool>>::inbound(
            <BoolMarshaler as ToForeign<bool, u8>>::outbound(b)->Ok_0,
        ) == Ok::<bool, MarshalError>(b),
{
}

} // verus!
