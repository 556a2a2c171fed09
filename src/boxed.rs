use std::marker::PhantomData;
use vstd::prelude::*;

use crate::error::{null_ptr_error, MarshalError};
use crate::space::{Allocation, AddressSpace};
use crate::InputType;

verus! {

/// Hands a uniquely owned value across by address and reclaims it.
pub struct BoxMarshaler<T>(PhantomData<T>);

/// Lends the value behind a foreign-owned unique address for one call.
pub struct BoxRefMarshaler<T>(PhantomData<T>);

impl<T> InputType for BoxMarshaler<T> {
    type Foreign = usize;
}

impl<T> InputType for BoxRefMarshaler<T> {
    type Foreign = usize;
}

impl<T> BoxMarshaler<T> {
    /// Moves the value into a fresh address that the foreign side now owns.
    pub fn to_foreign(space: &mut AddressSpace<T>, value: T) -> (r: usize)
        requires
            old(space).has_room(),
        ensures
            r == old(space).next_addr(),
            r != 0,
            final(space)@ == old(space)@.push(Some(Allocation::Unique(value))),
    {
        space.allocate(Allocation::Unique(value))
    }

    /// Reclaims the value from the foreign side, freeing its address.
    pub fn from_foreign(space: &mut AddressSpace<T>, addr: usize) -> (r: Result<T, MarshalError>)
        requires
            addr == 0 || old(space).is_unique(addr),
        ensures
            addr == 0 ==> r == Err::<T, MarshalError>(MarshalError::InvalidData) && final(space)@ == old(space)@,
            addr != 0 ==> r == Ok::<T, MarshalError>(old(space).value_of(addr))
                && final(space)@ == old(space)@.update(addr - 1, None),
    {
        if addr == 0 {
            return Err(null_ptr_error());
        }
        match space.take(addr) {
            Allocation::Unique(value) => Ok(value),
            _ => vstd::pervasive::unreached(),
        }
    }
}

impl<T> BoxRefMarshaler<T> {
    /// Reads the value at a foreign-owned address in place.
    pub fn from_foreign<'a>(space: &'a AddressSpace<T>, addr: usize) -> (r: Result<&'a T, MarshalError>)
        requires
            addr == 0 || space.is_unique(addr),
        ensures
            addr == 0 ==> r == Err::<&T, MarshalError>(MarshalError::InvalidData),
            addr != 0 ==> (r matches Ok(v) && *v == space.value_of(addr)),
    {
        if addr == 0 {
            return Err(null_ptr_error());
        }
        Ok(space.borrow_unique(addr))
    }
}

} // verus!
