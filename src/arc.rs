use std::marker::PhantomData;
use vstd::prelude::*;

use crate::error::{null_ptr_error, MarshalError};
use crate::space::{released, shared_count, AddressSpace, SharedHandle};
use crate::{InputType, ReturnType};

verus! {

/// Hands a shared value across by address, moving one unit of its count.
pub struct ArcMarshaler<T>(PhantomData<T>);

/// Lends the value behind a foreign-held shared address for one call.
pub struct ArcRefMarshaler<T>(PhantomData<T>);

impl<T> InputType for ArcMarshaler<T> {
    type Foreign = usize;
}

impl<T> ReturnType for ArcMarshaler<T> {
    type Foreign = usize;

    open spec fn spec_foreign_default() -> usize {
        0
    }

    fn foreign_default() -> (r: usize) {
        0
    }
}

impl<T> InputType for ArcRefMarshaler<T> {
    type Foreign = usize;
}

impl<T> ArcMarshaler<T> {
    pub open spec fn outbound(h: SharedHandle) -> usize {
        h@
    }

    pub open spec fn inbound(addr: usize) -> Result<usize, MarshalError> {
        if addr == 0 {
            Err(MarshalError::InvalidData)
        } else {
            Ok(addr)
        }
    }

    /// Gives the handle's unit of count to the foreign side; the count itself
    /// does not change.
    pub fn to_foreign(h: SharedHandle) -> (r: usize)
        ensures
            r == Self::outbound(h),
    {
        h.addr()
    }

    /// Takes the unit of count back from the foreign side as a handle; the
    /// count itself does not change.
    pub fn from_foreign(space: &AddressSpace<T>, addr: usize) -> (r: Result<SharedHandle, MarshalError>)
        requires
            addr == 0 || space.is_shared(addr),
        ensures
            match r {
                Ok(h) => Self::inbound(addr) == Ok::<usize, MarshalError>(h@),
                Err(e) => Self::inbound(addr) == Err::<usize, MarshalError>(e),
            },
    {
        if addr == 0 {
            return Err(null_ptr_error());
        }
        Ok(SharedHandle::from_addr(addr))
    }
}

impl<T> ArcRefMarshaler<T> {
    pub open spec fn inbound(space: &AddressSpace<T>, addr: usize) -> Result<T, MarshalError> {
        if addr == 0 {
            Err(MarshalError::InvalidData)
        } else {
            Ok(space.value_of(addr))
        }
    }

    /// Reads the shared value at a foreign-held address; the space, and so
    /// the count, is left as it is.
    pub fn from_foreign<'a>(space: &'a AddressSpace<T>, addr: usize) -> (r: Result<&'a T, MarshalError>)
        requires
            addr == 0 || space.is_shared(addr),
        ensures
            match r {
                Ok(v) => Self::inbound(space, addr) == Ok::<T, MarshalError>(*v),
                Err(e) => Self::inbound(space, addr) == Err::<T, MarshalError>(e),
            },
    {
        if addr == 0 {
            return Err(null_ptr_error());
        }
        Ok(space.borrow_shared(addr))
    }
}

/// Handing a shared value out and at once taking it back gives a handle to
/// the same allocation, with the same value and the same count.
pub proof fn lemma_shared_round_trip<T>(space: AddressSpace<T>, h: SharedHandle)
    requires
        space.is_shared(h@),
    ensures
        ArcMarshaler::<T>::inbound(ArcMarshaler::<T>::outbound(h)) == Ok::<usize, MarshalError>(h@),
        space.is_shared(ArcMarshaler::<T>::outbound(h)),
        space.value_of(ArcMarshaler::<T>::outbound(h)) == space.value_of(h@),
        space.count_of(ArcMarshaler::<T>::outbound(h)) == space.count_of(h@),
{
}

/// After a shared value is handed out, every reference read of its address
/// sees the value (reads borrow the space, so any number of them leaves it
/// unchanged), and the one reclaim, once its handle is dropped, lowers the
/// count by exactly one: to `count - 1`, or frees the allocation when it was
/// the last owner.
pub proof fn lemma_shared_reads_then_reclaim<T>(space: AddressSpace<T>, h: SharedHandle)
    requires
        space.is_shared(h@),
    ensures
        ({
            let a = ArcMarshaler::<T>::outbound(h);
            let after = released(space@, a);
            &&& ArcRefMarshaler::<T>::inbound(&space, a) == Ok::<T, MarshalError>(space.value_of(h@))
            &&& ArcMarshaler::<T>::inbound(a) == Ok::<usize, MarshalError>(h@)
            &&& space.count_of(h@) > 1 ==> shared_count(after, a) == space.count_of(h@) - 1
            &&& space.count_of(h@) <= 1 ==> after == space@.update(a - 1, None)
            &&& after.len() == space@.len()
            &&& forall|i: int| 0 <= i < after.len() && i != a - 1 ==> after[i] == space@[i]
        }),
{
}

} // verus!
