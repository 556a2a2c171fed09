use std::marker::PhantomData;
use vstd::prelude::*;

use crate::error::{null_ptr_error, MarshalError};
use crate::space::{Allocation, AddressSpace};
use crate::{InputType, ReturnType};

verus! {

/// A `{address, length}` descriptor of a buffer of `T`.
pub struct Slice<T> {
    pub data: usize,
    pub len: usize,
    pub marker: PhantomData<T>,
}

impl<T> Default for Slice<T> {
    /// The absent descriptor.
    fn default() -> (r: Slice<T>)
        ensures
            r.data == 0,
            r.len == 0,
    {
        Slice { data: 0, len: 0, marker: PhantomData }
    }
}

impl<T> Slice<T> {
    pub fn new(data: usize, len: usize) -> (r: Slice<T>)
        ensures
            r.data == data,
            r.len == len,
    {
        Slice { data, len, marker: PhantomData }
    }

    /// Whether the descriptor names a live buffer of exactly `len` elements.
    pub open spec fn describes(&self, space: &AddressSpace<T>) -> bool {
        space.is_buffer(self.data) && space.buffer_of(self.data).len() == self.len
    }

    /// Moves a buffer into a fresh address and describes it.
    pub fn from_box(space: &mut AddressSpace<T>, boxed: Vec<T>) -> (r: Slice<T>)
        requires
            old(space).has_room(),
        ensures
            r.data == old(space).next_addr(),
            r.data != 0,
            r.len == boxed@.len(),
            final(space)@ == old(space)@.push(Some(Allocation::Buffer(boxed))),
    {
        let len = boxed.len();
        let data = space.allocate(Allocation::Buffer(boxed));
        Slice { data, len, marker: PhantomData }
    }

    /// Takes the described buffer back out of the space, freeing its address.
    pub fn into_box(self, space: &mut AddressSpace<T>) -> (r: Vec<T>)
        requires
            self.describes(old(space)),
        ensures
            r@ == old(space).buffer_of(self.data),
            final(space)@ == old(space)@.update(self.data - 1, None),
    {
        match space.take(self.data) {
            Allocation::Buffer(v) => v,
            _ => vstd::pervasive::unreached(),
        }
    }
}

/// Hands a growable buffer across as a descriptor, and frees it on return.
pub struct VecMarshaler<T>(PhantomData<T>);

/// Lends a foreign-owned buffer for one call, without copying.
pub struct VecRefMarshaler<T>(PhantomData<T>);

impl<T> ReturnType for VecMarshaler<T> {
    type Foreign = Slice<T>;

    open spec fn spec_foreign_default() -> Slice<T> {
        Slice { data: 0, len: 0, marker: PhantomData }
    }

    fn foreign_default() -> (r: Slice<T>) {
        Slice { data: 0, len: 0, marker: PhantomData }
    }
}

impl<T> InputType for VecRefMarshaler<T> {
    type Foreign = Slice<T>;
}

impl<T> VecMarshaler<T> {
    /// Gives the buffer to the foreign side as a descriptor.
    pub fn to_foreign(space: &mut AddressSpace<T>, v: Vec<T>) -> (r: Slice<T>)
        requires
            old(space).has_room(),
        ensures
            r.data == old(space).next_addr(),
            r.data != 0,
            r.len == v@.len(),
            final(space)@ == old(space)@.push(Some(Allocation::Buffer(v))),
    {
        Slice::from_box(space, v)
    }

    /// Frees a buffer that the foreign side hands back, returning how many
    /// elements were freed.
    pub fn release(space: &mut AddressSpace<T>, s: Slice<T>) -> (r: Result<usize, MarshalError>)
        requires
            s.data == 0 || s.describes(old(space)),
        ensures
            s.data == 0 ==> r == Err::<usize, MarshalError>(MarshalError::InvalidData) && final(space)@ == old(space)@,
            s.data != 0 ==> r == Ok::<usize, MarshalError>(s.len)
                && final(space)@ == old(space)@.update(s.data - 1, None),
    {
        if s.data == 0 {
            return Err(null_ptr_error());
        }
        let freed = s.into_box(space);
        Ok(freed.len())
    }
}

impl<T> VecRefMarshaler<T> {
    /// Views the described buffer in place.
    pub fn from_foreign<'a>(space: &'a AddressSpace<T>, s: &Slice<T>) -> (r: Result<&'a [T], MarshalError>)
        requires
            s.data == 0 || s.describes(space),
        ensures
            s.data == 0 ==> r == Err::<&[T], MarshalError>(MarshalError::InvalidData),
            s.data != 0 ==> (r matches Ok(v) && v@ == space.buffer_of(s.data)),
    {
        if s.data == 0 {
            return Err(null_ptr_error());
        }
        match space.get(s.data) {
            Allocation::Buffer(v) => Ok(v.as_slice()),
            _ => vstd::pervasive::unreached(),
        }
    }
}

/// Handing a buffer out and releasing the descriptor that came back frees
/// exactly its elements: the release reports the original element count, the
/// buffer's address ends up freed, every other address is as before, and the
/// same descriptor no longer describes anything, so it cannot be freed twice.
pub proof fn lemma_buffer_release<T>(before: AddressSpace<T>, v: Vec<T>, after: AddressSpace<T>, freed: AddressSpace<T>)
    requires
        before.has_room(),
        after@ == before@.push(Some(Allocation::Buffer(v))),
        freed@ == after@.update(before.next_addr() - 1, None),
    ensures
        (Slice::<T> { data: before.next_addr(), len: v.len(), marker: PhantomData }).describes(&after),
        after.buffer_of(before.next_addr()) == v@,
        freed@ == before@.push(None),
        !freed.is_buffer(before.next_addr()),
{
    assert(freed@ =~= before@.push(None));
}

} // verus!
