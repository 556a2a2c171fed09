use vstd::prelude::*;

verus! {

/// What a live address of the space holds.
pub enum Allocation<T> {
    /// A value with exactly one owner.
    Unique(T),
    /// A value shared by `count` owners.
    Shared { value: T, count: u64 },
    /// A buffer of elements described by a `{address, length}` pair.
    Buffer(Vec<T>),
}

/// The memory that both sides of the boundary address.
///
/// Address `a` names slot `a - 1`; address zero is never handed out and
/// stands for "absent". A slot that was freed stays `None`, so an address is
/// never reused.
pub struct AddressSpace<T> {
    slots: Vec<Option<Allocation<T>>>,
}

/// A host-side owner of one unit of a shared allocation's count.
pub struct SharedHandle {
    addr: usize,
}

impl View for SharedHandle {
    type V = usize;

    closed spec fn view(&self) -> usize {
        self.addr
    }
}

impl SharedHandle {
    /// The address of the shared allocation.
    pub fn addr(&self) -> (r: usize)
        ensures
            r == self@,
    {
        self.addr
    }

    /// Takes over the unit of count that a foreign holder of `addr` had.
    pub(crate) fn from_addr(addr: usize) -> (r: SharedHandle)
        ensures
            r@ == addr,
    {
        SharedHandle { addr }
    }
}

impl<T> View for AddressSpace<T> {
    type V = Seq<Option<Allocation<T>>>;

    closed spec fn view(&self) -> Seq<Option<Allocation<T>>> {
        self.slots@
    }
}

impl<T> AddressSpace<T> {
    /// What `addr` holds, or `None` for an address that is absent, was never
    /// handed out, or was freed.
    pub open spec fn at(&self, addr: usize) -> Option<Allocation<T>> {
        slot_at(self@, addr)
    }

    pub open spec fn is_unique(&self, addr: usize) -> bool {
        self.at(addr) matches Some(Allocation::Unique(_))
    }

    pub open spec fn is_shared(&self, addr: usize) -> bool {
        self.at(addr) matches Some(Allocation::Shared { .. })
    }

    pub open spec fn is_buffer(&self, addr: usize) -> bool {
        self.at(addr) matches Some(Allocation::Buffer(_))
    }

    /// Whether one more address can be handed out.
    pub open spec fn has_room(&self) -> bool {
        self@.len() < usize::MAX
    }

    /// The address the next allocation receives.
    pub open spec fn next_addr(&self) -> usize {
        (self@.len() + 1) as usize
    }

    /// The reference count of a shared allocation.
    pub open spec fn count_of(&self, addr: usize) -> u64 {
        shared_count(self@, addr)
    }

    /// The value of a unique or shared allocation.
    pub open spec fn value_of(&self, addr: usize) -> T {
        match self.at(addr) {
            Some(Allocation::Unique(v)) => v,
            Some(Allocation::Shared { value, .. }) => value,
            _ => arbitrary(),
        }
    }

    /// The elements of a buffer allocation.
    pub open spec fn buffer_of(&self, addr: usize) -> Seq<T> {
        match self.at(addr) {
            Some(Allocation::Buffer(v)) => v@,
            _ => Seq::empty(),
        }
    }

    /// An empty space: every address is absent.
    pub fn new() -> (r: AddressSpace<T>)
        ensures
            r@ == Seq::<Option<Allocation<T>>>::empty(),
    {
        AddressSpace { slots: Vec::new() }
    }

    /// Hands out a fresh address holding `a`.
    pub(crate) fn allocate(&mut self, a: Allocation<T>) -> (addr: usize)
        requires
            old(self).has_room(),
        ensures
            addr == old(self).next_addr(),
            addr != 0,
            final(self)@ == old(self)@.push(Some(a)),
    {
        self.slots.push(Some(a));
        self.slots.len()
    }

    /// Empties a live address and returns what it held.
    pub(crate) fn take(&mut self, addr: usize) -> (r: Allocation<T>)
        requires
            old(self).at(addr) is Some,
        ensures
            Some(r) == old(self).at(addr),
            final(self)@ == old(self)@.update(addr - 1, None),
    {
        let i = addr - 1;
        let held = self.slots.remove(i);
        self.slots.insert(i, None);
        proof {
            assert(self.slots@ =~= old(self)@.update(addr - 1, None));
        }
        match held {
            Some(a) => a,
            None => vstd::pervasive::unreached(),
        }
    }
}

impl<T> AddressSpace<T> {
    /// Borrows what a live address holds.
    pub(crate) fn get(&self, addr: usize) -> (r: &Allocation<T>)
        requires
            self.at(addr) is Some,
        ensures
            Some(*r) == self.at(addr),
    {
        match &self.slots[addr - 1] {
            Some(a) => a,
            None => vstd::pervasive::unreached(),
        }
    }

    /// Stores `a` at an address that was handed out before.
    fn put(&mut self, addr: usize, a: Allocation<T>)
        requires
            1 <= addr <= old(self)@.len(),
        ensures
            final(self)@ == old(self)@.update(addr - 1, Some(a)),
    {
        let i = addr - 1;
        let _ = self.slots.remove(i);
        self.slots.insert(i, Some(a));
        proof {
            assert(self.slots@ =~= old(self)@.update(addr - 1, Some(a)));
        }
    }

    /// Creates a shared allocation with a count of one, owned by the handle returned.
    pub fn share(&mut self, value: T) -> (h: SharedHandle)
        requires
            old(self).has_room(),
        ensures
            h@ == old(self).next_addr(),
            final(self)@ == old(self)@.push(Some(Allocation::Shared { value, count: 1 })),
    {
        let addr = self.allocate(Allocation::Shared { value, count: 1 });
        SharedHandle { addr }
    }

    /// Adds one owner to a shared allocation.
    pub fn clone_shared(&mut self, h: &SharedHandle) -> (r: SharedHandle)
        requires
            old(self).is_shared(h@),
            old(self).count_of(h@) < u64::MAX,
        ensures
            r@ == h@,
            final(self)@ == old(self)@.update(
                h@ - 1,
                Some(Allocation::Shared { value: old(self).value_of(h@), count: (old(self).count_of(h@) + 1) as u64 }),
            ),
    {
        let held = self.take(h.addr);
        match held {
            Allocation::Shared { value, count } => {
                self.put(h.addr, Allocation::Shared { value, count: count + 1 });
            },
            _ => vstd::pervasive::unreached(),
        }
        SharedHandle { addr: h.addr }
    }

    /// Drops one owner of a shared allocation; the last one frees it.
    pub fn release_shared(&mut self, h: SharedHandle)
        requires
            old(self).is_shared(h@),
        ensures
            final(self)@ == released(old(self)@, h@),
    {
        let held = self.take(h.addr);
        match held {
            Allocation::Shared { value, count } => {
                if count > 1 {
                    self.put(h.addr, Allocation::Shared { value, count: count - 1 });
                }
            },
            _ => vstd::pervasive::unreached(),
        }
    }

    /// The number of owners of a shared allocation.
    pub fn strong_count(&self, h: &SharedHandle) -> (r: u64)
        requires
            self.is_shared(h@),
        ensures
            r == self.count_of(h@),
    {
        match self.get(h.addr) {
            Allocation::Shared { count, .. } => *count,
            _ => vstd::pervasive::unreached(),
        }
    }

    /// Reads a shared allocation without taking or giving up a unit of its
    /// count: the single place where access is had while the count is left
    /// as the foreign side holds it.
    pub fn borrow_shared(&self, addr: usize) -> (r: &T)
        requires
            self.is_shared(addr),
        ensures
            *r == self.value_of(addr),
    {
        match self.get(addr) {
            Allocation::Shared { value, .. } => value,
            _ => vstd::pervasive::unreached(),
        }
    }

    /// Reads a unique allocation in place.
    pub fn borrow_unique(&self, addr: usize) -> (r: &T)
        requires
            self.is_unique(addr),
        ensures
            *r == self.value_of(addr),
    {
        match self.get(addr) {
            Allocation::Unique(value) => value,
            _ => vstd::pervasive::unreached(),
        }
    }
}

/// The slots after one owner of the shared allocation at `addr` lets go.
pub open spec fn released<T>(s: Seq<Option<Allocation<T>>>, addr: usize) -> Seq<Option<Allocation<T>>> {
    match slot_at(s, addr) {
        Some(Allocation::Shared { value, count }) => if count > 1 {
            s.update(addr - 1, Some(Allocation::Shared { value, count: (count - 1) as u64 }))
        } else {
            s.update(addr - 1, None)
        },
        _ => s,
    }
}

/// What address `addr` names in the slots `s`.
pub open spec fn slot_at<T>(s: Seq<Option<Allocation<T>>>, addr: usize) -> Option<Allocation<T>> {
    if 1 <= addr && addr <= s.len() {
        s[addr - 1]
    } else {
        None
    }
}

/// The reference count held at `addr` in the slots `s`, zero if it is not shared.
pub open spec fn shared_count<T>(s: Seq<Option<Allocation<T>>>, addr: usize) -> u64 {
    match slot_at(s, addr) {
        Some(Allocation::Shared { count, .. }) => count,
        _ => 0,
    }
}

} // verus!
