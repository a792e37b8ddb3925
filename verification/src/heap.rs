use vstd::prelude::*;

verus! {

/// The address that stands for "no object".
pub const NULL: usize = 0;

/// Storage for reference-counted objects of one concrete type.
///
/// An object is placed exactly once, by `allocate`, at an address of its own that
/// is never handed out again; `free` takes it away exactly once. The null
/// address never holds an object.
pub struct Heap<T> {
    slots: Vec<Option<T>>,
}

/// How many of the slots are empty.
spec fn empty_slots<T>(slots: Seq<Option<T>>) -> nat
    decreases slots.len(),
{
    if slots.len() == 0 {
        0
    } else {
        empty_slots(slots.drop_last()) + if slots.last() is None {
            1nat
        } else {
            0nat
        }
    }
}

proof fn lemma_empty_slots_push<T>(slots: Seq<Option<T>>, slot: Option<T>)
    ensures
        empty_slots(slots.push(slot)) == empty_slots(slots) + if slot is None {
            1nat
        } else {
            0nat
        },
{
    assert(slots.push(slot).drop_last() =~= slots);
}

proof fn lemma_empty_slots_update<T>(slots: Seq<Option<T>>, i: int, slot: Option<T>)
    requires
        0 <= i < slots.len(),
    ensures
        empty_slots(slots.update(i, slot)) + (if slots[i] is None {
            1nat
        } else {
            0nat
        }) == empty_slots(slots) + (if slot is None {
            1nat
        } else {
            0nat
        }),
    decreases slots.len(),
{
    if i == slots.len() - 1 {
        assert(slots.update(i, slot).drop_last() =~= slots.drop_last());
    } else {
        lemma_empty_slots_update(slots.drop_last(), i, slot);
        assert(slots.update(i, slot).drop_last() =~= slots.drop_last().update(i, slot));
    }
}

impl<T> View for Heap<T> {
    type V = Map<usize, T>;

    /// The objects that are allocated now, by address.
    closed spec fn view(&self) -> Map<usize, T> {
        occupied(self.slots@)
    }
}

/// The objects in the occupied slots, each at the address of its slot: the
/// slot's index plus one, so that no slot has the null address.
spec fn occupied<T>(slots: Seq<Option<T>>) -> Map<usize, T> {
    Map::new(
        |a: usize| 1 <= a <= slots.len() && slots[a - 1] is Some,
        |a: usize| slots[a - 1]->0,
    )
}

impl<T> Heap<T> {
    /// How many objects were ever allocated.
    pub closed spec fn allocations(&self) -> nat {
        self.slots@.len()
    }

    /// How many objects were deallocated so far.
    pub closed spec fn deallocations(&self) -> nat {
        empty_slots(self.slots@)
    }

    /// Whether `addr` was handed out by an allocation, live or not.
    /// Addresses are handed out in order, from one upwards, and none twice.
    pub open spec fn was_allocated(&self, addr: usize) -> bool {
        1 <= addr <= self.allocations()
    }

    /// An empty heap.
    pub fn new() -> (heap: Heap<T>)
        ensures
            heap@ == Map::<usize, T>::empty(),
            heap.allocations() == 0,
            heap.deallocations() == 0,
    {
        let heap = Heap { slots: Vec::new() };
        assert(heap@ =~= Map::<usize, T>::empty());
        heap
    }

    /// Whether no further object can be placed: every address but null
    /// has been handed out.
    pub open spec fn is_full(&self) -> bool {
        self.allocations() >= usize::MAX
    }

    /// Places `obj` at a fresh address and returns it, or returns null and
    /// leaves the heap as it was when the heap is full.
    pub fn allocate(&mut self, obj: T) -> (addr: usize)
        ensures
            old(self).is_full() ==> addr == NULL && *final(self) == *old(self),
            !old(self).is_full() ==> {
                &&& addr == old(self).allocations() + 1
                &&& addr != NULL
                &&& !old(self).was_allocated(addr)
                &&& final(self).was_allocated(addr)
                &&& !old(self)@.contains_key(addr)
                &&& final(self)@ == old(self)@.insert(addr, obj)
                &&& final(self).allocations() == old(self).allocations() + 1
                &&& final(self).deallocations() == old(self).deallocations()
                &&& forall|a: usize|
                    final(self).was_allocated(a) == (a == addr || old(self).was_allocated(a))
            },
    {
        if self.slots.len() == usize::MAX {
            return NULL;
        }
        proof {
            lemma_empty_slots_push(self.slots@, Some(obj));
        }
        self.slots.push(Some(obj));
        let addr: usize = self.slots.len();
        assert(self@ =~= old(self)@.insert(addr, obj));
        addr
    }

    /// Whether an object is allocated at `addr`.
    pub fn is_live(&self, addr: usize) -> (live: bool)
        ensures
            live == self@.contains_key(addr),
            live ==> addr != NULL && self.was_allocated(addr),
    {
        addr >= 1 && addr <= self.slots.len() && self.slots[addr - 1].is_some()
    }

    /// Whether `addr` was handed out by an allocation, live or not.
    pub fn was_handed_out(&self, addr: usize) -> (handed_out: bool)
        ensures
            handed_out == self.was_allocated(addr),
    {
        addr >= 1 && addr <= self.slots.len()
    }

    /// The object at `addr`.
    pub fn get(&self, addr: usize) -> (obj: &T)
        requires
            self@.contains_key(addr),
        ensures
            *obj == self@[addr],
    {
        self.slots[addr - 1].as_ref().unwrap()
    }

    /// The object at `addr`, to be changed in place.
    pub fn get_mut(&mut self, addr: usize) -> (obj: &mut T)
        requires
            old(self)@.contains_key(addr),
        ensures
            *obj == old(self)@[addr],
            final(self)@ == old(self)@.insert(addr, *final(obj)),
            final(self).allocations() == old(self).allocations(),
            final(self).deallocations() == old(self).deallocations(),
            forall|a: usize| final(self).was_allocated(a) == old(self).was_allocated(a),
    {
        proof {
            let slots = self.slots@;
            assert forall|x: T| #[trigger]
                empty_slots(slots.update(addr - 1, Some(x))) == empty_slots(slots) by {
                lemma_empty_slots_update(slots, addr - 1, Some(x));
            }
            assert forall|x: T| #[trigger]
                occupied(slots.update(addr - 1, Some(x))) == occupied(slots).insert(addr, x) by {
                assert(occupied(slots.update(addr - 1, Some(x))) =~= occupied(slots).insert(
                    addr,
                    x,
                ));
            }
        }
        match &mut self.slots[addr - 1] {
            Some(obj) => obj,
            None => vstd::pervasive::unreached(),
        }
    }

    /// Deallocates the object at `addr` and hands it back, so that what it
    /// owned can be let go in the same step.
    pub fn free(&mut self, addr: usize) -> (obj: T)
        requires
            old(self)@.contains_key(addr),
        ensures
            obj == old(self)@[addr],
            final(self)@ == old(self)@.remove(addr),
            final(self).allocations() == old(self).allocations(),
            final(self).deallocations() == old(self).deallocations() + 1,
            forall|a: usize| final(self).was_allocated(a) == old(self).was_allocated(a),
    {
        proof {
            lemma_empty_slots_update(self.slots@, addr - 1, None);
        }
        let taken = self.slots[addr - 1].take();
        assert(self.slots@ =~= old(self).slots@.update(addr - 1, None));
        assert(self@ =~= old(self)@.remove(addr));
        taken.unwrap()
    }

    /// The number of deallocations so far.
    pub fn deallocation_count(&self) -> (n: usize)
        ensures
            n == self.deallocations(),
    {
        let mut n: usize = 0;
        let mut i: usize = 0;
        while i < self.slots.len()
            invariant
                i <= self.slots@.len(),
                n == empty_slots(self.slots@.take(i as int)),
                n <= i,
            decreases self.slots@.len() - i,
        {
            proof {
                assert(self.slots@.take(i + 1).drop_last() =~= self.slots@.take(i as int));
            }
            if self.slots[i].is_none() {
                n += 1;
            }
            i += 1;
        }
        assert(self.slots@.take(i as int) =~= self.slots@);
        n
    }

    /// The number of allocations so far.
    pub fn allocation_count(&self) -> (n: usize)
        ensures
            n == self.allocations(),
    {
        self.slots.len()
    }
}

/// No object is ever allocated at the null address, and every allocated
/// object stands at an address that an allocation handed out.
pub proof fn lemma_live_addresses<T>(heap: Heap<T>, addr: usize)
    requires
        heap@.contains_key(addr),
    ensures
        addr != NULL,
        heap.was_allocated(addr),
{
}

} // verus!
