use vstd::prelude::*;
use crate::heap::{Heap, NULL};
use crate::lifecycle::{fault_of, lemma_counter_of, step, RefCount, RefCountError, RefOp};

verus! {

/// The smallest reference-counted object: nothing but its count.
#[derive(Debug)]
pub struct Plugin {
    ref_cnt: RefCount,
}

impl View for Plugin {
    type V = nat;

    /// A plugin is its reference count.
    closed spec fn view(&self) -> nat {
        self.ref_cnt@
    }
}

impl Plugin {
    /// A plugin as the factory makes it: one reference, held by the caller.
    pub fn new() -> (plugin: Plugin)
        ensures
            plugin@ == 1,
    {
        Plugin { ref_cnt: RefCount::new(1) }
    }

    /// Adds one reference and returns the new count.
    pub fn add_ref(&mut self) -> (count: u32)
        requires
            1 <= old(self)@ < u32::MAX,
        ensures
            step(old(self)@, RefOp::AddRef) == Some(final(self)@),
            final(self)@ == old(self)@ + 1,
            count == final(self)@,
    {
        self.ref_cnt.add_ref()
    }

    /// Gives one reference to the plugin at `this` back and returns the
    /// new count. The release that takes the count from one to zero
    /// deallocates the plugin in the same step, once; any other leaves it
    /// allocated.
    pub fn release(heap: &mut Heap<Plugin>, this: usize) -> (count: u32)
        requires
            holds_live_plugin(*old(heap), this),
        ensures
            step(old(heap)@[this]@, RefOp::Release) == Some(count as nat),
            count == old(heap)@[this]@ - 1,
            count == 0 ==> {
                &&& final(heap)@ == old(heap)@.remove(this)
                &&& !final(heap)@.contains_key(this)
                &&& final(heap).deallocations() == old(heap).deallocations() + 1
            },
            count != 0 ==> {
                &&& final(heap)@.contains_key(this)
                &&& final(heap)@[this]@ == count
                &&& final(heap)@ == old(heap)@.insert(this, final(heap)@[this])
                &&& final(heap).deallocations() == old(heap).deallocations()
            },
            final(heap).allocations() == old(heap).allocations(),
    {
        let hndl = heap.get_mut(this);
        let count = hndl.ref_cnt.release();
        if count == 0 {
            let _ = heap.free(this);
            assert(final(heap)@ =~= old(heap)@.remove(this));
        }
        count
    }

    /// The current count.
    pub fn get_refcnt(&self) -> (count: u32)
        ensures
            count == self@,
    {
        self.ref_cnt.get()
    }

    /// `add_ref` on any plugin: on a count of zero, or on a full counter,
    /// the violation is reported and the plugin is left as it was.
    pub fn try_add_ref(&mut self) -> (res: Result<u32, RefCountError>)
        ensures
            match fault_of(true, Some(old(self)@), RefOp::AddRef) {
                Some(fault) => res == Err::<u32, RefCountError>(fault) && *final(self) == *old(
                    self,
                ),
                None => res == Ok::<u32, RefCountError>((old(self)@ + 1) as u32) && final(self)@
                    == old(self)@ + 1,
            },
    {
        let res = self.ref_cnt.try_add_ref();
        proof {
            lemma_counter_of(old(self).ref_cnt);
            lemma_counter_of(self.ref_cnt);
        }
        res
    }
}

/// The count of the plugin that is allocated at `this`, if one is.
pub open spec fn plugin_count(heap: Heap<Plugin>, this: usize) -> Option<nat> {
    if heap@.contains_key(this) {
        Some(heap@[this]@)
    } else {
        None
    }
}

/// Whether `this` is the address of a plugin that is allocated and alive.
pub open spec fn holds_live_plugin(heap: Heap<Plugin>, this: usize) -> bool {
    heap@.contains_key(this) && heap@[this]@ >= 1
}

/// Adds one reference to the plugin at `this` and returns the new count.
pub fn com_add_ref(heap: &mut Heap<Plugin>, this: usize) -> (count: u32)
    requires
        holds_live_plugin(*old(heap), this),
        old(heap)@[this]@ < u32::MAX,
    ensures
        count == old(heap)@[this]@ + 1,
        final(heap)@.contains_key(this),
        final(heap)@[this]@ == count,
        final(heap)@ == old(heap)@.insert(this, final(heap)@[this]),
        final(heap).allocations() == old(heap).allocations(),
        final(heap).deallocations() == old(heap).deallocations(),
{
    let hndl = heap.get_mut(this);
    hndl.add_ref()
}

/// Gives one reference to the plugin at `this` back and returns the new
/// count. The release that takes the count from one to zero deallocates the
/// plugin, once; any other leaves it allocated.
pub fn com_release(heap: &mut Heap<Plugin>, this: usize) -> (count: u32)
    requires
        holds_live_plugin(*old(heap), this),
    ensures
        count == old(heap)@[this]@ - 1,
        count == 0 ==> {
            &&& final(heap)@ == old(heap)@.remove(this)
            &&& !final(heap)@.contains_key(this)
            &&& final(heap).deallocations() == old(heap).deallocations() + 1
        },
        count != 0 ==> {
            &&& final(heap)@.contains_key(this)
            &&& final(heap)@[this]@ == count
            &&& final(heap)@ == old(heap)@.insert(this, final(heap)@[this])
            &&& final(heap).deallocations() == old(heap).deallocations()
        },
        final(heap).allocations() == old(heap).allocations(),
{
    Plugin::release(heap, this)
}

/// The count of the plugin at `this`.
pub fn com_get_refcnt(heap: &Heap<Plugin>, this: usize) -> (count: u32)
    requires
        heap@.contains_key(this),
    ensures
        count == heap@[this]@,
{
    heap.get(this).get_refcnt()
}

/// Makes a plugin with one reference and returns its address, or returns
/// null without allocating anything when asked to fail or when the heap has
/// no room.
#[allow(non_snake_case)]
pub fn PluginFactory(heap: &mut Heap<Plugin>, do_fail: bool) -> (this: usize)
    ensures
        do_fail || old(heap).is_full() ==> this == NULL && *final(heap) == *old(heap),
        !do_fail && !old(heap).is_full() ==> {
            &&& this != NULL
            &&& !old(heap).was_allocated(this)
            &&& !old(heap)@.contains_key(this)
            &&& final(heap).was_allocated(this)
            &&& final(heap)@.contains_key(this)
            &&& final(heap)@[this]@ == 1
            &&& final(heap)@ == old(heap)@.insert(this, final(heap)@[this])
            &&& final(heap).allocations() == old(heap).allocations() + 1
            &&& final(heap).deallocations() == old(heap).deallocations()
        },
{
    if do_fail {
        NULL
    } else {
        let plugin = Plugin::new();
        heap.allocate(plugin)
    }
}

/// `com_add_ref` for any address. Where the operation is a contract
/// violation (no object there, an object that is gone, a full counter) it is
/// reported and nothing changes; else one reference is added.
pub fn try_com_add_ref(heap: &mut Heap<Plugin>, this: usize) -> (res: Result<u32, RefCountError>)
    ensures
        match fault_of(old(heap).was_allocated(this), plugin_count(*old(heap), this), RefOp::AddRef) {
            Some(fault) => res == Err::<u32, RefCountError>(fault) && *final(heap) == *old(heap),
            None => {
                &&& res == Ok::<u32, RefCountError>((old(heap)@[this]@ + 1) as u32)
                &&& final(heap)@.contains_key(this)
                &&& final(heap)@[this]@ == old(heap)@[this]@ + 1
                &&& final(heap)@ == old(heap)@.insert(this, final(heap)@[this])
                &&& final(heap).allocations() == old(heap).allocations()
                &&& final(heap).deallocations() == old(heap).deallocations()
            },
        },
{
    if !heap.is_live(this) {
        if heap.was_handed_out(this) {
            Err(RefCountError::Dead)
        } else {
            Err(RefCountError::NoObject)
        }
    } else {
        let count = heap.get(this).get_refcnt();
        if count == 0 {
            Err(RefCountError::Dead)
        } else if count == u32::MAX {
            Err(RefCountError::Overflow)
        } else {
            Ok(com_add_ref(heap, this))
        }
    }
}

/// `com_release` for any address. Where the operation is a contract
/// violation (no object there, or an object that is gone) it is reported and
/// nothing changes: nothing is deallocated a second time. Else one
/// reference is given back, and the object is deallocated where it was the
/// last.
pub fn try_com_release(heap: &mut Heap<Plugin>, this: usize) -> (res: Result<u32, RefCountError>)
    ensures
        match fault_of(old(heap).was_allocated(this), plugin_count(*old(heap), this), RefOp::Release) {
            Some(fault) => res == Err::<u32, RefCountError>(fault) && *final(heap) == *old(heap),
            None => {
                &&& res == Ok::<u32, RefCountError>((old(heap)@[this]@ - 1) as u32)
                &&& old(heap)@[this]@ == 1 ==> {
                    &&& final(heap)@ == old(heap)@.remove(this)
                    &&& !final(heap)@.contains_key(this)
                    &&& final(heap).deallocations() == old(heap).deallocations() + 1
                }
                &&& old(heap)@[this]@ > 1 ==> {
                    &&& final(heap)@.contains_key(this)
                    &&& final(heap)@[this]@ == old(heap)@[this]@ - 1
                    &&& final(heap)@ == old(heap)@.insert(this, final(heap)@[this])
                    &&& final(heap).deallocations() == old(heap).deallocations()
                }
                &&& final(heap).allocations() == old(heap).allocations()
            },
        },
{
    if !heap.is_live(this) {
        if heap.was_handed_out(this) {
            Err(RefCountError::Dead)
        } else {
            Err(RefCountError::NoObject)
        }
    } else if heap.get(this).get_refcnt() == 0 {
        Err(RefCountError::Dead)
    } else {
        Ok(com_release(heap, this))
    }
}

} // verus!
