use vstd::prelude::*;
use std::marker::PhantomData;
use crate::heap::{Heap, NULL};
use crate::iid::{iunknown_bytes, IID};

verus! {

/// The result code of a query that was answered.
pub const S_OK: i32 = 0;

/// The result code of a query for an interface that the object lacks.
pub const S_FALSE: i32 = 1;

/// What a query wrote and returned.
#[derive(Clone, Copy, Debug)]
pub struct Resolved {
    /// `S_OK` or `S_FALSE`.
    pub hr: i32,
    /// The resolved interface view, or null.
    pub out: usize,
}

/// The three base operations that every object offers, whatever interface a
/// holder knows it by: query, add a reference, release one.
pub trait ComVtbl: Sized {
    /// The object's reference count.
    spec fn ref_count(&self) -> nat;

    /// Whether the object answers a query for `iid`. Support is membership
    /// in a fixed set: there is no hierarchy among identities.
    spec fn answers(&self, iid: IID) -> bool;

    /// This object with its count set to `count` and nothing else changed.
    spec fn with_count(&self, count: nat) -> Self;

    /// Every object answers the universal base identity.
    proof fn answers_base(&self, iid: IID)
        requires
            iid@ == iunknown_bytes(),
        ensures
            self.answers(iid),
    ;

    /// Setting the count to one that a counter can hold changes nothing
    /// but the count, and so not what the object answers.
    proof fn count_is_apart(&self, count: nat, iid: IID)
        requires
            count <= u32::MAX,
        ensures
            self.with_count(count).ref_count() == count,
            self.with_count(count).answers(iid) == self.answers(iid),
            self.with_count(self.ref_count()) == *self,
            forall|earlier: nat| #[trigger]
                self.with_count(earlier).with_count(count) == self.with_count(count),
    ;

    /// The object's reference count, for a caller that has to test what an
    /// operation demands before it makes the call.
    fn get_refcnt(&self) -> (count: u32)
        ensures
            count == self.ref_count(),
    ;

    /// Whether the object answers a query for `iid`.
    fn supports(&self, iid: &IID) -> (yes: bool)
        ensures
            yes == self.answers(*iid),
    ;

    /// Answers a query for `iid` on this object, which stands at the
    /// address `this`. Where the object has the interface, the output is
    /// the object's own address, the count is one higher and the result is
    /// `S_OK`; where it has not, the output is null, nothing changes and the
    /// result is `S_FALSE`.
    fn query_interface(&mut self, this: usize, iid: &IID) -> (res: Resolved)
        requires
            old(self).answers(*iid) ==> 1 <= old(self).ref_count() < u32::MAX,
        ensures
            old(self).answers(*iid) ==> {
                &&& res.hr == S_OK
                &&& res.out == this
                &&& *final(self) == old(self).with_count(old(self).ref_count() + 1)
                &&& final(self).ref_count() == old(self).ref_count() + 1
            },
            !old(self).answers(*iid) ==> {
                &&& res.hr == S_FALSE
                &&& res.out == NULL
                &&& *final(self) == *old(self)
            },
    ;

    /// Adds one reference and returns the new count.
    fn add_ref(&mut self) -> (count: u32)
        requires
            1 <= old(self).ref_count() < u32::MAX,
        ensures
            count == old(self).ref_count() + 1,
            *final(self) == old(self).with_count(count as nat),
            final(self).ref_count() == count,
    ;

    /// Gives one reference to the object at `this` back and returns the new
    /// count. The release that takes the count from one to zero deallocates
    /// the object in the same step, once; any other leaves it allocated.
    fn release(heap: &mut Heap<Self>, this: usize) -> (count: u32)
        requires
            old(heap)@.contains_key(this),
            old(heap)@[this].ref_count() >= 1,
        ensures
            count == old(heap)@[this].ref_count() - 1,
            count == 0 ==> {
                &&& final(heap)@ == old(heap)@.remove(this)
                &&& !final(heap)@.contains_key(this)
                &&& final(heap).deallocations() == old(heap).deallocations() + 1
            },
            count != 0 ==> {
                &&& final(heap)@ == old(heap)@.insert(this, old(heap)@[this].with_count(count as nat))
                &&& final(heap)@[this].ref_count() == count
                &&& final(heap).deallocations() == old(heap).deallocations()
            },
            final(heap).allocations() == old(heap).allocations(),
    ;
}

/// An interface: a set of base operations together with the identity under
/// which it is asked for.
pub trait ComInterface: ComVtbl {
    /// The interface's identity.
    spec fn declared_iid() -> IID;

    /// An object answers the interface that it is an instance of.
    proof fn answers_own(&self)
        ensures
            self.answers(Self::declared_iid()),
    ;

    /// The interface's identity.
    fn iid() -> (iid: IID)
        ensures
            iid == Self::declared_iid(),
    ;
}

/// Whether `this` is the address of an object that is allocated and alive.
pub open spec fn holds_live<T: ComVtbl>(heap: Heap<T>, this: usize) -> bool {
    heap@.contains_key(this) && heap@[this].ref_count() >= 1
}

/// An owning handle on one reference to the object at its address, known
/// by the interface `T`.
///
/// A handle made from a fresh address takes over the reference that the
/// factory or a successful query already counted; `clone` counts one more
/// for the copy; `drop` gives the handle's reference back. A handle for
/// another interface of the same object comes from `query_interface` alone.
/// The object itself lives in a heap of its concrete type, which the
/// operations take.
pub struct ComPtr<T: ComInterface> {
    ptr: usize,
    _marker: PhantomData<T>,
}

impl<T: ComInterface> View for ComPtr<T> {
    type V = usize;

    /// The address of the object.
    closed spec fn view(&self) -> usize {
        self.ptr
    }
}

impl<T: ComInterface> ComPtr<T> {
    /// Takes over the reference held on the object at `ptr`, which offers
    /// the interface `T`; the count is not touched. A handle by another
    /// interface of the object comes from `query_interface`.
    pub fn from_raw<O: ComVtbl>(heap: &Heap<O>, ptr: usize) -> (handle: Self)
        requires
            heap@.contains_key(ptr),
            heap@[ptr].answers(T::declared_iid()),
        ensures
            handle@ == ptr,
    {
        Self { ptr, _marker: PhantomData }
    }

    /// The address of the object.
    pub fn as_ptr(&self) -> (ptr: usize)
        ensures
            ptr == self@,
    {
        self.ptr
    }

    /// Asks the object for the interface `U`. Where it has it, the result
    /// is a handle on the same address that owns one new reference; where it
    /// has not, there is no handle and nothing changes.
    pub fn query_interface<U: ComInterface, O: ComVtbl>(&self, heap: &mut Heap<O>) -> (found:
        Option<ComPtr<U>>)
        requires
            old(heap)@.contains_key(self@),
            old(heap)@[self@].answers(U::declared_iid()) ==> 1 <= old(heap)@[self@].ref_count()
                < u32::MAX,
        ensures
            found is Some <==> old(heap)@[self@].answers(U::declared_iid()),
            found is Some ==> {
                &&& found->0@ == self@
                &&& final(heap)@ == old(heap)@.insert(
                    self@,
                    old(heap)@[self@].with_count(old(heap)@[self@].ref_count() + 1),
                )
                &&& final(heap)@[self@].ref_count() == old(heap)@[self@].ref_count() + 1
            },
            found is None ==> final(heap)@ == old(heap)@,
            final(heap).allocations() == old(heap).allocations(),
            final(heap).deallocations() == old(heap).deallocations(),
    {
        let iid = U::iid();
        let object = heap.get_mut(self.ptr);
        let res = object.query_interface(self.ptr, &iid);
        if res.hr == S_OK {
            proof {
                let before = old(heap)@[self@];
                before.count_is_apart(before.ref_count() + 1, iid);
            }
            Some(ComPtr::<U>::from_raw(&*heap, res.out))
        } else {
            assert(final(heap)@ =~= old(heap)@);
            None
        }
    }

    /// A second handle on the same object, which owns one new reference.
    pub fn clone<O: ComVtbl>(&self, heap: &mut Heap<O>) -> (copy: Self)
        requires
            holds_live(*old(heap), self@),
            old(heap)@[self@].ref_count() < u32::MAX,
        ensures
            copy@ == self@,
            final(heap)@ == old(heap)@.insert(
                self@,
                old(heap)@[self@].with_count(old(heap)@[self@].ref_count() + 1),
            ),
            final(heap)@[self@].ref_count() == old(heap)@[self@].ref_count() + 1,
            final(heap).allocations() == old(heap).allocations(),
            final(heap).deallocations() == old(heap).deallocations(),
    {
        let object = heap.get_mut(self.ptr);
        object.add_ref();
        Self { ptr: self.ptr, _marker: PhantomData }
    }

    /// Gives the handle's reference back. Where it was the last, the object
    /// is deallocated, once.
    pub fn drop<O: ComVtbl>(self, heap: &mut Heap<O>)
        requires
            holds_live(*old(heap), self@),
        ensures
            old(heap)@[self@].ref_count() == 1 ==> {
                &&& final(heap)@ == old(heap)@.remove(self@)
                &&& !final(heap)@.contains_key(self@)
                &&& final(heap).deallocations() == old(heap).deallocations() + 1
            },
            old(heap)@[self@].ref_count() > 1 ==> {
                &&& final(heap)@ == old(heap)@.insert(
                    self@,
                    old(heap)@[self@].with_count((old(heap)@[self@].ref_count() - 1) as nat),
                )
                &&& final(heap)@[self@].ref_count() == old(heap)@[self@].ref_count() - 1
                &&& final(heap).deallocations() == old(heap).deallocations()
            },
            final(heap).allocations() == old(heap).allocations(),
    {
        let _ = O::release(heap, self.ptr);
    }

    /// The object behind the handle. Ownership stays with the handle.
    pub fn deref<'a, O: ComVtbl>(&self, heap: &'a Heap<O>) -> (object: &'a O)
        requires
            heap@.contains_key(self@),
        ensures
            *object == heap@[self@],
    {
        heap.get(self.ptr)
    }

    /// The object behind the handle, to be changed in place.
    pub fn deref_mut<'a, O: ComVtbl>(&self, heap: &'a mut Heap<O>) -> (object: &'a mut O)
        requires
            old(heap)@.contains_key(self@),
        ensures
            *object == old(heap)@[self@],
            final(heap)@ == old(heap)@.insert(self@, *final(object)),
            final(heap).allocations() == old(heap).allocations(),
            final(heap).deallocations() == old(heap).deallocations(),
    {
        heap.get_mut(self.ptr)
    }
}

/// A query for the object's own interface, or for the universal base
/// identity, is one that the object answers.
pub proof fn lemma_own_and_base_are_answered<T: ComInterface>(object: T, iid: IID)
    requires
        iid == T::declared_iid() || iid@ == iunknown_bytes(),
    ensures
        object.answers(iid),
{
    if iid == T::declared_iid() {
        object.answers_own();
    } else {
        object.answers_base(iid);
    }
}

/// A handle's `clone` followed by a `drop` of either handle leaves every
/// object as it was: the reference that the one counted, the other gave
/// back.
pub proof fn lemma_clone_then_drop_restores<T: ComVtbl>(objects: Map<usize, T>, this: usize)
    requires
        objects.contains_key(this),
        1 <= objects[this].ref_count() < u32::MAX,
    ensures
        ({
            let count = objects[this].ref_count();
            let cloned = objects.insert(this, objects[this].with_count(count + 1));
            let dropped = cloned.insert(this, cloned[this].with_count(count));
            &&& cloned[this].ref_count() == count + 1
            &&& dropped == objects
        }),
{
    let object = objects[this];
    let count = object.ref_count();
    object.count_is_apart(count + 1, arbitrary());
    object.count_is_apart(count, arbitrary());
    let cloned = objects.insert(this, object.with_count(count + 1));
    let dropped = cloned.insert(this, cloned[this].with_count(count));
    assert(object.with_count(count + 1).with_count(count) == object.with_count(count));
    assert(dropped =~= objects);
}

} // verus!
