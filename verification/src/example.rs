use vstd::prelude::*;
use crate::com::{ComInterface, ComVtbl, Resolved, S_FALSE, S_OK};
use crate::heap::{Heap, NULL};
use crate::iid::{iunknown_bytes, lemma_iid_equal_by_bytes, IUnknownUUID, IID};
use crate::lifecycle::{
    counter, fault_of, lemma_counter, lemma_counter_of, query_fault_of, RefCount, RefCountError,
    RefOp,
};

verus! {

/// The bytes of the example interface's identity.
pub open spec fn iexample_bytes() -> Seq<u8> {
    seq![
        0x01u8, 0x23, 0x45, 0x67, 0x89, 0xab, 0xcd, 0xef,
        0x10, 0x32, 0x54, 0x76, 0x98, 0xba, 0xdc, 0xfe,
    ]
}

/// The identity of the example interface.
#[allow(non_snake_case)]
pub fn IID_IEXAMPLE() -> (iid: IID)
    ensures
        iid@ == iexample_bytes(),
{
    let iid = IID([
        0x01, 0x23, 0x45, 0x67, 0x89, 0xab, 0xcd, 0xef,
        0x10, 0x32, 0x54, 0x76, 0x98, 0xba, 0xdc, 0xfe,
    ]);
    assert(iid@ =~= iexample_bytes());
    iid
}

/// Whether an example object answers a query for `iid`: it does for the
/// example interface and for the universal base identity, and for nothing
/// else.
pub open spec fn example_answers(iid: IID) -> bool {
    iid@ == iexample_bytes() || iid@ == iunknown_bytes()
}

/// An object that offers the example interface: a count and one value.
#[derive(Debug)]
pub struct ExampleImpl {
    pub ref_cnt: RefCount,
    pub value: i32,
}

impl ComVtbl for ExampleImpl {
    open spec fn ref_count(&self) -> nat {
        self.ref_cnt@
    }

    open spec fn answers(&self, iid: IID) -> bool {
        example_answers(iid)
    }

    open spec fn with_count(&self, count: nat) -> Self {
        ExampleImpl { ref_cnt: counter(count), value: self.value }
    }

    proof fn answers_base(&self, iid: IID) {
    }

    proof fn count_is_apart(&self, count: nat, iid: IID) {
        lemma_counter(count);
        lemma_counter_of(self.ref_cnt);
    }

    fn get_refcnt(&self) -> (count: u32) {
        self.ref_cnt.get()
    }

    fn supports(&self, iid: &IID) -> (yes: bool) {
        let own = IID_IEXAMPLE();
        let base = IUnknownUUID();
        proof {
            lemma_iid_equal_by_bytes(*iid, own);
            lemma_iid_equal_by_bytes(*iid, base);
        }
        *iid == own || *iid == base
    }

    fn query_interface(&mut self, this: usize, iid: &IID) -> (res: Resolved) {
        if self.supports(iid) {
            self.add_ref();
            Resolved { hr: S_OK, out: this }
        } else {
            Resolved { hr: S_FALSE, out: NULL }
        }
    }

    fn add_ref(&mut self) -> (count: u32) {
        let count = self.ref_cnt.add_ref();
        proof {
            lemma_counter_of(self.ref_cnt);
        }
        count
    }

    fn release(heap: &mut Heap<Self>, this: usize) -> (count: u32) {
        let count = example_release(heap, this);
        proof {
            if count != 0 {
                lemma_counter_of(heap@[this].ref_cnt);
                assert(heap@[this] == old(heap)@[this].with_count(count as nat));
            }
        }
        count
    }
}

impl ComInterface for ExampleImpl {
    open spec fn declared_iid() -> IID {
        IID(
            [
                0x01u8, 0x23, 0x45, 0x67, 0x89, 0xab, 0xcd, 0xef,
                0x10, 0x32, 0x54, 0x76, 0x98, 0xba, 0xdc, 0xfe,
            ],
        )
    }

    proof fn answers_own(&self) {
        assert(Self::declared_iid()@ =~= iexample_bytes());
    }

    fn iid() -> (iid: IID) {
        let iid = IID_IEXAMPLE();
        proof {
            assert(Self::declared_iid()@ =~= iexample_bytes());
            lemma_iid_equal_by_bytes(iid, Self::declared_iid());
        }
        iid
    }
}

/// Whether `this` is the address of an example object that is allocated
/// and alive.
pub open spec fn holds_live_example(heap: Heap<ExampleImpl>, this: usize) -> bool {
    heap@.contains_key(this) && heap@[this].ref_cnt@ >= 1
}

/// Resolves the object at `this` to the interface `iid`. On a match the
/// output is the object's own address and the object gains one reference;
/// on a mismatch the output is null and nothing changes.
pub fn example_query_interface(heap: &mut Heap<ExampleImpl>, this: usize, iid: &IID) -> (res:
    Resolved)
    requires
        old(heap)@.contains_key(this),
        example_answers(*iid) ==> 1 <= old(heap)@[this].ref_cnt@ < u32::MAX,
    ensures
        example_answers(*iid) ==> {
            &&& res.hr == S_OK
            &&& res.out == this
            &&& final(heap)@.contains_key(this)
            &&& final(heap)@[this].ref_cnt@ == old(heap)@[this].ref_cnt@ + 1
            &&& final(heap)@[this].value == old(heap)@[this].value
            &&& final(heap)@ == old(heap)@.insert(this, final(heap)@[this])
        },
        !example_answers(*iid) ==> {
            &&& res.hr == S_FALSE
            &&& res.out == NULL
            &&& final(heap)@ == old(heap)@
        },
        final(heap).allocations() == old(heap).allocations(),
        final(heap).deallocations() == old(heap).deallocations(),
{
    if heap.get(this).supports(iid) {
        let _ = example_add_ref(heap, this);
        Resolved { hr: S_OK, out: this }
    } else {
        Resolved { hr: S_FALSE, out: NULL }
    }
}

/// Adds one reference to the object at `this` and returns the new count.
pub fn example_add_ref(heap: &mut Heap<ExampleImpl>, this: usize) -> (count: u32)
    requires
        holds_live_example(*old(heap), this),
        old(heap)@[this].ref_cnt@ < u32::MAX,
    ensures
        count == old(heap)@[this].ref_cnt@ + 1,
        final(heap)@.contains_key(this),
        final(heap)@[this].ref_cnt@ == count,
        final(heap)@[this].value == old(heap)@[this].value,
        final(heap)@ == old(heap)@.insert(this, final(heap)@[this]),
        final(heap).allocations() == old(heap).allocations(),
        final(heap).deallocations() == old(heap).deallocations(),
{
    let object = heap.get_mut(this);
    object.ref_cnt.add_ref()
}

/// Gives one reference to the object at `this` back and returns the new
/// count. The release that takes the count from one to zero deallocates the
/// object, once; any other leaves it allocated.
pub fn example_release(heap: &mut Heap<ExampleImpl>, this: usize) -> (rc: u32)
    requires
        holds_live_example(*old(heap), this),
    ensures
        rc == old(heap)@[this].ref_cnt@ - 1,
        rc == 0 ==> {
            &&& final(heap)@ == old(heap)@.remove(this)
            &&& !final(heap)@.contains_key(this)
            &&& final(heap).deallocations() == old(heap).deallocations() + 1
        },
        rc != 0 ==> {
            &&& final(heap)@.contains_key(this)
            &&& final(heap)@[this].ref_cnt@ == rc
            &&& final(heap)@[this].value == old(heap)@[this].value
            &&& final(heap)@ == old(heap)@.insert(this, final(heap)@[this])
            &&& final(heap).deallocations() == old(heap).deallocations()
        },
        final(heap).allocations() == old(heap).allocations(),
{
    let object = heap.get_mut(this);
    let rc = object.ref_cnt.release();
    if rc == 0 {
        let _ = heap.free(this);
        assert(final(heap)@ =~= old(heap)@.remove(this));
    }
    rc
}

/// The value of the object at `this`.
pub fn example_get_value(heap: &Heap<ExampleImpl>, this: usize) -> (value: i32)
    requires
        heap@.contains_key(this),
    ensures
        value == heap@[this].value,
{
    heap.get(this).value
}

/// The count of the example object that is allocated at `this`, if one
/// is.
pub open spec fn example_count(heap: Heap<ExampleImpl>, this: usize) -> Option<nat> {
    if heap@.contains_key(this) {
        Some(heap@[this].ref_cnt@)
    } else {
        None
    }
}

/// `example_query_interface` for any address. Where the query is a
/// contract violation (no object there, an object that is gone, a full
/// counter under a query that the object answers) it is reported and nothing
/// changes; else the query is answered.
pub fn try_example_query_interface(heap: &mut Heap<ExampleImpl>, this: usize, iid: &IID) -> (res:
    Result<Resolved, RefCountError>)
    ensures
        match query_fault_of(
            old(heap).was_allocated(this),
            example_count(*old(heap), this),
            example_answers(*iid),
        ) {
            Some(fault) => res == Err::<Resolved, RefCountError>(fault) && *final(heap) == *old(
                heap,
            ),
            None => {
                &&& res is Ok
                &&& example_answers(*iid) ==> {
                    &&& res->Ok_0.hr == S_OK
                    &&& res->Ok_0.out == this
                    &&& final(heap)@.contains_key(this)
                    &&& final(heap)@[this].ref_cnt@ == old(heap)@[this].ref_cnt@ + 1
                    &&& final(heap)@[this].value == old(heap)@[this].value
                    &&& final(heap)@ == old(heap)@.insert(this, final(heap)@[this])
                }
                &&& !example_answers(*iid) ==> {
                    &&& res->Ok_0.hr == S_FALSE
                    &&& res->Ok_0.out == NULL
                    &&& final(heap)@ == old(heap)@
                }
                &&& final(heap).allocations() == old(heap).allocations()
                &&& final(heap).deallocations() == old(heap).deallocations()
            },
        },
{
    if !heap.is_live(this) {
        if heap.was_handed_out(this) {
            Err(RefCountError::Dead)
        } else {
            Err(RefCountError::NoObject)
        }
    } else {
        let count = heap.get(this).ref_cnt.get();
        let answers = heap.get(this).supports(iid);
        if count == 0 {
            Err(RefCountError::Dead)
        } else if answers && count == u32::MAX {
            Err(RefCountError::Overflow)
        } else {
            Ok(example_query_interface(heap, this, iid))
        }
    }
}

/// `example_add_ref` for any address. Where the operation is a contract
/// violation (no object there, an object that is gone, a full counter) it is
/// reported and nothing changes; else one reference is added.
pub fn try_example_add_ref(heap: &mut Heap<ExampleImpl>, this: usize) -> (res: Result<
    u32,
    RefCountError,
>)
    ensures
        match fault_of(old(heap).was_allocated(this), example_count(*old(heap), this), RefOp::AddRef) {
            Some(fault) => res == Err::<u32, RefCountError>(fault) && *final(heap) == *old(heap),
            None => {
                &&& res == Ok::<u32, RefCountError>((old(heap)@[this].ref_cnt@ + 1) as u32)
                &&& final(heap)@.contains_key(this)
                &&& final(heap)@[this].ref_cnt@ == old(heap)@[this].ref_cnt@ + 1
                &&& final(heap)@[this].value == old(heap)@[this].value
                &&& final(heap)@ == old(heap)@.insert(this, final(heap)@[this])
                &&& final(heap).allocations() == old(heap).allocations()
                &&& final(heap).deallocations() == old(heap).deallocations()
            },
        },
{
    if !heap.is_live(this) {
        if heap.was_handed_out(this) {
            Err(RefCountError::Dead)
        } else {
            Err(RefCountError::NoObject)
        }
    } else {
        let count = heap.get(this).ref_cnt.get();
        if count == 0 {
            Err(RefCountError::Dead)
        } else if count == u32::MAX {
            Err(RefCountError::Overflow)
        } else {
            Ok(example_add_ref(heap, this))
        }
    }
}

/// `example_release` for any address. Where the operation is a contract
/// violation (no object there, or an object that is gone) it is reported and
/// nothing changes: nothing is deallocated a second time. Else one
/// reference is given back, and the object is deallocated where it was the
/// last.
pub fn try_example_release(heap: &mut Heap<ExampleImpl>, this: usize) -> (res: Result<
    u32,
    RefCountError,
>)
    ensures
        match fault_of(
            old(heap).was_allocated(this),
            example_count(*old(heap), this),
            RefOp::Release,
        ) {
            Some(fault) => res == Err::<u32, RefCountError>(fault) && *final(heap) == *old(heap),
            None => {
                &&& res == Ok::<u32, RefCountError>((old(heap)@[this].ref_cnt@ - 1) as u32)
                &&& old(heap)@[this].ref_cnt@ == 1 ==> {
                    &&& final(heap)@ == old(heap)@.remove(this)
                    &&& !final(heap)@.contains_key(this)
                    &&& final(heap).deallocations() == old(heap).deallocations() + 1
                }
                &&& old(heap)@[this].ref_cnt@ > 1 ==> {
                    &&& final(heap)@.contains_key(this)
                    &&& final(heap)@[this].ref_cnt@ == old(heap)@[this].ref_cnt@ - 1
                    &&& final(heap)@[this].value == old(heap)@[this].value
                    &&& final(heap)@ == old(heap)@.insert(this, final(heap)@[this])
                    &&& final(heap).deallocations() == old(heap).deallocations()
                }
                &&& final(heap).allocations() == old(heap).allocations()
            },
        },
{
    if !heap.is_live(this) {
        if heap.was_handed_out(this) {
            Err(RefCountError::Dead)
        } else {
            Err(RefCountError::NoObject)
        }
    } else if heap.get(this).ref_cnt.get() == 0 {
        Err(RefCountError::Dead)
    } else {
        Ok(example_release(heap, this))
    }
}

} // verus!
