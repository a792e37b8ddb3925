use vstd::prelude::*;

verus! {

/// One of the two operations that move a reference count.
#[derive(Clone, Copy, Debug, PartialEq, Eq, Structural)]
pub enum RefOp {
    AddRef,
    Release,
}

/// Why a checked operation on a reference count was refused.
#[derive(Clone, Copy, Debug, PartialEq, Eq, Structural)]
pub enum RefCountError {
    /// There is no object to count for: the address is null, or no
    /// allocation ever handed it out.
    NoObject,
    /// The count had already reached zero: the object is gone.
    Dead,
    /// One more reference would not fit in the counter.
    Overflow,
}

/// The contract violation that `op` is, if it is one, on what stands at an
/// address: `count` is the count of the object allocated there, or nothing
/// where none is; `handed_out` says whether an allocation ever handed the
/// address out. An operation on a count of zero, or on an object that was
/// deallocated, is `Dead`; it is never carried out.
pub open spec fn fault_of(handed_out: bool, count: Option<nat>, op: RefOp) -> Option<
    RefCountError,
> {
    match count {
        None => if handed_out {
            Some(RefCountError::Dead)
        } else {
            Some(RefCountError::NoObject)
        },
        Some(held) => if held == 0 {
            Some(RefCountError::Dead)
        } else if op == RefOp::AddRef && held >= u32::MAX {
            Some(RefCountError::Overflow)
        } else {
            None
        },
    }
}

/// The contract violation that a query is, if it is one, on what stands at
/// an address. A query adds a reference only where the object answers it,
/// so a full counter refuses only such a query; where there is no live
/// object, every query is refused.
pub open spec fn query_fault_of(handed_out: bool, count: Option<nat>, answers: bool) -> Option<
    RefCountError,
> {
    match fault_of(handed_out, count, RefOp::AddRef) {
        Some(RefCountError::Overflow) => if answers {
            Some(RefCountError::Overflow)
        } else {
            None
        },
        other => other,
    }
}

/// The count after one operation on a live object, or `None` where the
/// operation is a contract violation because the count is already zero.
pub open spec fn step(count: nat, op: RefOp) -> Option<nat> {
    if count == 0 {
        None
    } else {
        match op {
            RefOp::AddRef => Some(count + 1),
            RefOp::Release => Some((count - 1) as nat),
        }
    }
}

/// The count after a sequence of operations, or `None` where one of them is
/// issued on a count of zero.
pub open spec fn run(count: nat, ops: Seq<RefOp>) -> Option<nat>
    decreases ops.len(),
{
    if ops.len() == 0 {
        Some(count)
    } else {
        match step(count, ops[0]) {
            None => None,
            Some(next) => run(next, ops.drop_first()),
        }
    }
}

/// How many of the operations are `op`.
pub open spec fn occurrences(ops: Seq<RefOp>, op: RefOp) -> nat
    decreases ops.len(),
{
    if ops.len() == 0 {
        0
    } else {
        occurrences(ops.drop_first(), op) + if ops[0] == op {
            1nat
        } else {
            0nat
        }
    }
}

/// A reference count: seeded by the factory, moved by one at a time, and
/// never moved again once it has reached zero.
#[derive(Clone, Copy, Debug)]
pub struct RefCount {
    count: u32,
}

impl View for RefCount {
    type V = nat;

    closed spec fn view(&self) -> nat {
        self.count as nat
    }
}

impl RefCount {
    /// A counter that holds `count` references.
    pub fn new(count: u32) -> (rc: RefCount)
        ensures
            rc@ == count,
    {
        RefCount { count }
    }

    /// The number of references held.
    pub fn get(&self) -> (count: u32)
        ensures
            count == self@,
    {
        self.count
    }

    /// Whether the object that carries this count is still alive.
    pub fn is_live(&self) -> (live: bool)
        ensures
            live == (self@ >= 1),
    {
        self.count >= 1
    }

    /// Adds one reference and returns the new count.
    pub fn add_ref(&mut self) -> (count: u32)
        requires
            1 <= old(self)@ < u32::MAX,
        ensures
            step(old(self)@, RefOp::AddRef) == Some(final(self)@),
            final(self)@ == old(self)@ + 1,
            count == final(self)@,
    {
        self.count = self.count + 1;
        self.count
    }

    /// Gives one reference back and returns the new count; at zero the
    /// object is to be deallocated by the caller in the same step.
    pub fn release(&mut self) -> (count: u32)
        requires
            old(self)@ >= 1,
        ensures
            step(old(self)@, RefOp::Release) == Some(final(self)@),
            final(self)@ == old(self)@ - 1,
            count == final(self)@,
    {
        self.count = self.count - 1;
        self.count
    }

    /// `add_ref` for callers that cannot promise a live count: a dead count
    /// or a full counter is reported and left as it was.
    pub fn try_add_ref(&mut self) -> (res: Result<u32, RefCountError>)
        ensures
            res is Err <==> fault_of(true, Some(old(self)@), RefOp::AddRef) is Some,
            res is Err ==> res->Err_0 == fault_of(true, Some(old(self)@), RefOp::AddRef)->0,
            old(self)@ == 0 ==> res == Err::<u32, RefCountError>(RefCountError::Dead),
            old(self)@ == u32::MAX ==> res == Err::<u32, RefCountError>(RefCountError::Overflow),
            1 <= old(self)@ < u32::MAX ==> res == Ok::<u32, RefCountError>(
                (old(self)@ + 1) as u32,
            ),
            res is Ok ==> final(self)@ == old(self)@ + 1,
            res is Err ==> final(self)@ == old(self)@,
    {
        if self.count == 0 {
            Err(RefCountError::Dead)
        } else if self.count == u32::MAX {
            Err(RefCountError::Overflow)
        } else {
            Ok(self.add_ref())
        }
    }

    /// `release` for callers that cannot promise a live count: a second
    /// release after zero is reported and the count stays at zero.
    pub fn try_release(&mut self) -> (res: Result<u32, RefCountError>)
        ensures
            res is Err <==> fault_of(true, Some(old(self)@), RefOp::Release) is Some,
            res is Err ==> res->Err_0 == fault_of(true, Some(old(self)@), RefOp::Release)->0,
            old(self)@ == 0 ==> res == Err::<u32, RefCountError>(RefCountError::Dead),
            old(self)@ >= 1 ==> res == Ok::<u32, RefCountError>((old(self)@ - 1) as u32),
            res is Ok ==> final(self)@ == old(self)@ - 1,
            res is Err ==> final(self)@ == old(self)@,
    {
        if self.count == 0 {
            Err(RefCountError::Dead)
        } else {
            Ok(self.release())
        }
    }
}

/// The counter that holds `count` references.
pub closed spec fn counter(count: nat) -> RefCount {
    RefCount { count: count as u32 }
}

/// A counter is the counter of its own count, and `counter` holds the count
/// that it was given where that fits.
pub proof fn lemma_counter_of(rc: RefCount)
    ensures
        counter(rc@) == rc,
        rc@ <= u32::MAX,
{
}

/// `counter` holds the count that it was given, where that fits.
pub proof fn lemma_counter(count: nat)
    requires
        count <= u32::MAX,
    ensures
        counter(count)@ == count,
{
}

/// A sequence of operations none of which is issued on a dead object leaves
/// the count at the initial count, plus the number of `AddRef`, minus the
/// number of `Release`; and the count was at least one before each of them.
pub proof fn lemma_count_after_ops(initial: nat, ops: Seq<RefOp>)
    requires
        run(initial, ops) is Some,
    ensures
        run(initial, ops)->0 + occurrences(ops, RefOp::Release) == initial + occurrences(
            ops,
            RefOp::AddRef,
        ),
        ops.len() > 0 ==> initial >= 1,
    decreases ops.len(),
{
    if ops.len() > 0 {
        let next = step(initial, ops[0])->0;
        lemma_count_after_ops(next, ops.drop_first());
    }
}

/// Running a sequence in two parts gives what running it whole gives.
pub proof fn lemma_run_split(initial: nat, first: Seq<RefOp>, rest: Seq<RefOp>)
    ensures
        run(initial, first + rest) == match run(initial, first) {
            None => None,
            Some(mid) => run(mid, rest),
        },
    decreases first.len(),
{
    if first.len() == 0 {
        assert(first + rest =~= rest);
    } else {
        assert((first + rest).drop_first() =~= first.drop_first() + rest);
        match step(initial, first[0]) {
            None => {},
            Some(next) => {
                lemma_run_split(next, first.drop_first(), rest);
            },
        }
    }
}

/// While a sequence runs without a violation, the object stays alive after
/// every operation but possibly the last: each proper prefix leaves a count
/// of at least one.
pub proof fn lemma_alive_while_running(initial: nat, ops: Seq<RefOp>, n: int)
    requires
        run(initial, ops) is Some,
        0 <= n < ops.len(),
    ensures
        run(initial, ops.take(n)) is Some,
        run(initial, ops.take(n))->0 >= 1,
{
    lemma_run_split(initial, ops.take(n), ops.skip(n));
    assert(ops.take(n) + ops.skip(n) =~= ops);
    let mid = run(initial, ops.take(n))->0;
    assert(ops.skip(n).len() > 0);
    lemma_count_after_ops(mid, ops.skip(n));
}

/// An operation on an allocated object is refused exactly where it is a
/// contract violation or its result would not fit in the counter; on a
/// count of zero it is always refused as `Dead`, whichever operation it is,
/// and so is any operation at an address whose object was deallocated.
pub proof fn lemma_fault_iff_no_step(count: nat, op: RefOp)
    requires
        count <= u32::MAX,
    ensures
        fault_of(true, Some(count), op) is None <==> (step(count, op) is Some && step(
            count,
            op,
        )->0 <= u32::MAX),
        step(0, op) is None,
        fault_of(true, Some(0), op) == Some(RefCountError::Dead),
        fault_of(true, None, op) == Some(RefCountError::Dead),
{
}

/// Once the count has reached zero, every further operation is a contract
/// violation: no sequence that goes on after that runs through.
pub proof fn lemma_dead_stays_dead(ops: Seq<RefOp>)
    requires
        ops.len() > 0,
    ensures
        run(0, ops) is None,
{
}

} // verus!
