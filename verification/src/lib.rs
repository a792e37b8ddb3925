use vstd::prelude::*;

pub mod com;
pub mod description;
pub mod example;
pub mod heap;
pub mod iid;
pub mod importer;
pub mod lifecycle;
pub mod sandbox;
pub mod student;

verus! {

/// Sum of two unsigned 64-bit numbers.
pub fn add(left: u64, right: u64) -> (sum: u64)
    requires
        left + right <= u64::MAX,
    ensures
        sum == left + right,
{
    left + right
}

} // verus!
