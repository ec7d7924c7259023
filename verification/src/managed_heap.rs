//! Allocation on the managed heap.
//!
//! The record is built complete and then moved onto the heap, so no memory
//! of it is ever seen half-written. The box that comes back is the owning
//! handle; giving up that ownership at the boundary is the caller's step.

use crate::values::TestStruct;
use vstd::prelude::*;

verus! {

/// The field values that mark a record as allocated on the managed heap.
pub open spec fn initial_record() -> TestStruct {
    TestStruct { x: 7, y: 78901234 }
}

/// Allocates a record on the heap, fully initialized from its first
/// moment. There is no failure to report: when the heap is exhausted the
/// process ends.
pub fn allocate_struct() -> (handle: Box<TestStruct>)
    ensures
        *handle == initial_record(),
        handle.x == 7,
        handle.y == 78901234,
{
    let ts = Box::new(TestStruct { x: 7, y: 78901234 });
    ts
}

} // verus!
