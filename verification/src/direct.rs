//! Allocation by a direct call to a C allocator.
//!
//! The allocator is asked for exactly one record's worth of raw memory and
//! answers with a block or with its null signal. The block starts out
//! uninitialized, so the record is never assembled inside it field by
//! field: it is decided here as one complete value, and the owner of the
//! pointer places it with a single write.

use crate::values::TestStruct;
use vstd::prelude::*;

verus! {

/// What the C allocator answered.
#[derive(Clone, Copy, Debug, PartialEq, Eq, Structural)]
pub enum RawBlock {
    /// The allocator could not serve the request.
    Null,
    /// A block of the requested size, holding nothing yet.
    Uninit,
}

/// The field values that mark a record as placed by the direct strategy.
pub open spec fn initial_record() -> TestStruct {
    TestStruct { x: 8, y: 89012345 }
}

/// What `allocate_struct` hands back for each answer of the allocator.
pub open spec fn placement(block: RawBlock) -> Option<TestStruct> {
    match block {
        RawBlock::Null => None,
        RawBlock::Uninit => Some(initial_record()),
    }
}

/// Decides what goes into the block that the allocator returned.
///
/// For a fresh block the result is the complete record to place in it.
/// For the null signal the result is `None`: the null handle goes back to
/// the foreign caller as it came, and nothing is written through it. The
/// caller of the boundary has to test the handle before use.
pub fn allocate_struct(block: RawBlock) -> (placed: Option<TestStruct>)
    ensures
        placed == placement(block),
        placed is Some <==> block is Uninit,
        placed matches Some(ts) ==> ts.x == 8 && ts.y == 89012345,
{
    match block {
        RawBlock::Null => None,
        RawBlock::Uninit => Some(TestStruct { x: 8, y: 89012345 }),
    }
}

} // verus!
