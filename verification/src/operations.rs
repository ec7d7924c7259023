//! The operations that work on memory a foreign caller already holds.
//!
//! Each one takes an ordinary reference, so a handle has been tested for
//! null and turned into a reference before it gets here.

use crate::values::{TestEnum, TestStruct};
use vstd::prelude::*;

verus! {

/// The number of bytes that `fill_buffer` writes.
pub const GREETING_LEN: usize = 12;

/// The bytes of the text `hello world`, closed by a zero byte.
pub open spec fn greeting() -> Seq<u8> {
    seq![104u8, 101, 108, 108, 111, 32, 119, 111, 114, 108, 100, 0]
}

/// A buffer after `fill_buffer`: the greeting, then the bytes that were
/// there before beyond it.
pub open spec fn filled_buffer(before: Seq<u8>) -> Seq<u8> {
    greeting() + before.skip(12)
}

/// Writes the greeting into the start of the buffer and leaves every byte
/// behind it as it was.
///
/// The buffer must hold at least twelve bytes; a shorter one is the
/// caller's fault and has no defined outcome at the boundary.
pub fn fill_buffer(buf: &mut [u8])
    requires
        old(buf)@.len() >= 12,
    ensures
        final(buf)@ == filled_buffer(old(buf)@),
        final(buf)@.len() == old(buf)@.len(),
        final(buf)@.subrange(0, 12) == greeting(),
        forall|i: int| 12 <= i < old(buf)@.len() ==> final(buf)@[i] == old(buf)@[i],
{
    let s: [u8; 12] = [104, 101, 108, 108, 111, 32, 119, 111, 114, 108, 100, 0];
    let mut i: usize = 0;
    while i < GREETING_LEN
        invariant
            i <= 12,
            s@ == greeting(),
            buf@.len() == old(buf)@.len(),
            buf@.len() >= 12,
            forall|j: int| 0 <= j < i ==> buf@[j] == greeting()[j],
            forall|j: int| i <= j < buf@.len() ==> buf@[j] == old(buf)@[j],
        decreases 12 - i,
    {
        buf[i] = s[i];
        i = i + 1;
    }
    assert(buf@ =~= filled_buffer(old(buf)@));
    assert(buf@.subrange(0, 12) =~= greeting());
}

/// Overwrites both fields of a record in place.
pub fn fill_struct(ptr: &mut TestStruct)
    ensures
        *final(ptr) == old(ptr).filled(),
        final(ptr).x == 42,
        final(ptr).y == 12345678,
{
    ptr.x = 42;
    ptr.y = 12345678;
}

/// Whether a value is the second variant.
pub open spec fn is_second(x: TestEnum) -> bool {
    x.discriminant_spec() == 2
}

/// Tells whether the value passed is the second variant.
#[verifier::when_used_as_spec(is_second)]
pub fn handle_enum(x: TestEnum) -> (second: bool)
    ensures
        second == is_second(x),
        second <==> x == TestEnum::Two,
{
    x == TestEnum::Two
}

} // verus!
