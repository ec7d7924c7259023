//! The value descriptors: the shapes of data that cross the C boundary.
//!
//! Foreign code reads these by offset and by discriminant, so the C-layout
//! twins of these types live with the code that owns the raw pointers. Here
//! the types carry the values and the rules about them.

use vstd::prelude::*;

verus! {

/// A compiled-in constant offered to foreign code.
pub const SOME_CONSTANT: u64 = 12345678;

/// The record: a one-byte field followed by an eight-byte field, in this
/// order.
#[derive(Clone, Copy, Debug, PartialEq, Eq, Structural)]
pub struct TestStruct {
    pub x: u8,
    pub y: u64,
}

impl TestStruct {
    /// The record as `fill_struct` leaves it. The prior contents play no
    /// part: both fields are overwritten.
    pub open spec fn filled(self) -> TestStruct {
        TestStruct { x: 42, y: 12345678 }
    }
}

/// The enumerated value: a closed set of three variants whose C
/// discriminants are 1, 2 and 3, in declaration order.
#[derive(Clone, Copy, Debug, PartialEq, Eq, Structural)]
pub enum TestEnum {
    One,
    Two,
    Three,
}

impl TestEnum {
    /// The C discriminant of a variant.
    pub open spec fn discriminant_spec(self) -> i32 {
        match self {
            TestEnum::One => 1,
            TestEnum::Two => 2,
            TestEnum::Three => 3,
        }
    }

    /// The C discriminant of a variant, as the integer that foreign code
    /// passes for it.
    #[verifier::when_used_as_spec(discriminant_spec)]
    pub fn discriminant(self) -> (d: i32)
        ensures
            d == self.discriminant_spec(),
            1 <= d <= 3,
    {
        match self {
            TestEnum::One => 1,
            TestEnum::Two => 2,
            TestEnum::Three => 3,
        }
    }
}

} // verus!
