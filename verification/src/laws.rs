//! What holds of the operations taken together.

use crate::direct;
use crate::managed_heap;
use crate::operations::{filled_buffer, greeting, is_second};
use crate::values::{TestEnum, TestStruct};
use vstd::prelude::*;

verus! {

/// Of the three variants exactly one is accepted by `handle_enum`: the one
/// whose discriminant is 2.
pub proof fn lemma_exactly_one_variant_is_second()
    ensures
        forall|v: TestEnum| is_second(v) <==> v == TestEnum::Two,
        forall|v: TestEnum| is_second(v) <==> v.discriminant_spec() == 2,
        exists|v: TestEnum| is_second(v),
        forall|v: TestEnum, w: TestEnum| is_second(v) && is_second(w) ==> v == w,
{
    assert(is_second(TestEnum::Two));
}

/// The discriminant tells the variants apart, and takes no value but 1, 2
/// and 3.
pub proof fn lemma_discriminant_is_injective(v: TestEnum, w: TestEnum)
    ensures
        1 <= v.discriminant_spec() <= 3,
        v.discriminant_spec() == w.discriminant_spec() <==> v == w,
{
}

/// Filling a record twice leaves what filling it once leaves.
pub proof fn lemma_fill_struct_is_idempotent(record: TestStruct)
    ensures
        record.filled().filled() == record.filled(),
{
}

/// Filling does not depend on what the record held: any two records are
/// equal once filled.
pub proof fn lemma_fill_struct_ignores_prior_contents(a: TestStruct, b: TestStruct)
    ensures
        a.filled() == b.filled(),
        a.filled() == (TestStruct { x: 42, y: 12345678 }),
{
}

/// A record fresh from either allocation strategy, once filled, shows both
/// overwritten fields and neither of the values it was allocated with.
pub proof fn lemma_fill_after_allocate(allocated: TestStruct)
    requires
        allocated == managed_heap::initial_record() || allocated == direct::initial_record(),
    ensures
        allocated.filled() == (TestStruct { x: 42, y: 12345678 }),
        allocated.filled().x != allocated.x,
        allocated.filled().y != allocated.y,
{
}

/// The two strategies mark their records differently, so a record shows
/// which strategy made it.
pub proof fn lemma_strategies_are_distinguishable()
    ensures
        managed_heap::initial_record() != direct::initial_record(),
        managed_heap::initial_record().x != direct::initial_record().x,
        managed_heap::initial_record().y != direct::initial_record().y,
{
}

/// A filled buffer keeps its length, starts with the greeting, and holds
/// behind it what it held before.
pub proof fn lemma_filled_buffer_shape(before: Seq<u8>)
    requires
        before.len() >= 12,
    ensures
        filled_buffer(before).len() == before.len(),
        filled_buffer(before).subrange(0, 12) == greeting(),
        filled_buffer(before).skip(12) == before.skip(12),
        forall|i: int| 12 <= i < before.len() ==> filled_buffer(before)[i] == before[i],
{
    assert(filled_buffer(before).subrange(0, 12) =~= greeting());
    assert(filled_buffer(before).skip(12) =~= before.skip(12));
}

} // verus!
