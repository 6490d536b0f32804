use vstd::prelude::*;

use crate::collector::Layout;
use crate::descent::{recorded, sizes_of, GetLayout, GetLayoutType, Opaque};

verus! {

/// A value of a type recorded whole yields exactly one record, whose size is
/// the type's storage size.
pub proof fn lemma_opaque_one_record<T: Opaque>(value: &T)
    ensures
        value.layout_sizes().len() == 1,
        value.layout_sizes()[0] == size_of::<T>() as usize,
{
}

/// The storage sizes of the primitive scalars, as recorded.
pub proof fn lemma_scalar_sizes(b: bool, c: char, x8: u8, x16: u16, x32: u32, x64: u64, x128: u128, s32: i32)
    ensures
        b.layout_sizes() == seq![1usize],
        c.layout_sizes() == seq![4usize],
        x8.layout_sizes() == seq![1usize],
        x16.layout_sizes() == seq![2usize],
        x32.layout_sizes() == seq![4usize],
        x64.layout_sizes() == seq![8usize],
        x128.layout_sizes() == seq![16usize],
        s32.layout_sizes() == seq![4usize],
        ().layout_sizes() == seq![0usize],
{
    broadcast use vstd::layout::group_layout_axioms;

    assert(b.layout_sizes() =~= seq![1usize]);
    assert(c.layout_sizes() =~= seq![4usize]);
    assert(x8.layout_sizes() =~= seq![1usize]);
    assert(x16.layout_sizes() =~= seq![2usize]);
    assert(x32.layout_sizes() =~= seq![4usize]);
    assert(x64.layout_sizes() =~= seq![8usize]);
    assert(x128.layout_sizes() =~= seq![16usize]);
    assert(s32.layout_sizes() =~= seq![4usize]);
    assert(().layout_sizes() =~= seq![0usize]);
}

/// An array of `M` elements yields exactly one record, of `M` times the
/// element size, whatever the element type.
pub proof fn lemma_array_one_record<T, const M: usize>(array: &[T; M])
    ensures
        array.layout_sizes() == seq![(M * size_of::<T>()) as usize],
        <[T; M]>::layout_type_sizes() == Seq::<usize>::empty(),
{
}

/// Recording one value into two fresh collectors of the same capacity gives
/// the same number of records, the same sizes in the same order, and the same
/// outcome.
pub proof fn lemma_same_value_same_sizes<T: GetLayout>(
    value: &T,
    cap: nat,
    first_before: Seq<Layout>,
    first_after: Seq<Layout>,
    first_ok: bool,
    second_before: Seq<Layout>,
    second_after: Seq<Layout>,
    second_ok: bool,
)
    requires
        first_before.len() == 0,
        second_before.len() == 0,
        recorded(first_before, first_after, value.layout_sizes(), cap, first_ok),
        recorded(second_before, second_after, value.layout_sizes(), cap, second_ok),
    ensures
        first_after.len() == second_after.len(),
        sizes_of(first_after) == sizes_of(second_after),
        first_ok == second_ok,
{
    assert(sizes_of(first_before) =~= sizes_of(second_before));
    assert(first_after.len() == sizes_of(first_after).len());
    assert(second_after.len() == sizes_of(second_after).len());
}

} // verus!
