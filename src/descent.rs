use vstd::prelude::*;

use crate::collector::{AddressSource, CapacityExceeded, Layout, LayoutCollector};

verus! {

/// The sizes of a sequence of records, in order.
pub open spec fn sizes_of(records: Seq<Layout>) -> Seq<usize> {
    records.map_values(|l: Layout| l.size)
}

/// How many more records fit after `held` of them, with capacity `cap`.
pub open spec fn room(held: nat, cap: nat) -> nat {
    if held >= cap {
        0
    } else {
        (cap - held) as nat
    }
}

/// The sizes held after appending records of sizes `added` to records of sizes
/// `held`, in a collector of capacity `cap`: all of them when they fit, else the
/// ones that fit, in order, and nothing after the first that does not.
pub open spec fn appended(held: Seq<usize>, added: Seq<usize>, cap: nat) -> Seq<usize> {
    if added.len() <= room(held.len(), cap) {
        held + added
    } else {
        held + added.take(room(held.len(), cap) as int)
    }
}

/// What a traversal that contributes records of sizes `added` does to a
/// collector of capacity `cap`: earlier records stay as they were, the sizes
/// that follow are `appended`, and it succeeds exactly when all of them fit.
pub open spec fn recorded(
    before: Seq<Layout>,
    after: Seq<Layout>,
    added: Seq<usize>,
    cap: nat,
    ok: bool,
) -> bool {
    &&& before.len() <= after.len()
    &&& after.subrange(0, before.len() as int) == before
    &&& sizes_of(after) == appended(sizes_of(before), added, cap)
    &&& ok <==> sizes_of(before).len() + added.len() <= cap
}

/// Type-level descent: what a type contributes without an instance in hand,
/// such as a generic wrapper forwarding its parameter's type-level records.
pub trait GetLayoutType {
    /// The sizes of the records that `get_layout_type` appends; by default
    /// none.
    open spec fn layout_type_sizes() -> Seq<usize> {
        Seq::empty()
    }

    fn get_layout_type<A: AddressSource, const N: usize>(layout: &mut LayoutCollector<A, N>) -> (r:
        Result<(), CapacityExceeded>)
        ensures
            recorded(old(layout)@, final(layout)@, Self::layout_type_sizes(), N as nat, r is Ok),
            final(layout).source() == old(layout).source(),
    ;
}

/// Instance-level descent: appends the records of a value's memory regions.
pub trait GetLayout: Sized {
    /// The sizes of the records that `get_layout` appends for this value; by
    /// default one record of the whole value.
    open spec fn layout_sizes(&self) -> Seq<usize> {
        seq![size_of::<Self>() as usize]
    }

    fn get_layout<A: AddressSource, const N: usize>(&self, layout: &mut LayoutCollector<A, N>) -> (r:
        Result<(), CapacityExceeded>)
        ensures
            recorded(old(layout)@, final(layout)@, self.layout_sizes(), N as nat, r is Ok),
            final(layout).source() == old(layout).source(),
    ;
}

/// Type-level descent that appends nothing.
pub fn record_nothing<A: AddressSource, const N: usize>(layout: &mut LayoutCollector<A, N>) -> (r:
    Result<(), CapacityExceeded>)
    ensures
        recorded(old(layout)@, final(layout)@, Seq::empty(), N as nat, r is Ok),
        final(layout).source() == old(layout).source(),
{
    proof {
        use_type_invariant(&*layout);
        assert(sizes_of(layout@) + Seq::<usize>::empty() =~= sizes_of(layout@));
        assert(layout@.subrange(0, layout@.len() as int) =~= layout@);
    }
    Ok(())
}

/// Appending in two steps appends the concatenation: sizes `a`, then sizes
/// `b`, give what sizes `a + b` give in one step.
pub proof fn lemma_appended_concat(held: Seq<usize>, a: Seq<usize>, b: Seq<usize>, cap: nat)
    ensures
        appended(appended(held, a, cap), b, cap) == appended(held, a + b, cap),
{
    let r = room(held.len(), cap);
    if a.len() <= r {
        assert(room((held + a).len(), cap) == r - a.len());
        if b.len() <= r - a.len() {
            assert(held + a + b =~= held + (a + b));
        } else {
            assert(held + a + b.take(r - a.len()) =~= held + (a + b).take(r as int));
        }
    } else {
        assert(room((held + a.take(r as int)).len(), cap) == 0);
        if b.len() == 0 {
            assert(held + a.take(r as int) + b =~= held + (a + b).take(r as int));
        } else {
            assert(held + a.take(r as int) + b.take(0) =~= held + (a + b).take(r as int));
        }
    }
}

/// Descending into parts in order records the concatenation of the parts'
/// records: a traversal contributing `a` followed by one contributing `b`
/// contributes `a + b`, and succeeds exactly when both do.
pub proof fn lemma_recorded_in_order(
    before: Seq<Layout>,
    middle: Seq<Layout>,
    after: Seq<Layout>,
    a: Seq<usize>,
    b: Seq<usize>,
    cap: nat,
    ok_a: bool,
    ok_b: bool,
)
    requires
        before.len() <= cap,
        recorded(before, middle, a, cap, ok_a),
        recorded(middle, after, b, cap, ok_b),
    ensures
        recorded(before, after, a + b, cap, ok_a && ok_b),
{
    lemma_appended_concat(sizes_of(before), a, b, cap);
    assert(after.subrange(0, before.len() as int) =~= middle.subrange(0, before.len() as int));
}

/// A traversal that stops at the first part that does not fit has recorded
/// what the whole would have: once the collector is full, later parts add
/// nothing.
pub proof fn lemma_recorded_stop(
    before: Seq<Layout>,
    after: Seq<Layout>,
    a: Seq<usize>,
    b: Seq<usize>,
    cap: nat,
)
    requires
        recorded(before, after, a, cap, false),
    ensures
        recorded(before, after, a + b, cap, false),
{
    let r = room(sizes_of(before).len(), cap);
    assert(sizes_of(before).len() == before.len());
    if a.len() > r {
        assert(sizes_of(before) + a.take(r as int) =~= sizes_of(before) + (a + b).take(r as int));
    } else {
        assert(r == 0 && a.len() == 0);
        assert(sizes_of(before) + a =~= sizes_of(before) + (a + b).take(0));
        if b.len() == 0 {
            assert(sizes_of(before) + a =~= sizes_of(before) + (a + b));
        }
    }
}

/// Records `value` as one region of `size` bytes at its address, followed by
/// the type-level records of `T`.
fn record_region<T: GetLayoutType, A: AddressSource, const N: usize>(
    value: &T,
    size: usize,
    layout: &mut LayoutCollector<A, N>,
) -> (r: Result<(), CapacityExceeded>)
    ensures
        recorded(old(layout)@, final(layout)@, seq![size] + T::layout_type_sizes(), N as nat, r is Ok),
        final(layout).source() == old(layout).source(),
{
    proof {
        use_type_invariant(&*layout);
    }
    let ghost before = layout@;
    let address = layout.addresses().address_of(value);
    let record = Layout { address, size };
    match layout.push(record) {
        Ok(()) => {
            let ghost middle = layout@;
            proof {
                assert(sizes_of(middle) =~= sizes_of(before) + seq![size]);
                assert(middle.subrange(0, before.len() as int) =~= before);
            }
            let r = T::get_layout_type(layout);
            proof {
                lemma_recorded_in_order(before, middle, layout@, seq![size], T::layout_type_sizes(), N as nat, true, r is Ok);
            }
            r
        },
        Err(e) => {
            proof {
                assert(sizes_of(before) + seq![size].take(0) =~= sizes_of(before));
                assert(before.subrange(0, before.len() as int) =~= before);
                lemma_recorded_stop(before, layout@, seq![size], T::layout_type_sizes(), N as nat);
            }
            Err(e)
        },
    }
}

/// Structural descent: records `value` whole, as one region of its type's
/// size at its address, followed by the type-level records of `T`.
pub fn record_whole<T: GetLayoutType, A: AddressSource, const N: usize>(
    value: &T,
    layout: &mut LayoutCollector<A, N>,
) -> (r: Result<(), CapacityExceeded>)
    ensures
        recorded(old(layout)@, final(layout)@, whole_sizes::<T>(), N as nat, r is Ok),
        final(layout).source() == old(layout).source(),
{
    record_region(value, core::mem::size_of::<T>(), layout)
}

/// The sizes that structural descent records for a value of type `T`.
pub open spec fn whole_sizes<T: GetLayoutType>() -> Seq<usize> {
    seq![size_of::<T>() as usize] + T::layout_type_sizes()
}

/// Types recorded whole by structural descent: one region of the type's size,
/// and no type-level records.
pub trait Opaque {

}

impl<T: Opaque> GetLayoutType for T {
    open spec fn layout_type_sizes() -> Seq<usize> {
        Seq::empty()
    }

    fn get_layout_type<A: AddressSource, const N: usize>(layout: &mut LayoutCollector<A, N>) -> (r:
        Result<(), CapacityExceeded>) {
        record_nothing(layout)
    }
}

impl<T: Opaque> GetLayout for T {
    open spec fn layout_sizes(&self) -> Seq<usize> {
        whole_sizes::<T>()
    }

    fn get_layout<A: AddressSource, const N: usize>(&self, layout: &mut LayoutCollector<A, N>) -> (r:
        Result<(), CapacityExceeded>) {
        record_whole(self, layout)
    }
}

impl Opaque for bool {

}

impl Opaque for char {

}

impl Opaque for u8 {

}

impl Opaque for u16 {

}

impl Opaque for u32 {

}

impl Opaque for u64 {

}

impl Opaque for u128 {

}

impl Opaque for usize {

}

impl Opaque for i8 {

}

impl Opaque for i16 {

}

impl Opaque for i32 {

}

impl Opaque for i64 {

}

impl Opaque for i128 {

}

impl Opaque for isize {

}

impl Opaque for () {

}

/// Relies on core::mem::size_of: an array `[T; M]` occupies `M` times the
/// size of `T`, as its documentation states.
#[verifier::external_body]
fn array_size<T, const M: usize>() -> (r: usize)
    ensures
        r as nat == M * size_of::<T>(),
{
    core::mem::size_of::<[T; M]>()
}

impl<T, const M: usize> GetLayoutType for [T; M] {
    open spec fn layout_type_sizes() -> Seq<usize> {
        Seq::empty()
    }

    fn get_layout_type<A: AddressSource, const N: usize>(layout: &mut LayoutCollector<A, N>) -> (r:
        Result<(), CapacityExceeded>) {
        record_nothing(layout)
    }
}

/// An array is recorded whole, as one region of `M` elements.
impl<T, const M: usize> GetLayout for [T; M] {
    open spec fn layout_sizes(&self) -> Seq<usize> {
        seq![(M * size_of::<T>()) as usize]
    }

    fn get_layout<A: AddressSource, const N: usize>(&self, layout: &mut LayoutCollector<A, N>) -> (r:
        Result<(), CapacityExceeded>) {
        let size = array_size::<T, M>();
        let r = record_region(self, size, layout);
        proof {
            assert(seq![size] + Self::layout_type_sizes() =~= self.layout_sizes());
        }
        r
    }
}

} // verus!
