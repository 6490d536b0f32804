use vstd::prelude::*;

verus! {

/// heapless's fixed-capacity vector, which holds the records; opaque here.
#[verifier::external_type_specification]
#[verifier::external_body]
#[verifier::reject_recursive_types(T)]
pub struct ExHeaplessVec<T, const N: usize>(heapless::Vec<T, N>);

/// One contiguous memory region: where it starts and how many bytes it spans.
#[derive(Debug, Clone, Copy)]
pub struct Layout {
    pub address: usize,
    pub size: usize,
}

/// Error of an append onto a collector that is already full.
#[derive(Debug, Clone, Copy, PartialEq, Eq)]
pub struct CapacityExceeded;

/// Tells the address at which a value is stored in this process. Addresses
/// vary from run to run, so nothing is stated of them.
pub trait AddressSource {
    /// The address of `value`'s storage.
    fn address_of<T>(&self, value: &T) -> usize;
}

/// A fixed-capacity, append-only, insertion-ordered list of layout records.
///
/// `contents` is the sequence that `records` holds. Only the three methods
/// that call into heapless touch `records`, and each keeps `contents` in step.
pub struct LayoutCollector<A, const N: usize> {
    addresses: A,
    records: heapless::Vec<Layout, N>,
    contents: Ghost<Seq<Layout>>,
}

impl<A, const N: usize> LayoutCollector<A, N> {
    /// The address source this collector was made with.
    pub closed spec fn source(&self) -> A {
        self.addresses
    }

    /// At most `N` records are ever held.
    #[verifier::type_invariant]
    pub open spec fn within_capacity(&self) -> bool {
        self@.len() <= N
    }
}

impl<A, const N: usize> View for LayoutCollector<A, N> {
    type V = Seq<Layout>;

    closed spec fn view(&self) -> Seq<Layout> {
        self.contents@
    }
}

impl<A: AddressSource, const N: usize> LayoutCollector<A, N> {
    /// An empty collector that takes addresses from `addresses`.
    pub fn new(addresses: A) -> (r: Self)
        ensures
            r@ == Seq::<Layout>::empty(),
            r.source() == addresses,
    {
        Self::fresh(addresses)
    }

    /// Relies on heapless::Vec::new: a vector with no elements.
    #[verifier::external_body]
    fn fresh(addresses: A) -> (r: Self)
        ensures
            r@ == Seq::<Layout>::empty(),
            r.source() == addresses,
    {
        LayoutCollector { addresses, records: heapless::Vec::new(), contents: Ghost(Seq::empty()) }
    }

    /// The records held, in the order they were appended.
    pub fn as_slice(&self) -> (r: &[Layout])
        ensures
            r@ == self@,
    {
        self.held()
    }

    /// Relies on heapless::Vec::as_slice: the held elements, in order.
    #[verifier::external_body]
    fn held(&self) -> (r: &[Layout])
        ensures
            r@ == self@,
    {
        self.records.as_slice()
    }

    /// The number of records held.
    pub fn len(&self) -> (r: usize)
        ensures
            r == self@.len(),
            r <= N,
    {
        proof {
            use_type_invariant(self);
        }
        self.as_slice().len()
    }

    /// The capacity, `N`.
    pub fn capacity(&self) -> (r: usize)
        ensures
            r == N,
    {
        N
    }

    /// The address source this collector was made with.
    pub fn addresses(&self) -> (r: &A)
        ensures
            *r == self.source(),
    {
        &self.addresses
    }

    /// Appends `record` at the end; fails, leaving the records as they were,
    /// when `N` are already held.
    pub fn push(&mut self, record: Layout) -> (r: Result<(), CapacityExceeded>)
        ensures
            r is Ok <==> old(self)@.len() < N,
            r is Ok ==> final(self)@ == old(self)@.push(record),
            r is Err ==> final(self)@ == old(self)@,
            final(self).source() == old(self).source(),
    {
        match self.push_record(record) {
            Ok(()) => Ok(()),
            Err(_) => Err(CapacityExceeded),
        }
    }

    /// Relies on heapless::Vec::push: the item goes at the end while fewer than
    /// `N` are held, and is handed back, with nothing changed, otherwise.
    #[verifier::external_body]
    fn push_record(&mut self, record: Layout) -> (r: Result<(), Layout>)
        ensures
            old(self)@.len() < N ==> r is Ok && final(self)@ == old(self)@.push(record),
            old(self)@.len() >= N ==> r is Err && final(self)@ == old(self)@,
            final(self).source() == old(self).source(),
    {
        self.records.push(record)
    }
}

} // verus!
