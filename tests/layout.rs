use layout_trait::{
    record_nothing, record_whole, AddressSource, CapacityExceeded, GetLayout, GetLayoutType,
    Layout, LayoutCollector,
};

// Tests look only at sizes: the addresses of values on the stack change from
// run to run, so a fixed address stands in for them.
struct FixedAddress;

impl AddressSource for FixedAddress {
    fn address_of<T>(&self, _value: &T) -> usize {
        7
    }
}

fn sizes<const N: usize>(layout: &LayoutCollector<FixedAddress, N>) -> Vec<usize> {
    layout.as_slice().iter().map(|l| l.size).collect()
}

struct Proxy {}

impl GetLayoutType for Proxy {
    fn get_layout_type<A: AddressSource, const N: usize>(
        layout: &mut LayoutCollector<A, N>,
    ) -> Result<(), CapacityExceeded> {
        layout.push(Layout {
            address: 1024,
            size: 4,
        })
    }
}

impl GetLayout for Proxy {
    fn get_layout<A: AddressSource, const N: usize>(
        &self,
        layout: &mut LayoutCollector<A, N>,
    ) -> Result<(), CapacityExceeded> {
        record_whole(self, layout)
    }
}

struct Simple {
    data: u32,
    data2: u64,
}

impl GetLayout for Simple {
    fn get_layout<A: AddressSource, const N: usize>(
        &self,
        layout: &mut LayoutCollector<A, N>,
    ) -> Result<(), CapacityExceeded> {
        self.data.get_layout(layout)?;
        self.data2.get_layout(layout)
    }
}

struct Complex {
    simple: Simple,
    data2: Proxy,
}

impl GetLayout for Complex {
    fn get_layout<A: AddressSource, const N: usize>(
        &self,
        layout: &mut LayoutCollector<A, N>,
    ) -> Result<(), CapacityExceeded> {
        self.simple.get_layout(layout)?;
        self.data2.get_layout(layout)
    }
}

#[test]
fn test_u32() {
    let data: u32 = 32;
    let mut layout: LayoutCollector<FixedAddress, 8> = LayoutCollector::new(FixedAddress);
    assert!(data.get_layout(&mut layout).is_ok());
    println!("{:?}", layout.as_slice());

    assert!(layout.as_slice()[0].size == 4)
}

#[test]
fn test_array_u32() {
    let data: [u32; 16] = [32; 16];

    let mut layout: LayoutCollector<FixedAddress, 8> = LayoutCollector::new(FixedAddress);
    assert!(data.get_layout(&mut layout).is_ok());
    println!("{:?}", layout.as_slice());

    assert!(layout.as_slice()[0].size == 64)
}

#[test]
fn test_simple() {
    let data = Simple { data: 0, data2: 0 };
    let mut layout: LayoutCollector<FixedAddress, 8> = LayoutCollector::new(FixedAddress);
    assert!(data.get_layout(&mut layout).is_ok());
    println!("{:?}", layout.as_slice());

    assert!(layout.as_slice()[0].size == 4);
    assert!(layout.as_slice()[1].size == 8);
}

#[test]
fn test_complex() {
    let data = Complex {
        simple: Simple { data: 0, data2: 0 },
        data2: Proxy {},
    };

    let mut layout: LayoutCollector<FixedAddress, 8> = LayoutCollector::new(FixedAddress);
    assert!(data.get_layout(&mut layout).is_ok());
    println!("{:?}", layout.as_slice());

    assert!(layout.as_slice()[0].size == 4);
    assert!(layout.as_slice()[1].size == 8);
    assert!(layout.as_slice()[2].size == 0); // Proxy is zero-sized
    assert!(layout.as_slice()[3].size == 4); // Proxy's type-level record
}

#[test]
fn scalars_yield_one_record_of_their_size() {
    let mut layout: LayoutCollector<FixedAddress, 16> = LayoutCollector::new(FixedAddress);
    assert!(true.get_layout(&mut layout).is_ok());
    assert!('x'.get_layout(&mut layout).is_ok());
    assert!(1u8.get_layout(&mut layout).is_ok());
    assert!(1u16.get_layout(&mut layout).is_ok());
    assert!(1u64.get_layout(&mut layout).is_ok());
    assert!(1u128.get_layout(&mut layout).is_ok());
    assert!((-1i32).get_layout(&mut layout).is_ok());
    assert!(().get_layout(&mut layout).is_ok());
    assert_eq!(sizes(&layout), vec![1, 4, 1, 2, 8, 16, 4, 0]);
    assert_eq!(layout.len(), 8);
}

#[test]
fn scalar_record_carries_its_address() {
    let mut layout: LayoutCollector<FixedAddress, 2> = LayoutCollector::new(FixedAddress);
    assert!(5u32.get_layout(&mut layout).is_ok());
    assert_eq!(layout.as_slice()[0].address, 7);
    assert_eq!(layout.as_slice()[0].size, 4);
}

#[test]
fn arrays_are_one_record_of_all_elements() {
    let mut layout: LayoutCollector<FixedAddress, 4> = LayoutCollector::new(FixedAddress);
    let bytes: [u8; 3] = [1, 2, 3];
    let words: [u64; 5] = [0; 5];
    let none: [u32; 0] = [];
    assert!(bytes.get_layout(&mut layout).is_ok());
    assert!(words.get_layout(&mut layout).is_ok());
    assert!(none.get_layout(&mut layout).is_ok());
    assert_eq!(sizes(&layout), vec![3, 40, 0]);
}

#[test]
fn nesting_concatenates_in_order() {
    let data = Complex {
        simple: Simple { data: 1, data2: 2 },
        data2: Proxy {},
    };
    let mut layout: LayoutCollector<FixedAddress, 8> = LayoutCollector::new(FixedAddress);
    assert!(data.get_layout(&mut layout).is_ok());
    assert!(9u16.get_layout(&mut layout).is_ok());
    assert_eq!(sizes(&layout), vec![4, 8, 0, 4, 2]);
    assert_eq!(layout.as_slice()[3].address, 1024);
}

#[test]
fn overflow_fails_and_keeps_earlier_records() {
    let data = Complex {
        simple: Simple { data: 0, data2: 0 },
        data2: Proxy {},
    };
    let mut layout: LayoutCollector<FixedAddress, 3> = LayoutCollector::new(FixedAddress);
    assert_eq!(data.get_layout(&mut layout), Err(CapacityExceeded));
    assert_eq!(sizes(&layout), vec![4, 8, 0]);
    assert_eq!(layout.len(), layout.capacity());

    assert_eq!(1u8.get_layout(&mut layout), Err(CapacityExceeded));
    assert_eq!(sizes(&layout), vec![4, 8, 0]);
}

#[test]
fn push_beyond_capacity_fails() {
    let mut layout: LayoutCollector<FixedAddress, 1> = LayoutCollector::new(FixedAddress);
    assert_eq!(layout.push(Layout { address: 1, size: 2 }), Ok(()));
    assert_eq!(layout.push(Layout { address: 3, size: 4 }), Err(CapacityExceeded));
    assert_eq!(layout.len(), 1);
    assert_eq!(layout.as_slice()[0].address, 1);
    assert_eq!(layout.as_slice()[0].size, 2);
}

#[test]
fn zero_capacity_collector_rejects_any_record() {
    let mut layout: LayoutCollector<FixedAddress, 0> = LayoutCollector::new(FixedAddress);
    assert_eq!(3u32.get_layout(&mut layout), Err(CapacityExceeded));
    assert_eq!(layout.len(), 0);
    assert_eq!(record_nothing(&mut layout), Ok(()));
}

#[test]
fn two_collectors_give_the_same_sizes() {
    let data = Simple { data: 3, data2: 4 };
    let mut first: LayoutCollector<FixedAddress, 8> = LayoutCollector::new(FixedAddress);
    let mut second: LayoutCollector<FixedAddress, 8> = LayoutCollector::new(FixedAddress);
    assert!(data.get_layout(&mut first).is_ok());
    assert!(data.get_layout(&mut second).is_ok());
    assert_eq!(first.len(), second.len());
    assert_eq!(sizes(&first), sizes(&second));
    assert_eq!(sizes(&first), vec![4, 8]);
}

#[test]
fn type_level_descent_of_scalars_adds_nothing() {
    let mut layout: LayoutCollector<FixedAddress, 2> = LayoutCollector::new(FixedAddress);
    assert_eq!(<u32 as GetLayoutType>::get_layout_type(&mut layout), Ok(()));
    assert_eq!(<[u8; 4] as GetLayoutType>::get_layout_type(&mut layout), Ok(()));
    assert_eq!(layout.len(), 0);
    assert_eq!(<Proxy as GetLayoutType>::get_layout_type(&mut layout), Ok(()));
    assert_eq!(sizes(&layout), vec![4]);
}
