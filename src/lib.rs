pub mod collector;
pub mod descent;
pub mod laws;

pub use heapless;

pub use collector::{AddressSource, CapacityExceeded, Layout, LayoutCollector};
pub use descent::{record_nothing, record_whole, GetLayout, GetLayoutType, Opaque};
