//! Typed buffer handles for handing arrays across a C ABI.

pub mod containers;
pub mod laws;
pub mod region;
pub mod types;

pub use containers::{ContainerView, RustyDataContainer};
pub use region::{ConversionType, Region, Store};
pub use types::{get_itemsize, Binary32, Binary64, DTYPE, MUTABILITY, OWNERSHIP};
