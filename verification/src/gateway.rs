//! The gateway itself: the devices that it bridges and the decisions of its tasks.
pub mod bridge;
pub mod device;
pub mod link;
pub mod payload;
pub mod radio;
pub mod registry;
