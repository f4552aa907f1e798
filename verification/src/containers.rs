//! Containers that Edgehog deploys on the device.

pub mod node;
pub mod volume;
