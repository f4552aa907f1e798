//! The forwarder, which bridges HTTP requests and WebSocket connections from
//! Edgehog to the services of the device.

pub mod connection;
pub mod connections;
pub mod headers;
pub mod laws;
pub mod messages;
pub mod session;
pub mod wire;
