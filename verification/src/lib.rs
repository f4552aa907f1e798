//! Logic of the Edgehog device runtime: over-the-air updates, the forwarder
//! that bridges HTTP and WebSocket connections, and container requests.

pub mod containers;
pub mod data;
pub mod e2e;
pub mod forwarder;
pub mod ota;
pub mod string_map;
pub mod text;
pub mod uuids;
