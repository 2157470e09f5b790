//! Runtime support for device discovery handlers: endpoint resolution,
//! transport planning with socket-file lifecycle, bounded-channel semantics,
//! the discovery stream adapter, and the registration / supervision protocol.

pub mod addr;
pub mod channels;
pub mod discovery;
pub mod endpoint;
pub mod registration;
pub mod server;
pub mod supervisor;
