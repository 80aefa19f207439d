//! The local control endpoint: its line protocol, the handling of each
//! command, and the decisions of the server that accepts connections.

pub mod protocol;
pub mod events;
pub mod handler;
pub mod server;
pub mod platform;

pub use protocol::{IpcCommand, IpcError, IpcRequest, IpcResponse};
pub use server::IpcServer;
