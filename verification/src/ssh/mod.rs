//! Remote shell sessions over SSH.

pub mod types;
pub mod session;
pub mod manager;

pub use manager::SshManager;
pub use session::{ChannelRequest, ConnectNext, ConnectStep, SshCommand, SshEvent, SshSession};
pub use types::{
    AuthMethod, CreateSshRequest, CreateSshResponse, ResizeSshRequest, SshConfig, SshError,
    SshExitEvent, SshOutputEvent, WriteSshRequest,
};
