//! Plain data of the SSH layer.

use vstd::prelude::*;
use crate::text::{decimal, decimal_string};

verus! {

/// How a user proves their identity to the server.
#[derive(Debug, Clone, PartialEq, Eq)]
pub enum AuthMethod {
    Password { password: String },
    PrivateKey { path: String, passphrase: Option<String> },
}

/// Where and as whom to connect.
#[derive(Debug, Clone, PartialEq, Eq)]
pub struct SshConfig {
    pub host: String,
    pub port: u16,
    pub username: String,
    pub auth_method: AuthMethod,
}

/// The host and the port as one text, a colon between them.
pub open spec fn address_text(host: Seq<char>, port: u16) -> Seq<char> {
    host + ":"@ + decimal(port as nat)
}

/// Writes the host and the port as one text.
pub fn address_of(host: &str, port: u16) -> (address: String)
    ensures
        address@ == address_text(host@, port),
{
    let number = decimal_string(port as u64);
    String::from_str(host).concat(":").concat(number.as_str())
}

impl SshConfig {
    /// A configuration names a port above zero and a user.
    pub open spec fn valid(self) -> bool {
        self.port >= 1 && self.username@.len() > 0
    }

    /// Tells whether the configuration names a port above zero and a user.
    pub fn is_valid(&self) -> (b: bool)
        ensures
            b == self.valid(),
    {
        self.port >= 1 && !self.username.as_str().is_empty()
    }

    /// The address to connect to.
    pub fn address(&self) -> (address: String)
        ensures
            address@ == address_text(self.host@, self.port),
    {
        address_of(self.host.as_str(), self.port)
    }
}

/// What the caller learns of a session that was opened.
#[derive(Debug, Clone, PartialEq, Eq)]
pub struct CreateSshResponse {
    pub session_id: String,
    pub host: String,
    pub username: String,
}

/// What a caller asks for when it wants a new remote shell.
#[derive(Debug, Clone, PartialEq, Eq)]
pub struct CreateSshRequest {
    pub config: SshConfig,
    pub cols: u16,
    pub rows: u16,
}

/// Input for a remote shell.
#[derive(Debug, Clone, PartialEq, Eq)]
pub struct WriteSshRequest {
    pub session_id: String,
    pub data: String,
}

/// A new size for the terminal of a remote shell.
#[derive(Debug, Clone, PartialEq, Eq)]
pub struct ResizeSshRequest {
    pub session_id: String,
    pub cols: u16,
    pub rows: u16,
}

/// Output of a remote shell, as sent to the user interface.
#[derive(Debug, Clone, PartialEq, Eq)]
pub struct SshOutputEvent {
    pub session_id: String,
    pub data: String,
}

/// The end of a remote shell, as sent to the user interface.
#[derive(Debug, Clone, PartialEq, Eq)]
pub struct SshExitEvent {
    pub session_id: String,
    pub reason: String,
}

/// What can go wrong in the SSH layer. Each variant carries the detail
/// that follows the fixed text of its message.
#[derive(Debug, Clone, PartialEq, Eq)]
pub enum SshError {
    SessionNotFound(String),
    ConnectionFailed(String),
    AuthenticationFailed(String),
    WriteFailed(String),
    ResizeFailed(String),
    IoError(String),
    SshError(String),
}

impl SshError {
    /// The fixed text that opens the message of this kind of error.
    pub open spec fn prefix(self) -> Seq<char> {
        match self {
            SshError::SessionNotFound(_) => "Session not found: "@,
            SshError::ConnectionFailed(_) => "Connection failed: "@,
            SshError::AuthenticationFailed(_) => "Authentication failed: "@,
            SshError::WriteFailed(_) => "Failed to write to SSH session: "@,
            SshError::ResizeFailed(_) => "Failed to resize SSH session: "@,
            SshError::IoError(_) => "IO error: "@,
            SshError::SshError(_) => "SSH error: "@,
        }
    }

    /// The detail that the error carries.
    pub open spec fn detail(self) -> Seq<char> {
        match self {
            SshError::SessionNotFound(d) => d@,
            SshError::ConnectionFailed(d) => d@,
            SshError::AuthenticationFailed(d) => d@,
            SshError::WriteFailed(d) => d@,
            SshError::ResizeFailed(d) => d@,
            SshError::IoError(d) => d@,
            SshError::SshError(d) => d@,
        }
    }

    /// The message shown to a user: the fixed text, then the detail.
    pub open spec fn message_text(self) -> Seq<char> {
        self.prefix() + self.detail()
    }

    /// The message shown to a user.
    pub fn message(&self) -> (out: String)
        ensures
            out@ == self.message_text(),
    {
        match self {
            SshError::SessionNotFound(d) => String::from_str("Session not found: ").concat(d.as_str()),
            SshError::ConnectionFailed(d) => String::from_str("Connection failed: ").concat(d.as_str()),
            SshError::AuthenticationFailed(d) => String::from_str("Authentication failed: ").concat(d.as_str()),
            SshError::WriteFailed(d) => String::from_str("Failed to write to SSH session: ").concat(d.as_str()),
            SshError::ResizeFailed(d) => String::from_str("Failed to resize SSH session: ").concat(d.as_str()),
            SshError::IoError(d) => String::from_str("IO error: ").concat(d.as_str()),
            SshError::SshError(d) => String::from_str("SSH error: ").concat(d.as_str()),
        }
    }
}

} // verus!
