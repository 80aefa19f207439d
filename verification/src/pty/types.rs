//! Plain data of the pseudo-terminal layer.

use vstd::prelude::*;

verus! {

/// What a caller asks for when it wants a new terminal.
#[derive(Debug, Clone, PartialEq, Eq)]
pub struct CreatePtyRequest {
    pub shell: Option<String>,
    pub cwd: Option<String>,
    pub env: Option<Vec<(String, String)>>,
    pub cols: u16,
    pub rows: u16,
}

impl CreatePtyRequest {
    /// A terminal has at least one column and one row.
    pub open spec fn valid(self) -> bool {
        self.cols >= 1 && self.rows >= 1
    }

    /// Tells whether the size asked for is one a terminal can have.
    pub fn is_valid(&self) -> (b: bool)
        ensures
            b == self.valid(),
    {
        self.cols >= 1 && self.rows >= 1
    }
}

/// What the caller learns of a terminal that was created.
#[derive(Debug, Clone, PartialEq, Eq)]
pub struct CreatePtyResponse {
    pub pty_id: String,
    pub pid: u32,
    pub shell: String,
}

/// Input for a terminal.
#[derive(Debug, Clone, PartialEq, Eq)]
pub struct WritePtyRequest {
    pub pty_id: String,
    pub data: String,
}

/// A new size for a terminal.
#[derive(Debug, Clone, PartialEq, Eq)]
pub struct ResizePtyRequest {
    pub pty_id: String,
    pub cols: u16,
    pub rows: u16,
}

/// Output of a terminal, as sent to the user interface.
#[derive(Debug, Clone, PartialEq, Eq)]
pub struct PtyOutputEvent {
    pub pty_id: String,
    pub data: String,
}

/// The end of a terminal, as sent to the user interface.
#[derive(Debug, Clone, PartialEq, Eq)]
pub struct PtyExitEvent {
    pub pty_id: String,
    pub exit_code: Option<i32>,
}

/// What can go wrong in the pseudo-terminal layer. Each variant carries
/// the detail that follows the fixed text of its message.
#[derive(Debug, Clone, PartialEq, Eq)]
pub enum PtyError {
    SessionNotFound(String),
    CreationFailed(String),
    WriteFailed(String),
    ResizeFailed(String),
    IoError(String),
    PtyError(String),
}

impl PtyError {
    /// The fixed text that opens the message of this kind of error.
    pub open spec fn prefix(self) -> Seq<char> {
        match self {
            PtyError::SessionNotFound(_) => "Session not found: "@,
            PtyError::CreationFailed(_) => "Failed to create PTY: "@,
            PtyError::WriteFailed(_) => "Failed to write to PTY: "@,
            PtyError::ResizeFailed(_) => "Failed to resize PTY: "@,
            PtyError::IoError(_) => "IO error: "@,
            PtyError::PtyError(_) => "PTY error: "@,
        }
    }

    /// The detail that the error carries.
    pub open spec fn detail(self) -> Seq<char> {
        match self {
            PtyError::SessionNotFound(d) => d@,
            PtyError::CreationFailed(d) => d@,
            PtyError::WriteFailed(d) => d@,
            PtyError::ResizeFailed(d) => d@,
            PtyError::IoError(d) => d@,
            PtyError::PtyError(d) => d@,
        }
    }

    /// The message shown to a user: the fixed text, then the detail.
    pub open spec fn message_text(self) -> Seq<char> {
        self.prefix() + self.detail()
    }

    /// The message shown to a user.
    pub fn message(&self) -> (out: String)
        ensures
            out@ == self.message_text(),
    {
        match self {
            PtyError::SessionNotFound(d) => String::from_str("Session not found: ").concat(d.as_str()),
            PtyError::CreationFailed(d) => String::from_str("Failed to create PTY: ").concat(d.as_str()),
            PtyError::WriteFailed(d) => String::from_str("Failed to write to PTY: ").concat(d.as_str()),
            PtyError::ResizeFailed(d) => String::from_str("Failed to resize PTY: ").concat(d.as_str()),
            PtyError::IoError(d) => String::from_str("IO error: ").concat(d.as_str()),
            PtyError::PtyError(d) => String::from_str("PTY error: ").concat(d.as_str()),
        }
    }
}

} // verus!
