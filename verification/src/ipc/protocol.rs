//! The messages of the control endpoint. On the wire each message is one
//! JSON object on a line of its own.

use vstd::prelude::*;
use crate::ssh::types::SshConfig;
use crate::text::{is_whitespace, trim, trim_end, trim_start, trimmed};

verus! {

/// A JSON value of the `serde_json` crate. Nothing is known of what such
/// a value holds: it is carried through.
#[verifier::external_type_specification]
#[verifier::external_body]
pub struct ExJsonValue(serde_json::Value);

/// A request as it comes off the wire.
#[derive(Debug, Clone, PartialEq)]
pub struct IpcRequest {
    pub token: Option<String>,
    pub command: String,
    pub params: Option<serde_json::Value>,
}

/// A response as it goes onto the wire.
#[derive(Debug, Clone, PartialEq)]
pub struct IpcResponse {
    pub success: bool,
    pub data: Option<serde_json::Value>,
    pub error: Option<String>,
}

impl IpcResponse {
    /// The response to a command that was carried out, with the data that
    /// it gave, if any could be encoded.
    pub fn success(data: Option<serde_json::Value>) -> (response: IpcResponse)
        ensures
            response.success,
            response.data == data,
            response.error is None,
    {
        IpcResponse { success: true, data, error: None }
    }

    /// The response to a command that failed, with the message for the
    /// caller.
    pub fn error(message: &str) -> (response: IpcResponse)
        ensures
            response.is_error(message@),
    {
        IpcResponse { success: false, data: None, error: Some(String::from_str(message)) }
    }

    /// Whether the response reports a failure with this message and
    /// nothing else.
    pub open spec fn is_error(self, message: Seq<char>) -> bool {
        &&& !self.success
        &&& self.data is None
        &&& match self.error {
            Some(text) => text@ == message,
            None => false,
        }
    }
}

/// The commands of the endpoint.
#[derive(Debug, Clone, PartialEq, Eq)]
pub enum IpcCommand {
    Ping,
    AddSshTab { params: AddSshTabParams },
    AddLocalTab { params: AddLocalTabParams },
    CloseTab { params: CloseTabParams },
    ListTabs,
}

/// What `ping` answers.
#[derive(Debug, Clone, PartialEq, Eq)]
pub struct PingResponse {
    pub version: String,
    pub pid: u32,
}

/// What `add_ssh_tab` is given.
#[derive(Debug, Clone, PartialEq, Eq)]
pub struct AddSshTabParams {
    pub config: SshConfig,
    pub cols: u16,
    pub rows: u16,
}

/// What `add_local_tab` is given.
#[derive(Debug, Clone, PartialEq, Eq)]
pub struct AddLocalTabParams {
    pub cwd: Option<String>,
    pub cols: u16,
    pub rows: u16,
}

/// What `close_tab` is given.
#[derive(Debug, Clone, PartialEq, Eq)]
pub struct CloseTabParams {
    pub tab_id: String,
}

/// What `close_tab` answers.
#[derive(Debug, Clone, PartialEq, Eq)]
pub struct CloseTabResponse {
    pub tab_id: String,
    pub closed: bool,
}

/// One tab in the answer of `list_tabs`. `tab_type` is `local` or `ssh`.
#[derive(Debug, Clone, PartialEq, Eq)]
pub struct TabInfo {
    pub tab_id: String,
    pub tab_type: String,
    pub title: String,
    pub active: bool,
}

/// What `list_tabs` answers.
#[derive(Debug, Clone, PartialEq, Eq)]
pub struct ListTabsResponse {
    pub tabs: Vec<TabInfo>,
}

/// What can go wrong at the endpoint. Each variant carries the detail that
/// follows the fixed text of its message.
#[derive(Debug, Clone, PartialEq, Eq)]
pub enum IpcError {
    ServerStartFailed(String),
    BindFailed(String),
    AcceptFailed(String),
    ParseError(String),
    UnknownCommand(String),
    InvalidParams(String),
    IoError(String),
    JsonError(String),
}

impl IpcError {
    /// The fixed text that opens the message of this kind of error.
    pub open spec fn prefix(self) -> Seq<char> {
        match self {
            IpcError::ServerStartFailed(_) => "Failed to start IPC server: "@,
            IpcError::BindFailed(_) => "Failed to bind to IPC endpoint: "@,
            IpcError::AcceptFailed(_) => "Failed to accept connection: "@,
            IpcError::ParseError(_) => "Failed to parse request: "@,
            IpcError::UnknownCommand(_) => "Unknown command: "@,
            IpcError::InvalidParams(_) => "Invalid parameters: "@,
            IpcError::IoError(_) => "IO error: "@,
            IpcError::JsonError(_) => "JSON error: "@,
        }
    }

    /// The detail that the error carries.
    pub open spec fn detail(self) -> Seq<char> {
        match self {
            IpcError::ServerStartFailed(d) => d@,
            IpcError::BindFailed(d) => d@,
            IpcError::AcceptFailed(d) => d@,
            IpcError::ParseError(d) => d@,
            IpcError::UnknownCommand(d) => d@,
            IpcError::InvalidParams(d) => d@,
            IpcError::IoError(d) => d@,
            IpcError::JsonError(d) => d@,
        }
    }

    /// The message shown to a user: the fixed text, then the detail.
    pub open spec fn message_text(self) -> Seq<char> {
        self.prefix() + self.detail()
    }

    /// The message shown to a user.
    pub fn message(&self) -> (out: String)
        ensures
            out@ == self.message_text(),
    {
        match self {
            IpcError::ServerStartFailed(d) => String::from_str("Failed to start IPC server: ").concat(d.as_str()),
            IpcError::BindFailed(d) => String::from_str("Failed to bind to IPC endpoint: ").concat(d.as_str()),
            IpcError::AcceptFailed(d) => String::from_str("Failed to accept connection: ").concat(d.as_str()),
            IpcError::ParseError(d) => String::from_str("Failed to parse request: ").concat(d.as_str()),
            IpcError::UnknownCommand(d) => String::from_str("Unknown command: ").concat(d.as_str()),
            IpcError::InvalidParams(d) => String::from_str("Invalid parameters: ").concat(d.as_str()),
            IpcError::IoError(d) => String::from_str("IO error: ").concat(d.as_str()),
            IpcError::JsonError(d) => String::from_str("JSON error: ").concat(d.as_str()),
        }
    }
}

/// A message as it stands on the wire: its text, then a line feed.
pub open spec fn framed(text: Seq<char>) -> Seq<char> {
    text.push('\n')
}

/// Puts a message on a line of its own.
pub fn frame(text: &str) -> (line: String)
    ensures
        line@ == framed(text@),
{
    let line = String::from_str(text).concat("\n");
    proof {
        reveal_strlit("\n");
        assert(line@ =~= framed(text@));
    }
    line
}

/// Takes the message off its line: the line without the white space at
/// its ends.
pub fn unframe(line: &str) -> (text: String)
    ensures
        text@ == trimmed(line@),
{
    trim(line)
}

/// Framing round-trips: a message that neither starts nor ends with white
/// space, as every JSON object does, is what unframing makes of its line.
pub proof fn lemma_frame_round_trip(text: Seq<char>)
    requires
        text.len() > 0,
        !is_whitespace(text[0]),
        !is_whitespace(text.last()),
    ensures
        trimmed(framed(text)) == text,
{
    let line = framed(text);
    assert(line[0] == text[0]);
    assert(trim_start(line) == line);
    assert(is_whitespace('\n'));
    assert(line.last() == '\n');
    assert(line.drop_last() =~= text);
    assert(trim_end(line) == trim_end(text));
}

} // verus!
