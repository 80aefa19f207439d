//! The server of the control endpoint: its accept loop, its
//! connections, and its shutdown.

use vstd::prelude::*;
use crate::ipc::protocol::{frame, framed, unframe, IpcResponse};
use crate::text::trimmed;

verus! {

/// What the accept loop waits for.
#[derive(Debug, Clone, PartialEq, Eq)]
pub enum ServerEvent {
    /// The shutdown signal came.
    Shutdown,
    /// A client connected.
    Accepted,
    /// Accepting failed with this message.
    AcceptFailed(String),
    /// The listener for the next client could not be set up.
    NextInstanceFailed(String),
}

/// What the accept loop does about an event.
#[derive(Debug, Clone, Copy, PartialEq, Eq, Structural)]
pub enum ServerAction {
    /// Serve the connection on a task of its own and go on accepting;
    /// `renew` says whether a new listener is set up for the next client.
    Serve { renew: bool },
    /// Note the failure and go on accepting.
    Continue,
    /// Leave the loop and clean up the endpoint.
    Stop,
}

/// One turn of the accept loop. A client is served and accepting goes on,
/// on a pipe with a new instance; a failure to accept is passed over;
/// the shutdown signal, and a pipe that cannot be renewed, end the loop.
pub fn run_server(event: &ServerEvent, named_pipe: bool) -> (action: ServerAction)
    ensures
        action == (match *event {
            ServerEvent::Shutdown => ServerAction::Stop,
            ServerEvent::Accepted => ServerAction::Serve { renew: named_pipe },
            ServerEvent::AcceptFailed(_) => ServerAction::Continue,
            ServerEvent::NextInstanceFailed(_) => ServerAction::Stop,
        }),
{
    match event {
        ServerEvent::Shutdown => ServerAction::Stop,
        ServerEvent::Accepted => ServerAction::Serve { renew: named_pipe },
        ServerEvent::AcceptFailed(_) => ServerAction::Continue,
        ServerEvent::NextInstanceFailed(_) => ServerAction::Stop,
    }
}

/// How reading a line from a connection came back.
#[derive(Debug, Clone, PartialEq, Eq)]
pub enum LineRead {
    /// The client closed the connection.
    Eof,
    /// This line came.
    Line(String),
    /// Reading failed.
    Failed(String),
}

/// What a connection does about a line.
#[derive(Debug, Clone, PartialEq)]
pub enum ConnectionAction {
    /// Close the connection.
    Close,
    /// Answer with this response and read on.
    Reply(IpcResponse),
    /// Decode this text as a request, handle it, answer, and read on.
    Decode(String),
}

/// The answer to a line that holds nothing but white space.
pub open spec fn is_empty_request(response: IpcResponse) -> bool {
    response.is_error("Empty request"@)
}

/// Takes a request off its line: the text to decode, or the answer to a
/// line that holds nothing.
pub fn process_request(line: &str) -> (request: Result<String, IpcResponse>)
    ensures
        match request {
            Ok(text) => text@ == trimmed(line@) && text@.len() > 0,
            Err(response) => trimmed(line@).len() == 0 && is_empty_request(response),
        },
{
    let text = unframe(line);
    if text.as_str().is_empty() {
        Err(IpcResponse::error("Empty request"))
    } else {
        Ok(text)
    }
}

/// The answer to a request that is no valid JSON, or lacks what a
/// request must have.
pub fn invalid_json(cause: &str) -> (response: IpcResponse)
    ensures
        response.is_error("Invalid JSON: "@ + cause@),
{
    let message = String::from_str("Invalid JSON: ").concat(cause);
    IpcResponse::error(message.as_str())
}

/// One turn of a connection: the end of the stream and a failed read close
/// it; a line is answered at once if it is empty, and is decoded and
/// handled otherwise.
pub fn handle_connection(read: LineRead) -> (action: ConnectionAction)
    ensures
        match read {
            LineRead::Eof => action == ConnectionAction::Close,
            LineRead::Failed(_) => action == ConnectionAction::Close,
            LineRead::Line(line) => if trimmed(line@).len() == 0 {
                match action {
                    ConnectionAction::Reply(response) => is_empty_request(response),
                    _ => false,
                }
            } else {
                match action {
                    ConnectionAction::Decode(text) => text@ == trimmed(line@),
                    _ => false,
                }
            },
        },
{
    match read {
        LineRead::Eof => ConnectionAction::Close,
        LineRead::Failed(_) => ConnectionAction::Close,
        LineRead::Line(line) => match process_request(line.as_str()) {
            Ok(text) => ConnectionAction::Decode(text),
            Err(response) => ConnectionAction::Reply(response),
        },
    }
}

/// The line that carries an encoded response: its text, then a line
/// feed.
pub fn response_line(encoded: &str) -> (line: String)
    ensures
        line@ == framed(encoded@),
{
    frame(encoded)
}

/// The server as its owner sees it: the means to tell the accept loop to
/// stop, until that has been done.
#[derive(Debug)]
pub struct IpcServer<S> {
    shutdown_tx: Option<S>,
}

impl<S> IpcServer<S> {
    /// The signal that is still to be sent, if any.
    pub closed spec fn pending(&self) -> Option<S> {
        self.shutdown_tx
    }

    /// The server whose accept loop stops at `shutdown_tx`.
    pub fn start(shutdown_tx: S) -> (server: IpcServer<S>)
        ensures
            server.pending() == Some(shutdown_tx),
    {
        IpcServer { shutdown_tx: Some(shutdown_tx) }
    }

    /// Hands out the signal to send to the accept loop. It is handed out
    /// once: shutting down again does nothing.
    pub fn shutdown(&mut self) -> (signal: Option<S>)
        ensures
            signal == old(self).pending(),
            final(self).pending() is None,
    {
        self.shutdown_tx.take()
    }
}

} // verus!
