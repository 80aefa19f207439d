//! One remote shell: the steps that open it, the commands it accepts, and
//! what the reads of its channel turn into.

use vstd::prelude::*;
use vstd::utf8::encode_utf8;
use crate::ssh::types::{AuthMethod, SshConfig, SshError, SshExitEvent, SshOutputEvent};
use crate::stream::{
    next_of, step, ExitCause, ExitCauseView, LoopNext, ReadOutcome, StreamAction, StreamEvent,
    StreamReader,
};

verus! {

/// Bytes asked for in one read of the channel.
pub const READ_BUFFER_SIZE: usize = 4096;

/// Milliseconds to wait when the channel has nothing to read.
pub const POLL_INTERVAL_MS: u64 = 10;

/// The steps that open a remote shell, in the order they are taken.
#[derive(Debug, Clone, Copy, PartialEq, Eq, Structural)]
pub enum ConnectStep {
    /// Open the TCP connection to the address.
    OpenTcp,
    /// Set up the SSH transport.
    CreateSession,
    /// Shake hands with the server.
    Handshake,
    /// Offer the password or the key.
    Authenticate,
    /// Open the session channel.
    OpenChannel,
    /// Ask for a terminal on the channel.
    RequestPty,
    /// Start the shell.
    StartShell,
}

/// What follows a step that went well.
#[derive(Debug, Clone, Copy, PartialEq, Eq, Structural)]
pub enum ConnectNext {
    /// Take this step.
    Step(ConnectStep),
    /// Ask the transport whether it counts as authenticated, and pass the
    /// answer to `confirm_authenticated`.
    CheckAuthenticated,
    /// The shell runs: start the I/O loop.
    Ready,
}

/// What follows each step when it went well.
pub open spec fn next_after(done: ConnectStep) -> ConnectNext {
    match done {
        ConnectStep::OpenTcp => ConnectNext::Step(ConnectStep::CreateSession),
        ConnectStep::CreateSession => ConnectNext::Step(ConnectStep::Handshake),
        ConnectStep::Handshake => ConnectNext::Step(ConnectStep::Authenticate),
        ConnectStep::Authenticate => ConnectNext::CheckAuthenticated,
        ConnectStep::OpenChannel => ConnectNext::Step(ConnectStep::RequestPty),
        ConnectStep::RequestPty => ConnectNext::Step(ConnectStep::StartShell),
        ConnectStep::StartShell => ConnectNext::Ready,
    }
}

/// The text that opens the detail of the error for a step that failed.
pub open spec fn failure_text(failed: ConnectStep, by_password: bool) -> Seq<char> {
    match failed {
        ConnectStep::OpenTcp => "TCP connection failed: "@,
        ConnectStep::CreateSession => "Failed to create session: "@,
        ConnectStep::Handshake => "SSH handshake failed: "@,
        ConnectStep::Authenticate => if by_password {
            "Password auth failed: "@
        } else {
            "Private key auth failed: "@
        },
        ConnectStep::OpenChannel => "Failed to open channel: "@,
        ConnectStep::RequestPty => "Failed to request PTY: "@,
        ConnectStep::StartShell => "Failed to start shell: "@,
    }
}

/// Whether `error` is the error for a step that failed with `cause`: a
/// connection failure for the TCP connection and the handshake, an
/// authentication failure for the authentication, an SSH error for the
/// rest; its detail is the step's text, then the cause.
pub open spec fn is_step_failure(
    error: SshError,
    failed: ConnectStep,
    by_password: bool,
    cause: Seq<char>,
) -> bool {
    &&& error.detail() == failure_text(failed, by_password) + cause
    &&& match failed {
        ConnectStep::OpenTcp => error is ConnectionFailed,
        ConnectStep::Handshake => error is ConnectionFailed,
        ConnectStep::Authenticate => error is AuthenticationFailed,
        _ => error is SshError,
    }
}

/// A command for the I/O loop of a remote shell.
#[derive(Debug, Clone, PartialEq, Eq)]
pub enum SshCommand {
    Write(String),
    Resize(u16, u16),
}

/// What a command asks of the channel.
#[derive(Debug, Clone, PartialEq, Eq)]
pub enum ChannelRequest {
    /// Write all of these bytes, then flush.
    WriteAll(Vec<u8>),
    /// Ask for a terminal of this many columns and rows.
    Resize { cols: u32, rows: u32 },
}

/// The terminal that is asked for on a new channel.
#[derive(Debug, Clone, PartialEq, Eq)]
pub struct PtyRequest {
    pub term: String,
    pub cols: u32,
    pub rows: u32,
    pub width_px: u32,
    pub height_px: u32,
}

/// What a command asks of the channel: a write asks for the bytes of its
/// text, a resize for the new size.
pub open spec fn requested(command: SshCommand, request: ChannelRequest) -> bool {
    match command {
        SshCommand::Write(data) => match request {
            ChannelRequest::WriteAll(bytes) => bytes@ == encode_utf8(data@),
            _ => false,
        },
        SshCommand::Resize(cols, rows) => request == (ChannelRequest::Resize {
            cols: cols as u32,
            rows: rows as u32,
        }),
    }
}

/// The name under which output of a remote shell is published.
pub open spec fn output_event_name(session_id: Seq<char>) -> Seq<char> {
    "ssh://output/"@ + session_id
}

/// The name under which the end of a remote shell is published.
pub open spec fn exit_event_name(session_id: Seq<char>) -> Seq<char> {
    "ssh://exit/"@ + session_id
}

/// The reason given for the end of a remote shell.
pub open spec fn exit_reason(cause: ExitCauseView) -> Seq<char> {
    match cause {
        ExitCauseView::Closed => "Connection closed"@,
        ExitCauseView::Failed(message) => "Read error: "@ + message,
    }
}

/// An event of a remote shell.
#[derive(Debug, Clone, PartialEq, Eq)]
pub enum SshEvent {
    Output(SshOutputEvent),
    Exit(SshExitEvent),
}

impl SshEvent {
    /// The name under which the event is published.
    pub open spec fn name(self) -> Seq<char> {
        match self {
            SshEvent::Output(e) => output_event_name(e.session_id@),
            SshEvent::Exit(e) => exit_event_name(e.session_id@),
        }
    }

    /// The name under which the event is published.
    pub fn event_name(&self) -> (name: String)
        ensures
            name@ == self.name(),
    {
        match self {
            SshEvent::Output(e) => String::from_str("ssh://output/").concat(e.session_id.as_str()),
            SshEvent::Exit(e) => String::from_str("ssh://exit/").concat(e.session_id.as_str()),
        }
    }
}

/// The event that an action of the I/O loop publishes for a remote shell:
/// text becomes output, the end of the stream an exit with its reason.
pub open spec fn published(session_id: Seq<char>, action: StreamAction, event: Option<SshEvent>) -> bool {
    match action {
        StreamAction::Emit(text) => match event {
            Some(SshEvent::Output(e)) => e.session_id@ == session_id && e.data == text,
            _ => false,
        },
        StreamAction::Exit(cause) => match event {
            Some(SshEvent::Exit(e)) => e.session_id@ == session_id && e.reason@ == exit_reason(
                cause.as_view(),
            ),
            _ => false,
        },
        StreamAction::Wait => event is None,
        StreamAction::Stop => event is None,
    }
}

/// A registered remote shell. `handle` is whatever the caller needs to
/// hand commands to the I/O loop that owns the channel.
#[derive(Debug)]
pub struct SshSession<H> {
    pub session_id: String,
    pub config: SshConfig,
    pub handle: H,
}

impl<H> SshSession<H> {
    /// The session for a shell that was started.
    pub fn new(session_id: String, config: SshConfig, handle: H) -> (session: SshSession<H>)
        ensures
            session.session_id == session_id,
            session.config == config,
            session.handle == handle,
    {
        SshSession { session_id, config, handle }
    }

    /// The first step of opening a remote shell.
    pub fn first_step() -> (first: ConnectStep)
        ensures
            first == ConnectStep::OpenTcp,
    {
        ConnectStep::OpenTcp
    }

    /// What follows a step: the next one where it went well, the error
    /// that ends the attempt where it failed.
    pub fn after_step(done: ConnectStep, config: &SshConfig, outcome: Result<(), String>) -> (next:
        Result<ConnectNext, SshError>)
        ensures
            match outcome {
                Ok(_) => next == Ok::<ConnectNext, SshError>(next_after(done)),
                Err(cause) => next is Err && is_step_failure(
                    next->Err_0,
                    done,
                    config.auth_method is Password,
                    cause@,
                ),
            },
    {
        match outcome {
            Ok(_) => Ok(
                match done {
                    ConnectStep::OpenTcp => ConnectNext::Step(ConnectStep::CreateSession),
                    ConnectStep::CreateSession => ConnectNext::Step(ConnectStep::Handshake),
                    ConnectStep::Handshake => ConnectNext::Step(ConnectStep::Authenticate),
                    ConnectStep::Authenticate => ConnectNext::CheckAuthenticated,
                    ConnectStep::OpenChannel => ConnectNext::Step(ConnectStep::RequestPty),
                    ConnectStep::RequestPty => ConnectNext::Step(ConnectStep::StartShell),
                    ConnectStep::StartShell => ConnectNext::Ready,
                },
            ),
            Err(cause) => {
                let cause = cause.as_str();
                Err(
                    match done {
                        ConnectStep::OpenTcp => SshError::ConnectionFailed(
                            String::from_str("TCP connection failed: ").concat(cause),
                        ),
                        ConnectStep::CreateSession => SshError::SshError(
                            String::from_str("Failed to create session: ").concat(cause),
                        ),
                        ConnectStep::Handshake => SshError::ConnectionFailed(
                            String::from_str("SSH handshake failed: ").concat(cause),
                        ),
                        ConnectStep::Authenticate => match &config.auth_method {
                            AuthMethod::Password { .. } => SshError::AuthenticationFailed(
                                String::from_str("Password auth failed: ").concat(cause),
                            ),
                            AuthMethod::PrivateKey { .. } => SshError::AuthenticationFailed(
                                String::from_str("Private key auth failed: ").concat(cause),
                            ),
                        },
                        ConnectStep::OpenChannel => SshError::SshError(
                            String::from_str("Failed to open channel: ").concat(cause),
                        ),
                        ConnectStep::RequestPty => SshError::SshError(
                            String::from_str("Failed to request PTY: ").concat(cause),
                        ),
                        ConnectStep::StartShell => SshError::SshError(
                            String::from_str("Failed to start shell: ").concat(cause),
                        ),
                    },
                )
            },
        }
    }

    /// What follows the authentication once the transport has said whether
    /// it counts as authenticated: the channel, or the error for a server
    /// that accepted the credentials and still is not authenticated.
    pub fn authenticate(authenticated: bool) -> (next: Result<ConnectStep, SshError>)
        ensures
            match next {
                Ok(step) => authenticated && step == ConnectStep::OpenChannel,
                Err(SshError::AuthenticationFailed(d)) => !authenticated && d@
                    == "Authentication failed"@,
                Err(_) => false,
            },
    {
        if authenticated {
            Ok(ConnectStep::OpenChannel)
        } else {
            Err(SshError::AuthenticationFailed(String::from_str("Authentication failed")))
        }
    }

    /// The terminal to ask for on the new channel.
    pub fn pty_request(cols: u16, rows: u16) -> (request: PtyRequest)
        ensures
            request.term@ == "xterm-256color"@,
            request.cols == cols,
            request.rows == rows,
            request.width_px == 0,
            request.height_px == 0,
    {
        PtyRequest {
            term: String::from_str("xterm-256color"),
            cols: cols as u32,
            rows: rows as u32,
            width_px: 0,
            height_px: 0,
        }
    }

    /// The command that writes `data` to the shell.
    pub fn write(&self, data: &str) -> (command: SshCommand)
        ensures
            match command {
                SshCommand::Write(text) => text@ == data@,
                _ => false,
            },
    {
        SshCommand::Write(String::from_str(data))
    }

    /// The command that resizes the terminal of the shell.
    pub fn resize(&self, cols: u16, rows: u16) -> (command: SshCommand)
        ensures
            command == SshCommand::Resize(cols, rows),
    {
        SshCommand::Resize(cols, rows)
    }

    /// What a command asks of the channel.
    pub fn request_for(command: &SshCommand) -> (request: ChannelRequest)
        ensures
            requested(*command, request),
    {
        match command {
            SshCommand::Write(data) => ChannelRequest::WriteAll(data.as_str().as_bytes_vec()),
            SshCommand::Resize(cols, rows) => ChannelRequest::Resize {
                cols: *cols as u32,
                rows: *rows as u32,
            },
        }
    }

    /// What the commands that are pending ask of the channel, in the
    /// order in which they were submitted.
    pub fn requests_for(pending: &Vec<SshCommand>) -> (requests: Vec<ChannelRequest>)
        ensures
            requests@.len() == pending@.len(),
            forall|i: int|
                0 <= i < pending@.len() ==> requested(pending@[i], #[trigger] requests@[i]),
    {
        let mut requests: Vec<ChannelRequest> = Vec::new();
        let mut i: usize = 0;
        while i < pending.len()
            invariant
                i <= pending@.len(),
                requests@.len() == i,
                forall|j: int| 0 <= j < i ==> requested(pending@[j], #[trigger] requests@[j]),
            decreases pending@.len() - i,
        {
            requests.push(Self::request_for(&pending[i]));
            i += 1;
        }
        requests
    }

    /// The event to publish for an action of the I/O loop.
    pub fn event_for(session_id: &str, action: StreamAction) -> (event: Option<SshEvent>)
        ensures
            published(session_id@, action, event),
    {
        match action {
            StreamAction::Emit(text) => Some(
                SshEvent::Output(
                    SshOutputEvent { session_id: String::from_str(session_id), data: text },
                ),
            ),
            StreamAction::Exit(cause) => {
                let reason = match cause {
                    ExitCause::Closed => String::from_str("Connection closed"),
                    ExitCause::Failed(message) => String::from_str("Read error: ").concat(
                        message.as_str(),
                    ),
                };
                Some(
                    SshEvent::Exit(SshExitEvent { session_id: String::from_str(session_id), reason }),
                )
            },
            StreamAction::Wait => None,
            StreamAction::Stop => None,
        }
    }

    /// One read of the I/O loop of a remote shell: how the loop goes on,
    /// and the event to publish, if any. Bytes become output; no bytes or
    /// a failed read end the session; a read that would block is waited
    /// out for `POLL_INTERVAL_MS`. After an exit event the loop is over and
    /// later reads publish nothing.
    pub fn start_io_thread(reader: &mut StreamReader, session_id: &str, outcome: ReadOutcome) -> (turn:
        (LoopNext, Option<SshEvent>))
        ensures
            final(reader).is_over() == step(old(reader).is_over(), outcome.as_view()).0,
            turn.0 == next_of(old(reader).is_over(), outcome.as_view()),
            match turn.1 {
                Some(SshEvent::Output(o)) => o.session_id@ == session_id@ && step(
                    old(reader).is_over(),
                    outcome.as_view(),
                ).1 == Some(StreamEvent::Output(o.data@)),
                Some(SshEvent::Exit(x)) => x.session_id@ == session_id@ && (match step(
                    old(reader).is_over(),
                    outcome.as_view(),
                ).1 {
                    Some(StreamEvent::Exit(cause)) => x.reason@ == exit_reason(cause),
                    _ => false,
                }),
                None => step(old(reader).is_over(), outcome.as_view()).1 is None,
            },
    {
        let action = reader.on_read(outcome);
        let next = action.loop_next();
        let event = Self::event_for(session_id, action);
        (next, event)
    }
}

} // verus!
