//! One local terminal: how it is launched, what its reads turn into, and
//! what a write or a resize asks of the terminal.

use vstd::prelude::*;
use vstd::utf8::encode_utf8;
use crate::pty::types::{PtyError, PtyExitEvent, PtyOutputEvent};
use crate::stream::{
    next_of, step, ExitCause, ExitCauseView, LoopNext, ReadOutcome, StreamAction, StreamEvent,
    StreamReader,
};

verus! {

/// Bytes asked for in one read of the terminal.
pub const READ_BUFFER_SIZE: usize = 8192;

/// The size of a terminal in cells and in pixels.
#[derive(Debug, Clone, Copy, PartialEq, Eq, Structural)]
pub struct PtyDimensions {
    pub rows: u16,
    pub cols: u16,
    pub pixel_width: u16,
    pub pixel_height: u16,
}

impl PtyDimensions {
    /// A size given in cells; the pixel size is left at zero.
    pub fn new(cols: u16, rows: u16) -> (size: PtyDimensions)
        ensures
            size == (PtyDimensions { rows, cols, pixel_width: 0, pixel_height: 0 }),
    {
        PtyDimensions { rows, cols, pixel_width: 0, pixel_height: 0 }
    }
}

/// What to start in a new terminal, and how.
#[derive(Debug, Clone, PartialEq, Eq)]
pub struct PtyLaunch {
    pub size: PtyDimensions,
    pub shell: String,
    pub cwd: Option<String>,
    pub env: Vec<(String, String)>,
}

/// The name under which output of a terminal is published.
pub open spec fn output_event_name(pty_id: Seq<char>) -> Seq<char> {
    "pty-output-"@ + pty_id
}

/// The name under which the end of a terminal is published.
pub open spec fn exit_event_name(pty_id: Seq<char>) -> Seq<char> {
    "pty-exit-"@ + pty_id
}

/// The shell that is started where the caller names none: on Windows the
/// PowerShell, elsewhere what the environment's `SHELL` says, and
/// `/bin/bash` where it says nothing.
pub open spec fn default_shell_text(windows: bool, shell_env: Option<Seq<char>>) -> Seq<char> {
    if windows {
        "powershell.exe"@
    } else {
        match shell_env {
            Some(shell) => shell,
            None => "/bin/bash"@,
        }
    }
}

/// An event of a terminal.
#[derive(Debug, Clone, PartialEq, Eq)]
pub enum PtyEvent {
    Output(PtyOutputEvent),
    Exit(PtyExitEvent),
}

impl PtyEvent {
    /// The name under which the event is published.
    pub open spec fn name(self) -> Seq<char> {
        match self {
            PtyEvent::Output(e) => output_event_name(e.pty_id@),
            PtyEvent::Exit(e) => exit_event_name(e.pty_id@),
        }
    }

    /// The name under which the event is published.
    pub fn event_name(&self) -> (name: String)
        ensures
            name@ == self.name(),
    {
        match self {
            PtyEvent::Output(e) => String::from_str("pty-output-").concat(e.pty_id.as_str()),
            PtyEvent::Exit(e) => String::from_str("pty-exit-").concat(e.pty_id.as_str()),
        }
    }
}

/// The event that an action of the read loop publishes for a terminal:
/// text becomes output; the end of the stream becomes an exit with code 0,
/// a failed read an exit without a code.
pub open spec fn published(pty_id: Seq<char>, action: StreamAction, event: Option<PtyEvent>) -> bool {
    match action {
        StreamAction::Emit(text) => match event {
            Some(PtyEvent::Output(e)) => e.pty_id@ == pty_id && e.data == text,
            _ => false,
        },
        StreamAction::Exit(cause) => match event {
            Some(PtyEvent::Exit(e)) => e.pty_id@ == pty_id && e.exit_code == (match cause {
                ExitCause::Closed => Some(0i32),
                ExitCause::Failed(_) => None,
            }),
            _ => false,
        },
        StreamAction::Wait => event is None,
        StreamAction::Stop => event is None,
    }
}

/// A registered terminal. `handle` is whatever the caller needs to reach
/// the terminal itself.
#[derive(Debug)]
pub struct PtySession<H> {
    pub pty_id: String,
    pub pid: u32,
    pub shell: String,
    pub handle: H,
}

impl<H> PtySession<H> {
    /// The shell that is started where the caller names none.
    pub fn default_shell(windows: bool, shell_env: Option<String>) -> (shell: String)
        ensures
            shell@ == default_shell_text(
                windows,
                match shell_env {
                    Some(s) => Some(s@),
                    None => None,
                },
            ),
    {
        if windows {
            String::from_str("powershell.exe")
        } else {
            match shell_env {
                Some(shell) => shell,
                None => String::from_str("/bin/bash"),
            }
        }
    }

    /// What to start for a new terminal: the shell asked for or else the
    /// default one, at the size asked for, with the working directory and
    /// the environment asked for.
    pub fn launch(
        shell: Option<String>,
        cwd: Option<String>,
        env: Option<Vec<(String, String)>>,
        cols: u16,
        rows: u16,
        windows: bool,
        shell_env: Option<String>,
    ) -> (plan: PtyLaunch)
        ensures
            plan.size == (PtyDimensions { rows, cols, pixel_width: 0, pixel_height: 0 }),
            plan.shell@ == (match shell {
                Some(s) => s@,
                None => default_shell_text(
                    windows,
                    match shell_env {
                        Some(s) => Some(s@),
                        None => None,
                    },
                ),
            }),
            plan.cwd == cwd,
            plan.env@ == (match env {
                Some(vars) => vars@,
                None => Seq::empty(),
            }),
    {
        let shell = match shell {
            Some(s) => s,
            None => Self::default_shell(windows, shell_env),
        };
        let env = match env {
            Some(vars) => vars,
            None => Vec::new(),
        };
        PtyLaunch { size: PtyDimensions::new(cols, rows), shell, cwd, env }
    }

    /// The session for a terminal that was started: it needs the process
    /// identifier of the child.
    pub fn new(pty_id: String, shell: String, pid: Option<u32>, handle: H) -> (session: Result<
        PtySession<H>,
        PtyError,
    >)
        ensures
            match session {
                Ok(s) => pid == Some(s.pid) && s.pty_id == pty_id && s.shell == shell && s.handle
                    == handle,
                Err(PtyError::CreationFailed(d)) => pid is None && d@ == "Failed to get PID"@,
                Err(_) => false,
            },
    {
        match pid {
            Some(pid) => Ok(PtySession { pty_id, pid, shell, handle }),
            None => Err(PtyError::CreationFailed(String::from_str("Failed to get PID"))),
        }
    }

    /// The bytes that writing `data` sends to the terminal.
    pub fn write(&self, data: &str) -> (bytes: Vec<u8>)
        ensures
            bytes@ == encode_utf8(data@),
    {
        data.as_bytes_vec()
    }

    /// The size that resizing to `cols` by `rows` asks of the terminal.
    pub fn resize(&self, cols: u16, rows: u16) -> (size: PtyDimensions)
        ensures
            size == (PtyDimensions { rows, cols, pixel_width: 0, pixel_height: 0 }),
    {
        PtyDimensions::new(cols, rows)
    }

    /// The event to publish for an action of the read loop.
    pub fn event_for(pty_id: &str, action: StreamAction) -> (event: Option<PtyEvent>)
        ensures
            published(pty_id@, action, event),
    {
        match action {
            StreamAction::Emit(text) => Some(
                PtyEvent::Output(PtyOutputEvent { pty_id: String::from_str(pty_id), data: text }),
            ),
            StreamAction::Exit(cause) => {
                let exit_code = match cause {
                    ExitCause::Closed => Some(0i32),
                    ExitCause::Failed(_) => None,
                };
                Some(PtyEvent::Exit(PtyExitEvent { pty_id: String::from_str(pty_id), exit_code }))
            },
            StreamAction::Wait => None,
            StreamAction::Stop => None,
        }
    }

    /// One turn of the read loop of a terminal: how the loop goes on, and
    /// the event to publish, if any. Bytes become output; no bytes end
    /// the session with exit code 0, a failed read without a code. After
    /// an exit event the loop is over and later reads publish nothing.
    pub fn read_output(reader: &mut StreamReader, pty_id: &str, outcome: ReadOutcome) -> (turn: (
        LoopNext,
        Option<PtyEvent>,
    ))
        ensures
            final(reader).is_over() == step(old(reader).is_over(), outcome.as_view()).0,
            turn.0 == next_of(old(reader).is_over(), outcome.as_view()),
            match turn.1 {
                Some(PtyEvent::Output(o)) => o.pty_id@ == pty_id@ && step(
                    old(reader).is_over(),
                    outcome.as_view(),
                ).1 == Some(StreamEvent::Output(o.data@)),
                Some(PtyEvent::Exit(x)) => x.pty_id@ == pty_id@ && (match step(
                    old(reader).is_over(),
                    outcome.as_view(),
                ).1 {
                    Some(StreamEvent::Exit(cause)) => x.exit_code == (match cause {
                        ExitCauseView::Closed => Some(0i32),
                        ExitCauseView::Failed(_) => None,
                    }),
                    _ => false,
                }),
                None => step(old(reader).is_over(), outcome.as_view()).1 is None,
            },
    {
        let action = reader.on_read(outcome);
        let next = action.loop_next();
        let event = Self::event_for(pty_id, action);
        (next, event)
    }
}

} // verus!
