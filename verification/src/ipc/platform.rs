//! Where the endpoint lives on each platform, and what a failure to set
//! it up is reported as.

use vstd::prelude::*;
use crate::ipc::protocol::IpcError;
use crate::text::{decimal, decimal_string};

verus! {

/// The permission bits of the socket: the owner may read and write.
pub const SOCKET_MODE: u32 = 0o600;

/// The path of the socket of the user with the given identifier.
pub open spec fn socket_path_text(uid: u32) -> Seq<char> {
    "/tmp/rusterm-"@ + decimal(uid as nat) + ".sock"@
}

/// The name of the pipe of the user with the given name; `default` stands
/// in where the name is not known.
pub open spec fn pipe_name_text(username: Option<Seq<char>>) -> Seq<char> {
    "rusterm-"@ + (match username {
        Some(name) => name,
        None => "default"@,
    })
}

/// The path of the pipe of the user with the given name.
pub open spec fn pipe_path_text(username: Option<Seq<char>>) -> Seq<char> {
    "\\\\.\\pipe\\"@ + pipe_name_text(username)
}

/// The path of the socket of the user with the given identifier.
pub fn get_socket_path(uid: u32) -> (path: String)
    ensures
        path@ == socket_path_text(uid),
{
    let number = decimal_string(uid as u64);
    String::from_str("/tmp/rusterm-").concat(number.as_str()).concat(".sock")
}

/// The name of the pipe of the user with the given name.
pub fn get_pipe_name(username: Option<&str>) -> (name: String)
    ensures
        name@ == pipe_name_text(
            match username {
                Some(n) => Some(n@),
                None => None,
            },
        ),
{
    match username {
        Some(n) => String::from_str("rusterm-").concat(n),
        None => String::from_str("rusterm-").concat("default"),
    }
}

/// The path of the pipe of the user with the given name.
pub fn get_pipe_path(username: Option<&str>) -> (path: String)
    ensures
        path@ == pipe_path_text(
            match username {
                Some(n) => Some(n@),
                None => None,
            },
        ),
{
    let name = get_pipe_name(username);
    String::from_str("\\\\.\\pipe\\").concat(name.as_str())
}

/// The steps that set up the socket, in the order they are taken.
#[derive(Debug, Clone, Copy, PartialEq, Eq, Structural)]
pub enum ListenStep {
    /// Remove a socket that an earlier run left behind.
    RemoveStale,
    /// Bind the socket to its path.
    Bind,
    /// Read the attributes of the socket.
    ReadMetadata,
    /// Restrict the socket to its owner.
    SetPermissions,
}

/// The detail of the error for a step that failed.
pub open spec fn listen_failure_text(step: ListenStep, path: Seq<char>, cause: Seq<char>) -> Seq<
    char,
> {
    match step {
        ListenStep::RemoveStale => "Failed to remove existing socket: "@ + cause,
        ListenStep::Bind => "Failed to bind to "@ + path + ": "@ + cause,
        ListenStep::ReadMetadata => "Failed to get socket metadata: "@ + cause,
        ListenStep::SetPermissions => "Failed to set socket permissions: "@ + cause,
    }
}

/// The first step of setting up the socket: a file that is found at its
/// path is removed first.
pub fn create_listener(stale_file_exists: bool) -> (first: ListenStep)
    ensures
        first == (if stale_file_exists {
            ListenStep::RemoveStale
        } else {
            ListenStep::Bind
        }),
{
    if stale_file_exists {
        ListenStep::RemoveStale
    } else {
        ListenStep::Bind
    }
}

/// What follows a step of setting up the socket: the next step, or
/// `None` when the socket listens; a step that failed ends the attempt
/// with an error that says which.
pub fn after_listen_step(step: ListenStep, path: &str, outcome: Result<(), String>) -> (next:
    Result<Option<ListenStep>, IpcError>)
    ensures
        match outcome {
            Ok(_) => next == Ok::<Option<ListenStep>, IpcError>(
                match step {
                    ListenStep::RemoveStale => Some(ListenStep::Bind),
                    ListenStep::Bind => Some(ListenStep::ReadMetadata),
                    ListenStep::ReadMetadata => Some(ListenStep::SetPermissions),
                    ListenStep::SetPermissions => None,
                },
            ),
            Err(cause) => match next {
                Err(IpcError::BindFailed(d)) => d@ == listen_failure_text(step, path@, cause@),
                _ => false,
            },
        },
{
    match outcome {
        Ok(_) => Ok(
            match step {
                ListenStep::RemoveStale => Some(ListenStep::Bind),
                ListenStep::Bind => Some(ListenStep::ReadMetadata),
                ListenStep::ReadMetadata => Some(ListenStep::SetPermissions),
                ListenStep::SetPermissions => None,
            },
        ),
        Err(cause) => {
            let cause = cause.as_str();
            let detail = match step {
                ListenStep::RemoveStale => String::from_str(
                    "Failed to remove existing socket: ",
                ).concat(cause),
                ListenStep::Bind => String::from_str("Failed to bind to ").concat(path).concat(
                    ": ",
                ).concat(cause),
                ListenStep::ReadMetadata => String::from_str(
                    "Failed to get socket metadata: ",
                ).concat(cause),
                ListenStep::SetPermissions => String::from_str(
                    "Failed to set socket permissions: ",
                ).concat(cause),
            };
            Err(IpcError::BindFailed(detail))
        },
    }
}

/// What creating the first instance of the pipe came to: a failure is
/// an error that names the pipe and the cause.
pub fn create_pipe_listener(path: &str, created: Result<(), String>) -> (result: Result<
    (),
    IpcError,
>)
    ensures
        match created {
            Ok(_) => result is Ok,
            Err(cause) => match result {
                Err(IpcError::BindFailed(d)) => d@ == "Failed to create pipe '"@ + path@ + "': "@
                    + cause@,
                _ => false,
            },
        },
{
    match created {
        Ok(_) => Ok(()),
        Err(cause) => Err(
            IpcError::BindFailed(
                String::from_str("Failed to create pipe '").concat(path).concat("': ").concat(
                    cause.as_str(),
                ),
            ),
        ),
    }
}

/// What creating the instance of the pipe for the next client came to: a
/// failure is an error that gives the cause.
pub fn create_next_instance(created: Result<(), String>) -> (result: Result<(), IpcError>)
    ensures
        match created {
            Ok(_) => result is Ok,
            Err(cause) => match result {
                Err(IpcError::BindFailed(d)) => d@ == "Failed to create next pipe instance: "@
                    + cause@,
                _ => false,
            },
        },
{
    match created {
        Ok(_) => Ok(()),
        Err(cause) => Err(
            IpcError::BindFailed(
                String::from_str("Failed to create next pipe instance: ").concat(cause.as_str()),
            ),
        ),
    }
}

/// What a connection that could not be accepted is reported as.
pub fn accept_connection(outcome: Result<(), String>) -> (result: Result<(), IpcError>)
    ensures
        match outcome {
            Ok(_) => result is Ok,
            Err(cause) => match result {
                Err(IpcError::AcceptFailed(d)) => d@ == cause@,
                _ => false,
            },
        },
{
    match outcome {
        Ok(_) => Ok(()),
        Err(cause) => Err(IpcError::AcceptFailed(cause)),
    }
}

/// Whether the endpoint is to be removed at shutdown: a socket that is
/// still at its path is; a pipe is left to the system.
pub fn cleanup_socket(unix: bool, socket_exists: bool) -> (remove: bool)
    ensures
        remove == (unix && socket_exists),
{
    unix && socket_exists
}

} // verus!
