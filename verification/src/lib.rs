//! Session multiplexer core of a terminal emulator backend: registries of
//! local, SSH and SFTP sessions, the decisions of their I/O loops, remote
//! directory bookkeeping, transfer progress, and the line protocol of the
//! local control endpoint.

pub mod text;
pub mod registry;
pub mod session_id;
pub mod stream;
pub mod ipc;
pub mod fs;
pub mod pty;
pub mod settings;
pub mod sftp;
pub mod ssh;
