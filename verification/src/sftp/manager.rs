//! The registry of SFTP sessions. A session is taken out of the registry
//! for the time of one operation and put back afterwards, so that no two
//! operations run on one session at a time.

use vstd::prelude::*;
use crate::registry::SessionRegistry;
use crate::session_id::is_session_id;
use crate::session_id::session_id_or_new;
use crate::sftp::session::SftpSession;
use crate::sftp::types::{CreateSftpResponse, FileInfo, SftpConfig, SftpError};

verus! {

/// The operations that run on a session.
#[derive(Debug, Clone, Copy, PartialEq, Eq, Structural)]
pub enum SftpOperation {
    Connect,
    RemoteHome,
    ListDirectory,
    CreateDirectory,
    DeleteFile,
    DeleteDirectory,
    RenameItem,
    UploadFile,
    DownloadFile,
    FileInfo,
}

/// Whether `error` is the error for an operation whose worker was lost
/// with `cause`: the failure of that operation, with a detail that says
/// that the task could not be joined.
pub open spec fn is_join_failure(error: SftpError, operation: SftpOperation, cause: Seq<char>) -> bool {
    &&& error.detail() == "Task join error: "@ + cause
    &&& match operation {
        SftpOperation::Connect => error is ConnectionFailed,
        SftpOperation::RemoteHome => error is SshError,
        SftpOperation::ListDirectory => error is ReadDirFailed,
        SftpOperation::CreateDirectory => error is CreateDirFailed,
        SftpOperation::DeleteFile => error is DeleteFileFailed,
        SftpOperation::DeleteDirectory => error is DeleteDirFailed,
        SftpOperation::RenameItem => error is RenameFailed,
        SftpOperation::UploadFile => error is UploadFailed,
        SftpOperation::DownloadFile => error is DownloadFailed,
        SftpOperation::FileInfo => error is PathNotFound,
    }
}

/// What an operation came to once its worker has returned: the worker's
/// own result, or the error for a worker that was lost.
pub open spec fn is_joined<T>(
    result: Result<T, SftpError>,
    operation: SftpOperation,
    joined: Result<Result<T, SftpError>, String>,
) -> bool {
    match joined {
        Ok(inner) => result == inner,
        Err(cause) => result is Err && is_join_failure(result->Err_0, operation, cause@),
    }
}

/// The error for an operation whose worker was lost.
pub fn join_failure(operation: SftpOperation, cause: &str) -> (error: SftpError)
    ensures
        is_join_failure(error, operation, cause@),
{
    let detail = String::from_str("Task join error: ").concat(cause);
    match operation {
        SftpOperation::Connect => SftpError::ConnectionFailed(detail),
        SftpOperation::RemoteHome => SftpError::SshError(detail),
        SftpOperation::ListDirectory => SftpError::ReadDirFailed(detail),
        SftpOperation::CreateDirectory => SftpError::CreateDirFailed(detail),
        SftpOperation::DeleteFile => SftpError::DeleteFileFailed(detail),
        SftpOperation::DeleteDirectory => SftpError::DeleteDirFailed(detail),
        SftpOperation::RenameItem => SftpError::RenameFailed(detail),
        SftpOperation::UploadFile => SftpError::UploadFailed(detail),
        SftpOperation::DownloadFile => SftpError::DownloadFailed(detail),
        SftpOperation::FileInfo => SftpError::PathNotFound(detail),
    }
}

/// Keeps the SFTP sessions by identifier.
pub struct SftpManager<H> {
    sessions: SessionRegistry<SftpSession<H>>,
}

impl<H> SftpManager<H> {
    /// The registry obeys its invariant.
    pub closed spec fn wf(&self) -> bool {
        self.sessions.wf()
    }

    /// The sessions by identifier. A session that an operation has taken
    /// out is absent.
    pub closed spec fn view(&self) -> Map<Seq<char>, SftpSession<H>> {
        self.sessions@
    }

    /// How many sessions are registered.
    pub closed spec fn count(&self) -> nat {
        self.sessions.count()
    }

    /// A manager without sessions.
    pub fn new() -> (manager: SftpManager<H>)
        ensures
            manager.wf(),
            manager@ == Map::<Seq<char>, SftpSession<H>>::empty(),
            manager.count() == 0,
    {
        SftpManager { sessions: SessionRegistry::new() }
    }

    /// A fresh identifier for a session that is about to be opened.
    pub fn new_session_id() -> (id: String)
        ensures
            is_session_id(id@),
    {
        session_id_or_new(None)
    }

    /// Registers the session that a worker opened, and says what the
    /// caller is told of it. Where opening failed or the worker was lost,
    /// nothing is registered and the error is handed on.
    pub fn create_session(
        &mut self,
        config: &SftpConfig,
        joined: Result<Result<SftpSession<H>, SftpError>, String>,
    ) -> (response: Result<CreateSftpResponse, SftpError>)
        requires
            old(self).wf(),
        ensures
            final(self).wf(),
            match joined {
                Ok(Ok(session)) => {
                    &&& final(self)@ == old(self)@.insert(session.session_id@, session)
                    &&& response is Ok
                    &&& response->Ok_0.session_id@ == session.session_id@
                    &&& response->Ok_0.host@ == config.host@
                    &&& response->Ok_0.username@ == config.username@
                },
                Ok(Err(error)) => final(self)@ == old(self)@ && response == Err::<
                    CreateSftpResponse,
                    SftpError,
                >(error),
                Err(cause) => final(self)@ == old(self)@ && response is Err && is_join_failure(
                    response->Err_0,
                    SftpOperation::Connect,
                    cause@,
                ),
            },
    {
        match joined {
            Ok(Ok(session)) => {
                let response = CreateSftpResponse {
                    session_id: session.session_id.clone(),
                    host: config.host.clone(),
                    username: config.username.clone(),
                };
                let id = session.session_id.clone();
                let _ = self.sessions.insert(id, session);
                Ok(response)
            },
            Ok(Err(error)) => Err(error),
            Err(cause) => Err(join_failure(SftpOperation::Connect, cause.as_str())),
        }
    }

    /// Releases the identifier and hands the session back to be torn
    /// down; an identifier that is not registered is an error and changes
    /// nothing.
    pub fn close_session(&mut self, session_id: &str) -> (closed: Result<SftpSession<H>, SftpError>)
        requires
            old(self).wf(),
        ensures
            final(self).wf(),
            final(self)@ == old(self)@.remove(session_id@),
            !final(self)@.contains_key(session_id@),
            final(self).count() == old(self).count() - (if closed is Ok {
                1nat
            } else {
                0nat
            }),
            match closed {
                Ok(session) => old(self)@.contains_key(session_id@) && session == old(
                    self,
                )@[session_id@],
                Err(SftpError::SessionNotFound(id)) => {
                    &&& !old(self)@.contains_key(session_id@)
                    &&& final(self)@ == old(self)@
                    &&& id@ == session_id@
                },
                Err(_) => false,
            },
    {
        match self.sessions.remove(session_id) {
            Some(session) => Ok(session),
            None => Err(SftpError::SessionNotFound(String::from_str(session_id))),
        }
    }

    /// Takes a session out of the registry for one operation. Until it is
    /// put back the identifier is absent, and a second operation on it
    /// fails for want of the session.
    pub fn get_session(&mut self, session_id: &str) -> (taken: Result<SftpSession<H>, SftpError>)
        requires
            old(self).wf(),
        ensures
            final(self).wf(),
            final(self)@ == old(self)@.remove(session_id@),
            !final(self)@.contains_key(session_id@),
            final(self).count() == old(self).count() - (if taken is Ok {
                1nat
            } else {
                0nat
            }),
            match taken {
                Ok(session) => old(self)@.contains_key(session_id@) && session == old(
                    self,
                )@[session_id@],
                Err(SftpError::SessionNotFound(id)) => {
                    &&& !old(self)@.contains_key(session_id@)
                    &&& final(self)@ == old(self)@
                    &&& id@ == session_id@
                },
                Err(_) => false,
            },
    {
        self.close_session(session_id)
    }

    /// Puts a session back after an operation, and says what the
    /// operation came to: the worker's own result, or the error for a
    /// worker that was lost.
    pub fn finish<T>(
        &mut self,
        session: SftpSession<H>,
        operation: SftpOperation,
        joined: Result<Result<T, SftpError>, String>,
    ) -> (result: Result<T, SftpError>)
        requires
            old(self).wf(),
        ensures
            final(self).wf(),
            final(self)@ == old(self)@.insert(session.session_id@, session),
            final(self).count() == old(self).count() + (if old(self)@.contains_key(
                session.session_id@,
            ) {
                0nat
            } else {
                1nat
            }),
            is_joined(result, operation, joined),
    {
        let id = session.session_id.clone();
        let _ = self.sessions.insert(id, session);
        match joined {
            Ok(inner) => inner,
            Err(cause) => Err(join_failure(operation, cause.as_str())),
        }
    }

    /// Ends the operation that asked for the home directory.
    pub fn get_remote_home(
        &mut self,
        session: SftpSession<H>,
        joined: Result<Result<String, SftpError>, String>,
    ) -> (result: Result<String, SftpError>)
        requires
            old(self).wf(),
        ensures
            final(self).wf(),
            final(self)@ == old(self)@.insert(session.session_id@, session),
            is_joined(result, SftpOperation::RemoteHome, joined),
    {
        self.finish(session, SftpOperation::RemoteHome, joined)
    }

    /// Ends the operation that listed a directory.
    pub fn list_directory(
        &mut self,
        session: SftpSession<H>,
        joined: Result<Result<Vec<FileInfo>, SftpError>, String>,
    ) -> (result: Result<Vec<FileInfo>, SftpError>)
        requires
            old(self).wf(),
        ensures
            final(self).wf(),
            final(self)@ == old(self)@.insert(session.session_id@, session),
            is_joined(result, SftpOperation::ListDirectory, joined),
    {
        self.finish(session, SftpOperation::ListDirectory, joined)
    }

    /// Ends the operation that created a directory.
    pub fn create_directory(
        &mut self,
        session: SftpSession<H>,
        joined: Result<Result<(), SftpError>, String>,
    ) -> (result: Result<(), SftpError>)
        requires
            old(self).wf(),
        ensures
            final(self).wf(),
            final(self)@ == old(self)@.insert(session.session_id@, session),
            is_joined(result, SftpOperation::CreateDirectory, joined),
    {
        self.finish(session, SftpOperation::CreateDirectory, joined)
    }

    /// Ends the operation that deleted a file.
    pub fn delete_file(
        &mut self,
        session: SftpSession<H>,
        joined: Result<Result<(), SftpError>, String>,
    ) -> (result: Result<(), SftpError>)
        requires
            old(self).wf(),
        ensures
            final(self).wf(),
            final(self)@ == old(self)@.insert(session.session_id@, session),
            is_joined(result, SftpOperation::DeleteFile, joined),
    {
        self.finish(session, SftpOperation::DeleteFile, joined)
    }

    /// Ends the operation that removed a directory.
    pub fn delete_directory(
        &mut self,
        session: SftpSession<H>,
        joined: Result<Result<(), SftpError>, String>,
    ) -> (result: Result<(), SftpError>)
        requires
            old(self).wf(),
        ensures
            final(self).wf(),
            final(self)@ == old(self)@.insert(session.session_id@, session),
            is_joined(result, SftpOperation::DeleteDirectory, joined),
    {
        self.finish(session, SftpOperation::DeleteDirectory, joined)
    }

    /// Ends the operation that renamed a file or a directory.
    pub fn rename_item(
        &mut self,
        session: SftpSession<H>,
        joined: Result<Result<(), SftpError>, String>,
    ) -> (result: Result<(), SftpError>)
        requires
            old(self).wf(),
        ensures
            final(self).wf(),
            final(self)@ == old(self)@.insert(session.session_id@, session),
            is_joined(result, SftpOperation::RenameItem, joined),
    {
        self.finish(session, SftpOperation::RenameItem, joined)
    }

    /// Ends an upload.
    pub fn upload_file(
        &mut self,
        session: SftpSession<H>,
        joined: Result<Result<(), SftpError>, String>,
    ) -> (result: Result<(), SftpError>)
        requires
            old(self).wf(),
        ensures
            final(self).wf(),
            final(self)@ == old(self)@.insert(session.session_id@, session),
            is_joined(result, SftpOperation::UploadFile, joined),
    {
        self.finish(session, SftpOperation::UploadFile, joined)
    }

    /// Ends a download.
    pub fn download_file(
        &mut self,
        session: SftpSession<H>,
        joined: Result<Result<(), SftpError>, String>,
    ) -> (result: Result<(), SftpError>)
        requires
            old(self).wf(),
        ensures
            final(self).wf(),
            final(self)@ == old(self)@.insert(session.session_id@, session),
            is_joined(result, SftpOperation::DownloadFile, joined),
    {
        self.finish(session, SftpOperation::DownloadFile, joined)
    }

    /// Ends the operation that asked about a path.
    pub fn get_file_info(
        &mut self,
        session: SftpSession<H>,
        joined: Result<Result<FileInfo, SftpError>, String>,
    ) -> (result: Result<FileInfo, SftpError>)
        requires
            old(self).wf(),
        ensures
            final(self).wf(),
            final(self)@ == old(self)@.insert(session.session_id@, session),
            is_joined(result, SftpOperation::FileInfo, joined),
    {
        self.finish(session, SftpOperation::FileInfo, joined)
    }

    /// The identifiers of the sessions that are registered and not taken
    /// out, each once.
    pub fn list_sessions(&self) -> (ids: Vec<String>)
        requires
            self.wf(),
        ensures
            ids@.len() == self.count(),
            forall|i: int| 0 <= i < ids@.len() ==> self@.contains_key(#[trigger] ids@[i]@),
            forall|id: Seq<char>| #[trigger]
                self@.contains_key(id) ==> exists|i: int|
                    0 <= i < ids@.len() && #[trigger] ids@[i]@ == id,
            forall|i: int, j: int|
                0 <= i < j < ids@.len() ==> #[trigger] ids@[i]@ != #[trigger] ids@[j]@,
    {
        self.sessions.ids()
    }
}

impl<H> Default for SftpManager<H> {
    fn default() -> (manager: Self)
        ensures
            manager.wf(),
            manager@ == Map::<Seq<char>, SftpSession<H>>::empty(),
    {
        Self::new()
    }
}

} // verus!
