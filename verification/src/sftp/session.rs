//! One SFTP session: the steps that open it, and what each answer of the
//! server means for the operation that asked.

use vstd::prelude::*;
use crate::sftp::listing::{
    file_info, info_of, is_dot_entry, is_stable_sort_of, path_is_dot_entry, sort_listing, views,
    FileInfoView, RemoteEntry, RemoteStat,
};
use crate::sftp::delete::{DeletePlan, DeletePlanView};
use crate::sftp::mkdir::{mkdir_targets, MkdirPlan, MkdirPlanView};
use crate::sftp::transfer::{
    download_payload, upload_payload, ProgressModel, ProgressReport, TransferProgress,
};
use crate::sftp::types::{
    AuthMethod, DownloadProgressPayload, FileInfo, SftpConfig, SftpError, UploadProgressPayload,
};

verus! {

/// The steps that open an SFTP session, in the order they are taken.
#[derive(Debug, Clone, Copy, PartialEq, Eq, Structural)]
pub enum ConnectStep {
    /// Open the TCP connection to the address.
    OpenTcp,
    /// Set up the SSH transport.
    CreateSession,
    /// Shake hands with the server.
    Handshake,
    /// Offer the password or the key.
    Authenticate,
    /// Open the SFTP subsystem.
    OpenSubsystem,
}

/// What follows a step that went well.
#[derive(Debug, Clone, Copy, PartialEq, Eq, Structural)]
pub enum ConnectNext {
    /// Take this step.
    Step(ConnectStep),
    /// Ask the transport whether it counts as authenticated, and pass the
    /// answer to `authenticate`.
    CheckAuthenticated,
    /// The subsystem is open: the session can be registered.
    Ready,
}

/// What follows each step when it went well.
pub open spec fn next_after(done: ConnectStep) -> ConnectNext {
    match done {
        ConnectStep::OpenTcp => ConnectNext::Step(ConnectStep::CreateSession),
        ConnectStep::CreateSession => ConnectNext::Step(ConnectStep::Handshake),
        ConnectStep::Handshake => ConnectNext::Step(ConnectStep::Authenticate),
        ConnectStep::Authenticate => ConnectNext::CheckAuthenticated,
        ConnectStep::OpenSubsystem => ConnectNext::Ready,
    }
}

/// The text that opens the detail of the error for a step that failed.
pub open spec fn failure_text(failed: ConnectStep, by_password: bool) -> Seq<char> {
    match failed {
        ConnectStep::OpenTcp => "TCP connection failed: "@,
        ConnectStep::CreateSession => "SSH session creation failed: "@,
        ConnectStep::Handshake => "SSH handshake failed: "@,
        ConnectStep::Authenticate => if by_password {
            "Password auth failed: "@
        } else {
            "Key auth failed: "@
        },
        ConnectStep::OpenSubsystem => "SFTP channel creation failed: "@,
    }
}

/// Whether `error` is the error for a step that failed with `cause`: an
/// authentication failure for the authentication, a connection failure for
/// the rest; its detail is the step's text, then the cause.
pub open spec fn is_step_failure(
    error: SftpError,
    failed: ConnectStep,
    by_password: bool,
    cause: Seq<char>,
) -> bool {
    &&& error.detail() == failure_text(failed, by_password) + cause
    &&& match failed {
        ConnectStep::Authenticate => error is AuthenticationFailed,
        _ => error is ConnectionFailed,
    }
}

/// Whether `payload` publishes `report` for the upload `transfer_id`.
pub open spec fn is_upload_payload(
    payload: Option<UploadProgressPayload>,
    transfer_id: Seq<char>,
    report: Option<ProgressReport>,
) -> bool {
    match (payload, report) {
        (Some(p), Some(r)) => p.transfer_id@ == transfer_id && p.bytes == r.bytes && p.total_bytes
            == r.total_bytes && p.percentage == r.percentage,
        (None, None) => true,
        _ => false,
    }
}

/// Whether `payload` publishes `report` for the download `transfer_id`.
pub open spec fn is_download_payload(
    payload: Option<DownloadProgressPayload>,
    transfer_id: Seq<char>,
    report: Option<ProgressReport>,
) -> bool {
    match (payload, report) {
        (Some(p), Some(r)) => p.transfer_id@ == transfer_id && p.bytes == r.bytes && p.total_bytes
            == r.total_bytes && p.percentage == r.percentage,
        (None, None) => true,
        _ => false,
    }
}

/// `subject`, a colon and a space, then `cause`.
pub open spec fn described(subject: Seq<char>, cause: Seq<char>) -> Seq<char> {
    subject + ": "@ + cause
}

/// The entries of a directory as the listing shows them, in the order the
/// server gave them: the directory itself and its parent are left out.
pub open spec fn unsorted_listing(entries: Seq<RemoteEntry>) -> Seq<FileInfoView>
    decreases entries.len(),
{
    if entries.len() == 0 {
        Seq::empty()
    } else {
        let before = unsorted_listing(entries.drop_last());
        let entry = entries.last();
        if is_dot_entry(entry.path@) {
            before
        } else {
            before.push(info_of(entry.path@, entry.stat))
        }
    }
}

/// Where an upload can fail.
#[derive(Debug, Clone, Copy, PartialEq, Eq, Structural)]
pub enum UploadStage {
    OpenLocal,
    ReadMetadata,
    CreateRemote,
    ReadLocal,
    WriteRemote,
}

/// Where a download can fail.
#[derive(Debug, Clone, Copy, PartialEq, Eq, Structural)]
pub enum DownloadStage {
    StatRemote,
    OpenRemote,
    CreateLocal,
    ReadRemote,
    WriteLocal,
}

/// What happened in a transfer since the last turn.
#[derive(Debug, Clone, PartialEq, Eq)]
pub enum TransferEvent<S> {
    /// A chunk of this many bytes was read and written; zero bytes mean
    /// that the data has ended.
    Chunk(u64),
    /// This stage failed with this cause.
    Failed(S, String),
}

/// How a transfer goes on after a turn, with the progress to publish.
#[derive(Debug, Clone, PartialEq, Eq)]
pub enum TransferTurn<P> {
    /// Move the next chunk.
    Continue(Option<P>),
    /// The transfer is complete.
    Finished(Option<P>),
}

/// The detail of the error for an upload that failed at a stage.
pub open spec fn upload_failure_text(
    stage: UploadStage,
    local_path: Seq<char>,
    remote_path: Seq<char>,
    cause: Seq<char>,
) -> Seq<char> {
    match stage {
        UploadStage::OpenLocal => "Failed to open local file "@ + local_path + ": "@ + cause,
        UploadStage::ReadMetadata => "Failed to get file metadata: "@ + cause,
        UploadStage::CreateRemote => "Failed to create remote file "@ + remote_path + ": "@ + cause,
        UploadStage::ReadLocal => "Failed to read local file: "@ + cause,
        UploadStage::WriteRemote => "Failed to write to remote file: "@ + cause,
    }
}

/// The detail of the error for a download that failed at a stage.
pub open spec fn download_failure_text(
    stage: DownloadStage,
    remote_path: Seq<char>,
    local_path: Seq<char>,
    cause: Seq<char>,
) -> Seq<char> {
    match stage {
        DownloadStage::StatRemote => "Failed to get remote file stats "@ + remote_path + ": "@
            + cause,
        DownloadStage::OpenRemote => "Failed to open remote file "@ + remote_path + ": "@ + cause,
        DownloadStage::CreateLocal => "Failed to create local file "@ + local_path + ": "@ + cause,
        DownloadStage::ReadRemote => "Failed to read remote file: "@ + cause,
        DownloadStage::WriteLocal => "Failed to write to local file: "@ + cause,
    }
}

/// The report that a chunk of `n` bytes is published with, if any; zero
/// bytes stand for the end of the data.
pub open spec fn turn_report(before: ProgressModel, n: nat) -> Option<
    ProgressReport,
> {
    if n == 0 {
        match before.finish_report() {
            Some(p) => Some(ProgressReport { bytes: 0, total_bytes: 0, percentage: p as u8 }),
            None => None,
        }
    } else {
        match before.chunk_report(n) {
            Some(p) => Some(
                ProgressReport {
                    bytes: (before.bytes + n) as u64,
                    total_bytes: before.total as u64,
                    percentage: p as u8,
                },
            ),
            None => None,
        }
    }
}

fn describe(subject: &str, cause: &str) -> (text: String)
    ensures
        text@ == described(subject@, cause@),
{
    String::from_str(subject).concat(": ").concat(cause)
}

/// An open SFTP session. `handle` is whatever the caller needs to reach
/// the subsystem.
#[derive(Debug)]
pub struct SftpSession<H> {
    pub session_id: String,
    pub config: SftpConfig,
    pub handle: H,
}

impl<H> SftpSession<H> {
    /// The session for a subsystem that was opened.
    pub fn new(session_id: String, config: SftpConfig, handle: H) -> (session: SftpSession<H>)
        ensures
            session.session_id == session_id,
            session.config == config,
            session.handle == handle,
    {
        SftpSession { session_id, config, handle }
    }

    /// The identifier of the session.
    pub fn session_id(&self) -> (id: &str)
        ensures
            id@ == self.session_id@,
    {
        self.session_id.as_str()
    }

    /// The first step of opening a session.
    pub fn first_step() -> (first: ConnectStep)
        ensures
            first == ConnectStep::OpenTcp,
    {
        ConnectStep::OpenTcp
    }

    /// What follows a step: the next one where it went well, the error
    /// that ends the attempt where it failed. After the handshake a
    /// configuration without a way to authenticate ends the attempt.
    pub fn after_step(done: ConnectStep, config: &SftpConfig, outcome: Result<(), String>) -> (next:
        Result<ConnectNext, SftpError>)
        ensures
            match outcome {
                Ok(_) => if done == ConnectStep::Handshake && config.auth_method is None {
                    match next {
                        Err(SftpError::AuthenticationFailed(d)) => d@ == "No auth method provided"@,
                        _ => false,
                    }
                } else {
                    next == Ok::<ConnectNext, SftpError>(next_after(done))
                },
                Err(cause) => next is Err && is_step_failure(
                    next->Err_0,
                    done,
                    config.auth_method matches Some(AuthMethod::Password { .. }),
                    cause@,
                ),
            },
    {
        match outcome {
            Ok(_) => match done {
                ConnectStep::OpenTcp => Ok(ConnectNext::Step(ConnectStep::CreateSession)),
                ConnectStep::CreateSession => Ok(ConnectNext::Step(ConnectStep::Handshake)),
                ConnectStep::Handshake => {
                    if config.auth_method.is_none() {
                        Err(
                            SftpError::AuthenticationFailed(
                                String::from_str("No auth method provided"),
                            ),
                        )
                    } else {
                        Ok(ConnectNext::Step(ConnectStep::Authenticate))
                    }
                },
                ConnectStep::Authenticate => Ok(ConnectNext::CheckAuthenticated),
                ConnectStep::OpenSubsystem => Ok(ConnectNext::Ready),
            },
            Err(cause) => {
                let cause = cause.as_str();
                Err(
                    match done {
                        ConnectStep::OpenTcp => SftpError::ConnectionFailed(
                            String::from_str("TCP connection failed: ").concat(cause),
                        ),
                        ConnectStep::CreateSession => SftpError::ConnectionFailed(
                            String::from_str("SSH session creation failed: ").concat(cause),
                        ),
                        ConnectStep::Handshake => SftpError::ConnectionFailed(
                            String::from_str("SSH handshake failed: ").concat(cause),
                        ),
                        ConnectStep::Authenticate => match &config.auth_method {
                            Some(AuthMethod::Password { .. }) => SftpError::AuthenticationFailed(
                                String::from_str("Password auth failed: ").concat(cause),
                            ),
                            _ => SftpError::AuthenticationFailed(
                                String::from_str("Key auth failed: ").concat(cause),
                            ),
                        },
                        ConnectStep::OpenSubsystem => SftpError::ConnectionFailed(
                            String::from_str("SFTP channel creation failed: ").concat(cause),
                        ),
                    },
                )
            },
        }
    }

    /// What follows the authentication once the transport has said whether
    /// it counts as authenticated: the subsystem, or the error for a
    /// server that accepted the credentials and still is not
    /// authenticated.
    pub fn authenticate(authenticated: bool) -> (next: Result<ConnectStep, SftpError>)
        ensures
            match next {
                Ok(step) => authenticated && step == ConnectStep::OpenSubsystem,
                Err(SftpError::AuthenticationFailed(d)) => !authenticated && d@
                    == "Authentication failed"@,
                Err(_) => false,
            },
    {
        if authenticated {
            Ok(ConnectStep::OpenSubsystem)
        } else {
            Err(SftpError::AuthenticationFailed(String::from_str("Authentication failed")))
        }
    }

    /// The home directory from what the server resolves `.` to: the path
    /// where it resolved one that is valid text (`Ok(Some(..))`), an error
    /// where the path is no valid text (`Ok(None)`) or the server refused.
    pub fn get_remote_home(&self, resolved: Result<Option<String>, String>) -> (home: Result<
        String,
        SftpError,
    >)
        ensures
            match resolved {
                Ok(Some(path)) => home == Ok::<String, SftpError>(path),
                Ok(None) => match home {
                    Err(SftpError::SshError(d)) => d@ == "Invalid UTF-8 in path"@,
                    _ => false,
                },
                Err(cause) => match home {
                    Err(SftpError::SshError(d)) => d@ == "Failed to get home path: "@ + cause@,
                    _ => false,
                },
            },
    {
        match resolved {
            Ok(Some(path)) => Ok(path),
            Ok(None) => Err(SftpError::SshError(String::from_str("Invalid UTF-8 in path"))),
            Err(cause) => Err(
                SftpError::SshError(
                    String::from_str("Failed to get home path: ").concat(cause.as_str()),
                ),
            ),
        }
    }

    /// The listing of a directory from what the server read of it: its
    /// entries without the directory itself and its parent, directories
    /// first, then by lower-cased name, entries that compare alike in the
    /// order the server gave them. A read that failed is an error that
    /// names the path and the cause.
    pub fn list_directory(&self, path: &str, read: Result<Vec<RemoteEntry>, String>) -> (listing:
        Result<Vec<FileInfo>, SftpError>)
        ensures
            match read {
                Ok(entries) => listing is Ok && is_stable_sort_of(
                    unsorted_listing(entries@),
                    views(listing->Ok_0@),
                ),
                Err(cause) => match listing {
                    Err(SftpError::ReadDirFailed(d)) => d@ == described(path@, cause@),
                    _ => false,
                },
            },
    {
        match read {
            Err(cause) => Err(SftpError::ReadDirFailed(describe(path, cause.as_str()))),
            Ok(entries) => {
                let mut files: Vec<FileInfo> = Vec::new();
                let mut i: usize = 0;
                while i < entries.len()
                    invariant
                        i <= entries@.len(),
                        views(files@) == unsorted_listing(entries@.take(i as int)),
                    decreases entries@.len() - i,
                {
                    let entry = &entries[i];
                    proof {
                        let upto = entries@.take(i as int + 1);
                        assert(upto.drop_last() =~= entries@.take(i as int));
                        assert(upto.last() == entries@[i as int]);
                    }
                    if !path_is_dot_entry(entry.path.as_str()) {
                        let ghost before = views(files@);
                        let info = file_info(entry.path.as_str(), &entry.stat);
                        files.push(info);
                        assert(views(files@) =~= before.push(info@));
                    }
                    i += 1;
                }
                assert(entries@.take(entries@.len() as int) =~= entries@);
                Ok(sort_listing(files))
            },
        }
    }

    /// The plan for creating a directory with the parents it lacks.
    pub fn create_directory(&self, path: &str) -> (plan: MkdirPlan)
        ensures
            plan.wf(),
            plan@ == MkdirPlanView::start(mkdir_targets(path@)),
    {
        MkdirPlan::new(path)
    }

    /// The plan for removing a directory with all it holds.
    pub fn delete_directory(&self, path: &str) -> (plan: DeletePlan)
        ensures
            plan@ == DeletePlanView::start(path@),
    {
        DeletePlan::new(path)
    }

    /// What deleting a file came to: an answer of the server that it
    /// failed is an error that names the path and the cause.
    pub fn delete_file(&self, path: &str, outcome: Result<(), String>) -> (result: Result<
        (),
        SftpError,
    >)
        ensures
            match outcome {
                Ok(_) => result is Ok,
                Err(cause) => match result {
                    Err(SftpError::DeleteFileFailed(d)) => d@ == described(path@, cause@),
                    _ => false,
                },
            },
    {
        match outcome {
            Ok(_) => Ok(()),
            Err(cause) => Err(SftpError::DeleteFileFailed(describe(path, cause.as_str()))),
        }
    }

    /// What renaming came to: an answer of the server that it failed is an
    /// error that names both paths and the cause.
    pub fn rename_item(&self, old_path: &str, new_path: &str, outcome: Result<(), String>) -> (result:
        Result<(), SftpError>)
        ensures
            match outcome {
                Ok(_) => result is Ok,
                Err(cause) => match result {
                    Err(SftpError::RenameFailed(d)) => d@ == described(
                        old_path@ + " -> "@ + new_path@,
                        cause@,
                    ),
                    _ => false,
                },
            },
    {
        match outcome {
            Ok(_) => Ok(()),
            Err(cause) => {
                let subject = String::from_str(old_path).concat(" -> ").concat(new_path);
                Err(SftpError::RenameFailed(describe(subject.as_str(), cause.as_str())))
            },
        }
    }

    /// The size that a download announces: what the server says of the
    /// file, zero where it says nothing.
    pub fn download_total(stat: &RemoteStat) -> (total: u64)
        ensures
            total == (match stat.size {
                Some(n) => n,
                None => 0,
            }),
    {
        match stat.size {
            Some(n) => n,
            None => 0,
        }
    }

    /// One turn of an upload: counts the chunk that was moved and says
    /// what progress to publish, or turns a failure into the error that
    /// ends the upload.
    pub fn upload_file(
        &self,
        progress: &mut TransferProgress,
        local_path: &str,
        remote_path: &str,
        transfer_id: &str,
        event: TransferEvent<UploadStage>,
    ) -> (turn: Result<TransferTurn<UploadProgressPayload>, SftpError>)
        requires
            old(progress).wf(),
            event matches TransferEvent::Chunk(n) ==> old(progress)@.bytes + n <= u64::MAX,
        ensures
            final(progress).wf(),
            match event {
                TransferEvent::Chunk(n) => {
                    &&& final(progress)@ == (if n == 0 {
                        old(progress)@
                    } else {
                        old(progress)@.after_chunk(n as nat)
                    })
                    &&& match turn {
                        Ok(TransferTurn::Continue(p)) => n > 0 && is_upload_payload(
                            p,
                            transfer_id@,
                            turn_report(old(progress)@, n as nat),
                        ),
                        Ok(TransferTurn::Finished(p)) => n == 0 && is_upload_payload(
                            p,
                            transfer_id@,
                            turn_report(old(progress)@, n as nat),
                        ),
                        Err(_) => false,
                    }
                },
                TransferEvent::Failed(stage, cause) => {
                    &&& final(progress)@ == old(progress)@
                    &&& match turn {
                        Err(SftpError::UploadFailed(d)) => d@ == upload_failure_text(
                            stage,
                            local_path@,
                            remote_path@,
                            cause@,
                        ),
                        _ => false,
                    }
                },
            },
    {
        match event {
            TransferEvent::Chunk(n) => {
                if n == 0 {
                    let payload = match progress.finish() {
                        Some(report) => Some(upload_payload(transfer_id, report)),
                        None => None,
                    };
                    Ok(TransferTurn::Finished(payload))
                } else {
                    let payload = match progress.record_chunk(n) {
                        Some(report) => Some(upload_payload(transfer_id, report)),
                        None => None,
                    };
                    Ok(TransferTurn::Continue(payload))
                }
            },
            TransferEvent::Failed(stage, cause) => {
                let cause = cause.as_str();
                let detail = match stage {
                    UploadStage::OpenLocal => String::from_str("Failed to open local file ").concat(
                        local_path,
                    ).concat(": ").concat(cause),
                    UploadStage::ReadMetadata => String::from_str(
                        "Failed to get file metadata: ",
                    ).concat(cause),
                    UploadStage::CreateRemote => String::from_str(
                        "Failed to create remote file ",
                    ).concat(remote_path).concat(": ").concat(cause),
                    UploadStage::ReadLocal => String::from_str("Failed to read local file: ").concat(
                        cause,
                    ),
                    UploadStage::WriteRemote => String::from_str(
                        "Failed to write to remote file: ",
                    ).concat(cause),
                };
                Err(SftpError::UploadFailed(detail))
            },
        }
    }

    /// One turn of a download: counts the chunk that was moved and says
    /// what progress to publish, or turns a failure into the error that
    /// ends the download.
    pub fn download_file(
        &self,
        progress: &mut TransferProgress,
        remote_path: &str,
        local_path: &str,
        transfer_id: &str,
        event: TransferEvent<DownloadStage>,
    ) -> (turn: Result<TransferTurn<DownloadProgressPayload>, SftpError>)
        requires
            old(progress).wf(),
            event matches TransferEvent::Chunk(n) ==> old(progress)@.bytes + n <= u64::MAX,
        ensures
            final(progress).wf(),
            match event {
                TransferEvent::Chunk(n) => {
                    &&& final(progress)@ == (if n == 0 {
                        old(progress)@
                    } else {
                        old(progress)@.after_chunk(n as nat)
                    })
                    &&& match turn {
                        Ok(TransferTurn::Continue(p)) => n > 0 && is_download_payload(
                            p,
                            transfer_id@,
                            turn_report(old(progress)@, n as nat),
                        ),
                        Ok(TransferTurn::Finished(p)) => n == 0 && is_download_payload(
                            p,
                            transfer_id@,
                            turn_report(old(progress)@, n as nat),
                        ),
                        Err(_) => false,
                    }
                },
                TransferEvent::Failed(stage, cause) => {
                    &&& final(progress)@ == old(progress)@
                    &&& match turn {
                        Err(SftpError::DownloadFailed(d)) => d@ == download_failure_text(
                            stage,
                            remote_path@,
                            local_path@,
                            cause@,
                        ),
                        _ => false,
                    }
                },
            },
    {
        match event {
            TransferEvent::Chunk(n) => {
                if n == 0 {
                    let payload = match progress.finish() {
                        Some(report) => Some(download_payload(transfer_id, report)),
                        None => None,
                    };
                    Ok(TransferTurn::Finished(payload))
                } else {
                    let payload = match progress.record_chunk(n) {
                        Some(report) => Some(download_payload(transfer_id, report)),
                        None => None,
                    };
                    Ok(TransferTurn::Continue(payload))
                }
            },
            TransferEvent::Failed(stage, cause) => {
                let cause = cause.as_str();
                let detail = match stage {
                    DownloadStage::StatRemote => String::from_str(
                        "Failed to get remote file stats ",
                    ).concat(remote_path).concat(": ").concat(cause),
                    DownloadStage::OpenRemote => String::from_str(
                        "Failed to open remote file ",
                    ).concat(remote_path).concat(": ").concat(cause),
                    DownloadStage::CreateLocal => String::from_str(
                        "Failed to create local file ",
                    ).concat(local_path).concat(": ").concat(cause),
                    DownloadStage::ReadRemote => String::from_str(
                        "Failed to read remote file: ",
                    ).concat(cause),
                    DownloadStage::WriteLocal => String::from_str(
                        "Failed to write to local file: ",
                    ).concat(cause),
                };
                Err(SftpError::DownloadFailed(detail))
            },
        }
    }

    /// What is known of a path from the attributes the server gave for
    /// it; attributes that could not be had are an error that names the
    /// path and the cause.
    pub fn get_file_info(&self, path: &str, stat: Result<RemoteStat, String>) -> (info: Result<
        FileInfo,
        SftpError,
    >)
        ensures
            match stat {
                Ok(attributes) => info is Ok && info->Ok_0@ == info_of(path@, attributes),
                Err(cause) => match info {
                    Err(SftpError::PathNotFound(d)) => d@ == described(path@, cause@),
                    _ => false,
                },
            },
    {
        match stat {
            Ok(attributes) => Ok(file_info(path, &attributes)),
            Err(cause) => Err(SftpError::PathNotFound(describe(path, cause.as_str()))),
        }
    }
}

} // verus!
