use rusterm::sftp::listing::RemoteStat;
use rusterm::sftp::manager::join_failure;
use rusterm::sftp::session::{
    ConnectNext, ConnectStep, DownloadStage, TransferEvent, TransferTurn, UploadStage,
};
use rusterm::sftp::{
    AuthMethod, CreateSftpResponse, DeleteAction, MkdirAction, DownloadProgressPayload, SftpConfig, SftpError, SftpManager,
    SftpOperation, SftpSession, TransferProgress, UploadProgressPayload,
};

fn config(auth: Option<AuthMethod>) -> SftpConfig {
    SftpConfig { host: "files.example".to_string(), port: 22, username: "me".to_string(), auth_method: auth }
}

fn password() -> Option<AuthMethod> {
    Some(AuthMethod::Password { password: "pw".to_string() })
}

fn key() -> Option<AuthMethod> {
    Some(AuthMethod::PrivateKey { path: "/k".to_string(), passphrase: Some("pp".to_string()) })
}

fn session(id: &str, handle: u8) -> SftpSession<u8> {
    SftpSession::new(id.to_string(), config(password()), handle)
}

#[test]
fn sftp_steps_follow_each_other() {
    let c = config(password());
    assert_eq!(SftpSession::<()>::first_step(), ConnectStep::OpenTcp);
    assert_eq!(SftpSession::<()>::after_step(ConnectStep::OpenTcp, &c, Ok(())), Ok(ConnectNext::Step(ConnectStep::CreateSession)));
    assert_eq!(SftpSession::<()>::after_step(ConnectStep::CreateSession, &c, Ok(())), Ok(ConnectNext::Step(ConnectStep::Handshake)));
    assert_eq!(SftpSession::<()>::after_step(ConnectStep::Handshake, &c, Ok(())), Ok(ConnectNext::Step(ConnectStep::Authenticate)));
    assert_eq!(SftpSession::<()>::after_step(ConnectStep::Authenticate, &c, Ok(())), Ok(ConnectNext::CheckAuthenticated));
    assert_eq!(SftpSession::<()>::after_step(ConnectStep::OpenSubsystem, &c, Ok(())), Ok(ConnectNext::Ready));
    assert_eq!(SftpSession::<()>::authenticate(true), Ok(ConnectStep::OpenSubsystem));
}

#[test]
fn a_configuration_without_credentials_fails_after_the_handshake() {
    let c = config(None);
    assert_eq!(SftpSession::<()>::after_step(ConnectStep::OpenTcp, &c, Ok(())), Ok(ConnectNext::Step(ConnectStep::CreateSession)));
    assert_eq!(
        SftpSession::<()>::after_step(ConnectStep::Handshake, &c, Ok(())),
        Err(SftpError::AuthenticationFailed("No auth method provided".to_string()))
    );
    assert_eq!(
        SftpSession::<()>::after_step(ConnectStep::OpenTcp, &c, Err("refused".to_string())),
        Err(SftpError::ConnectionFailed("TCP connection failed: refused".to_string()))
    );
}

#[test]
fn failed_sftp_steps_become_errors() {
    let fail = |step, c: &SftpConfig| SftpSession::<()>::after_step(step, c, Err("e".to_string()));
    let p = config(password());
    let k = config(key());
    assert_eq!(fail(ConnectStep::OpenTcp, &p), Err(SftpError::ConnectionFailed("TCP connection failed: e".to_string())));
    assert_eq!(fail(ConnectStep::CreateSession, &p), Err(SftpError::ConnectionFailed("SSH session creation failed: e".to_string())));
    assert_eq!(fail(ConnectStep::Handshake, &p), Err(SftpError::ConnectionFailed("SSH handshake failed: e".to_string())));
    assert_eq!(fail(ConnectStep::Authenticate, &p), Err(SftpError::AuthenticationFailed("Password auth failed: e".to_string())));
    assert_eq!(fail(ConnectStep::Authenticate, &k), Err(SftpError::AuthenticationFailed("Key auth failed: e".to_string())));
    assert_eq!(fail(ConnectStep::OpenSubsystem, &p), Err(SftpError::ConnectionFailed("SFTP channel creation failed: e".to_string())));
    assert_eq!(SftpSession::<()>::authenticate(false), Err(SftpError::AuthenticationFailed("Authentication failed".to_string())));
}

#[test]
fn home_directory_from_the_resolved_path() {
    let s = session("s", 0);
    assert_eq!(s.session_id(), "s");
    assert_eq!(s.get_remote_home(Ok(Some("/home/me".to_string()))), Ok("/home/me".to_string()));
    assert_eq!(s.get_remote_home(Ok(None)), Err(SftpError::SshError("Invalid UTF-8 in path".to_string())));
    assert_eq!(
        s.get_remote_home(Err("denied".to_string())),
        Err(SftpError::SshError("Failed to get home path: denied".to_string()))
    );
}

#[test]
fn outcomes_of_simple_operations() {
    let s = session("s", 0);
    assert_eq!(s.delete_file("/a", Ok(())), Ok(()));
    assert_eq!(s.delete_file("/a", Err("no".to_string())), Err(SftpError::DeleteFileFailed("/a: no".to_string())));
    assert_eq!(s.rename_item("/a", "/b", Ok(())), Ok(()));
    assert_eq!(
        s.rename_item("/a", "/b", Err("no".to_string())),
        Err(SftpError::RenameFailed("/a -> /b: no".to_string()))
    );
    let stat = RemoteStat { is_dir: true, size: Some(4096), mtime: Some(5), perm: Some(0o40755) };
    let info = s.get_file_info("/srv\\www", Ok(stat)).unwrap();
    assert_eq!(info.name, "srv\\www");
    assert_eq!(info.path, "/srv/www");
    assert!(info.is_directory);
    assert_eq!(info.permissions, Some("40755".to_string()));
    assert_eq!(
        s.get_file_info("/gone", Err("no such file".to_string())),
        Err(SftpError::PathNotFound("/gone: no such file".to_string()))
    );
    assert_eq!(SftpSession::<()>::download_total(&stat), 4096);
    let bare = RemoteStat { is_dir: false, size: None, mtime: None, perm: None };
    assert_eq!(SftpSession::<()>::download_total(&bare), 0);
}

#[test]
fn upload_turns() {
    let s = session("s", 0);
    let mut progress = TransferProgress::new(100);
    let turn = s.upload_file(&mut progress, "/l", "/r", "t1", TransferEvent::Chunk(40));
    assert_eq!(
        turn,
        Ok(TransferTurn::Continue(Some(UploadProgressPayload { transfer_id: "t1".to_string(), bytes: 40, total_bytes: 100, percentage: 40 })))
    );
    let turn = s.upload_file(&mut progress, "/l", "/r", "t1", TransferEvent::Chunk(2));
    assert_eq!(turn, Ok(TransferTurn::Continue(None)));
    let turn = s.upload_file(&mut progress, "/l", "/r", "t1", TransferEvent::Chunk(58));
    assert_eq!(
        turn,
        Ok(TransferTurn::Continue(Some(UploadProgressPayload { transfer_id: "t1".to_string(), bytes: 100, total_bytes: 100, percentage: 100 })))
    );
    let turn = s.upload_file(&mut progress, "/l", "/r", "t1", TransferEvent::Chunk(0));
    assert_eq!(turn, Ok(TransferTurn::Finished(None)));
}

#[test]
fn upload_failures() {
    let s = session("s", 0);
    let mut progress = TransferProgress::new(100);
    let mut fail = |stage| s.upload_file(&mut progress, "/l", "/r", "t", TransferEvent::Failed(stage, "e".to_string()));
    assert_eq!(fail(UploadStage::OpenLocal), Err(SftpError::UploadFailed("Failed to open local file /l: e".to_string())));
    assert_eq!(fail(UploadStage::ReadMetadata), Err(SftpError::UploadFailed("Failed to get file metadata: e".to_string())));
    assert_eq!(fail(UploadStage::CreateRemote), Err(SftpError::UploadFailed("Failed to create remote file /r: e".to_string())));
    assert_eq!(fail(UploadStage::ReadLocal), Err(SftpError::UploadFailed("Failed to read local file: e".to_string())));
    assert_eq!(fail(UploadStage::WriteRemote), Err(SftpError::UploadFailed("Failed to write to remote file: e".to_string())));
    assert_eq!(progress.bytes_transferred(), 0);
}

#[test]
fn download_turns_and_failures() {
    let s = session("s", 0);
    let mut progress = TransferProgress::new(0);
    let turn = s.download_file(&mut progress, "/r", "/l", "t2", TransferEvent::Chunk(0));
    assert_eq!(
        turn,
        Ok(TransferTurn::Finished(Some(DownloadProgressPayload { transfer_id: "t2".to_string(), bytes: 0, total_bytes: 0, percentage: 100 })))
    );
    let mut progress = TransferProgress::new(10);
    let turn = s.download_file(&mut progress, "/r", "/l", "t2", TransferEvent::Chunk(10));
    assert_eq!(
        turn,
        Ok(TransferTurn::Continue(Some(DownloadProgressPayload { transfer_id: "t2".to_string(), bytes: 10, total_bytes: 10, percentage: 100 })))
    );
    let mut fail = |stage| s.download_file(&mut progress, "/r", "/l", "t", TransferEvent::Failed(stage, "e".to_string()));
    assert_eq!(fail(DownloadStage::StatRemote), Err(SftpError::DownloadFailed("Failed to get remote file stats /r: e".to_string())));
    assert_eq!(fail(DownloadStage::OpenRemote), Err(SftpError::DownloadFailed("Failed to open remote file /r: e".to_string())));
    assert_eq!(fail(DownloadStage::CreateLocal), Err(SftpError::DownloadFailed("Failed to create local file /l: e".to_string())));
    assert_eq!(fail(DownloadStage::ReadRemote), Err(SftpError::DownloadFailed("Failed to read remote file: e".to_string())));
    assert_eq!(fail(DownloadStage::WriteLocal), Err(SftpError::DownloadFailed("Failed to write to local file: e".to_string())));
}

#[test]
fn plans_start_from_the_session() {
    let s = session("s", 0);
    assert_eq!(s.create_directory("/a/b").action(), MkdirAction::Create("/a".to_string()));
    assert_eq!(s.delete_directory("/a/b").action(), DeleteAction::List("/a/b".to_string()));
}

#[test]
fn opened_sessions_are_registered() {
    let mut manager: SftpManager<u8> = SftpManager::new();
    let c = config(password());
    let response = manager.create_session(&c, Ok(Ok(session("s1", 7))));
    assert_eq!(
        response,
        Ok(CreateSftpResponse { session_id: "s1".to_string(), host: "files.example".to_string(), username: "me".to_string() })
    );
    assert_eq!(manager.list_sessions(), vec!["s1"]);
}

#[test]
fn failed_connections_register_nothing() {
    let mut manager: SftpManager<u8> = SftpManager::default();
    let c = config(password());
    let error = SftpError::AuthenticationFailed("Password auth failed: x".to_string());
    assert_eq!(manager.create_session(&c, Ok(Err(error.clone()))), Err(error));
    assert_eq!(
        manager.create_session(&c, Err("cancelled".to_string())),
        Err(SftpError::ConnectionFailed("Task join error: cancelled".to_string()))
    );
    assert!(manager.list_sessions().is_empty());
}

#[test]
fn a_session_is_absent_while_an_operation_runs() {
    let mut manager: SftpManager<u8> = SftpManager::new();
    manager.create_session(&config(password()), Ok(Ok(session("s1", 7)))).unwrap();
    let taken = manager.get_session("s1").unwrap();
    assert_eq!(taken.handle, 7);
    assert!(manager.list_sessions().is_empty());
    assert_eq!(manager.get_session("s1").err(), Some(SftpError::SessionNotFound("s1".to_string())));
    let result = manager.delete_file(taken, Ok(Ok(())));
    assert_eq!(result, Ok(()));
    assert_eq!(manager.list_sessions(), vec!["s1"]);
    assert!(manager.get_session("s1").is_ok());
}

#[test]
fn operations_end_with_the_result_of_the_worker() {
    let mut manager: SftpManager<u8> = SftpManager::new();
    let e = SftpError::RenameFailed("a -> b: no".to_string());
    assert_eq!(manager.rename_item(session("a", 0), Ok(Err(e.clone()))), Err(e));
    assert_eq!(manager.get_remote_home(session("a", 0), Ok(Ok("/h".to_string()))), Ok("/h".to_string()));
    assert_eq!(manager.list_directory(session("a", 0), Ok(Ok(vec![]))), Ok(vec![]));
    assert_eq!(manager.list_sessions(), vec!["a"]);
}

fn lost<T>() -> Result<Result<T, SftpError>, String> {
    Err("panicked".to_string())
}

#[test]
fn lost_workers_become_errors_of_their_operation() {
    let mut manager: SftpManager<u8> = SftpManager::new();
    let d = "Task join error: panicked".to_string();
    assert_eq!(manager.get_remote_home(session("a", 0), lost()), Err(SftpError::SshError(d.clone())));
    assert_eq!(manager.list_directory(session("a", 0), lost()), Err(SftpError::ReadDirFailed(d.clone())));
    assert_eq!(manager.create_directory(session("a", 0), lost()), Err(SftpError::CreateDirFailed(d.clone())));
    assert_eq!(manager.delete_file(session("a", 0), lost()), Err(SftpError::DeleteFileFailed(d.clone())));
    assert_eq!(manager.delete_directory(session("a", 0), lost()), Err(SftpError::DeleteDirFailed(d.clone())));
    assert_eq!(manager.rename_item(session("a", 0), lost()), Err(SftpError::RenameFailed(d.clone())));
    assert_eq!(manager.upload_file(session("a", 0), lost()), Err(SftpError::UploadFailed(d.clone())));
    assert_eq!(manager.download_file(session("a", 0), lost()), Err(SftpError::DownloadFailed(d.clone())));
    assert_eq!(manager.get_file_info(session("a", 0), lost()), Err(SftpError::PathNotFound(d.clone())));
    assert_eq!(join_failure(SftpOperation::Connect, "x"), SftpError::ConnectionFailed("Task join error: x".to_string()));
    assert_eq!(manager.list_sessions(), vec!["a"]);
}

#[test]
fn closing_an_sftp_session_twice() {
    let mut manager: SftpManager<u8> = SftpManager::new();
    manager.create_session(&config(key()), Ok(Ok(session("s1", 7)))).unwrap();
    assert_eq!(manager.close_session("s1").map(|s| s.handle), Ok(7));
    assert_eq!(manager.close_session("s1").map(|s| s.handle), Err(SftpError::SessionNotFound("s1".to_string())));
}

#[test]
fn error_messages_of_the_sftp_layer() {
    let cases = [
        (SftpError::SessionNotFound("x".to_string()), "Session not found: x"),
        (SftpError::ConnectionFailed("x".to_string()), "Connection failed: x"),
        (SftpError::AuthenticationFailed("x".to_string()), "Authentication failed: x"),
        (SftpError::PathNotFound("x".to_string()), "Path not found: x"),
        (SftpError::PermissionDenied("x".to_string()), "Permission denied: x"),
        (SftpError::ReadDirFailed("x".to_string()), "Failed to read directory: x"),
        (SftpError::CreateDirFailed("x".to_string()), "Failed to create directory: x"),
        (SftpError::DeleteFileFailed("x".to_string()), "Failed to delete file: x"),
        (SftpError::DeleteDirFailed("x".to_string()), "Failed to delete directory: x"),
        (SftpError::RenameFailed("x".to_string()), "Failed to rename item: x"),
        (SftpError::UploadFailed("x".to_string()), "Failed to upload file: x"),
        (SftpError::DownloadFailed("x".to_string()), "Failed to download file: x"),
        (SftpError::IoError("x".to_string()), "IO error: x"),
        (SftpError::SshError("x".to_string()), "SSH error: x"),
    ];
    for (error, text) in cases {
        assert_eq!(error.message(), text);
    }
}

#[test]
fn sftp_configurations_are_checked() {
    assert!(config(None).is_valid());
    let mut c = config(password());
    c.port = 0;
    assert!(!c.is_valid());
    let mut c = config(password());
    c.username = String::new();
    assert!(!c.is_valid());
}
