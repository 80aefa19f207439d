use rusterm::pty::session::{PtyDimensions, PtyEvent, PtySession, READ_BUFFER_SIZE};
use rusterm::pty::{
    CreatePtyRequest, CreatePtyResponse, PtyError, PtyExitEvent, PtyManager, PtyOutputEvent,
};
use rusterm::session_id::is_valid_session_id;
use rusterm::stream::{ExitCause, LoopNext, ReadOutcome, StreamAction, StreamReader};

fn session(id: &str, pid: u32, handle: u8) -> PtySession<u8> {
    PtySession::new(id.to_string(), "/bin/sh".to_string(), Some(pid), handle).unwrap()
}

#[test]
fn read_buffer_is_eight_kibibytes() {
    assert_eq!(READ_BUFFER_SIZE, 8192);
}

#[test]
fn default_shell_by_platform() {
    assert_eq!(PtySession::<()>::default_shell(true, Some("/bin/zsh".to_string())), "powershell.exe");
    assert_eq!(PtySession::<()>::default_shell(true, None), "powershell.exe");
    assert_eq!(PtySession::<()>::default_shell(false, Some("/bin/zsh".to_string())), "/bin/zsh");
    assert_eq!(PtySession::<()>::default_shell(false, None), "/bin/bash");
}

#[test]
fn launch_uses_the_shell_asked_for() {
    let plan = PtySession::<()>::launch(
        Some("/bin/sh".to_string()),
        Some("/tmp".to_string()),
        Some(vec![("A".to_string(), "1".to_string())]),
        80,
        24,
        false,
        Some("/bin/zsh".to_string()),
    );
    assert_eq!(plan.shell, "/bin/sh");
    assert_eq!(plan.cwd, Some("/tmp".to_string()));
    assert_eq!(plan.env, vec![("A".to_string(), "1".to_string())]);
    assert_eq!(plan.size, PtyDimensions { rows: 24, cols: 80, pixel_width: 0, pixel_height: 0 });
}

#[test]
fn launch_falls_back_to_the_default_shell() {
    let plan = PtySession::<()>::launch(None, None, None, 132, 40, false, None);
    assert_eq!(plan.shell, "/bin/bash");
    assert_eq!(plan.cwd, None);
    assert!(plan.env.is_empty());
    assert_eq!(plan.size.cols, 132);
    assert_eq!(plan.size.rows, 40);
}

#[test]
fn a_session_needs_a_process_id() {
    let result = PtySession::new("id".to_string(), "/bin/sh".to_string(), None, ());
    match result {
        Err(e) => {
            assert_eq!(e, PtyError::CreationFailed("Failed to get PID".to_string()));
            assert_eq!(e.message(), "Failed to create PTY: Failed to get PID");
        }
        Ok(_) => panic!("a session without a process"),
    }
    let s = session("id", 77, 0);
    assert_eq!((s.pty_id.as_str(), s.pid, s.shell.as_str()), ("id", 77, "/bin/sh"));
}

#[test]
fn write_and_resize_requests() {
    let s = session("id", 1, 0);
    assert_eq!(s.write("echo hi\n"), b"echo hi\n".to_vec());
    assert_eq!(s.write("é"), vec![0xc3, 0xa9]);
    assert_eq!(s.resize(132, 40), PtyDimensions { rows: 40, cols: 132, pixel_width: 0, pixel_height: 0 });
}

#[test]
fn request_sizes_are_checked() {
    let mut r = CreatePtyRequest { shell: None, cwd: None, env: None, cols: 80, rows: 24 };
    assert!(r.is_valid());
    r.cols = 0;
    assert!(!r.is_valid());
    r.cols = 1;
    r.rows = 0;
    assert!(!r.is_valid());
    r.rows = 65535;
    r.cols = 65535;
    assert!(r.is_valid());
}

#[test]
fn events_of_the_read_loop() {
    let mut reader = StreamReader::new();
    let (next, event) = PtySession::<()>::read_output(&mut reader, "p1", ReadOutcome::Read(b"hi".to_vec()));
    assert_eq!(next, LoopNext::ReadOn);
    let event = event.unwrap();
    assert_eq!(event, PtyEvent::Output(PtyOutputEvent { pty_id: "p1".to_string(), data: "hi".to_string() }));
    assert_eq!(event.event_name(), "pty-output-p1");
    let (next, event) = PtySession::<()>::read_output(&mut reader, "p1", ReadOutcome::Read(vec![]));
    assert_eq!(next, LoopNext::Leave);
    let event = event.unwrap();
    assert_eq!(event, PtyEvent::Exit(PtyExitEvent { pty_id: "p1".to_string(), exit_code: Some(0) }));
    assert_eq!(event.event_name(), "pty-exit-p1");
    let (next, event) = PtySession::<()>::read_output(&mut reader, "p1", ReadOutcome::Read(b"x".to_vec()));
    assert_eq!(next, LoopNext::Leave);
    assert_eq!(event, None);
}

#[test]
fn a_failed_read_exits_without_a_code() {
    let mut reader = StreamReader::new();
    let (next, event) = PtySession::<()>::read_output(&mut reader, "p1", ReadOutcome::Failed("io".to_string()));
    assert_eq!(next, LoopNext::Leave);
    assert_eq!(event, Some(PtyEvent::Exit(PtyExitEvent { pty_id: "p1".to_string(), exit_code: None })));
    assert_eq!(
        PtySession::<()>::event_for("p", StreamAction::Exit(ExitCause::Closed)),
        Some(PtyEvent::Exit(PtyExitEvent { pty_id: "p".to_string(), exit_code: Some(0) }))
    );
    assert_eq!(PtySession::<()>::event_for("p", StreamAction::Wait), None);
    assert_eq!(PtySession::<()>::event_for("p", StreamAction::Stop), None);
}

#[test]
fn created_sessions_are_listed_until_closed() {
    let mut manager: PtyManager<u8> = PtyManager::new();
    assert!(manager.list_sessions().is_empty());
    let id = PtyManager::<u8>::new_session_id();
    assert!(is_valid_session_id(&id));
    let response = manager.create_session(session(&id, 42, 9));
    assert_eq!(response, CreatePtyResponse { pty_id: id.clone(), pid: 42, shell: "/bin/sh".to_string() });
    assert_eq!(manager.list_sessions(), vec![id.clone()]);
    manager.create_session(session("other", 43, 1));
    assert!(manager.write_to_session(&id, "x").is_ok());
    assert!(manager.resize_session(&id, 1, 1).is_ok());
    assert!(manager.close_session("other").is_ok());
    assert!(manager.list_sessions().contains(&id));
    let closed = manager.close_session(&id).unwrap();
    assert_eq!((closed.pid, closed.handle), (42, 9));
    assert!(!manager.list_sessions().contains(&id));
    assert!(manager.list_sessions().is_empty());
}

#[test]
fn closing_twice_reports_the_session_missing() {
    let mut manager: PtyManager<u8> = PtyManager::default();
    manager.create_session(session("a", 1, 0));
    assert!(manager.close_session("a").is_ok());
    match manager.close_session("a") {
        Err(e) => {
            assert_eq!(e, PtyError::SessionNotFound("a".to_string()));
            assert_eq!(e.message(), "Session not found: a");
        }
        Ok(_) => panic!("closed twice"),
    }
}

#[test]
fn writes_and_resizes_need_a_registered_session() {
    let mut manager: PtyManager<u8> = PtyManager::new();
    assert_eq!(manager.write_to_session("nope", "x").err(), Some(PtyError::SessionNotFound("nope".to_string())));
    assert_eq!(manager.resize_session("nope", 80, 24).err(), Some(PtyError::SessionNotFound("nope".to_string())));
    manager.create_session(session("a", 5, 7));
    let (s, bytes) = manager.write_to_session("a", "ls\n").unwrap();
    assert_eq!((s.pid, s.handle), (5, 7));
    assert_eq!(bytes, b"ls\n".to_vec());
    let (s, size) = manager.resize_session("a", 100, 30).unwrap();
    assert_eq!(s.handle, 7);
    assert_eq!(size, PtyDimensions { rows: 30, cols: 100, pixel_width: 0, pixel_height: 0 });
}

#[test]
fn error_messages_of_the_terminal_layer() {
    assert_eq!(PtyError::WriteFailed("w".to_string()).message(), "Failed to write to PTY: w");
    assert_eq!(PtyError::ResizeFailed("r".to_string()).message(), "Failed to resize PTY: r");
    assert_eq!(PtyError::IoError("i".to_string()).message(), "IO error: i");
    assert_eq!(PtyError::PtyError("p".to_string()).message(), "PTY error: p");
}
