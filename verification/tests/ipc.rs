use rusterm::ipc::events::{
    tab_closed_event_name, tab_created_event_name, TabClosedPayload, TabCreatedPayload,
};
use rusterm::ipc::handler::{
    handle_add_local_tab, handle_add_ssh_tab, handle_close_tab, handle_list_tabs, handle_ping,
    handle_request, list_tabs, local_tab_created, local_tab_failed, plan_ssh_tab, require_params,
    ssh_tab_failed, tab_not_announced, CommandKind, Params,
};
use rusterm::ipc::platform::{
    accept_connection, after_listen_step, cleanup_socket, create_listener, get_pipe_name,
    create_next_instance, create_pipe_listener, get_pipe_path, get_socket_path, ListenStep,
    SOCKET_MODE,
};
use rusterm::ipc::protocol::{
    frame, unframe, AddLocalTabParams, AddSshTabParams, CloseTabParams, CloseTabResponse,
    PingResponse, TabInfo,
};
use rusterm::ipc::server::{
    handle_connection, invalid_json, process_request, response_line, run_server, ConnectionAction,
    LineRead, ServerAction, ServerEvent,
};
use rusterm::ipc::{IpcCommand, IpcError, IpcRequest, IpcResponse, IpcServer};
use rusterm::pty::{CreatePtyRequest, CreatePtyResponse, PtyError, PtyManager, PtySession};
use rusterm::session_id::is_valid_session_id;
use rusterm::ssh::{AuthMethod, SshConfig, SshError, SshManager};

fn ssh_config() -> SshConfig {
    SshConfig {
        host: "example.com".to_string(),
        port: 22,
        username: "user".to_string(),
        auth_method: AuthMethod::Password { password: "pw".to_string() },
    }
}

fn error(message: &str) -> IpcResponse {
    IpcResponse { success: false, data: None, error: Some(message.to_string()) }
}

fn request(command: &str) -> IpcRequest {
    IpcRequest { token: None, command: command.to_string(), params: None }
}

fn ping_data(version: &str, pid: u32) -> serde_json::Value {
    let mut map = serde_json::Map::new();
    map.insert("version".to_string(), serde_json::Value::String(version.to_string()));
    map.insert("pid".to_string(), serde_json::Value::from(pid));
    serde_json::Value::Object(map)
}

#[test]
fn test_success_response_serialization() {
    let ping = handle_ping("0.1.0", 12345);
    let resp = IpcResponse::success(Some(ping_data(&ping.version, ping.pid)));
    assert!(resp.success);
    assert!(resp.data.is_some());
    assert!(resp.error.is_none());
}

#[test]
fn test_error_response_serialization() {
    let resp = IpcResponse::error("Test error");
    assert!(!resp.success);
    assert!(resp.data.is_none());
    assert_eq!(resp.error, Some("Test error".to_string()));
}

#[test]
fn test_ping_handler() {
    let ping = handle_ping("0.1.0", 4242);
    assert_eq!(ping, PingResponse { version: "0.1.0".to_string(), pid: 4242 });
    let response = IpcResponse::success(Some(ping_data(&ping.version, ping.pid)));
    assert!(response.success);
    assert!(response.data.is_some());
}

#[test]
fn test_ping_command_deserialization() {
    let json = r#"{"command":"ping"}"#;
    let text = process_request(json).unwrap();
    let value: serde_json::Value = serde_json::from_str(&text).unwrap();
    let command = value.get("command").and_then(|c| c.as_str()).unwrap().to_string();
    let req = IpcRequest { token: None, command, params: None };
    let cmd = handle_request(&req).unwrap();
    assert!(matches!(cmd, CommandKind::Ping));
}

#[test]
fn success_keeps_the_data() {
    let data = ping_data("1.2.3", 7);
    let resp = IpcResponse::success(Some(data.clone()));
    assert_eq!(resp.data, Some(data));
    let bare = IpcResponse::success(None);
    assert!(bare.success);
    assert_eq!(bare.data, None);
    assert_eq!(bare.error, None);
}

#[test]
fn ipc_ping_over_the_wire() {
    let line = "{\"command\":\"ping\"}\n";
    let text = match handle_connection(LineRead::Line(line.to_string())) {
        ConnectionAction::Decode(text) => text,
        other => panic!("unexpected {:?}", other),
    };
    assert_eq!(text, "{\"command\":\"ping\"}");
    let value: serde_json::Value = serde_json::from_str(&text).unwrap();
    let command = value.get("command").and_then(|c| c.as_str()).unwrap().to_string();
    let req = IpcRequest { token: None, command, params: value.get("params").cloned() };
    assert_eq!(handle_request(&req), Ok(CommandKind::Ping));
    let ping = handle_ping("0.1.0", 31337);
    let response = IpcResponse::success(Some(ping_data(&ping.version, ping.pid)));
    assert!(response.success);
    let data = response.data.clone().unwrap();
    assert_eq!(data.get("pid").and_then(|p| p.as_u64()), Some(31337));
    assert!(!data.get("version").and_then(|v| v.as_str()).unwrap().is_empty());
    let encoded = serde_json::to_string(&data).unwrap();
    let out = response_line(&encoded);
    assert!(out.ends_with('\n'));
    assert_eq!(out.matches('\n').count(), 1);
}

#[test]
fn commands_are_told_apart_by_name() {
    assert_eq!(handle_request(&request("ping")), Ok(CommandKind::Ping));
    assert_eq!(handle_request(&request("add_ssh_tab")), Ok(CommandKind::AddSshTab));
    assert_eq!(handle_request(&request("add_local_tab")), Ok(CommandKind::AddLocalTab));
    assert_eq!(handle_request(&request("close_tab")), Ok(CommandKind::CloseTab));
    assert_eq!(handle_request(&request("list_tabs")), Ok(CommandKind::ListTabs));
}

#[test]
fn unknown_commands_are_answered_with_their_name() {
    assert_eq!(handle_request(&request("reboot")), Err(error("Unknown command: reboot")));
    assert_eq!(handle_request(&request("Ping")), Err(error("Unknown command: Ping")));
    assert_eq!(handle_request(&request("")), Err(error("Unknown command: ")));
}

#[test]
fn empty_lines_are_answered_at_once() {
    assert_eq!(process_request(""), Err(error("Empty request")));
    assert_eq!(process_request("  \r\n"), Err(error("Empty request")));
    assert_eq!(handle_connection(LineRead::Line("\n".to_string())), ConnectionAction::Reply(error("Empty request")));
    assert_eq!(process_request(" {} \n"), Ok("{}".to_string()));
}

#[test]
fn malformed_requests_are_answered_with_the_cause() {
    let cause = serde_json::from_str::<serde_json::Value>("{oops").unwrap_err().to_string();
    let response = invalid_json(&cause);
    assert_eq!(response, error(&format!("Invalid JSON: {}", cause)));
    assert!(response.error.unwrap().starts_with("Invalid JSON: "));
}

#[test]
fn connections_close_at_the_end_and_on_failure() {
    assert_eq!(handle_connection(LineRead::Eof), ConnectionAction::Close);
    assert_eq!(handle_connection(LineRead::Failed("reset".to_string())), ConnectionAction::Close);
}

#[test]
fn framing_round_trips() {
    let messages = ["{\"command\":\"ping\"}", "{\"success\":true,\"data\":{\"a\":\" b \"}}", "{}"];
    for m in messages {
        let line = frame(m);
        assert_eq!(line, format!("{}\n", m));
        assert_eq!(unframe(&line), m);
    }
}

#[test]
fn parameters_are_required() {
    assert_eq!(require_params(CommandKind::CloseTab, Params::Given(5)), Ok(5));
    assert_eq!(require_params::<u8>(CommandKind::AddSshTab, Params::Missing), Err(error("Missing params for add_ssh_tab")));
    assert_eq!(require_params::<u8>(CommandKind::AddLocalTab, Params::Missing), Err(error("Missing params for add_local_tab")));
    assert_eq!(require_params::<u8>(CommandKind::CloseTab, Params::Missing), Err(error("Missing params for close_tab")));
    assert_eq!(
        require_params::<u8>(CommandKind::CloseTab, Params::Invalid("missing field `tabId`".to_string())),
        Err(error("Invalid params: missing field `tabId`"))
    );
}

#[test]
fn ssh_tab_is_announced_before_it_connects() {
    let params = AddSshTabParams { config: ssh_config(), cols: 80, rows: 24 };
    let plan = handle_add_ssh_tab(Params::Given(params)).unwrap();
    assert!(is_valid_session_id(&plan.session_id));
    let id = plan.session_id.clone();
    assert_eq!(
        plan.created,
        TabCreatedPayload {
            tab_id: id.clone(),
            tab_type: "ssh".to_string(),
            title: "user@example.com".to_string(),
            pty_id: None,
            session_id: Some(id.clone()),
        }
    );
    assert_eq!(plan.response.session_id, id);
    assert_eq!(plan.response.host, "example.com");
    assert_eq!(plan.response.username, "user");
    assert_eq!(plan.connect.config, ssh_config());
    assert_eq!((plan.connect.cols, plan.connect.rows), (80, 24));
}

#[test]
fn ssh_tab_plan_under_a_given_id() {
    let params = AddSshTabParams { config: ssh_config(), cols: 132, rows: 40 };
    let plan = plan_ssh_tab(params, "tab-9".to_string());
    assert_eq!(plan.session_id, "tab-9");
    assert_eq!(plan.created.tab_id, "tab-9");
    assert_eq!(plan.created.session_id, Some("tab-9".to_string()));
    assert_eq!(plan.created.title, "user@example.com");
    assert_eq!((plan.connect.cols, plan.connect.rows), (132, 40));
}

#[test]
fn ssh_tab_without_parameters() {
    assert_eq!(handle_add_ssh_tab(Params::Missing), Err(error("Missing params for add_ssh_tab")));
    assert_eq!(handle_add_ssh_tab(Params::Invalid("bad".to_string())), Err(error("Invalid params: bad")));
    assert_eq!(tab_not_announced("no window"), error("Failed to emit tab-created event: no window"));
}

#[test]
fn a_failed_connection_is_shown_in_the_tab() {
    let e = SshError::ConnectionFailed("TCP connection failed: refused".to_string());
    let event = ssh_tab_failed("tab-1", &e, &ssh_config());
    assert_eq!(event.session_id, "tab-1");
    assert_eq!(
        event.data,
        "\r\n\x1b[1;31m[SSH Connection Failed: Connection failed: TCP connection failed: refused]\x1b[0m\r\n\r\nConnection details:\r\n  Host: example.com:22\r\n  User: user\r\n"
    );
}

#[test]
fn local_tab_uses_the_default_shell() {
    let params = AddLocalTabParams { cwd: Some("/home/user".to_string()), cols: 80, rows: 24 };
    assert_eq!(
        handle_add_local_tab(Params::Given(params)),
        Ok(CreatePtyRequest { shell: None, cwd: Some("/home/user".to_string()), env: None, cols: 80, rows: 24 })
    );
    assert_eq!(handle_add_local_tab(Params::Missing), Err(error("Missing params for add_local_tab")));
    assert_eq!(handle_add_local_tab(Params::Invalid("x".to_string())), Err(error("Invalid params: x")));
}

#[test]
fn local_tab_is_announced_after_it_was_created() {
    let response = CreatePtyResponse { pty_id: "p-1".to_string(), pid: 10, shell: "/bin/bash".to_string() };
    assert_eq!(
        local_tab_created(&response),
        TabCreatedPayload {
            tab_id: "p-1".to_string(),
            tab_type: "local".to_string(),
            title: "/bin/bash".to_string(),
            pty_id: Some("p-1".to_string()),
            session_id: None,
        }
    );
    let failed = local_tab_failed(&PtyError::CreationFailed("no pty".to_string()));
    assert_eq!(failed, error("Failed to create PTY session: Failed to create PTY: no pty"));
}

fn managers() -> (PtyManager<u8>, SshManager<u8>) {
    let mut pty = PtyManager::new();
    let mut ssh = SshManager::new();
    pty.create_session(PtySession::new("aaaaaaaa-local".to_string(), "/bin/sh".to_string(), Some(1), 1).unwrap());
    ssh.create_session_with_id(Some("bbbbbbbb-remote".to_string()), ssh_config(), 2);
    (pty, ssh)
}

#[test]
fn close_tab_closes_in_either_registry() {
    let (mut pty, mut ssh) = managers();
    let outcome = handle_close_tab(Params::Given(CloseTabParams { tab_id: "aaaaaaaa-local".to_string() }), &mut pty, &mut ssh);
    assert_eq!(outcome.pty.map(|s| s.handle), Some(1));
    assert!(outcome.ssh.is_none());
    assert_eq!(
        outcome.result,
        Ok((
            TabClosedPayload { tab_id: "aaaaaaaa-local".to_string() },
            CloseTabResponse { tab_id: "aaaaaaaa-local".to_string(), closed: true }
        ))
    );
    assert!(pty.list_sessions().is_empty());
    assert_eq!(ssh.list_sessions().len(), 1);
    let outcome = handle_close_tab(Params::Given(CloseTabParams { tab_id: "bbbbbbbb-remote".to_string() }), &mut pty, &mut ssh);
    assert!(outcome.pty.is_none());
    assert_eq!(outcome.ssh.map(|s| s.handle), Some(2));
    assert!(outcome.result.is_ok());
    assert!(ssh.list_sessions().is_empty());
}

#[test]
fn close_tab_twice_finds_nothing_the_second_time() {
    let (mut pty, mut ssh) = managers();
    let params = || Params::Given(CloseTabParams { tab_id: "aaaaaaaa-local".to_string() });
    assert!(handle_close_tab(params(), &mut pty, &mut ssh).result.is_ok());
    let again = handle_close_tab(params(), &mut pty, &mut ssh);
    assert_eq!(again.result, Err(error("Tab not found: aaaaaaaa-local")));
    assert!(again.pty.is_none() && again.ssh.is_none());
}

#[test]
fn close_tab_without_parameters_changes_nothing() {
    let (mut pty, mut ssh) = managers();
    let outcome = handle_close_tab(Params::Missing, &mut pty, &mut ssh);
    assert_eq!(outcome.result, Err(error("Missing params for close_tab")));
    let outcome = handle_close_tab(Params::Invalid("bad".to_string()), &mut pty, &mut ssh);
    assert_eq!(outcome.result, Err(error("Invalid params: bad")));
    assert_eq!(pty.list_sessions().len(), 1);
    assert_eq!(ssh.list_sessions().len(), 1);
}

#[test]
fn list_tabs_is_the_union_of_both_registries() {
    let (pty, ssh) = managers();
    let response = handle_list_tabs(&pty, &ssh);
    assert_eq!(
        response.tabs,
        vec![
            TabInfo { tab_id: "aaaaaaaa-local".to_string(), tab_type: "local".to_string(), title: "Terminal aaaaaaaa".to_string(), active: false },
            TabInfo { tab_id: "bbbbbbbb-remote".to_string(), tab_type: "ssh".to_string(), title: "SSH bbbbbbbb".to_string(), active: false },
        ]
    );
}

#[test]
fn list_tabs_of_given_ids() {
    let response = list_tabs(
        &vec!["123e4567-e89b-42d3-a456-426614174000".to_string()],
        &vec!["00000000-1111".to_string(), "ffffffff-2222".to_string()],
    );
    let titles: Vec<&str> = response.tabs.iter().map(|t| t.title.as_str()).collect();
    assert_eq!(titles, vec!["Terminal 123e4567", "SSH 00000000", "SSH ffffffff"]);
    assert!(list_tabs(&Vec::new(), &Vec::new()).tabs.is_empty());
}

#[test]
fn event_names_of_tabs() {
    assert_eq!(tab_created_event_name(), "tab-created");
    assert_eq!(tab_closed_event_name(), "tab-closed");
}

#[test]
fn endpoints_are_per_user() {
    assert_eq!(get_socket_path(1000), "/tmp/rusterm-1000.sock");
    assert_eq!(get_socket_path(0), "/tmp/rusterm-0.sock");
    assert_eq!(get_pipe_name(Some("alice")), "rusterm-alice");
    assert_eq!(get_pipe_name(None), "rusterm-default");
    assert_eq!(get_pipe_path(Some("alice")), r"\\.\pipe\rusterm-alice");
    assert_eq!(get_pipe_path(None), r"\\.\pipe\rusterm-default");
    assert_eq!(SOCKET_MODE, 0o600);
}

#[test]
fn setting_up_the_socket() {
    assert_eq!(create_listener(true), ListenStep::RemoveStale);
    assert_eq!(create_listener(false), ListenStep::Bind);
    assert_eq!(after_listen_step(ListenStep::RemoveStale, "/p", Ok(())), Ok(Some(ListenStep::Bind)));
    assert_eq!(after_listen_step(ListenStep::Bind, "/p", Ok(())), Ok(Some(ListenStep::ReadMetadata)));
    assert_eq!(after_listen_step(ListenStep::ReadMetadata, "/p", Ok(())), Ok(Some(ListenStep::SetPermissions)));
    assert_eq!(after_listen_step(ListenStep::SetPermissions, "/p", Ok(())), Ok(None));
}

#[test]
fn failures_to_set_up_the_endpoint() {
    let fail = |step| after_listen_step(step, "/tmp/s.sock", Err("e".to_string()));
    assert_eq!(fail(ListenStep::RemoveStale), Err(IpcError::BindFailed("Failed to remove existing socket: e".to_string())));
    assert_eq!(fail(ListenStep::Bind), Err(IpcError::BindFailed("Failed to bind to /tmp/s.sock: e".to_string())));
    assert_eq!(fail(ListenStep::ReadMetadata), Err(IpcError::BindFailed("Failed to get socket metadata: e".to_string())));
    assert_eq!(fail(ListenStep::SetPermissions), Err(IpcError::BindFailed("Failed to set socket permissions: e".to_string())));
    assert_eq!(create_pipe_listener("P", Ok(())), Ok(()));
    assert_eq!(
        create_pipe_listener("P", Err("e".to_string())),
        Err(IpcError::BindFailed("Failed to create pipe 'P': e".to_string()))
    );
    assert_eq!(create_next_instance(Ok(())), Ok(()));
    assert_eq!(
        create_next_instance(Err("e".to_string())),
        Err(IpcError::BindFailed("Failed to create next pipe instance: e".to_string()))
    );
    assert_eq!(accept_connection(Ok(())), Ok(()));
    assert_eq!(accept_connection(Err("e".to_string())), Err(IpcError::AcceptFailed("e".to_string())));
}

#[test]
fn cleanup_removes_only_a_socket_that_is_there() {
    assert!(cleanup_socket(true, true));
    assert!(!cleanup_socket(true, false));
    assert!(!cleanup_socket(false, true));
    assert!(!cleanup_socket(false, false));
}

#[test]
fn turns_of_the_accept_loop() {
    assert_eq!(run_server(&ServerEvent::Shutdown, false), ServerAction::Stop);
    assert_eq!(run_server(&ServerEvent::Accepted, false), ServerAction::Serve { renew: false });
    assert_eq!(run_server(&ServerEvent::Accepted, true), ServerAction::Serve { renew: true });
    assert_eq!(run_server(&ServerEvent::AcceptFailed("e".to_string()), true), ServerAction::Continue);
    assert_eq!(run_server(&ServerEvent::NextInstanceFailed("e".to_string()), true), ServerAction::Stop);
}

#[test]
fn shutdown_is_signalled_once() {
    let mut server = IpcServer::start(99u8);
    assert_eq!(server.shutdown(), Some(99));
    assert_eq!(server.shutdown(), None);
    assert_eq!(server.shutdown(), None);
}

#[test]
fn commands_carry_their_parameters() {
    let cmd = IpcCommand::AddLocalTab { params: AddLocalTabParams { cwd: Some("/home/user".to_string()), cols: 80, rows: 24 } };
    match cmd {
        IpcCommand::AddLocalTab { params } => assert_eq!(params.cwd, Some("/home/user".to_string())),
        _ => panic!("Expected AddLocalTab command"),
    }
    assert!(matches!(IpcCommand::Ping, IpcCommand::Ping));
    assert!(matches!(IpcCommand::ListTabs, IpcCommand::ListTabs));
}

#[test]
fn error_messages_of_the_endpoint() {
    let cases = [
        (IpcError::ServerStartFailed("x".to_string()), "Failed to start IPC server: x"),
        (IpcError::BindFailed("x".to_string()), "Failed to bind to IPC endpoint: x"),
        (IpcError::AcceptFailed("x".to_string()), "Failed to accept connection: x"),
        (IpcError::ParseError("x".to_string()), "Failed to parse request: x"),
        (IpcError::UnknownCommand("x".to_string()), "Unknown command: x"),
        (IpcError::InvalidParams("x".to_string()), "Invalid parameters: x"),
        (IpcError::IoError("x".to_string()), "IO error: x"),
        (IpcError::JsonError("x".to_string()), "JSON error: x"),
    ];
    for (error, text) in cases {
        assert_eq!(error.message(), text);
    }
}
