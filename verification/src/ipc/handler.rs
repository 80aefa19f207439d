//! What each command of the control endpoint does.

use vstd::prelude::*;
use crate::ipc::events::{TabClosedPayload, TabCreatedPayload};
use crate::ipc::protocol::{
    AddLocalTabParams, AddSshTabParams, CloseTabParams, CloseTabResponse, IpcRequest, IpcResponse,
    ListTabsResponse, PingResponse, TabInfo,
};
use crate::pty::manager::PtyManager;
use crate::pty::session::PtySession;
use crate::pty::types::{CreatePtyRequest, CreatePtyResponse, PtyError};
use crate::session_id::{has_short_form, is_session_id, is_short_form, session_id_or_new, short_id};
use crate::ssh::manager::SshManager;
use crate::ssh::session::SshSession;
use crate::ssh::types::{
    address_text, CreateSshRequest, CreateSshResponse, SshConfig, SshError, SshOutputEvent,
};
use crate::text::same_text;

verus! {

/// The commands that the endpoint knows.
#[derive(Debug, Clone, Copy, PartialEq, Eq, Structural)]
pub enum CommandKind {
    Ping,
    AddSshTab,
    AddLocalTab,
    CloseTab,
    ListTabs,
}

/// The name of a command on the wire.
pub open spec fn command_name(kind: CommandKind) -> Seq<char> {
    match kind {
        CommandKind::Ping => "ping"@,
        CommandKind::AddSshTab => "add_ssh_tab"@,
        CommandKind::AddLocalTab => "add_local_tab"@,
        CommandKind::CloseTab => "close_tab"@,
        CommandKind::ListTabs => "list_tabs"@,
    }
}

/// The command that a name stands for, if any.
pub open spec fn command_kind(name: Seq<char>) -> Option<CommandKind> {
    if name == "ping"@ {
        Some(CommandKind::Ping)
    } else if name == "add_ssh_tab"@ {
        Some(CommandKind::AddSshTab)
    } else if name == "add_local_tab"@ {
        Some(CommandKind::AddLocalTab)
    } else if name == "close_tab"@ {
        Some(CommandKind::CloseTab)
    } else if name == "list_tabs"@ {
        Some(CommandKind::ListTabs)
    } else {
        None
    }
}

/// The parameters of a request after decoding.
#[derive(Debug, Clone, PartialEq, Eq)]
pub enum Params<T> {
    /// The request had none.
    Missing,
    /// They could not be decoded, for this reason.
    Invalid(String),
    /// They were decoded to this.
    Given(T),
}

/// Tells which command a request asks for; a name that stands for none is
/// answered with an error that repeats it.
pub fn handle_request(request: &IpcRequest) -> (kind: Result<CommandKind, IpcResponse>)
    ensures
        match command_kind(request.command@) {
            Some(k) => kind == Ok::<CommandKind, IpcResponse>(k),
            None => kind is Err && kind->Err_0.is_error("Unknown command: "@ + request.command@),
        },
{
    let name = request.command.as_str();
    if same_text(name, "ping") {
        Ok(CommandKind::Ping)
    } else if same_text(name, "add_ssh_tab") {
        Ok(CommandKind::AddSshTab)
    } else if same_text(name, "add_local_tab") {
        Ok(CommandKind::AddLocalTab)
    } else if same_text(name, "close_tab") {
        Ok(CommandKind::CloseTab)
    } else if same_text(name, "list_tabs") {
        Ok(CommandKind::ListTabs)
    } else {
        let message = String::from_str("Unknown command: ").concat(name);
        Err(IpcResponse::error(message.as_str()))
    }
}

/// The parameters of a command that needs them, or the answer to a request
/// that lacks them or has them wrong.
pub fn require_params<T>(kind: CommandKind, params: Params<T>) -> (given: Result<T, IpcResponse>)
    ensures
        match params {
            Params::Given(p) => given == Ok::<T, IpcResponse>(p),
            Params::Missing => given is Err && given->Err_0.is_error(
                "Missing params for "@ + command_name(kind),
            ),
            Params::Invalid(cause) => given is Err && given->Err_0.is_error(
                "Invalid params: "@ + cause@,
            ),
        },
{
    match params {
        Params::Given(p) => Ok(p),
        Params::Missing => {
            let name = match kind {
                CommandKind::Ping => "ping",
                CommandKind::AddSshTab => "add_ssh_tab",
                CommandKind::AddLocalTab => "add_local_tab",
                CommandKind::CloseTab => "close_tab",
                CommandKind::ListTabs => "list_tabs",
            };
            let message = String::from_str("Missing params for ").concat(name);
            Err(IpcResponse::error(message.as_str()))
        },
        Params::Invalid(cause) => {
            let message = String::from_str("Invalid params: ").concat(cause.as_str());
            Err(IpcResponse::error(message.as_str()))
        },
    }
}

/// What `ping` answers: the version of the program and the identifier of
/// its process.
pub fn handle_ping(version: &str, pid: u32) -> (response: PingResponse)
    ensures
        response.version@ == version@,
        response.pid == pid,
{
    PingResponse { version: String::from_str(version), pid }
}

/// What `add_ssh_tab` sets going: the tab is announced first, the caller
/// is answered at once, and the connection is attempted afterwards.
#[derive(Debug, Clone, PartialEq, Eq)]
pub struct AddSshTabPlan {
    /// The announcement of the tab.
    pub created: TabCreatedPayload,
    /// The answer to the caller.
    pub response: CreateSshResponse,
    /// The identifier under which the session is to be registered.
    pub session_id: String,
    /// What to connect to, and the size of the terminal.
    pub connect: CreateSshRequest,
}

/// Whether `plan` is what `add_ssh_tab` sets going for these parameters
/// under this identifier: a tab of type `ssh` titled with user and host,
/// an answer that repeats identifier, host and user, and a connection to
/// the configuration given.
pub open spec fn is_ssh_tab_plan(plan: AddSshTabPlan, params: AddSshTabParams, id: Seq<char>) -> bool {
    &&& plan.session_id@ == id
    &&& plan.created.tab_id@ == id
    &&& plan.created.tab_type@ == "ssh"@
    &&& plan.created.title@ == params.config.username@ + "@"@ + params.config.host@
    &&& plan.created.pty_id is None
    &&& match plan.created.session_id {
        Some(s) => s@ == id,
        None => false,
    }
    &&& plan.response.session_id@ == id
    &&& plan.response.host@ == params.config.host@
    &&& plan.response.username@ == params.config.username@
    &&& plan.connect.config == params.config
    &&& plan.connect.cols == params.cols
    &&& plan.connect.rows == params.rows
}

/// What `add_ssh_tab` sets going for these parameters under this
/// identifier.
pub fn plan_ssh_tab(params: AddSshTabParams, session_id: String) -> (plan: AddSshTabPlan)
    ensures
        is_ssh_tab_plan(plan, params, session_id@),
{
    let title = params.config.username.clone().concat("@").concat(params.config.host.as_str());
    let created = TabCreatedPayload {
        tab_id: session_id.clone(),
        tab_type: String::from_str("ssh"),
        title,
        pty_id: None,
        session_id: Some(session_id.clone()),
    };
    let response = CreateSshResponse {
        session_id: session_id.clone(),
        host: params.config.host.clone(),
        username: params.config.username.clone(),
    };
    let connect = CreateSshRequest { config: params.config, cols: params.cols, rows: params.rows };
    AddSshTabPlan { created, response, session_id, connect }
}

/// Handles `add_ssh_tab`: with parameters, the plan under a fresh
/// identifier; without, the answer that says what is wrong with them.
pub fn handle_add_ssh_tab(params: Params<AddSshTabParams>) -> (plan: Result<
    AddSshTabPlan,
    IpcResponse,
>)
    ensures
        match params {
            Params::Given(p) => plan is Ok && is_session_id(plan->Ok_0.session_id@)
                && is_ssh_tab_plan(plan->Ok_0, p, plan->Ok_0.session_id@),
            Params::Missing => plan is Err && plan->Err_0.is_error(
                "Missing params for "@ + command_name(CommandKind::AddSshTab),
            ),
            Params::Invalid(cause) => plan is Err && plan->Err_0.is_error(
                "Invalid params: "@ + cause@,
            ),
        },
{
    match require_params(CommandKind::AddSshTab, params) {
        Ok(p) => Ok(plan_ssh_tab(p, session_id_or_new(None))),
        Err(response) => Err(response),
    }
}

/// The answer to `add_ssh_tab` when the tab could not be announced.
pub fn tab_not_announced(cause: &str) -> (response: IpcResponse)
    ensures
        response.is_error("Failed to emit tab-created event: "@ + cause@),
{
    let message = String::from_str("Failed to emit tab-created event: ").concat(cause);
    IpcResponse::error(message.as_str())
}

/// The text shown in a tab whose connection failed: the error in bold
/// red, then host, port and user.
pub open spec fn connect_failure_text(error: Seq<char>, host: Seq<char>, port: u16, user: Seq<char>) -> Seq<
    char,
> {
    "\r\n\x1b[1;31m[SSH Connection Failed: "@ + error
        + "]\x1b[0m\r\n\r\nConnection details:\r\n  Host: "@ + address_text(host, port)
        + "\r\n  User: "@ + user + "\r\n"@
}

/// The output that tells the user, inside the tab, that the connection
/// failed.
pub fn ssh_tab_failed(session_id: &str, error: &SshError, config: &SshConfig) -> (event:
    SshOutputEvent)
    ensures
        event.session_id@ == session_id@,
        event.data@ == connect_failure_text(
            error.message_text(),
            config.host@,
            config.port,
            config.username@,
        ),
{
    let message = error.message();
    let address = config.address();
    let data = String::from_str("\r\n\x1b[1;31m[SSH Connection Failed: ").concat(
        message.as_str(),
    ).concat("]\x1b[0m\r\n\r\nConnection details:\r\n  Host: ").concat(address.as_str()).concat(
        "\r\n  User: ",
    ).concat(config.username.as_str()).concat("\r\n");
    proof {
        assert(data@ =~= connect_failure_text(
            error.message_text(),
            config.host@,
            config.port,
            config.username@,
        ));
    }
    SshOutputEvent { session_id: String::from_str(session_id), data }
}

/// Handles `add_local_tab`: with parameters, the terminal to create (the
/// default shell, in the directory asked for, at the size asked for);
/// without, the answer that says what is wrong with them.
pub fn handle_add_local_tab(params: Params<AddLocalTabParams>) -> (request: Result<
    CreatePtyRequest,
    IpcResponse,
>)
    ensures
        match params {
            Params::Given(p) => request == Ok::<CreatePtyRequest, IpcResponse>(
                CreatePtyRequest { shell: None, cwd: p.cwd, env: None, cols: p.cols, rows: p.rows },
            ),
            Params::Missing => request is Err && request->Err_0.is_error(
                "Missing params for "@ + command_name(CommandKind::AddLocalTab),
            ),
            Params::Invalid(cause) => request is Err && request->Err_0.is_error(
                "Invalid params: "@ + cause@,
            ),
        },
{
    match require_params(CommandKind::AddLocalTab, params) {
        Ok(p) => Ok(
            CreatePtyRequest { shell: None, cwd: p.cwd, env: None, cols: p.cols, rows: p.rows },
        ),
        Err(response) => Err(response),
    }
}

/// The announcement of a local tab whose terminal was created: a tab of
/// type `local`, titled with the shell, under the terminal's identifier.
pub fn local_tab_created(response: &CreatePtyResponse) -> (created: TabCreatedPayload)
    ensures
        created.tab_id@ == response.pty_id@,
        created.tab_type@ == "local"@,
        created.title@ == response.shell@,
        match created.pty_id {
            Some(id) => id@ == response.pty_id@,
            None => false,
        },
        created.session_id is None,
{
    TabCreatedPayload {
        tab_id: response.pty_id.clone(),
        tab_type: String::from_str("local"),
        title: response.shell.clone(),
        pty_id: Some(response.pty_id.clone()),
        session_id: None,
    }
}

/// The answer to `add_local_tab` when the terminal could not be created.
pub fn local_tab_failed(error: &PtyError) -> (response: IpcResponse)
    ensures
        response.is_error("Failed to create PTY session: "@ + error.message_text()),
{
    let message = String::from_str("Failed to create PTY session: ").concat(
        error.message().as_str(),
    );
    IpcResponse::error(message.as_str())
}

/// What `close_tab` did: the sessions it took out of the registries, to
/// be torn down, and the announcement and the answer, or the answer that
/// says why nothing was closed.
pub struct CloseTabOutcome<P, S> {
    pub pty: Option<PtySession<P>>,
    pub ssh: Option<SshSession<S>>,
    pub result: Result<(TabClosedPayload, CloseTabResponse), IpcResponse>,
}

/// Handles `close_tab`: releases the identifier in both registries. The
/// tab counts as closed if either held it; then its end is announced. A
/// tab that neither held is an error, and so are parameters that are
/// missing or wrong, which leave the registries as they were.
pub fn handle_close_tab<P, S>(
    params: Params<CloseTabParams>,
    pty: &mut PtyManager<P>,
    ssh: &mut SshManager<S>,
) -> (outcome: CloseTabOutcome<P, S>)
    requires
        old(pty).wf(),
        old(ssh).wf(),
    ensures
        final(pty).wf(),
        final(ssh).wf(),
        match params {
            Params::Given(p) => {
                &&& final(pty)@ == old(pty)@.remove(p.tab_id@)
                &&& final(ssh)@ == old(ssh)@.remove(p.tab_id@)
                &&& outcome.pty is Some <==> old(pty)@.contains_key(p.tab_id@)
                &&& outcome.ssh is Some <==> old(ssh)@.contains_key(p.tab_id@)
                &&& outcome.pty is Some ==> outcome.pty->0 == old(pty)@[p.tab_id@]
                &&& outcome.ssh is Some ==> outcome.ssh->0 == old(ssh)@[p.tab_id@]
                &&& match outcome.result {
                    Ok((closed, response)) => {
                        &&& old(pty)@.contains_key(p.tab_id@) || old(ssh)@.contains_key(p.tab_id@)
                        &&& closed.tab_id@ == p.tab_id@
                        &&& response.tab_id@ == p.tab_id@
                        &&& response.closed
                    },
                    Err(response) => {
                        &&& !old(pty)@.contains_key(p.tab_id@)
                        &&& !old(ssh)@.contains_key(p.tab_id@)
                        &&& response.is_error("Tab not found: "@ + p.tab_id@)
                    },
                }
            },
            Params::Missing => {
                &&& final(pty)@ == old(pty)@
                &&& final(ssh)@ == old(ssh)@
                &&& outcome.pty is None
                &&& outcome.ssh is None
                &&& outcome.result is Err
                &&& outcome.result->Err_0.is_error(
                    "Missing params for "@ + command_name(CommandKind::CloseTab),
                )
            },
            Params::Invalid(cause) => {
                &&& final(pty)@ == old(pty)@
                &&& final(ssh)@ == old(ssh)@
                &&& outcome.pty is None
                &&& outcome.ssh is None
                &&& outcome.result is Err
                &&& outcome.result->Err_0.is_error("Invalid params: "@ + cause@)
            },
        },
{
    match require_params(CommandKind::CloseTab, params) {
        Err(response) => CloseTabOutcome { pty: None, ssh: None, result: Err(response) },
        Ok(p) => {
            let tab_id = p.tab_id.as_str();
            let closed_pty = match pty.close_session(tab_id) {
                Ok(session) => Some(session),
                Err(_) => None,
            };
            let closed_ssh = match ssh.close_session(tab_id) {
                Ok(session) => Some(session),
                Err(_) => None,
            };
            let result = if closed_pty.is_some() || closed_ssh.is_some() {
                Ok(
                    (
                        TabClosedPayload { tab_id: String::from_str(tab_id) },
                        CloseTabResponse { tab_id: String::from_str(tab_id), closed: true },
                    ),
                )
            } else {
                let message = String::from_str("Tab not found: ").concat(tab_id);
                Err(IpcResponse::error(message.as_str()))
            };
            CloseTabOutcome { pty: closed_pty, ssh: closed_ssh, result }
        },
    }
}

/// Whether `tab` is the entry for the session `id` in the answer of
/// `list_tabs`: a tab of the given type that is not active, titled with
/// the given word, a space, and the short form of the identifier.
pub open spec fn is_tab_for(tab: TabInfo, id: Seq<char>, tab_type: Seq<char>, word: Seq<char>) -> bool {
    &&& tab.tab_id@ == id
    &&& tab.tab_type@ == tab_type
    &&& !tab.active
    &&& exists|short: Seq<char>| #[trigger]
        is_short_form(id, short) && tab.title@ == word + " "@ + short
}

/// The entry for a local terminal.
pub open spec fn is_local_tab(tab: TabInfo, id: Seq<char>) -> bool {
    is_tab_for(tab, id, "local"@, "Terminal"@)
}

/// The entry for a remote shell.
pub open spec fn is_ssh_tab(tab: TabInfo, id: Seq<char>) -> bool {
    is_tab_for(tab, id, "ssh"@, "SSH"@)
}

fn tab_for(id: &str, tab_type: &str, word: &str) -> (tab: TabInfo)
    requires
        has_short_form(id@),
    ensures
        is_tab_for(tab, id@, tab_type@, word@),
{
    let short = short_id(id);
    let title = String::from_str(word).concat(" ").concat(short);
    assert(is_short_form(id@, short@) && title@ == word@ + " "@ + short@);
    TabInfo {
        tab_id: String::from_str(id),
        tab_type: String::from_str(tab_type),
        title,
        active: false,
    }
}

/// The answer of `list_tabs` for these sessions: an entry for each local
/// terminal, in the order given, then one for each remote shell.
pub fn list_tabs(pty_ids: &Vec<String>, ssh_ids: &Vec<String>) -> (response: ListTabsResponse)
    requires
        forall|i: int| 0 <= i < pty_ids@.len() ==> has_short_form(#[trigger] pty_ids@[i]@),
        forall|i: int| 0 <= i < ssh_ids@.len() ==> has_short_form(#[trigger] ssh_ids@[i]@),
    ensures
        response.tabs@.len() == pty_ids@.len() + ssh_ids@.len(),
        forall|i: int|
            0 <= i < pty_ids@.len() ==> is_local_tab(#[trigger] response.tabs@[i], pty_ids@[i]@),
        forall|i: int|
            0 <= i < ssh_ids@.len() ==> is_ssh_tab(
                #[trigger] response.tabs@[pty_ids@.len() + i],
                ssh_ids@[i]@,
            ),
{
    let mut tabs: Vec<TabInfo> = Vec::new();
    let mut i: usize = 0;
    while i < pty_ids.len()
        invariant
            i <= pty_ids@.len(),
            tabs@.len() == i,
            forall|k: int| 0 <= k < pty_ids@.len() ==> has_short_form(#[trigger] pty_ids@[k]@),
            forall|k: int| 0 <= k < i ==> is_local_tab(#[trigger] tabs@[k], pty_ids@[k]@),
        decreases pty_ids@.len() - i,
    {
        tabs.push(tab_for(pty_ids[i].as_str(), "local", "Terminal"));
        i += 1;
    }
    let mut j: usize = 0;
    while j < ssh_ids.len()
        invariant
            j <= ssh_ids@.len(),
            tabs@.len() == pty_ids@.len() + j,
            forall|k: int| 0 <= k < ssh_ids@.len() ==> has_short_form(#[trigger] ssh_ids@[k]@),
            forall|k: int|
                0 <= k < pty_ids@.len() ==> is_local_tab(#[trigger] tabs@[k], pty_ids@[k]@),
            forall|k: int|
                0 <= k < j ==> is_ssh_tab(#[trigger] tabs@[pty_ids@.len() + k], ssh_ids@[k]@),
        decreases ssh_ids@.len() - j,
    {
        tabs.push(tab_for(ssh_ids[j].as_str(), "ssh", "SSH"));
        j += 1;
    }
    ListTabsResponse { tabs }
}

/// Handles `list_tabs`: the union of both registries, the local terminals
/// first, then the remote shells. Every registered session has its entry,
/// and every entry is that of a registered session.
pub fn handle_list_tabs<P, S>(pty: &PtyManager<P>, ssh: &SshManager<S>) -> (response:
    ListTabsResponse)
    requires
        pty.wf(),
        ssh.wf(),
        forall|id: Seq<char>| #[trigger] pty@.contains_key(id) ==> has_short_form(id),
        forall|id: Seq<char>| #[trigger] ssh@.contains_key(id) ==> has_short_form(id),
    ensures
        response.tabs@.len() == pty.count() + ssh.count(),
        forall|i: int|
            0 <= i < pty.count() ==> {
                let tab = #[trigger] response.tabs@[i];
                pty@.contains_key(tab.tab_id@) && is_local_tab(tab, tab.tab_id@)
            },
        forall|i: int|
            pty.count() <= i < response.tabs@.len() ==> {
                let tab = #[trigger] response.tabs@[i];
                ssh@.contains_key(tab.tab_id@) && is_ssh_tab(tab, tab.tab_id@)
            },
        forall|id: Seq<char>| #[trigger]
            pty@.contains_key(id) ==> exists|i: int|
                0 <= i < response.tabs@.len() && is_local_tab(#[trigger] response.tabs@[i], id),
        forall|id: Seq<char>| #[trigger]
            ssh@.contains_key(id) ==> exists|i: int|
                0 <= i < response.tabs@.len() && is_ssh_tab(#[trigger] response.tabs@[i], id),
{
    let pty_ids = pty.list_sessions();
    let ssh_ids = ssh.list_sessions();
    let response = list_tabs(&pty_ids, &ssh_ids);
    proof {
        let n = pty_ids@.len() as int;
        assert forall|i: int| 0 <= i < n implies {
            let tab = #[trigger] response.tabs@[i];
            pty@.contains_key(tab.tab_id@) && is_local_tab(tab, tab.tab_id@)
        } by {
            assert(is_local_tab(response.tabs@[i], pty_ids@[i]@));
            assert(pty@.contains_key(pty_ids@[i]@));
        }
        assert forall|i: int| n <= i < response.tabs@.len() implies {
            let tab = #[trigger] response.tabs@[i];
            ssh@.contains_key(tab.tab_id@) && is_ssh_tab(tab, tab.tab_id@)
        } by {
            let k = i - n;
            assert(is_ssh_tab(response.tabs@[n + k], ssh_ids@[k]@));
            assert(ssh@.contains_key(ssh_ids@[k]@));
        }
        assert forall|id: Seq<char>| #[trigger] pty@.contains_key(id) implies exists|i: int|
            0 <= i < response.tabs@.len() && is_local_tab(#[trigger] response.tabs@[i], id) by {
            let k = choose|k: int| 0 <= k < pty_ids@.len() && #[trigger] pty_ids@[k]@ == id;
            assert(is_local_tab(response.tabs@[k], pty_ids@[k]@));
        }
        assert forall|id: Seq<char>| #[trigger] ssh@.contains_key(id) implies exists|i: int|
            0 <= i < response.tabs@.len() && is_ssh_tab(#[trigger] response.tabs@[i], id) by {
            let k = choose|k: int| 0 <= k < ssh_ids@.len() && #[trigger] ssh_ids@[k]@ == id;
            assert(is_ssh_tab(response.tabs@[n + k], ssh_ids@[k]@));
        }
    }
    response
}

} // verus!
