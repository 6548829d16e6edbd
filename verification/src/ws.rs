//! Websocket control of servers addressed by their numeric id.
use crate::error::ApiError;
use crate::index::Index;
use crate::mc_server::{McServer, ServerState};
use std::collections::HashMap;
use vstd::prelude::*;

verus! {

broadcast use vstd::std_specs::hash::group_hash_axioms;

/// The servers under websocket control, by numeric id.
pub struct Servers {
    pub servers: HashMap<u32, McServer>,
}

/// A control message that addresses its server by numeric id, as the
/// websocket documentation describes it. A message that could not be
/// decoded is represented by `Fail`.
#[derive(Debug)]
pub enum IndexedControlMessage {
    StartServer { server_id: u32 },
    StopServer { server_id: u32 },
    GetConsoleOutput { server_id: u32 },
    SendCommand { server_id: u32, command: String },
    Fail,
}

/// The id a message addresses; `Fail` addresses none.
pub open spec fn spec_message_id(msg: IndexedControlMessage) -> Option<u32> {
    match msg {
        IndexedControlMessage::StartServer { server_id } => Some(server_id),
        IndexedControlMessage::StopServer { server_id } => Some(server_id),
        IndexedControlMessage::GetConsoleOutput { server_id } => Some(server_id),
        IndexedControlMessage::SendCommand { server_id, .. } => Some(server_id),
        IndexedControlMessage::Fail => None,
    }
}

impl IndexedControlMessage {
    /// The id of the server the message addresses, if any.
    pub fn server_id(&self) -> (res: Option<u32>)
        ensures
            res == spec_message_id(*self),
    {
        match self {
            IndexedControlMessage::StartServer { server_id } => Some(*server_id),
            IndexedControlMessage::StopServer { server_id } => Some(*server_id),
            IndexedControlMessage::GetConsoleOutput { server_id } => Some(*server_id),
            IndexedControlMessage::SendCommand { server_id, .. } => Some(*server_id),
            IndexedControlMessage::Fail => None,
        }
    }
}

/// The server a message is carried out on: its id and name. A message is
/// carried out only when its id belongs to a controlled server and the
/// index records a name for it; otherwise it is skipped.
pub fn resolve_target(servers: &Servers, index: &Index, msg: &IndexedControlMessage) -> (res: Option<(u32, String)>)
    ensures
        match res {
            Some((id, name)) => spec_message_id(*msg) == Some(id) && servers.servers@.contains_key(id)
                && index@.contains_key(id) && name@ == index@[id],
            None => match spec_message_id(*msg) {
                Some(id) => !servers.servers@.contains_key(id) || !index@.contains_key(id),
                None => true,
            },
        },
{
    let id = match msg.server_id() {
        Some(id) => id,
        None => return None,
    };
    if !servers.servers.contains_key(&id) {
        return None;
    }
    match index.entries.get(&id) {
        Some(name) => Some((id, name.clone())),
        None => None,
    }
}

/// What the websocket handler has to do for a message.
#[derive(Debug)]
pub enum WsAction {
    /// Spawn the process of the server `id` named `name`, record the
    /// outcome with `McServer::mark_started` when it spawned, then forward
    /// its output into its history.
    Start { id: u32, name: String },
    /// Kill and wait for the process of the server `id`, then record the
    /// outcome with `McServer::after_stop`.
    Stop { id: u32, name: String },
    /// The request cannot be carried out on the server `id`.
    Refuse { id: u32, name: String, error: ApiError },
    /// Send `lines` (the history, oldest line first) to the client, then
    /// forward the live output of the server `id`.
    Replay { id: u32, lines: Vec<String> },
    /// Write `command` to the standard input of the server `id`.
    Write { id: u32, command: String },
}

/// `res` is what `msg` asks of the server `id` named `name`, which is under
/// control as `server`.
pub open spec fn ws_action_for(msg: IndexedControlMessage, id: u32, name: Seq<char>, server: McServer, res: WsAction) -> bool {
    match msg {
        IndexedControlMessage::StartServer { .. } => if server.child == ServerState::Stopped {
            res matches WsAction::Start { id: i, name: n } && i == id && n@ == name
        } else {
            res matches WsAction::Refuse { id: i, name: n, error } && i == id && n@ == name
                && error == ApiError::InternalServerError
        },
        IndexedControlMessage::StopServer { .. } => if server.child == ServerState::Running {
            res matches WsAction::Stop { id: i, name: n } && i == id && n@ == name
        } else {
            res matches WsAction::Refuse { id: i, name: n, error } && i == id && n@ == name
                && error == ApiError::InternalServerError
        },
        IndexedControlMessage::GetConsoleOutput { .. } => res matches WsAction::Replay { id: i, lines }
            && i == id && lines@.map_values(|l: String| l@) == server.history@.reverse(),
        IndexedControlMessage::SendCommand { command, .. } => res matches WsAction::Write {
            id: i,
            command: c,
        } && i == id && c@ == command@,
        IndexedControlMessage::Fail => false,
    }
}

/// Decides what to do for a websocket message. A message is skipped
/// (`None`) exactly when it names no server, or a server that is not under
/// control or has no name in the index. Otherwise a start is carried out
/// only on a stopped server and a stop only on a running one, the other
/// case being refused with `InternalServerError`; a console request replays
/// the history oldest line first; a command is passed on unchanged.
pub fn ws_decide(servers: &Servers, index: &Index, msg: IndexedControlMessage) -> (res: Option<WsAction>)
    ensures
        match res {
            None => match spec_message_id(msg) {
                Some(id) => !servers.servers@.contains_key(id) || !index@.contains_key(id),
                None => true,
            },
            Some(a) => match spec_message_id(msg) {
                Some(id) => servers.servers@.contains_key(id) && index@.contains_key(id)
                    && ws_action_for(msg, id, index@[id], servers.servers@[id], a),
                None => false,
            },
        },
{
    let (id, name) = match resolve_target(servers, index, &msg) {
        Some(target) => target,
        None => return None,
    };
    let server = match servers.servers.get(&id) {
        Some(server) => server,
        None => return None,
    };
    let action = match msg {
        IndexedControlMessage::StartServer { .. } => match server.check_start() {
            Ok(()) => WsAction::Start { id, name },
            Err(error) => WsAction::Refuse { id, name, error },
        },
        IndexedControlMessage::StopServer { .. } => match server.check_stop() {
            Ok(()) => WsAction::Stop { id, name },
            Err(error) => WsAction::Refuse { id, name, error },
        },
        IndexedControlMessage::GetConsoleOutput { .. } => WsAction::Replay {
            id,
            lines: server.history.oldest_first(),
        },
        IndexedControlMessage::SendCommand { command, .. } => WsAction::Write { id, command },
        IndexedControlMessage::Fail => return None,
    };
    Some(action)
}

/// A console request on a server is answered, whatever the server's
/// running state, with a replay of its history oldest line first (after
/// which the live output is forwarded); the same request on the same
/// server in the other state gets the same answer.
pub proof fn lemma_console_request_replays(
    server_id: u32,
    id: u32,
    name: Seq<char>,
    server: McServer,
    res: WsAction,
)
    requires
        ws_action_for(IndexedControlMessage::GetConsoleOutput { server_id }, id, name, server, res),
    ensures
        res matches WsAction::Replay { id: i, lines } && i == id && lines@.map_values(|l: String| l@)
            == server.history@.reverse(),
        forall|other: McServer, r: WsAction|
            other.history == server.history && ws_action_for(
                IndexedControlMessage::GetConsoleOutput { server_id },
                id,
                name,
                other,
                r,
            ) ==> (r matches WsAction::Replay { id: i2, lines: l2 } && i2 == id && l2@.map_values(
                |l: String| l@,
            ) == server.history@.reverse()),
{
}

/// A start is carried out only on a stopped server and a stop only on a
/// running one; the other case is refused with `InternalServerError`. A
/// command is passed on unchanged to the addressed server.
pub proof fn lemma_ws_start_stop_write(
    server_id: u32,
    command: String,
    id: u32,
    name: Seq<char>,
    server: McServer,
    start: WsAction,
    stop: WsAction,
    write: WsAction,
)
    requires
        ws_action_for(IndexedControlMessage::StartServer { server_id }, id, name, server, start),
        ws_action_for(IndexedControlMessage::StopServer { server_id }, id, name, server, stop),
        ws_action_for(IndexedControlMessage::SendCommand { server_id, command }, id, name, server, write),
    ensures
        server.child == ServerState::Stopped ==> (start matches WsAction::Start { id: i, name: n } && i
            == id && n@ == name) && (stop matches WsAction::Refuse { id: i, error, .. } && i == id
            && error == ApiError::InternalServerError),
        server.child == ServerState::Running ==> (stop matches WsAction::Stop { id: i, name: n } && i
            == id && n@ == name) && (start matches WsAction::Refuse { id: i, error, .. } && i == id
            && error == ApiError::InternalServerError),
        write matches WsAction::Write { id: i, command: c } && i == id && c@ == command@,
{
}

} // verus!
