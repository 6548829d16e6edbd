//! Control messages received over the websocket and their routing to the
//! server handler.
use crate::handler::Command;
use vstd::prelude::*;

verus! {

/// Represents control messages for managing Minecraft servers.
/// A message that could not be decoded is represented by `Fail`.
#[derive(Debug)]
pub enum ControlMessage {
    StartServer { server_name: String },
    StopServer { server_name: String },
    GetConsoleOutput { server_name: String },
    SendCommand { server_name: String, command: String },
    Fail,
}

/// Equality of control messages: two start requests, or two stop requests,
/// are equal when they name the same server; every other pair is unequal,
/// `Fail` and console or command requests included.
pub open spec fn control_eq(a: ControlMessage, b: ControlMessage) -> bool {
    match (a, b) {
        (ControlMessage::StartServer { server_name: x }, ControlMessage::StartServer {
            server_name: y,
        }) => x@ == y@,
        (ControlMessage::StopServer { server_name: x }, ControlMessage::StopServer {
            server_name: y,
        }) => x@ == y@,
        _ => false,
    }
}

impl PartialEq for ControlMessage {
    fn eq(&self, other: &Self) -> (res: bool) {
        match (self, other) {
            (
                ControlMessage::StartServer { server_name: name1 },
                ControlMessage::StartServer { server_name: name2 },
            ) => *name1 == *name2,
            (
                ControlMessage::StopServer { server_name: name1 },
                ControlMessage::StopServer { server_name: name2 },
            ) => *name1 == *name2,
            _ => false,
        }
    }
}

impl vstd::std_specs::cmp::PartialEqSpecImpl for ControlMessage {
    open spec fn obeys_eq_spec() -> bool {
        true
    }

    open spec fn eq_spec(&self, other: &ControlMessage) -> bool {
        control_eq(*self, *other)
    }
}

/// The server that a message is about; `Fail` names none.
pub open spec fn spec_target(msg: ControlMessage) -> Option<Seq<char>> {
    match msg {
        ControlMessage::StartServer { server_name } => Some(server_name@),
        ControlMessage::StopServer { server_name } => Some(server_name@),
        ControlMessage::GetConsoleOutput { server_name } => Some(server_name@),
        ControlMessage::SendCommand { server_name, .. } => Some(server_name@),
        ControlMessage::Fail => None,
    }
}

impl ControlMessage {
    /// The name of the server that the message is about, if any.
    pub fn server_name(&self) -> (res: Option<&String>)
        ensures
            match res {
                Some(n) => spec_target(*self) == Some(n@),
                None => spec_target(*self) is None,
            },
    {
        match self {
            ControlMessage::StartServer { server_name } => Some(server_name),
            ControlMessage::StopServer { server_name } => Some(server_name),
            ControlMessage::GetConsoleOutput { server_name } => Some(server_name),
            ControlMessage::SendCommand { server_name, .. } => Some(server_name),
            ControlMessage::Fail => None,
        }
    }
}

/// The command that a control message asks of the server handler.
pub open spec fn spec_route(msg: ControlMessage) -> Option<Command> {
    match msg {
        ControlMessage::StartServer { server_name } => Some(
            Command::StartServer { name: server_name },
        ),
        ControlMessage::StopServer { server_name } => Some(Command::StopServer { name: server_name }),
        ControlMessage::GetConsoleOutput { server_name } => Some(
            Command::GetOutput { name: server_name },
        ),
        ControlMessage::SendCommand { server_name, command } => Some(
            Command::SendCommand { name: server_name, command },
        ),
        ControlMessage::Fail => None,
    }
}

/// Routes a websocket control message to a handler command; a message that
/// failed to decode is skipped.
pub fn route_control_message(msg: ControlMessage) -> (res: Option<Command>)
    ensures
        res == spec_route(msg),
{
    match msg {
        ControlMessage::StartServer { server_name } => Some(
            Command::StartServer { name: server_name },
        ),
        ControlMessage::StopServer { server_name } => Some(Command::StopServer { name: server_name }),
        ControlMessage::GetConsoleOutput { server_name } => Some(
            Command::GetOutput { name: server_name },
        ),
        ControlMessage::SendCommand { server_name, command } => Some(
            Command::SendCommand { name: server_name, command },
        ),
        ControlMessage::Fail => None,
    }
}

/// Equality of control messages is symmetric.
pub proof fn lemma_control_eq_symmetric(a: ControlMessage, b: ControlMessage)
    ensures
        control_eq(a, b) == control_eq(b, a),
{
}

/// Equal control messages are start or stop requests for one and the same
/// server; a failed message equals nothing, not even itself.
pub proof fn lemma_control_eq_meaning(a: ControlMessage, b: ControlMessage)
    ensures
        control_eq(a, b) ==> (a is StartServer && b is StartServer) || (a is StopServer
            && b is StopServer),
        control_eq(a, b) ==> spec_target(a) == spec_target(b),
        !control_eq(ControlMessage::Fail, b),
{
}

/// Every message but `Fail` is routed, and to a command about the same server.
pub proof fn lemma_route_keeps_target(msg: ControlMessage)
    ensures
        spec_route(msg) is None <==> msg is Fail,
        spec_route(msg) matches Some(c) ==> Some(c.target()) == spec_target(msg),
{
}

} // verus!
