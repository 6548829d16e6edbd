//! A Minecraft server process under websocket control: its running state and
//! its console history.
use crate::console::{mc_record, McHistory};
use crate::error::ApiError;
use crate::java::{java_binary_path, spec_java_dir_name};
use vstd::prelude::*;

verus! {

/// The `config.json` of a server: the Java version it runs on.
#[derive(Debug)]
pub struct ServerConfig {
    pub java_version: String,
}

/// Whether a server process was started. A started server counts as running
/// until it is dropped, also after its process was stopped.
#[derive(Debug, Clone, Copy, PartialEq, Eq, Structural)]
pub enum ServerState {
    Stopped,
    Running,
}

/// A Minecraft server and the console lines it printed, newest first.
pub struct McServer {
    pub child: ServerState,
    pub history: McHistory,
}

impl McServer {
    /// A stopped server with an empty history.
    pub fn new() -> (res: McServer)
        ensures
            res.child == ServerState::Stopped,
            res.history@ == Seq::<Seq<char>>::empty(),
    {
        McServer { child: ServerState::Stopped, history: McHistory::new() }
    }

    /// Decides whether the server may be started: a running server is
    /// refused with `InternalServerError`.
    pub fn check_start(&self) -> (res: Result<(), ApiError>)
        ensures
            match res {
                Ok(()) => self.child == ServerState::Stopped,
                Err(e) => self.child == ServerState::Running && e == ApiError::InternalServerError,
            },
    {
        match self.child {
            ServerState::Stopped => Ok(()),
            ServerState::Running => Err(ApiError::InternalServerError),
        }
    }

    /// The program a server is started with, from its `config.json`.
    pub fn launch_program(config: &ServerConfig) -> (res: String)
        ensures
            res@ == "../../runtime/"@ + spec_java_dir_name(config.java_version@) + "/bin/java"@,
    {
        java_binary_path(config.java_version.as_str())
    }

    /// Records that the server process was spawned.
    pub fn mark_started(&mut self)
        ensures
            final(self).child == ServerState::Running,
            final(self).history@ == old(self).history@,
    {
        self.child = ServerState::Running;
    }

    /// Decides whether the server may be stopped: a stopped server is
    /// refused with `InternalServerError`. Stopping does not change the
    /// state.
    pub fn check_stop(&self) -> (res: Result<(), ApiError>)
        ensures
            match res {
                Ok(()) => self.child == ServerState::Running,
                Err(e) => self.child == ServerState::Stopped && e == ApiError::InternalServerError,
            },
    {
        match self.child {
            ServerState::Stopped => Err(ApiError::InternalServerError),
            ServerState::Running => Ok(()),
        }
    }

    /// Records a line the server printed.
    pub fn record_line(&mut self, line: String)
        ensures
            final(self).history@ == mc_record(old(self).history@, line@),
            final(self).child == old(self).child,
    {
        self.history.record(line);
    }

    /// Records how a stop went: a stop that succeeded forgets the console
    /// history, a failed one leaves the server as it was. The state stays
    /// `Running` either way.
    pub fn after_stop(&mut self, ok: bool)
        ensures
            ok ==> final(self).history@ == Seq::<Seq<char>>::empty(),
            !ok ==> final(self).history@ == old(self).history@,
            final(self).child == old(self).child,
    {
        if ok {
            self.clear_history();
        }
    }

    /// Forgets the console history.
    pub fn clear_history(&mut self)
        ensures
            final(self).history@ == Seq::<Seq<char>>::empty(),
            final(self).child == old(self).child,
    {
        self.history.clear();
    }
}

} // verus!
