//! The server handler: the registry of known servers and the decisions taken
//! for each command it receives.
use crate::create::{
    carried_java, download_server, is_run, java_chosen_at, lemma_java_version_origin, CreateEvent,
    CreateServerFlow, CreateStage, ServerConfig, VanillaInstaller,
};
use crate::error::SubstrateError;
use crate::java::{java_binary_path, spec_java_dir_name};
use crate::minecraft::JavaFlags;
use vstd::prelude::*;
use vstd::string::*;

verus! {

/// A request to create a server.
#[derive(Debug)]
pub struct ServerCreateRequest {
    pub name: String,
    pub minecraft_version: String,
    pub loader: String,
    pub forced_java_version: Option<String>,
    pub agree_eula: bool,
    pub flags: JavaFlags,
}

/// A created server as it is persisted in `servers.bin`.
#[derive(Debug)]
pub struct McServerConfig {
    pub name: String,
    pub java_version: String,
}

/// The content of `servers.bin`: every server created so far.
#[derive(Debug)]
pub struct CreateServerConfig {
    pub servers: Vec<McServerConfig>,
}

/// A request to the server handler.
#[derive(Debug)]
pub enum Command {
    StartServer { name: String },
    StopServer { name: String },
    GetOutput { name: String },
    SendCommand { name: String, command: String },
    CreateServer { request: ServerCreateRequest },
    ViewServers,
    DeleteServer { name: String },
}

impl Command {
    /// The server a command is about (empty for the overview request).
    pub open spec fn target(self) -> Seq<char> {
        match self {
            Command::StartServer { name } => name@,
            Command::StopServer { name } => name@,
            Command::GetOutput { name } => name@,
            Command::SendCommand { name, .. } => name@,
            Command::CreateServer { request } => request.name@,
            Command::ViewServers => Seq::empty(),
            Command::DeleteServer { name } => name@,
        }
    }
}

/// A server known to the handler.
#[derive(Debug)]
pub struct ServerEntry {
    pub name: String,
    pub java_version: String,
    /// A server process was started and not stopped since.
    pub running: bool,
    /// A server process was started at least once, so its console can be
    /// subscribed to.
    pub has_console: bool,
}

impl ServerEntry {
    /// Console output can only be forwarded from a server that was started.
    pub fn listen_to_output(&self) -> (res: Result<(), SubstrateError>)
        ensures
            match res {
                Ok(()) => self.has_console,
                Err(SubstrateError::NotFound { resource }) => !self.has_console && resource@
                    == "Could not clone handler"@,
                Err(_) => false,
            },
    {
        if !self.has_console {
            return Err(
                SubstrateError::NotFound { resource: String::from_str("Could not clone handler") },
            );
        }
        Ok(())
    }

    /// The console can only be subscribed to on a server that was started.
    pub fn subscribe(&self) -> (res: Result<(), SubstrateError>)
        ensures
            match res {
                Ok(()) => self.has_console,
                Err(SubstrateError::NotFound { resource }) => !self.has_console && resource@
                    == "Could not find handler"@,
                Err(_) => false,
            },
    {
        if !self.has_console {
            return Err(
                SubstrateError::NotFound { resource: String::from_str("Could not find handler") },
            );
        }
        Ok(())
    }
}

/// No two entries have the same name.
pub open spec fn names_distinct(s: Seq<ServerEntry>) -> bool {
    forall|i: int, j: int|
        0 <= i < s.len() && 0 <= j < s.len() && i != j ==> #[trigger] s[i].name@ != #[trigger] s[j].name@
}

/// Some entry of `s` is named `name`.
pub open spec fn is_registered(s: Seq<ServerEntry>, name: Seq<char>) -> bool {
    exists|i: int| 0 <= i < s.len() && #[trigger] s[i].name@ == name
}

/// `i` is the position of the entry named `name`.
pub open spec fn entry_at(s: Seq<ServerEntry>, name: Seq<char>, i: int) -> bool {
    0 <= i < s.len() && s[i].name@ == name
}

/// The position of the entry named `name` in `s`, if any.
pub open spec fn position_of(s: Seq<ServerEntry>, name: Seq<char>) -> Option<int> {
    if is_registered(s, name) {
        Some(choose|i: int| entry_at(s, name, i))
    } else {
        None
    }
}

/// The position of a registered name is an entry of that name.
pub proof fn lemma_position_of(s: Seq<ServerEntry>, name: Seq<char>)
    ensures
        match position_of(s, name) {
            Some(i) => entry_at(s, name, i),
            None => !is_registered(s, name),
        },
{
    if is_registered(s, name) {
        let i = choose|i: int| 0 <= i < s.len() && #[trigger] s[i].name@ == name;
        assert(entry_at(s, name, i));
    }
}

/// A freshly created server entry: stopped, never started.
pub open spec fn fresh_entry(e: ServerEntry, name: Seq<char>, java_version: Seq<char>) -> bool {
    e.name@ == name && e.java_version@ == java_version && !e.running && !e.has_console
}

/// `t` is `s` with `name` known as a fresh server on `java_version`: an
/// entry of that name is replaced in its place, else the new entry is
/// appended; every other entry stays.
pub open spec fn registered_fresh(s: Seq<ServerEntry>, name: Seq<char>, java_version: Seq<char>, t: Seq<ServerEntry>) -> bool {
    match position_of(s, name) {
        Some(i) => t.len() == s.len() && fresh_entry(t[i], name, java_version) && forall|k: int|
            0 <= k < s.len() && k != i ==> #[trigger] t[k] == s[k],
        None => t.len() == s.len() + 1 && fresh_entry(t.last(), name, java_version) && forall|k: int|
            0 <= k < s.len() ==> #[trigger] t[k] == s[k],
    }
}

/// `t` is the registry `s` after a start of `name` whose spawn succeeded
/// (`spawned`) or failed: only a spawned, known server becomes running with
/// a console.
pub open spec fn start_outcome_step(s: Seq<ServerEntry>, name: Seq<char>, spawned: bool, t: Seq<ServerEntry>) -> bool {
    match position_of(s, name) {
        Some(i) => if spawned {
            t == s.update(i, with_flags(s[i], true, true))
        } else {
            t == s
        },
        None => t == s,
    }
}

/// The servers the handler knows, in the order they became known.
pub struct ServerRegistry {
    servers: Vec<ServerEntry>,
}

impl View for ServerRegistry {
    type V = Seq<ServerEntry>;

    closed spec fn view(&self) -> Seq<ServerEntry> {
        self.servers@
    }
}

/// Why a command cannot be carried out.
#[derive(Debug, Clone, Copy, PartialEq, Eq, Structural)]
pub enum HandlerFault {
    /// No server of that name is known.
    UnknownServer,
    /// The server has no running process.
    NotRunning,
    /// The server was never started, so it has no console.
    NoConsole,
    /// Only vanilla servers can be installed.
    UnsupportedLoader,
}

/// What the handler has to do for a command.
#[derive(Debug)]
pub enum HandlerAction {
    /// Start the server process `program -jar server.jar nogui` in the
    /// server's folder, with piped standard input and output.
    StartProcess { name: String, program: String },
    /// Stop the server's process and wait for it.
    StopProcess { name: String },
    /// Hand the server's console history and live output to the requester.
    Subscribe { name: String },
    /// Write `command` to the standard input of the server's process.
    WriteInput { name: String, command: String },
    /// Run the creation of a server.
    Create(CreateServerFlow),
    /// Answer with the name and running state of every known server.
    Reply(Vec<(String, bool)>),
    /// Remove the server's folder.
    RemoveServerDir { name: String },
    /// Nothing to do.
    Nothing,
}

/// `o` lists the name and running state of each entry of `s`, in order.
pub open spec fn is_overview(s: Seq<ServerEntry>, o: Seq<(String, bool)>) -> bool {
    &&& o.len() == s.len()
    &&& forall|i: int| 0 <= i < s.len() ==> (#[trigger] o[i]).0@ == s[i].name@ && o[i].1 == s[i].running
}

impl ServerRegistry {
    #[verifier::type_invariant]
    spec fn distinct(self) -> bool {
        names_distinct(self.servers@)
    }

    /// A registry without servers.
    pub fn new() -> (res: ServerRegistry)
        ensures
            res@ == Seq::<ServerEntry>::empty(),
            names_distinct(res@),
    {
        ServerRegistry { servers: Vec::new() }
    }

    /// The number of known servers.
    pub fn len(&self) -> (res: usize)
        ensures
            res == self@.len(),
    {
        self.servers.len()
    }

    /// The position of the server named `name`.
    pub fn position(&self, name: &str) -> (res: Option<usize>)
        ensures
            match res {
                Some(i) => entry_at(self@, name@, i as int),
                None => !is_registered(self@, name@),
            },
    {
        let wanted = String::from_str(name);
        let n = self.servers.len();
        let mut i: usize = 0;
        while i < n
            invariant
                n == self.servers@.len(),
                i <= n,
                wanted@ == name@,
                forall|k: int| 0 <= k < i ==> self.servers@[k].name@ != name@,
            decreases n - i,
        {
            if self.servers[i].name == wanted {
                return Some(i);
            }
            i = i + 1;
        }
        None
    }

    /// The entry at position `i`.
    pub fn entry(&self, i: usize) -> (res: &ServerEntry)
        requires
            i < self@.len(),
        ensures
            *res == self@[i as int],
    {
        &self.servers[i]
    }

    /// Every known server with its running state, in registry order.
    pub fn overview(&self) -> (res: Vec<(String, bool)>)
        ensures
            is_overview(self@, res@),
    {
        let n = self.servers.len();
        let mut res: Vec<(String, bool)> = Vec::new();
        let mut i: usize = 0;
        while i < n
            invariant
                n == self.servers@.len(),
                i <= n,
                res@.len() == i,
                forall|k: int|
                    0 <= k < i ==> (#[trigger] res@[k]).0@ == self.servers@[k].name@ && res@[k].1
                        == self.servers@[k].running,
            decreases n - i,
        {
            res.push((self.servers[i].name.clone(), self.servers[i].running));
            i = i + 1;
        }
        res
    }

    /// Makes `name` known as a new, stopped server running on `java_version`;
    /// a server already known under that name is replaced in its place.
    pub fn register(&mut self, name: String, java_version: String)
        ensures
            names_distinct(final(self)@),
            registered_fresh(old(self)@, name@, java_version@, final(self)@),
    {
        proof {
            use_type_invariant(&*self);
        }
        let pos = self.position(name.as_str());
        let ghost nm = name@;
        let ghost jv = java_version@;
        let entry = ServerEntry { name, java_version, running: false, has_console: false };
        let mut servers: Vec<ServerEntry> = Vec::new();
        std::mem::swap(&mut servers, &mut self.servers);
        let ghost before = servers@;
        match pos {
            Some(i) => {
                servers.set(i, entry);
                proof {
                    assert forall|a: int, b: int|
                        0 <= a < servers@.len() && 0 <= b < servers@.len() && a != b implies
                        #[trigger] servers@[a].name@ != #[trigger] servers@[b].name@ by {
                        if a != i && b != i {
                            assert(before[a].name@ != before[b].name@);
                        }
                    }
                    assert(position_of(before, nm) == Some(i as int));
                }
            },
            None => {
                servers.push(entry);
                proof {
                    assert forall|a: int, b: int|
                        0 <= a < servers@.len() && 0 <= b < servers@.len() && a != b implies
                        #[trigger] servers@[a].name@ != #[trigger] servers@[b].name@ by {
                        if a < before.len() && b < before.len() {
                            assert(before[a].name@ != before[b].name@);
                        } else if a < before.len() {
                            assert(before[a].name@ != nm);
                        } else {
                            assert(before[b].name@ != nm);
                        }
                    }
                    assert(position_of(before, nm) is None);
                }
            },
        }
        self.servers = servers;
    }
}

/// `t` is entry `e` with the given running and console flags.
pub open spec fn with_flags(e: ServerEntry, running: bool, has_console: bool) -> ServerEntry {
    ServerEntry { name: e.name, java_version: e.java_version, running, has_console }
}

/// `config` plus a record of the server `name` created with `java_version`.
pub open spec fn appended(servers: Seq<McServerConfig>, name: Seq<char>, java_version: Seq<char>, res: Seq<McServerConfig>) -> bool {
    &&& res.len() == servers.len() + 1
    &&& forall|k: int| 0 <= k < servers.len() ==> #[trigger] res[k] == servers[k]
    &&& res.last().name@ == name
    &&& res.last().java_version@ == java_version
}

/// The record `servers.bin` holds after a server was created: the earlier
/// record, if there was one, followed by the new server.
pub fn record_created(existing: Option<CreateServerConfig>, name: String, java_version: String) -> (res: CreateServerConfig)
    ensures
        appended(
            match existing {
                Some(c) => c.servers@,
                None => Seq::empty(),
            },
            name@,
            java_version@,
            res.servers@,
        ),
{
    let entry = McServerConfig { name, java_version };
    match existing {
        Some(mut config) => {
            config.servers.push(entry);
            config
        },
        None => {
            let mut servers: Vec<McServerConfig> = Vec::new();
            servers.push(entry);
            CreateServerConfig { servers }
        },
    }
}

/// The installer for a loader: only `vanilla` servers can be installed.
pub fn installer_for(loader: &str) -> (res: Option<VanillaInstaller>)
    ensures
        res is Some <==> loader@ == "vanilla"@,
{
    let vanilla = String::from_str("vanilla");
    let given = String::from_str(loader);
    if given == vanilla {
        Some(VanillaInstaller {})
    } else {
        None
    }
}

/// The effect of one command on the registry `s`, giving `t` and the result
/// `res`.
pub open spec fn handle_step(
    s: Seq<ServerEntry>,
    cmd: Command,
    t: Seq<ServerEntry>,
    res: Result<HandlerAction, HandlerFault>,
) -> bool {
    match cmd {
        Command::StartServer { name } => match position_of(s, name@) {
            None => t == s && res == Err::<HandlerAction, HandlerFault>(HandlerFault::UnknownServer),
            Some(i) => {
                &&& t == s
                &&& res matches Ok(HandlerAction::StartProcess { name: n, program })
                &&& n@ == name@
                &&& program@ == "../../runtime/"@ + spec_java_dir_name(s[i].java_version@)
                    + "/bin/java"@
            },
        },
        Command::StopServer { name } => match position_of(s, name@) {
            None => t == s && res == Err::<HandlerAction, HandlerFault>(HandlerFault::UnknownServer),
            Some(i) => if s[i].running {
                &&& t == s.update(i, with_flags(s[i], false, s[i].has_console))
                &&& res matches Ok(HandlerAction::StopProcess { name: n })
                &&& n@ == name@
            } else {
                t == s && res == Err::<HandlerAction, HandlerFault>(HandlerFault::NotRunning)
            },
        },
        Command::GetOutput { name } => t == s && match position_of(s, name@) {
            None => res == Err::<HandlerAction, HandlerFault>(HandlerFault::UnknownServer),
            Some(i) => if s[i].has_console {
                res matches Ok(HandlerAction::Subscribe { name: n }) && n@ == name@
            } else {
                res == Err::<HandlerAction, HandlerFault>(HandlerFault::NoConsole)
            },
        },
        Command::SendCommand { name, command } => t == s && match position_of(s, name@) {
            None => res == Err::<HandlerAction, HandlerFault>(HandlerFault::UnknownServer),
            Some(i) => if s[i].running {
                res matches Ok(HandlerAction::WriteInput { name: n, command: c }) && n@ == name@
                    && c@ == command@
            } else {
                res == Err::<HandlerAction, HandlerFault>(HandlerFault::NotRunning)
            },
        },
        Command::CreateServer { request } => t == s && if request.loader@ == "vanilla"@ {
            res matches Ok(HandlerAction::Create(flow)) && flow.name@ == request.name@
                && flow.loader@ == request.loader@ && flow.version@ == request.minecraft_version@
                && flow.force_java_version == request.forced_java_version && flow.flags
                == request.flags && if request.agree_eula {
                flow.stage is AwaitServersDir
            } else {
                flow.stage == CreateStage::Failed(SubstrateError::Eula)
            }
        } else {
            res == Err::<HandlerAction, HandlerFault>(HandlerFault::UnsupportedLoader)
        },
        Command::ViewServers => {
            &&& t == s
            &&& res matches Ok(HandlerAction::Reply(o))
            &&& is_overview(s, o@)
        },
        Command::DeleteServer { name } => match position_of(s, name@) {
            None => t == s && res matches Ok(HandlerAction::Nothing),
            Some(i) => {
                &&& t == s.remove(i)
                &&& res matches Ok(HandlerAction::RemoveServerDir { name: n })
                &&& n@ == name@
            },
        },
    }
}

/// `j` is the last of the first `n` records of `cfg` that is named `name`.
pub open spec fn last_record(cfg: Seq<McServerConfig>, n: int, name: Seq<char>, j: int) -> bool {
    &&& 0 <= j < n
    &&& cfg[j].name@ == name
    &&& forall|k: int| j < k < n ==> (#[trigger] cfg[k]).name@ != name
}

/// `s` is the registry built from the first `n` records of `cfg`: it knows
/// exactly the recorded names, each as a fresh server running on the Java
/// version of its last record.
pub open spec fn built_from(s: Seq<ServerEntry>, cfg: Seq<McServerConfig>, n: int) -> bool {
    &&& forall|k: int|
        0 <= k < s.len() ==> !(#[trigger] s[k]).running && !s[k].has_console && exists|j: int|
            last_record(cfg, n, s[k].name@, j) && s[k].java_version@ == cfg[j].java_version@
    &&& forall|j: int| 0 <= j < n ==> is_registered(s, (#[trigger] cfg[j]).name@)
}

impl ServerRegistry {
    /// The registry of the servers recorded in `servers.bin`: every recorded
    /// name is known once, as a stopped server; of two records with the
    /// same name the later one counts.
    pub fn from_config(config: &CreateServerConfig) -> (res: ServerRegistry)
        ensures
            built_from(res@, config.servers@, config.servers@.len() as int),
            names_distinct(res@),
    {
        let mut reg = ServerRegistry::new();
        let n = config.servers.len();
        let mut i: usize = 0;
        while i < n
            invariant
                n == config.servers@.len(),
                i <= n,
                built_from(reg@, config.servers@, i as int),
            decreases n - i,
        {
            proof {
                use_type_invariant(&reg);
            }
            let ghost before = reg@;
            let ghost cfg = config.servers@;
            let ghost nm = config.servers@[i as int].name@;
            let ghost pos = position_of(before, nm);
            proof {
                lemma_position_of(before, nm);
            }
            reg.register(config.servers[i].name.clone(), config.servers[i].java_version.clone());
            proof {
                let after = reg@;
                assert(names_distinct(before));
                assert forall|k: int| 0 <= k < after.len() implies !(#[trigger] after[k]).running
                    && !after[k].has_console && exists|j: int|
                    last_record(cfg, i + 1, after[k].name@, j) && after[k].java_version@
                        == cfg[j].java_version@ by {
                    let fresh_here = match pos {
                        Some(p) => k == p,
                        None => k == before.len(),
                    };
                    if fresh_here {
                        assert(last_record(cfg, i + 1, after[k].name@, i as int));
                    } else {
                        assert(after[k] == before[k]);
                        if before[k].name@ == nm {
                            match pos {
                                Some(p) => {
                                    assert(entry_at(before, nm, p));
                                    assert(before[p].name@ == before[k].name@);
                                },
                                None => {
                                    assert(is_registered(before, nm));
                                },
                            }
                        }
                        let j = choose|j: int|
                            last_record(cfg, i as int, before[k].name@, j) && before[k].java_version@
                                == cfg[j].java_version@;
                        assert(last_record(cfg, i + 1, after[k].name@, j));
                    }
                }
                assert forall|j: int| 0 <= j < i + 1 implies is_registered(after, (#[trigger] cfg[j]).name@) by {
                    if cfg[j].name@ == nm {
                        match pos {
                            Some(p) => assert(after[p].name@ == nm),
                            None => assert(after[after.len() - 1].name@ == nm),
                        }
                    } else {
                        let p = choose|p: int| 0 <= p < before.len() && #[trigger] before[p].name@ == cfg[j].name@;
                        match pos {
                            Some(q) => {
                                assert(entry_at(before, nm, q));
                                assert(p != q);
                            },
                            None => {},
                        }
                        assert(after[p] == before[p]);
                    }
                }
            }
            i = i + 1;
        }
        proof {
            use_type_invariant(&reg);
        }
        reg
    }

    /// Sets the flags of the entry at position `i`.
    fn set_flags(&mut self, i: usize, running: bool, has_console: bool)
        requires
            i < old(self)@.len(),
        ensures
            final(self)@ == old(self)@.update(i as int, with_flags(old(self)@[i as int], running, has_console)),
    {
        proof {
            use_type_invariant(&*self);
        }
        let mut servers: Vec<ServerEntry> = Vec::new();
        std::mem::swap(&mut servers, &mut self.servers);
        let ghost before = servers@;
        let entry = ServerEntry {
            name: servers[i].name.clone(),
            java_version: servers[i].java_version.clone(),
            running,
            has_console,
        };
        servers.set(i, entry);
        proof {
            assert(servers@ =~= before.update(i as int, with_flags(before[i as int], running, has_console)));
            assert forall|a: int, b: int|
                0 <= a < servers@.len() && 0 <= b < servers@.len() && a != b implies
                #[trigger] servers@[a].name@ != #[trigger] servers@[b].name@ by {
                assert(before[a].name@ != before[b].name@);
            }
        }
        self.servers = servers;
    }

    /// Records how starting the server named `name` went: a server whose
    /// process was spawned is running and has a console; a failed spawn, or
    /// an unknown name, leaves the registry as it was.
    pub fn start_outcome(&mut self, name: &str, spawned: bool)
        ensures
            start_outcome_step(old(self)@, name@, spawned, final(self)@),
    {
        proof {
            use_type_invariant(&*self);
        }
        if spawned {
            match self.position(name) {
                Some(i) => {
                    proof {
                        assert(position_of(self@, name@) == Some(i as int));
                    }
                    self.set_flags(i, true, true);
                },
                None => {},
            }
        }
    }

    /// Records a finished creation of the server `name` on `java_version`:
    /// the server becomes known as a new, stopped server (as `register`
    /// does), the record for `servers.bin` is `existing` followed by the new
    /// server (as `record_created` gives it), and the server's id is the
    /// number of folders in `servers` once its folder exists, cut to 32 bits.
    pub fn record_creation(
        &mut self,
        name: String,
        java_version: String,
        existing: Option<CreateServerConfig>,
        dir_count: usize,
    ) -> (res: (u32, CreateServerConfig))
        ensures
            res.0 == dir_count as u32,
            appended(
                match existing {
                    Some(c) => c.servers@,
                    None => Seq::empty(),
                },
                name@,
                java_version@,
                res.1.servers@,
            ),
            names_distinct(final(self)@),
            registered_fresh(old(self)@, name@, java_version@, final(self)@),
    {
        self.register(name.clone(), java_version.clone());
        let config = record_created(existing, name, java_version);
        (dir_count as u32, config)
    }

    /// Forgets the server named `name`; tells whether it was known.
    pub fn remove(&mut self, name: &str) -> (res: bool)
        ensures
            names_distinct(final(self)@),
            res == is_registered(old(self)@, name@),
            match position_of(old(self)@, name@) {
                Some(i) => final(self)@ == old(self)@.remove(i),
                None => final(self)@ == old(self)@,
            },
    {
        proof {
            use_type_invariant(&*self);
        }
        match self.position(name) {
            Some(i) => {
                let mut servers: Vec<ServerEntry> = Vec::new();
                std::mem::swap(&mut servers, &mut self.servers);
                let ghost before = servers@;
                servers.remove(i);
                proof {
                    assert(position_of(before, name@) == Some(i as int));
                    assert forall|a: int, b: int|
                        0 <= a < servers@.len() && 0 <= b < servers@.len() && a != b implies
                        #[trigger] servers@[a].name@ != #[trigger] servers@[b].name@ by {
                        let a0 = if a < i { a } else { a + 1 };
                        let b0 = if b < i { b } else { b + 1 };
                        assert(servers@[a] == before[a0]);
                        assert(servers@[b] == before[b0]);
                        assert(before[a0].name@ != before[b0].name@);
                    }
                }
                self.servers = servers;
                true
            },
            None => false,
        }
    }

    /// Decides what to do for a command and updates the registry: stopping
    /// a server marks it stopped, deleting forgets it. Starting changes
    /// nothing until the outcome of the spawn is known (`start_outcome`).
    /// A command about an unknown server, a stop or input for a server
    /// without a running process, an output request for a server never
    /// started and a creation with another loader than `vanilla` are refused
    /// with a fault, leaving the registry unchanged.
    pub fn handle(&mut self, cmd: Command) -> (res: Result<HandlerAction, HandlerFault>)
        ensures
            handle_step(old(self)@, cmd, final(self)@, res),
            names_distinct(final(self)@),
    {
        proof {
            use_type_invariant(&*self);
        }
        match cmd {
            Command::StartServer { name } => match self.position(name.as_str()) {
                None => Err(HandlerFault::UnknownServer),
                Some(i) => {
                    proof {
                        assert(position_of(self@, name@) == Some(i as int));
                    }
                    let program = java_binary_path(self.servers[i].java_version.as_str());
                    Ok(HandlerAction::StartProcess { name, program })
                },
            },
            Command::StopServer { name } => match self.position(name.as_str()) {
                None => Err(HandlerFault::UnknownServer),
                Some(i) => {
                    proof {
                        assert(position_of(self@, name@) == Some(i as int));
                    }
                    if self.servers[i].running {
                        let c = self.servers[i].has_console;
                        self.set_flags(i, false, c);
                        Ok(HandlerAction::StopProcess { name })
                    } else {
                        Err(HandlerFault::NotRunning)
                    }
                },
            },
            Command::GetOutput { name } => match self.position(name.as_str()) {
                None => Err(HandlerFault::UnknownServer),
                Some(i) => {
                    proof {
                        assert(position_of(self@, name@) == Some(i as int));
                    }
                    if self.servers[i].has_console {
                        Ok(HandlerAction::Subscribe { name })
                    } else {
                        Err(HandlerFault::NoConsole)
                    }
                },
            },
            Command::SendCommand { name, command } => match self.position(name.as_str()) {
                None => Err(HandlerFault::UnknownServer),
                Some(i) => {
                    proof {
                        assert(position_of(self@, name@) == Some(i as int));
                    }
                    if self.servers[i].running {
                        Ok(HandlerAction::WriteInput { name, command })
                    } else {
                        Err(HandlerFault::NotRunning)
                    }
                },
            },
            Command::CreateServer { request } => match installer_for(request.loader.as_str()) {
                None => Err(HandlerFault::UnsupportedLoader),
                Some(installer) => {
                    let flow = download_server(
                        ServerConfig {
                            name: request.name.as_str(),
                            loader: request.loader.as_str(),
                            version: request.minecraft_version.as_str(),
                        },
                        request.agree_eula,
                        request.forced_java_version,
                        &request.flags,
                        installer,
                    );
                    Ok(HandlerAction::Create(flow))
                },
            },
            Command::ViewServers => Ok(HandlerAction::Reply(self.overview())),
            Command::DeleteServer { name } => {
                if self.remove(name.as_str()) {
                    Ok(HandlerAction::RemoveServerDir { name })
                } else {
                    Ok(HandlerAction::Nothing)
                }
            },
        }
    }
}

} // verus!

verus! {

/// After a server is deleted, no server of that name is known any more, and
/// every other server is still known.
pub proof fn lemma_delete_forgets(s: Seq<ServerEntry>, name: String, t: Seq<ServerEntry>, res: Result<HandlerAction, HandlerFault>)
    requires
        names_distinct(s),
        handle_step(s, Command::DeleteServer { name }, t, res),
    ensures
        !is_registered(t, name@),
        forall|other: Seq<char>| other != name@ && is_registered(s, other) ==> is_registered(t, other),
        res is Ok,
{
    lemma_position_of(s, name@);
    match position_of(s, name@) {
        Some(i) => {
            assert forall|k: int| 0 <= k < t.len() implies #[trigger] t[k].name@ != name@ by {
                let k0 = if k < i { k } else { k + 1 };
                assert(t[k] == s[k0]);
                assert(s[k0].name@ != s[i].name@);
            }
            assert forall|other: Seq<char>| other != name@ && is_registered(s, other) implies is_registered(t, other) by {
                let p = choose|p: int| 0 <= p < s.len() && #[trigger] s[p].name@ == other;
                if p < i {
                    assert(t[p] == s[p]);
                } else {
                    assert(p != i);
                    assert(t[p - 1] == s[p]);
                }
            }
        },
        None => {},
    }
}

/// A command about a server the registry does not know is refused with
/// `UnknownServer` and changes nothing (deletion and creation aside, which
/// do not need the server to be known).
pub proof fn lemma_unknown_server_refused(s: Seq<ServerEntry>, cmd: Command, t: Seq<ServerEntry>, res: Result<HandlerAction, HandlerFault>)
    requires
        !is_registered(s, cmd.target()),
        cmd is StartServer || cmd is StopServer || cmd is GetOutput || cmd is SendCommand,
        handle_step(s, cmd, t, res),
    ensures
        t == s,
        res == Err::<HandlerAction, HandlerFault>(HandlerFault::UnknownServer),
{
}

/// Starting a known server whose process then spawns, and stopping it,
/// succeeds both times and leaves it stopped, with a console that can be
/// subscribed to.
pub proof fn lemma_start_then_stop(
    s: Seq<ServerEntry>,
    name: String,
    t: Seq<ServerEntry>,
    r1: Result<HandlerAction, HandlerFault>,
    u: Seq<ServerEntry>,
    v: Seq<ServerEntry>,
    r2: Result<HandlerAction, HandlerFault>,
)
    requires
        names_distinct(s),
        is_registered(s, name@),
        handle_step(s, Command::StartServer { name }, t, r1),
        start_outcome_step(t, name@, true, u),
        handle_step(u, Command::StopServer { name }, v, r2),
    ensures
        r1 is Ok,
        r2 is Ok,
        match position_of(s, name@) {
            Some(i) => v == s.update(i, with_flags(s[i], false, true)),
            None => false,
        },
{
    lemma_position_of(s, name@);
    let i = position_of(s, name@)->0;
    assert(t == s);
    lemma_position_of(u, name@);
    assert(u[i].name@ == name@);
    let j = position_of(u, name@)->0;
    if j != i {
        assert(u[j] == s[j]);
        assert(s[j].name@ != s[i].name@);
    }
    assert(u[i].running);
    assert(v =~= s.update(i, with_flags(s[i], false, true)));
}

/// A start whose process fails to spawn leaves the registry exactly as it
/// was before the start was asked for.
pub proof fn lemma_failed_start_changes_nothing(
    s: Seq<ServerEntry>,
    name: String,
    t: Seq<ServerEntry>,
    r: Result<HandlerAction, HandlerFault>,
    u: Seq<ServerEntry>,
)
    requires
        handle_step(s, Command::StartServer { name }, t, r),
        start_outcome_step(t, name@, false, u),
    ensures
        u == s,
{
}

/// The overview names every known server exactly once.
pub proof fn lemma_overview_complete(s: Seq<ServerEntry>, o: Seq<(String, bool)>, name: Seq<char>)
    requires
        names_distinct(s),
        is_overview(s, o),
        is_registered(s, name),
    ensures
        exists|i: int| 0 <= i < o.len() && (#[trigger] o[i]).0@ == name && forall|j: int| 0 <= j < o.len() && j != i ==> (#[trigger] o[j]).0@ != name,
{
    let i = choose|i: int| 0 <= i < s.len() && #[trigger] s[i].name@ == name;
    assert(o[i].0@ == name);
    assert forall|j: int| 0 <= j < o.len() && j != i implies (#[trigger] o[j]).0@ != name by {
        assert(s[j].name@ != s[i].name@);
    }
}

/// A creation request that forces a Java version gets that version: in
/// every run of the creation built for it, each Java version the creation
/// carries (the one it checks, installs, writes into the start script and
/// reports on success) is the forced one, whatever `minecraft.json` says.
pub proof fn lemma_forced_java_wins(
    s: Seq<ServerEntry>,
    request: ServerCreateRequest,
    t: Seq<ServerEntry>,
    flow: CreateServerFlow,
    stages: Seq<CreateStage>,
    events: Seq<CreateEvent>,
    j: int,
)
    requires
        handle_step(s, Command::CreateServer { request }, t, Ok(HandlerAction::Create(flow))),
        request.forced_java_version is Some,
        is_run(flow, stages, events),
        0 <= j < stages.len(),
        carried_java(stages[j]) is Some,
    ensures
        carried_java(stages[j]) == Some(request.forced_java_version->0@),
{
    lemma_java_version_origin(flow, stages, events, j);
    let k = choose|k: int| k < j && java_chosen_at(flow, stages, events, k, carried_java(stages[j])->0);
    assert(java_chosen_at(flow, stages, events, k, carried_java(stages[j])->0));
}

} // verus!
