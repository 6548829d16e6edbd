//! Creating a server for the web API, which addresses servers by numeric id:
//! the decisions of the creation as a state machine. The id of a new server
//! is the number of server folders once its own folder exists.
use crate::create::resolved_java;
use crate::error::ApiError;
use crate::minecraft::{get_config, lookup_outcome, MinecraftConfig};
use vstd::prelude::*;
use vstd::string::*;

verus! {

/// The lower-case hexadecimal digit of `d`, for `d` below 16.
pub open spec fn hex_digit(d: int) -> char {
    if d < 10 {
        ('0' as int + d) as char
    } else {
        ('a' as int + d - 10) as char
    }
}

/// A character as `serde_json` writes it inside a JSON string: the quote and
/// the backslash are escaped with a backslash, backspace, form feed, line
/// feed, carriage return and tab by their short escapes, the other control
/// characters below U+0020 as `\u00` and two lower-case hexadecimal digits;
/// every other character stands as it is.
pub open spec fn json_escaped_char(c: char) -> Seq<char> {
    if c == '"' {
        seq!['\\', '"']
    } else if c == '\\' {
        seq!['\\', '\\']
    } else if c == '\u{8}' {
        seq!['\\', 'b']
    } else if c == '\u{c}' {
        seq!['\\', 'f']
    } else if c == '\n' {
        seq!['\\', 'n']
    } else if c == '\r' {
        seq!['\\', 'r']
    } else if c == '\t' {
        seq!['\\', 't']
    } else if (c as int) < 0x20 {
        seq!['\\', 'u', '0', '0', hex_digit(c as int / 16), hex_digit(c as int % 16)]
    } else {
        seq![c]
    }
}

/// The characters of `s`, each escaped as in a JSON string.
pub open spec fn json_escaped(s: Seq<char>) -> Seq<char>
    decreases s.len(),
{
    if s.len() == 0 {
        Seq::empty()
    } else {
        json_escaped_char(s[0]) + json_escaped(s.drop_first())
    }
}

/// The JSON string literal of `s`.
pub open spec fn json_string(s: Seq<char>) -> Seq<char> {
    seq!['"'] + json_escaped(s) + seq!['"']
}

/// The `config.json` text of a server as `serde_json` pretty-prints the
/// object of its three strings: keys in sorted order, one per line, indented
/// by two spaces.
pub open spec fn server_config_text(
    minecraft_version: Seq<char>,
    loader: Seq<char>,
    java_version: Seq<char>,
) -> Seq<char> {
    "{\n  \"java_version\": "@ + json_string(java_version) + ",\n  \"loader\": "@ + json_string(loader)
        + ",\n  \"minecraft_version\": "@ + json_string(minecraft_version) + "\n}"@
}

/// Calls `serde_json::to_string_pretty` on the JSON object with the keys
/// `minecraft_version`, `loader` and `java_version`. Without the
/// `preserve_order` feature its map keeps the keys sorted, and its pretty
/// printer writes the text `server_config_text` states. An object of strings
/// always serialises, so the result is unwrapped.
#[verifier::external_body]
fn server_config_json(minecraft_version: &str, loader: &str, java_version: &str) -> (res: String)
    ensures
        res@ == server_config_text(minecraft_version@, loader@, java_version@),
{
    let mut map = serde_json::Map::new();
    map.insert("minecraft_version".to_string(), serde_json::Value::String(minecraft_version.to_string()));
    map.insert("loader".to_string(), serde_json::Value::String(loader.to_string()));
    map.insert("java_version".to_string(), serde_json::Value::String(java_version.to_string()));
    serde_json::to_string_pretty(&serde_json::Value::Object(map)).unwrap()
}

/// The `config.json` text written for a new server.
pub fn server_config_contents(minecraft_version: &str, loader: &str, java_version: &str) -> (res: String)
    ensures
        res@ == server_config_text(minecraft_version@, loader@, java_version@),
{
    server_config_json(minecraft_version, loader, java_version)
}

/// Where the creation stands.
#[derive(Debug)]
pub enum IndexedStage {
    /// Waits to learn whether the server's folder exists.
    AwaitServerDir,
    AwaitServerDirCreated,
    AwaitEula,
    /// Waits for the number of folders in `servers`.
    AwaitCount,
    /// Waits to learn whether `servers/index.bin` exists.
    AwaitIndexFile { id: u32 },
    /// Waits for a folder to be created at the path of `servers/index.bin`.
    AwaitIndexDirCreated { id: u32 },
    /// Waits for the server to be recorded in the index, the index to be
    /// written to `servers/index.bin`, and the server to be put under control.
    AwaitRegister { id: u32 },
    AwaitConfigFile { id: u32 },
    AwaitConfig { id: u32 },
    AwaitJar { id: u32, java_version: String, url: String },
    AwaitJavaCheck { id: u32, java_version: String },
    AwaitJavaInstall { id: u32, java_version: String },
    /// Waits to learn whether the server's `config.json` exists.
    AwaitServerConfig { id: u32, java_version: String },
    /// Waits for the server's `config.json` to be written.
    AwaitServerConfigWritten { id: u32, java_version: String },
    Succeeded { id: u32 },
    Failed(ApiError),
}

/// The outcome of the last action.
#[derive(Debug)]
pub enum IndexedEvent {
    Exists(bool),
    Done,
    /// The number of folders in `servers`.
    Count(usize),
    ConfigLoaded(MinecraftConfig),
    Failed(ApiError),
}

/// What the caller has to do next.
#[derive(Debug)]
pub enum IndexedAction {
    CheckServerDir,
    CreateServerDir,
    WriteEula { contents: String },
    /// Count the folders in `<root>/servers`.
    CountServerDirs,
    CheckIndexFile,
    /// Create a folder at `<root>/servers/index.bin`.
    CreateIndexDir,
    /// Record `name` under `id` in the index, write the index to
    /// `servers/index.bin`, and put a new server under control as `id`.
    RegisterServer { id: u32, name: String },
    CheckMinecraftConfig,
    ReadMinecraftConfig,
    DownloadJar { url: String },
    CheckJava { java_version: String },
    InstallJava { java_version: String },
    CheckServerConfig,
    WriteServerConfig { contents: String },
    Finish(Result<u32, ApiError>),
}

/// The creation of one server for the web API.
#[derive(Debug)]
pub struct IndexedCreateFlow {
    pub name: String,
    pub minecraft_version: String,
    pub loader: String,
    pub force_java_version: Option<String>,
    pub stage: IndexedStage,
}

/// One step from `s` on event `e` to `t`.
pub open spec fn indexed_step(flow: IndexedCreateFlow, s: IndexedStage, e: IndexedEvent, t: IndexedStage) -> bool {
    match (s, e) {
        (IndexedStage::Succeeded { .. }, _) => t == s,
        (IndexedStage::Failed(_), _) => t == s,
        (_, IndexedEvent::Failed(err)) => t == IndexedStage::Failed(err),
        (IndexedStage::AwaitServerDir, IndexedEvent::Exists(b)) => if b {
            t == IndexedStage::Failed(ApiError::InternalServerError)
        } else {
            t is AwaitServerDirCreated
        },
        (IndexedStage::AwaitServerDirCreated, IndexedEvent::Done) => t is AwaitEula,
        (IndexedStage::AwaitEula, IndexedEvent::Done) => t is AwaitCount,
        (IndexedStage::AwaitCount, IndexedEvent::Count(n)) => t == IndexedStage::AwaitIndexFile {
            id: n as u32,
        },
        (IndexedStage::AwaitIndexFile { id }, IndexedEvent::Exists(b)) => if b {
            t == IndexedStage::AwaitRegister { id }
        } else {
            t == IndexedStage::AwaitIndexDirCreated { id }
        },
        (IndexedStage::AwaitIndexDirCreated { id }, IndexedEvent::Done) => t
            == IndexedStage::AwaitRegister { id },
        (IndexedStage::AwaitRegister { id }, IndexedEvent::Done) => t
            == IndexedStage::AwaitConfigFile { id },
        (IndexedStage::AwaitConfigFile { id }, IndexedEvent::Exists(b)) => if b {
            t == IndexedStage::AwaitConfig { id }
        } else {
            t == IndexedStage::Failed(ApiError::NotFound)
        },
        (IndexedStage::AwaitConfig { id }, IndexedEvent::ConfigLoaded(cfg)) => match t {
            IndexedStage::AwaitJar { id: i, java_version, url } => i == id && exists|lc|
                lookup_outcome(cfg, flow.minecraft_version@, flow.loader@, Ok(lc)) && url@
                    == lc.url@ && java_version@ == resolved_java(flow.force_java_version, lc.java_version@),
            IndexedStage::Failed(e) => e == ApiError::NotFound && exists|err|
                lookup_outcome(cfg, flow.minecraft_version@, flow.loader@, Err(err)),
            _ => false,
        },
        (IndexedStage::AwaitJar { id, java_version, .. }, IndexedEvent::Done) => t
            == IndexedStage::AwaitJavaCheck { id, java_version },
        (IndexedStage::AwaitJavaCheck { id, java_version }, IndexedEvent::Exists(b)) => if b {
            t == IndexedStage::AwaitServerConfig { id, java_version }
        } else {
            t == IndexedStage::AwaitJavaInstall { id, java_version }
        },
        (IndexedStage::AwaitJavaInstall { id, java_version }, IndexedEvent::Done) => t
            == IndexedStage::AwaitServerConfig { id, java_version },
        (IndexedStage::AwaitServerConfig { id, java_version }, IndexedEvent::Exists(b)) => if b {
            t == IndexedStage::Succeeded { id }
        } else {
            t == IndexedStage::AwaitServerConfigWritten { id, java_version }
        },
        (IndexedStage::AwaitServerConfigWritten { id, .. }, IndexedEvent::Done) => t
            == IndexedStage::Succeeded { id },
        _ => t == s,
    }
}

/// The action that `flow` asks for in its current stage.
pub open spec fn indexed_action(flow: IndexedCreateFlow, a: IndexedAction) -> bool {
    match flow.stage {
        IndexedStage::AwaitServerDir => a is CheckServerDir,
        IndexedStage::AwaitServerDirCreated => a is CreateServerDir,
        IndexedStage::AwaitEula => a matches IndexedAction::WriteEula { contents } && contents@
            == "eula=true"@,
        IndexedStage::AwaitCount => a is CountServerDirs,
        IndexedStage::AwaitIndexFile { .. } => a is CheckIndexFile,
        IndexedStage::AwaitIndexDirCreated { .. } => a is CreateIndexDir,
        IndexedStage::AwaitRegister { id } => a matches IndexedAction::RegisterServer {
            id: i,
            name,
        } && i == id && name@ == flow.name@,
        IndexedStage::AwaitConfigFile { .. } => a is CheckMinecraftConfig,
        IndexedStage::AwaitConfig { .. } => a is ReadMinecraftConfig,
        IndexedStage::AwaitJar { url, .. } => a matches IndexedAction::DownloadJar { url: u } && u@
            == url@,
        IndexedStage::AwaitJavaCheck { java_version, .. } => a matches IndexedAction::CheckJava {
            java_version: j,
        } && j@ == java_version@,
        IndexedStage::AwaitJavaInstall { java_version, .. } => a matches IndexedAction::InstallJava {
            java_version: j,
        } && j@ == java_version@,
        IndexedStage::AwaitServerConfig { .. } => a is CheckServerConfig,
        IndexedStage::AwaitServerConfigWritten { java_version, .. } => a matches IndexedAction::WriteServerConfig {
            contents,
        } && contents@ == server_config_text(
            flow.minecraft_version@,
            flow.loader@,
            java_version@,
        ),
        IndexedStage::Succeeded { id } => a == IndexedAction::Finish(Ok(id)),
        IndexedStage::Failed(e) => a == IndexedAction::Finish(Err(e)),
    }
}

/// Starts the creation of a server for the web API: refused at once with
/// `InternalServerError` when the EULA was not agreed to.
pub fn download_server(
    name: &str,
    minecraft_version: &str,
    loader: &str,
    force_java_version: Option<String>,
    agree_eula: bool,
) -> (res: IndexedCreateFlow)
    ensures
        res.name@ == name@,
        res.minecraft_version@ == minecraft_version@,
        res.loader@ == loader@,
        res.force_java_version == force_java_version,
        agree_eula ==> res.stage is AwaitServerDir,
        !agree_eula ==> res.stage == IndexedStage::Failed(ApiError::InternalServerError),
{
    let stage = if agree_eula {
        IndexedStage::AwaitServerDir
    } else {
        IndexedStage::Failed(ApiError::InternalServerError)
    };
    IndexedCreateFlow {
        name: String::from_str(name),
        minecraft_version: String::from_str(minecraft_version),
        loader: String::from_str(loader),
        force_java_version,
        stage,
    }
}

impl IndexedCreateFlow {
    /// Whether the creation is over.
    pub fn is_finished(&self) -> (res: bool)
        ensures
            res == (self.stage is Succeeded || self.stage is Failed),
    {
        match self.stage {
            IndexedStage::Succeeded { .. } | IndexedStage::Failed(_) => true,
            _ => false,
        }
    }

    /// The action the creation asks for next.
    pub fn next_action(&self) -> (res: IndexedAction)
        ensures
            indexed_action(*self, res),
    {
        match &self.stage {
            IndexedStage::AwaitServerDir => IndexedAction::CheckServerDir,
            IndexedStage::AwaitServerDirCreated => IndexedAction::CreateServerDir,
            IndexedStage::AwaitEula => IndexedAction::WriteEula {
                contents: String::from_str("eula=true"),
            },
            IndexedStage::AwaitCount => IndexedAction::CountServerDirs,
            IndexedStage::AwaitIndexFile { .. } => IndexedAction::CheckIndexFile,
            IndexedStage::AwaitIndexDirCreated { .. } => IndexedAction::CreateIndexDir,
            IndexedStage::AwaitRegister { id } => IndexedAction::RegisterServer {
                id: *id,
                name: self.name.clone(),
            },
            IndexedStage::AwaitConfigFile { .. } => IndexedAction::CheckMinecraftConfig,
            IndexedStage::AwaitConfig { .. } => IndexedAction::ReadMinecraftConfig,
            IndexedStage::AwaitJar { url, .. } => IndexedAction::DownloadJar { url: url.clone() },
            IndexedStage::AwaitJavaCheck { java_version, .. } => IndexedAction::CheckJava {
                java_version: java_version.clone(),
            },
            IndexedStage::AwaitJavaInstall { java_version, .. } => IndexedAction::InstallJava {
                java_version: java_version.clone(),
            },
            IndexedStage::AwaitServerConfig { .. } => IndexedAction::CheckServerConfig,
            IndexedStage::AwaitServerConfigWritten { java_version, .. } => {
                IndexedAction::WriteServerConfig {
                    contents: server_config_contents(
                        self.minecraft_version.as_str(),
                        self.loader.as_str(),
                        java_version.as_str(),
                    ),
                }
            },
            IndexedStage::Succeeded { id } => IndexedAction::Finish(Ok(*id)),
            IndexedStage::Failed(e) => IndexedAction::Finish(Err(e.duplicate())),
        }
    }

    /// Takes the outcome of the pending action into account.
    pub fn advance(&mut self, event: IndexedEvent)
        ensures
            indexed_step(*old(self), old(self).stage, event, final(self).stage),
            final(self).name == old(self).name,
            final(self).minecraft_version == old(self).minecraft_version,
            final(self).loader == old(self).loader,
            final(self).force_java_version == old(self).force_java_version,
    {
        let mut stage = IndexedStage::AwaitServerDir;
        std::mem::swap(&mut stage, &mut self.stage);
        let next = match (stage, event) {
            (IndexedStage::Succeeded { id }, _) => IndexedStage::Succeeded { id },
            (IndexedStage::Failed(e), _) => IndexedStage::Failed(e),
            (_, IndexedEvent::Failed(err)) => IndexedStage::Failed(err),
            (IndexedStage::AwaitServerDir, IndexedEvent::Exists(b)) => if b {
                IndexedStage::Failed(ApiError::InternalServerError)
            } else {
                IndexedStage::AwaitServerDirCreated
            },
            (IndexedStage::AwaitServerDirCreated, IndexedEvent::Done) => IndexedStage::AwaitEula,
            (IndexedStage::AwaitEula, IndexedEvent::Done) => IndexedStage::AwaitCount,
            (IndexedStage::AwaitCount, IndexedEvent::Count(n)) => IndexedStage::AwaitIndexFile {
                id: #[verifier::truncate] (n as u32),
            },
            (IndexedStage::AwaitIndexFile { id }, IndexedEvent::Exists(b)) => if b {
                IndexedStage::AwaitRegister { id }
            } else {
                IndexedStage::AwaitIndexDirCreated { id }
            },
            (IndexedStage::AwaitIndexDirCreated { id }, IndexedEvent::Done) => {
                IndexedStage::AwaitRegister { id }
            },
            (IndexedStage::AwaitRegister { id }, IndexedEvent::Done) => {
                IndexedStage::AwaitConfigFile { id }
            },
            (IndexedStage::AwaitConfigFile { id }, IndexedEvent::Exists(b)) => if b {
                IndexedStage::AwaitConfig { id }
            } else {
                IndexedStage::Failed(ApiError::NotFound)
            },
            (IndexedStage::AwaitConfig { id }, IndexedEvent::ConfigLoaded(cfg)) => {
                match get_config(&cfg, self.minecraft_version.as_str(), self.loader.as_str()) {
                    Ok(lc) => {
                        let ghost g = lc;
                        let java_version = match &self.force_java_version {
                            Some(f) => f.clone(),
                            None => lc.java_version,
                        };
                        let t = IndexedStage::AwaitJar { id, java_version, url: lc.url };
                        assert(lookup_outcome(cfg, self.minecraft_version@, self.loader@, Ok(g)));
                        assert(t->AwaitJar_url@ == g.url@);
                        assert(t->AwaitJar_java_version@ == resolved_java(
                            self.force_java_version,
                            g.java_version@,
                        ));
                        t
                    },
                    Err(e) => {
                        let ghost ge = e;
                        assert(lookup_outcome(cfg, self.minecraft_version@, self.loader@, Err(ge)));
                        IndexedStage::Failed(ApiError::NotFound)
                    },
                }
            },
            (IndexedStage::AwaitJar { id, java_version, .. }, IndexedEvent::Done) => {
                IndexedStage::AwaitJavaCheck { id, java_version }
            },
            (IndexedStage::AwaitJavaCheck { id, java_version }, IndexedEvent::Exists(b)) => if b {
                IndexedStage::AwaitServerConfig { id, java_version }
            } else {
                IndexedStage::AwaitJavaInstall { id, java_version }
            },
            (IndexedStage::AwaitJavaInstall { id, java_version }, IndexedEvent::Done) => {
                IndexedStage::AwaitServerConfig { id, java_version }
            },
            (IndexedStage::AwaitServerConfig { id, java_version }, IndexedEvent::Exists(b)) => if b {
                IndexedStage::Succeeded { id }
            } else {
                IndexedStage::AwaitServerConfigWritten { id, java_version }
            },
            (IndexedStage::AwaitServerConfigWritten { id, .. }, IndexedEvent::Done) => {
                IndexedStage::Succeeded { id }
            },
            (other, _) => other,
        };
        self.stage = next;
    }
}

/// When the check of the chosen Java runtime reports it missing, the
/// creation next asks to install exactly that Java version; when it reports
/// it present, it next asks whether the server's `config.json` exists.
pub proof fn lemma_missing_java_is_installed(
    flow: IndexedCreateFlow,
    id: u32,
    java_version: String,
    present: bool,
    t: IndexedStage,
    a: IndexedAction,
)
    requires
        indexed_step(flow, IndexedStage::AwaitJavaCheck { id, java_version }, IndexedEvent::Exists(present), t),
        indexed_action(IndexedCreateFlow { stage: t, ..flow }, a),
    ensures
        !present ==> (a matches IndexedAction::InstallJava { java_version: j } && j@ == java_version@),
        present ==> a is CheckServerConfig,
{
}

/// `stages` are the stages a web-API creation goes through when the
/// outcomes of its actions are `events`, starting from the stage of `flow`.
pub open spec fn is_indexed_run(flow: IndexedCreateFlow, stages: Seq<IndexedStage>, events: Seq<IndexedEvent>) -> bool {
    &&& stages.len() == events.len() + 1
    &&& stages[0] == flow.stage
    &&& forall|k: int|
        0 <= k < events.len() ==> indexed_step(flow, #[trigger] stages[k], events[k], stages[k + 1])
}

/// After the Java runtime was found missing at step `k`, the run waits for
/// its installation, or failed, unless an installation of that version
/// already completed.
proof fn lemma_waits_for_java_install(
    flow: IndexedCreateFlow,
    stages: Seq<IndexedStage>,
    events: Seq<IndexedEvent>,
    id: u32,
    java_version: String,
    k: int,
    m: int,
)
    requires
        is_indexed_run(flow, stages, events),
        0 <= k < events.len(),
        stages[k + 1] == (IndexedStage::AwaitJavaInstall { id, java_version }),
        k + 1 <= m < stages.len(),
    ensures
        stages[m] == (IndexedStage::AwaitJavaInstall { id, java_version }) || stages[m] is Failed
            || exists|i: int|
            k < i < m && #[trigger] stages[i] == (IndexedStage::AwaitJavaInstall { id, java_version })
                && events[i] is Done,
    decreases m,
{
    if m > k + 1 {
        lemma_waits_for_java_install(flow, stages, events, id, java_version, k, m - 1);
        assert(indexed_step(flow, stages[m - 1], events[m - 1], stages[m]));
        if stages[m - 1] == (IndexedStage::AwaitJavaInstall { id, java_version }) && events[m - 1] is Done {
            assert(k < m - 1 < m);
        }
    }
}

/// No web-API creation succeeds without installing a Java runtime that was
/// found missing: after the check of `java_version` reported it missing at
/// step `k`, a run that reaches `Succeeded` at step `j` installed exactly
/// that version in between.
pub proof fn lemma_no_success_without_java(
    flow: IndexedCreateFlow,
    stages: Seq<IndexedStage>,
    events: Seq<IndexedEvent>,
    id: u32,
    java_version: String,
    k: int,
    j: int,
)
    requires
        is_indexed_run(flow, stages, events),
        0 <= k < events.len(),
        stages[k] == (IndexedStage::AwaitJavaCheck { id, java_version }),
        events[k] == IndexedEvent::Exists(false),
        k < j < stages.len(),
        stages[j] is Succeeded,
    ensures
        exists|i: int|
            k < i < j && #[trigger] stages[i] == (IndexedStage::AwaitJavaInstall { id, java_version })
                && events[i] is Done,
{
    assert(indexed_step(flow, stages[k], events[k], stages[k + 1]));
    lemma_waits_for_java_install(flow, stages, events, id, java_version, k, j);
}

/// The id of a server created through the web API is the number of folders
/// in `servers` once its own folder exists (cut to 32 bits): after the
/// count, the creation carries that id and asks whether `index.bin` exists.
pub proof fn lemma_id_is_folder_count(flow: IndexedCreateFlow, n: usize, t: IndexedStage, a: IndexedAction)
    requires
        indexed_step(flow, IndexedStage::AwaitCount, IndexedEvent::Count(n), t),
        indexed_action(IndexedCreateFlow { stage: t, ..flow }, a),
    ensures
        t matches IndexedStage::AwaitIndexFile { id } && id == n as u32,
        a is CheckIndexFile,
{
}

/// A web-API creation whose server folder already exists fails with
/// `InternalServerError` and asks for nothing but to finish with it.
pub proof fn lemma_indexed_taken_name_fails(flow: IndexedCreateFlow, t: IndexedStage, a: IndexedAction)
    requires
        indexed_step(flow, IndexedStage::AwaitServerDir, IndexedEvent::Exists(true), t),
        indexed_action(IndexedCreateFlow { stage: t, ..flow }, a),
    ensures
        a == IndexedAction::Finish(Err(ApiError::InternalServerError)),
{
}

/// The server is recorded in the index under its id and with its own name.
pub proof fn lemma_register_names_server(flow: IndexedCreateFlow, id: u32, a: IndexedAction)
    requires
        flow.stage == (IndexedStage::AwaitRegister { id }),
        indexed_action(flow, a),
    ensures
        a matches IndexedAction::RegisterServer { id: i, name } && i == id && name@ == flow.name@,
{
}

} // verus!
