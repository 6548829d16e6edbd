//! Creating a Minecraft server: the decisions of the creation process as a
//! state machine. The caller performs each action on the file system or the
//! network and reports its outcome as the next event.
use crate::error::SubstrateError;
use crate::java::spec_java_dir_name;
use crate::minecraft::{aikars_options, get_config, lookup_outcome, spec_script, server_script, JavaFlags, MinecraftConfig};
use vstd::prelude::*;
use vstd::string::*;

verus! {

/// The server a creation request is for: its name, loader and Minecraft
/// version.
pub struct ServerConfig<'a> {
    pub name: &'a str,
    pub loader: &'a str,
    pub version: &'a str,
}

/// The installer of vanilla servers: it downloads the server jar and writes
/// the start script.
#[derive(Debug, Clone, Copy)]
pub struct VanillaInstaller {}

/// Where the creation of a server stands: each stage but the last two waits
/// for the outcome of one action.
#[derive(Debug)]
pub enum CreateStage {
    /// Waits to learn whether the `servers` folder exists.
    AwaitServersDir,
    /// Waits for the `servers` folder to be created.
    AwaitServersDirCreated,
    /// Waits to learn whether the server's folder exists.
    AwaitServerDir,
    /// Waits for the server's folder to be created.
    AwaitServerDirCreated,
    /// Waits for `eula.txt` to be written.
    AwaitEula,
    /// Waits for `minecraft.json` to be read.
    AwaitConfig,
    /// Waits to learn whether the chosen Java runtime is installed.
    AwaitJavaCheck { java_version: String, url: String },
    /// Waits for the chosen Java runtime to be installed.
    AwaitJavaInstall { java_version: String, url: String },
    /// Waits for the server jar to be downloaded from `url`.
    AwaitJar { java_version: String, url: String },
    /// Waits for the start script to be written.
    AwaitScript { java_version: String },
    /// The server was created and runs on `java_version`.
    Succeeded { java_version: String },
    /// The creation stopped with an error.
    Failed(SubstrateError),
}

/// The outcome of the last action.
#[derive(Debug)]
pub enum CreateEvent {
    /// The queried path exists or not.
    Exists(bool),
    /// The action completed.
    Done,
    /// `minecraft.json` was read and parsed.
    ConfigLoaded(MinecraftConfig),
    /// The action failed with this error.
    Failed(SubstrateError),
}

/// What the caller has to do next.
#[derive(Debug)]
pub enum CreateAction {
    /// Query whether `<root>/servers` exists.
    CheckServersDir,
    /// Create `<root>/servers` with its parents.
    CreateServersDir,
    /// Query whether `<root>/servers/<name>` exists.
    CheckServerDir,
    /// Create `<root>/servers/<name>`.
    CreateServerDir,
    /// Write `contents` to `eula.txt` in the server's folder.
    WriteEula { contents: String },
    /// Read and parse `<root>/minecraft.json`.
    ReadMinecraftConfig,
    /// Query whether `<root>/runtime/java-<java_version>` exists.
    CheckJava { java_version: String },
    /// Install the Java runtime of this version.
    InstallJava { java_version: String },
    /// Download `url` to `server.jar` in the server's folder.
    DownloadJar { url: String },
    /// Write `contents` to `run.sh` in the server's folder and make it executable.
    WriteScript { contents: String },
    /// The creation is over, with the server's name and Java version or an error.
    Finish(Result<(String, String), SubstrateError>),
}

/// The creation of one server.
#[derive(Debug)]
pub struct CreateServerFlow {
    pub name: String,
    pub loader: String,
    pub version: String,
    pub force_java_version: Option<String>,
    pub flags: JavaFlags,
    pub stage: CreateStage,
}

/// The Java version a server runs on: the forced one if given, else the one
/// configured for its version and loader.
pub open spec fn resolved_java(force: Option<String>, configured: Seq<char>) -> Seq<char> {
    match force {
        Some(f) => f@,
        None => configured,
    }
}

/// The stage reached after `minecraft.json` was read as `cfg`.
pub open spec fn stage_after_config(
    cfg: MinecraftConfig,
    version: Seq<char>,
    loader: Seq<char>,
    force: Option<String>,
    stage: CreateStage,
) -> bool {
    match stage {
        CreateStage::AwaitJavaCheck { java_version, url } => exists|lc|
            lookup_outcome(cfg, version, loader, Ok(lc)) && url@ == lc.url@ && java_version@
                == resolved_java(force, lc.java_version@),
        CreateStage::Failed(e) => lookup_outcome(cfg, version, loader, Err(e)),
        _ => false,
    }
}

/// The message of the error for a server folder that already exists.
pub open spec fn server_exists_message() -> Seq<char> {
    "Directory with server name does already exist"@
}

/// One step of the creation: from stage `s`, on event `e`, to stage `t`.
/// Terminal stages, and events that do not answer the pending action, leave
/// the stage as it is.
pub open spec fn create_step(
    flow: CreateServerFlow,
    s: CreateStage,
    e: CreateEvent,
    t: CreateStage,
) -> bool {
    match (s, e) {
        (CreateStage::Succeeded { .. }, _) => t == s,
        (CreateStage::Failed(_), _) => t == s,
        (_, CreateEvent::Failed(err)) => t == CreateStage::Failed(err),
        (CreateStage::AwaitServersDir, CreateEvent::Exists(b)) => if b {
            t is AwaitServerDir
        } else {
            t is AwaitServersDirCreated
        },
        (CreateStage::AwaitServersDirCreated, CreateEvent::Done) => t is AwaitServerDir,
        (CreateStage::AwaitServerDir, CreateEvent::Exists(b)) => if b {
            t matches CreateStage::Failed(SubstrateError::AlreadyExists { resource })
                && resource@ == server_exists_message()
        } else {
            t is AwaitServerDirCreated
        },
        (CreateStage::AwaitServerDirCreated, CreateEvent::Done) => t is AwaitEula,
        (CreateStage::AwaitEula, CreateEvent::Done) => t is AwaitConfig,
        (CreateStage::AwaitConfig, CreateEvent::ConfigLoaded(cfg)) => stage_after_config(
            cfg,
            flow.version@,
            flow.loader@,
            flow.force_java_version,
            t,
        ),
        (CreateStage::AwaitJavaCheck { java_version, url }, CreateEvent::Exists(b)) => if b {
            t matches CreateStage::AwaitJar { java_version: j, url: u } && j == java_version && u
                == url
        } else {
            t == CreateStage::AwaitJavaInstall { java_version, url }
        },
        (CreateStage::AwaitJavaInstall { java_version, url }, CreateEvent::Done) => t
            == CreateStage::AwaitJar { java_version, url },
        (CreateStage::AwaitJar { java_version, .. }, CreateEvent::Done) => t
            == CreateStage::AwaitScript { java_version },
        (CreateStage::AwaitScript { java_version }, CreateEvent::Done) => t
            == CreateStage::Succeeded { java_version },
        _ => t == s,
    }
}

/// The action that `flow` asks for in its current stage.
pub open spec fn create_action(flow: CreateServerFlow, a: CreateAction) -> bool {
    match flow.stage {
        CreateStage::AwaitServersDir => a is CheckServersDir,
        CreateStage::AwaitServersDirCreated => a is CreateServersDir,
        CreateStage::AwaitServerDir => a is CheckServerDir,
        CreateStage::AwaitServerDirCreated => a is CreateServerDir,
        CreateStage::AwaitEula => a matches CreateAction::WriteEula { contents } && contents@
            == "eula=true"@,
        CreateStage::AwaitConfig => a is ReadMinecraftConfig,
        CreateStage::AwaitJavaCheck { java_version, .. } => a matches CreateAction::CheckJava {
            java_version: j,
        } && j@ == java_version@,
        CreateStage::AwaitJavaInstall { java_version, .. } => a matches CreateAction::InstallJava {
            java_version: j,
        } && j@ == java_version@,
        CreateStage::AwaitJar { url, .. } => a matches CreateAction::DownloadJar { url: u } && u@
            == url@,
        CreateStage::AwaitScript { java_version } => a matches CreateAction::WriteScript {
            contents,
        } && contents@ == spec_script(flow.flags, java_version@),
        CreateStage::Succeeded { java_version } => a matches CreateAction::Finish(Ok((n, j)))
            && n@ == flow.name@ && j@ == java_version@,
        CreateStage::Failed(e) => a == CreateAction::Finish(Err(e)),
    }
}

/// The Java version the stage carries, for the stages after the
/// configuration was read.
pub open spec fn carried_java(s: CreateStage) -> Option<Seq<char>> {
    match s {
        CreateStage::AwaitJavaCheck { java_version, .. } => Some(java_version@),
        CreateStage::AwaitJavaInstall { java_version, .. } => Some(java_version@),
        CreateStage::AwaitJar { java_version, .. } => Some(java_version@),
        CreateStage::AwaitScript { java_version } => Some(java_version@),
        CreateStage::Succeeded { java_version } => Some(java_version@),
        _ => None,
    }
}

/// A finished creation stays as it is, whatever event comes.
pub proof fn lemma_finished_creation_is_final(flow: CreateServerFlow, e: CreateEvent, t: CreateStage)
    requires
        flow.stage is Succeeded || flow.stage is Failed,
        create_step(flow, flow.stage, e, t),
    ensures
        t == flow.stage,
{
}

/// Once the Java version is chosen it is kept until the creation ends: each
/// step either fails or carries the same version, up to the version reported
/// with success.
pub proof fn lemma_java_version_kept(flow: CreateServerFlow, s: CreateStage, e: CreateEvent, t: CreateStage)
    requires
        carried_java(s) is Some,
        create_step(flow, s, e, t),
    ensures
        t is Failed || carried_java(t) == carried_java(s),
{
}

/// `stages` are the stages a creation goes through when the outcomes of its
/// actions are `events`, starting from the stage of `flow`.
pub open spec fn is_run(flow: CreateServerFlow, stages: Seq<CreateStage>, events: Seq<CreateEvent>) -> bool {
    &&& stages.len() == events.len() + 1
    &&& stages[0] == flow.stage
    &&& forall|k: int|
        0 <= k < events.len() ==> create_step(flow, #[trigger] stages[k], events[k], stages[k + 1])
}

/// A failed creation stays failed with the same error for the rest of a run.
proof fn lemma_failure_persists(
    flow: CreateServerFlow,
    stages: Seq<CreateStage>,
    events: Seq<CreateEvent>,
    k: int,
    j: int,
)
    requires
        is_run(flow, stages, events),
        0 <= k <= j < stages.len(),
        stages[k] is Failed,
    ensures
        stages[j] == stages[k],
    decreases j - k,
{
    if j > k {
        lemma_failure_persists(flow, stages, events, k, j - 1);
        assert(create_step(flow, stages[j - 1], events[j - 1], stages[j]));
    }
}

/// A server whose name is taken cannot be created: once the server's folder
/// is found to exist, the creation fails with `AlreadyExists` and stays
/// failed, so it creates no folder, writes no file and downloads nothing.
pub proof fn lemma_taken_name_fails(
    flow: CreateServerFlow,
    stages: Seq<CreateStage>,
    events: Seq<CreateEvent>,
    k: int,
    j: int,
)
    requires
        is_run(flow, stages, events),
        0 <= k < events.len(),
        stages[k] is AwaitServerDir,
        events[k] == CreateEvent::Exists(true),
        k < j < stages.len(),
    ensures
        stages[j] matches CreateStage::Failed(SubstrateError::AlreadyExists { resource })
            && resource@ == server_exists_message(),
{
    assert(create_step(flow, stages[k], events[k], stages[k + 1]));
    lemma_failure_persists(flow, stages, events, k + 1, j);
}

/// How far a stage is on the way to a created server: the stages up to the
/// creation of the server's folder come first, the failure last.
pub open spec fn stage_rank(s: CreateStage) -> int {
    match s {
        CreateStage::AwaitServersDir => 0,
        CreateStage::AwaitServersDirCreated => 1,
        CreateStage::AwaitServerDir => 2,
        CreateStage::AwaitServerDirCreated => 3,
        CreateStage::AwaitEula => 4,
        CreateStage::AwaitConfig => 5,
        CreateStage::AwaitJavaCheck { .. } => 6,
        CreateStage::AwaitJavaInstall { .. } => 7,
        CreateStage::AwaitJar { .. } => 8,
        CreateStage::AwaitScript { .. } => 9,
        CreateStage::Succeeded { .. } => 10,
        CreateStage::Failed(_) => 11,
    }
}

/// The run created the server's folder: at some step it asked for the
/// folder to be created and the action completed.
pub open spec fn created_server_dir(stages: Seq<CreateStage>, events: Seq<CreateEvent>) -> bool {
    exists|k: int| 0 <= k < events.len() && #[trigger] stages[k] is AwaitServerDirCreated && events[k] is Done
}

/// A run that gets past the creation of the server's folder without failing
/// created that folder.
proof fn lemma_past_folder_created_it(
    flow: CreateServerFlow,
    stages: Seq<CreateStage>,
    events: Seq<CreateEvent>,
    j: int,
)
    requires
        is_run(flow, stages, events),
        stage_rank(flow.stage) <= 3,
        0 <= j < stages.len(),
        4 <= stage_rank(stages[j]) <= 10,
    ensures
        created_server_dir(stages, events),
    decreases j,
{
    assert(stages[0] == flow.stage);
    assert(create_step(flow, stages[j - 1], events[j - 1], stages[j]));
    if stage_rank(stages[j - 1]) >= 4 {
        if stages[j - 1] is Failed {
            assert(stages[j] == stages[j - 1]);
        }
        lemma_past_folder_created_it(flow, stages, events, j - 1);
    } else {
        assert(stages[j - 1] is AwaitServerDirCreated && events[j - 1] is Done);
    }
}

/// The folders in `servers` after a run that started with `before`: the
/// server's own folder is added when the run created it.
pub open spec fn folders_after(
    flow: CreateServerFlow,
    stages: Seq<CreateStage>,
    events: Seq<CreateEvent>,
    before: Set<Seq<char>>,
) -> Set<Seq<char>> {
    if created_server_dir(stages, events) {
        before.insert(flow.name@)
    } else {
        before
    }
}

/// Every answer the run got to the question whether the server's folder
/// exists is true exactly when `folders` holds the server's name.
pub open spec fn folder_answers_match(
    flow: CreateServerFlow,
    stages: Seq<CreateStage>,
    events: Seq<CreateEvent>,
    folders: Set<Seq<char>>,
) -> bool {
    forall|k: int|
        0 <= k < events.len() && #[trigger] stages[k] is AwaitServerDir && events[k] is Exists
            ==> events[k] == CreateEvent::Exists(folders.contains(flow.name@))
}

/// Server names are unique: after a creation of a server succeeded, a later
/// creation of a server with the same name, while the first one's folder is
/// still there, fails with `AlreadyExists` as soon as it looks for its
/// folder, and from then on the only action it asks for is to finish with
/// that error, so it creates, writes and downloads nothing.
pub proof fn lemma_names_unique(
    first: CreateServerFlow,
    s1: Seq<CreateStage>,
    e1: Seq<CreateEvent>,
    before: Set<Seq<char>>,
    second: CreateServerFlow,
    s2: Seq<CreateStage>,
    e2: Seq<CreateEvent>,
    folders: Set<Seq<char>>,
    k: int,
    j: int,
)
    requires
        is_run(first, s1, e1),
        first.stage is AwaitServersDir,
        s1.last() is Succeeded,
        is_run(second, s2, e2),
        second.name@ == first.name@,
        folders_after(first, s1, e1, before).subset_of(folders),
        folder_answers_match(second, s2, e2, folders),
        0 <= k < e2.len(),
        s2[k] is AwaitServerDir,
        e2[k] is Exists,
        k < j < s2.len(),
    ensures
        s2[j] matches CreateStage::Failed(SubstrateError::AlreadyExists { resource })
            && resource@ == server_exists_message(),
        forall|a: CreateAction|
            create_action(CreateServerFlow { stage: s2[j], ..second }, a) ==> a == CreateAction::Finish(
                Err(s2[j]->Failed_0),
            ),
{
    lemma_past_folder_created_it(first, s1, e1, s1.len() - 1);
    assert(folders_after(first, s1, e1, before).contains(first.name@));
    assert(e2[k] == CreateEvent::Exists(true));
    lemma_taken_name_fails(second, s2, e2, k, j);
}

/// Without agreement to the EULA a creation does nothing: every stage of
/// its run is the `Eula` failure, so the only action it asks for is to
/// finish with that error.
pub proof fn lemma_no_eula_no_effect(flow: CreateServerFlow, stages: Seq<CreateStage>, events: Seq<CreateEvent>, j: int)
    requires
        is_run(flow, stages, events),
        flow.stage == CreateStage::Failed(SubstrateError::Eula),
        0 <= j < stages.len(),
    ensures
        stages[j] == CreateStage::Failed(SubstrateError::Eula),
{
    lemma_failure_persists(flow, stages, events, 0, j);
}

/// The Java version `v` was chosen at step `k` of the run: `minecraft.json`
/// was read there, and `v` is the forced version if one was given, else the
/// version it configures for the server's Minecraft version and loader.
pub open spec fn java_chosen_at(
    flow: CreateServerFlow,
    stages: Seq<CreateStage>,
    events: Seq<CreateEvent>,
    k: int,
    v: Seq<char>,
) -> bool {
    &&& 0 <= k < events.len()
    &&& stages[k] is AwaitConfig
    &&& events[k] matches CreateEvent::ConfigLoaded(cfg) && exists|lc|
        lookup_outcome(cfg, flow.version@, flow.loader@, Ok(lc)) && v == resolved_java(
            flow.force_java_version,
            lc.java_version@,
        )
}

/// Every Java version a creation carries was chosen from `minecraft.json`
/// or forced: the version of a successful creation is the forced one if
/// given, else the one configured for its Minecraft version and loader.
/// This holds of creations that start without a chosen version, as those
/// that `download_server` starts.
pub proof fn lemma_java_version_origin(
    flow: CreateServerFlow,
    stages: Seq<CreateStage>,
    events: Seq<CreateEvent>,
    j: int,
)
    requires
        is_run(flow, stages, events),
        carried_java(flow.stage) is None,
        0 <= j < stages.len(),
        carried_java(stages[j]) is Some,
    ensures
        exists|k: int| k < j && java_chosen_at(flow, stages, events, k, carried_java(stages[j])->0),
    decreases j,
{
    assert(stages[0] == flow.stage);
    let prev = stages[j - 1];
    assert(create_step(flow, stages[j - 1], events[j - 1], stages[j]));
    if carried_java(prev) is Some {
        lemma_java_version_kept(flow, prev, events[j - 1], stages[j]);
        lemma_java_version_origin(flow, stages, events, j - 1);
        let k = choose|k: int| k < j - 1 && java_chosen_at(flow, stages, events, k, carried_java(prev)->0);
        assert(java_chosen_at(flow, stages, events, k, carried_java(stages[j])->0));
    } else {
        assert(java_chosen_at(flow, stages, events, j - 1, carried_java(stages[j])->0));
    }
}

/// Starts the creation of a server: refused at once with `Eula` when the
/// EULA was not agreed to; otherwise it begins by looking for the `servers`
/// folder.
pub fn download_server(
    server_config: ServerConfig,
    agree_eula: bool,
    force_java_version: Option<String>,
    flags: &JavaFlags,
    installer: VanillaInstaller,
) -> (res: CreateServerFlow)
    ensures
        res.name@ == server_config.name@,
        res.loader@ == server_config.loader@,
        res.version@ == server_config.version@,
        res.force_java_version == force_java_version,
        res.flags == *flags,
        agree_eula ==> res.stage is AwaitServersDir,
        !agree_eula ==> res.stage == CreateStage::Failed(SubstrateError::Eula),
{
    let stage = if agree_eula {
        CreateStage::AwaitServersDir
    } else {
        CreateStage::Failed(SubstrateError::Eula)
    };
    CreateServerFlow {
        name: String::from_str(server_config.name),
        loader: String::from_str(server_config.loader),
        version: String::from_str(server_config.version),
        force_java_version,
        flags: *flags,
        stage,
    }
}

impl CreateServerFlow {
    /// Whether the creation is over.
    pub fn is_finished(&self) -> (res: bool)
        ensures
            res == (self.stage is Succeeded || self.stage is Failed),
    {
        match self.stage {
            CreateStage::Succeeded { .. } | CreateStage::Failed(_) => true,
            _ => false,
        }
    }

    /// The action the creation asks for next.
    pub fn next_action(&self) -> (res: CreateAction)
        ensures
            create_action(*self, res),
    {
        match &self.stage {
            CreateStage::AwaitServersDir => CreateAction::CheckServersDir,
            CreateStage::AwaitServersDirCreated => CreateAction::CreateServersDir,
            CreateStage::AwaitServerDir => CreateAction::CheckServerDir,
            CreateStage::AwaitServerDirCreated => CreateAction::CreateServerDir,
            CreateStage::AwaitEula => CreateAction::WriteEula {
                contents: String::from_str("eula=true"),
            },
            CreateStage::AwaitConfig => CreateAction::ReadMinecraftConfig,
            CreateStage::AwaitJavaCheck { java_version, .. } => CreateAction::CheckJava {
                java_version: java_version.clone(),
            },
            CreateStage::AwaitJavaInstall { java_version, .. } => CreateAction::InstallJava {
                java_version: java_version.clone(),
            },
            CreateStage::AwaitJar { url, .. } => CreateAction::DownloadJar { url: url.clone() },
            CreateStage::AwaitScript { java_version } => CreateAction::WriteScript {
                contents: server_script(self.flags, java_version.as_str()),
            },
            CreateStage::Succeeded { java_version } => CreateAction::Finish(
                Ok((self.name.clone(), java_version.clone())),
            ),
            CreateStage::Failed(e) => CreateAction::Finish(Err(e.duplicate())),
        }
    }

    /// Takes the outcome of the pending action into account.
    pub fn advance(&mut self, event: CreateEvent)
        ensures
            create_step(*old(self), old(self).stage, event, final(self).stage),
            final(self).name == old(self).name,
            final(self).loader == old(self).loader,
            final(self).version == old(self).version,
            final(self).force_java_version == old(self).force_java_version,
            final(self).flags == old(self).flags,
    {
        let mut stage = CreateStage::AwaitServersDir;
        std::mem::swap(&mut stage, &mut self.stage);
        let ghost s = stage;
        let next = match (stage, event) {
            (CreateStage::Succeeded { java_version }, _) => CreateStage::Succeeded { java_version },
            (CreateStage::Failed(e), _) => CreateStage::Failed(e),
            (_, CreateEvent::Failed(err)) => CreateStage::Failed(err),
            (CreateStage::AwaitServersDir, CreateEvent::Exists(b)) => if b {
                CreateStage::AwaitServerDir
            } else {
                CreateStage::AwaitServersDirCreated
            },
            (CreateStage::AwaitServersDirCreated, CreateEvent::Done) => CreateStage::AwaitServerDir,
            (CreateStage::AwaitServerDir, CreateEvent::Exists(b)) => if b {
                CreateStage::Failed(
                    SubstrateError::AlreadyExists {
                        resource: String::from_str("Directory with server name does already exist"),
                    },
                )
            } else {
                CreateStage::AwaitServerDirCreated
            },
            (CreateStage::AwaitServerDirCreated, CreateEvent::Done) => CreateStage::AwaitEula,
            (CreateStage::AwaitEula, CreateEvent::Done) => CreateStage::AwaitConfig,
            (CreateStage::AwaitConfig, CreateEvent::ConfigLoaded(cfg)) => {
                match get_config(&cfg, self.version.as_str(), self.loader.as_str()) {
                    Ok(lc) => {
                        let ghost g = lc;
                        let java_version = match &self.force_java_version {
                            Some(f) => f.clone(),
                            None => lc.java_version,
                        };
                        let t = CreateStage::AwaitJavaCheck { java_version, url: lc.url };
                        assert(stage_after_config(
                            cfg,
                            self.version@,
                            self.loader@,
                            self.force_java_version,
                            t,
                        )) by {
                            assert(lookup_outcome(cfg, self.version@, self.loader@, Ok(g)));
                            assert(t->AwaitJavaCheck_url@ == g.url@);
                            assert(t->AwaitJavaCheck_java_version@ == resolved_java(self.force_java_version, g.java_version@));
                        }
                        t
                    },
                    Err(e) => CreateStage::Failed(e),
                }
            },
            (CreateStage::AwaitJavaCheck { java_version, url }, CreateEvent::Exists(b)) => if b {
                CreateStage::AwaitJar { java_version, url }
            } else {
                CreateStage::AwaitJavaInstall { java_version, url }
            },
            (CreateStage::AwaitJavaInstall { java_version, url }, CreateEvent::Done) => {
                CreateStage::AwaitJar { java_version, url }
            },
            (CreateStage::AwaitJar { java_version, .. }, CreateEvent::Done) => {
                CreateStage::AwaitScript { java_version }
            },
            (CreateStage::AwaitScript { java_version }, CreateEvent::Done) => {
                CreateStage::Succeeded { java_version }
            },
            (other, _) => other,
        };
        self.stage = next;
    }
}

/// The start script a creation writes runs the chosen Java runtime with the
/// flow's own flags: Aikar's JVM options for `Aikars`, none for `Normal`.
pub proof fn lemma_script_follows_flags(flow: CreateServerFlow, java_version: String, a: CreateAction)
    requires
        flow.stage == (CreateStage::AwaitScript { java_version }),
        create_action(flow, a),
    ensures
        a matches CreateAction::WriteScript { contents } && contents@
            == "#!/usr/bin/env bash\n../../runtime/java-"@ + java_version@ + "/bin/java"@ + match flow.flags {
            JavaFlags::Aikars => aikars_options(),
            JavaFlags::Normal => " -jar server.jar --nogui\n"@,
        },
{
    reveal_strlit("#!/usr/bin/env bash\n../../runtime/java-");
    reveal_strlit("#!/usr/bin/env bash\n../../runtime/");
    reveal_strlit("java-");
    assert("#!/usr/bin/env bash\n../../runtime/"@ + spec_java_dir_name(java_version@)
        =~= "#!/usr/bin/env bash\n../../runtime/java-"@ + java_version@);
}

/// When the check of the chosen Java runtime reports it missing, a
/// creation next asks to install exactly that version; when present, it
/// next downloads the server jar.
pub proof fn lemma_create_missing_java_is_installed(
    flow: CreateServerFlow,
    java_version: String,
    url: String,
    present: bool,
    t: CreateStage,
    a: CreateAction,
)
    requires
        create_step(flow, CreateStage::AwaitJavaCheck { java_version, url }, CreateEvent::Exists(present), t),
        create_action(CreateServerFlow { stage: t, ..flow }, a),
    ensures
        !present ==> (a matches CreateAction::InstallJava { java_version: j } && j@ == java_version@),
        present ==> (a matches CreateAction::DownloadJar { url: u } && u@ == url@),
{
}

} // verus!
