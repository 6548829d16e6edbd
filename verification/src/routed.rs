//! Creating a server by install route: plain server jars, or the NeoForge
//! and Forge installers. This creation writes no EULA file and installs Java
//! before downloading the server.
use crate::create::resolved_java;
use crate::error::SubstrateError;
use crate::java::{java_binary_path, spec_java_dir_name};
use crate::minecraft::{get_config, lookup_outcome, MinecraftConfig};
use vstd::prelude::*;
use vstd::string::*;

verus! {

/// The JVM flags a server's start script runs Java with; this creation
/// supports only `Normal`.
#[derive(Debug, Clone, Copy, PartialEq, Eq, Structural)]
pub enum JavaFlags {
    Aikars,
    Normal,
    Velocity,
}

/// How a server of a loader is installed.
#[derive(Debug, Clone, Copy, PartialEq, Eq, Structural)]
pub enum InstallRoute {
    /// Download the server jar and write a start script.
    Jar,
    /// Download and run the NeoForge installer.
    NeoForge,
    /// Download and run the Forge installer.
    Forge,
}

/// The install route of a loader: `neoforge` and `forge` run their
/// installers, every other loader is a plain server jar.
pub open spec fn spec_route(loader: Seq<char>) -> InstallRoute {
    if loader == "neoforge"@ {
        InstallRoute::NeoForge
    } else if loader == "forge"@ {
        InstallRoute::Forge
    } else {
        InstallRoute::Jar
    }
}

/// The install route of a loader.
pub fn install_route(loader: &str) -> (res: InstallRoute)
    ensures
        res == spec_route(loader@),
{
    let l = String::from_str(loader);
    if l == String::from_str("neoforge") {
        InstallRoute::NeoForge
    } else if l == String::from_str("forge") {
        InstallRoute::Forge
    } else {
        InstallRoute::Jar
    }
}

/// The file a route downloads into the server's folder.
pub open spec fn spec_download_file(route: InstallRoute) -> Seq<char> {
    match route {
        InstallRoute::Jar => "server.jar"@,
        InstallRoute::NeoForge => "neoforge-installer.jar"@,
        InstallRoute::Forge => "forge-installer.jar"@,
    }
}

/// The file a route downloads into the server's folder.
pub fn download_file(route: InstallRoute) -> (res: String)
    ensures
        res@ == spec_download_file(route),
{
    match route {
        InstallRoute::Jar => String::from_str("server.jar"),
        InstallRoute::NeoForge => String::from_str("neoforge-installer.jar"),
        InstallRoute::Forge => String::from_str("forge-installer.jar"),
    }
}

/// The start script for the given flags: only `Normal` flags are supported.
pub fn routed_script(flags: JavaFlags, java_version: &str) -> (res: Result<String, SubstrateError>)
    ensures
        match res {
            Ok(s) => flags == JavaFlags::Normal && s@ == "#!/usr/bin/env bash\n../../runtime/"@
                + spec_java_dir_name(java_version@) + "/bin/java -jar server.jar nogui\n"@,
            Err(SubstrateError::NotFound { resource }) => flags != JavaFlags::Normal && resource@
                == "other java flags are not supported yet"@,
            Err(_) => false,
        },
{
    match flags {
        JavaFlags::Normal => {
            let mut s = String::from_str("#!/usr/bin/env bash\n");
            s.append(java_binary_path(java_version).as_str());
            s.append(" -jar server.jar nogui\n");
            proof {
                assert(s@ =~= "#!/usr/bin/env bash\n../../runtime/"@ + spec_java_dir_name(
                    java_version@,
                ) + "/bin/java -jar server.jar nogui\n"@) by {
                    reveal_strlit("#!/usr/bin/env bash\n");
                    reveal_strlit("#!/usr/bin/env bash\n../../runtime/");
                    reveal_strlit("../../runtime/");
                    reveal_strlit("/bin/java");
                    reveal_strlit(" -jar server.jar nogui\n");
                    reveal_strlit("/bin/java -jar server.jar nogui\n");
                }
            }
            Ok(s)
        },
        _ => Err(
            SubstrateError::NotFound {
                resource: String::from_str("other java flags are not supported yet"),
            },
        ),
    }
}

/// Where a routed creation of a server stands.
#[derive(Debug)]
pub enum RoutedStage {
    /// Waits to learn whether the `servers` folder exists.
    AwaitServersDir,
    /// Waits for the `servers` folder to be created.
    AwaitServersDirCreated,
    /// Waits to learn whether the server's folder exists.
    AwaitServerDir,
    /// Waits for the server's folder to be created.
    AwaitServerDirCreated,
    /// Waits for `minecraft.json` to be read.
    AwaitConfig,
    /// Waits to learn whether the chosen Java runtime is installed.
    AwaitJavaCheck { java_version: String, url: String },
    /// Waits for the chosen Java runtime to be installed.
    AwaitJavaInstall { java_version: String, url: String },
    /// Waits for the download of the route's file from `url`.
    AwaitDownload { java_version: String, url: String },
    /// Waits for the start script to be written.
    AwaitScript { java_version: String },
    /// Waits for the installer to run to its end.
    AwaitInstaller { java_version: String },
    /// The server was created and runs on `java_version`.
    Succeeded { java_version: String },
    /// The creation stopped with an error.
    Failed(SubstrateError),
}

/// The outcome of the last action.
#[derive(Debug)]
pub enum RoutedEvent {
    Exists(bool),
    Done,
    ConfigLoaded(MinecraftConfig),
    Failed(SubstrateError),
}

/// What the caller has to do next.
#[derive(Debug)]
pub enum RoutedAction {
    /// Query whether `<root>/servers` exists.
    CheckServersDir,
    /// Create `<root>/servers` with its parents.
    CreateServersDir,
    /// Query whether `<root>/servers/<name>` exists.
    CheckServerDir,
    /// Create `<root>/servers/<name>` with its parents.
    CreateServerDir,
    /// Read and parse `<root>/minecraft.json`.
    ReadMinecraftConfig,
    /// Query whether `<root>/runtime/java-<java_version>` exists.
    CheckJava { java_version: String },
    /// Install the Java runtime of this version.
    InstallJava { java_version: String },
    /// Download `url` to `file` in the server's folder.
    Download { url: String, file: String },
    /// Write `contents` to `run.sh` in the server's folder and make it executable.
    WriteScript { contents: String },
    /// Run `program -jar <installer> --installServer` in the server's folder and wait for it.
    RunInstaller { program: String, installer: String },
    /// The creation is over.
    Finish(Result<(String, String), SubstrateError>),
}

/// One routed creation of a server.
#[derive(Debug)]
pub struct RoutedCreateFlow {
    pub name: String,
    pub loader: String,
    pub version: String,
    pub force_java_version: Option<String>,
    pub flags: JavaFlags,
    pub stage: RoutedStage,
}

/// The stage reached after `minecraft.json` was read as `cfg`.
pub open spec fn routed_after_config(
    cfg: MinecraftConfig,
    version: Seq<char>,
    loader: Seq<char>,
    force: Option<String>,
    stage: RoutedStage,
) -> bool {
    match stage {
        RoutedStage::AwaitJavaCheck { java_version, url } => exists|lc|
            lookup_outcome(cfg, version, loader, Ok(lc)) && url@ == lc.url@ && java_version@
                == resolved_java(force, lc.java_version@),
        RoutedStage::Failed(e) => lookup_outcome(cfg, version, loader, Err(e)),
        _ => false,
    }
}

/// One step of a routed creation, from `s` on event `e` to `t`.
pub open spec fn routed_step(flow: RoutedCreateFlow, s: RoutedStage, e: RoutedEvent, t: RoutedStage) -> bool {
    match (s, e) {
        (RoutedStage::Succeeded { .. }, _) => t == s,
        (RoutedStage::Failed(_), _) => t == s,
        (_, RoutedEvent::Failed(err)) => t == RoutedStage::Failed(err),
        (RoutedStage::AwaitServersDir, RoutedEvent::Exists(b)) => if b {
            t is AwaitServerDir
        } else {
            t is AwaitServersDirCreated
        },
        (RoutedStage::AwaitServersDirCreated, RoutedEvent::Done) => t is AwaitServerDir,
        (RoutedStage::AwaitServerDir, RoutedEvent::Exists(b)) => if b {
            t matches RoutedStage::Failed(SubstrateError::AlreadyExists { resource }) && resource@
                == "Directory with name already exists"@
        } else {
            t is AwaitServerDirCreated
        },
        (RoutedStage::AwaitServerDirCreated, RoutedEvent::Done) => t is AwaitConfig,
        (RoutedStage::AwaitConfig, RoutedEvent::ConfigLoaded(cfg)) => routed_after_config(
            cfg,
            flow.version@,
            flow.loader@,
            flow.force_java_version,
            t,
        ),
        (RoutedStage::AwaitJavaCheck { java_version, url }, RoutedEvent::Exists(b)) => if b {
            t == RoutedStage::AwaitDownload { java_version, url }
        } else {
            t == RoutedStage::AwaitJavaInstall { java_version, url }
        },
        (RoutedStage::AwaitJavaInstall { java_version, url }, RoutedEvent::Done) => t
            == RoutedStage::AwaitDownload { java_version, url },
        (RoutedStage::AwaitDownload { java_version, .. }, RoutedEvent::Done) => match spec_route(
            flow.loader@,
        ) {
            InstallRoute::Jar => if flow.flags == JavaFlags::Normal {
                t == RoutedStage::AwaitScript { java_version }
            } else {
                t matches RoutedStage::Failed(SubstrateError::NotFound { resource }) && resource@
                    == "other java flags are not supported yet"@
            },
            _ => t == RoutedStage::AwaitInstaller { java_version },
        },
        (RoutedStage::AwaitScript { java_version }, RoutedEvent::Done) => t
            == RoutedStage::Succeeded { java_version },
        (RoutedStage::AwaitInstaller { java_version }, RoutedEvent::Done) => t
            == RoutedStage::Succeeded { java_version },
        _ => t == s,
    }
}

/// The action that `flow` asks for in its current stage.
pub open spec fn routed_action(flow: RoutedCreateFlow, a: RoutedAction) -> bool {
    match flow.stage {
        RoutedStage::AwaitServersDir => a is CheckServersDir,
        RoutedStage::AwaitServersDirCreated => a is CreateServersDir,
        RoutedStage::AwaitServerDir => a is CheckServerDir,
        RoutedStage::AwaitServerDirCreated => a is CreateServerDir,
        RoutedStage::AwaitConfig => a is ReadMinecraftConfig,
        RoutedStage::AwaitJavaCheck { java_version, .. } => a matches RoutedAction::CheckJava {
            java_version: j,
        } && j@ == java_version@,
        RoutedStage::AwaitJavaInstall { java_version, .. } => a matches RoutedAction::InstallJava {
            java_version: j,
        } && j@ == java_version@,
        RoutedStage::AwaitDownload { url, .. } => a matches RoutedAction::Download { url: u, file }
            && u@ == url@ && file@ == spec_download_file(spec_route(flow.loader@)),
        RoutedStage::AwaitScript { java_version } => a matches RoutedAction::WriteScript {
            contents,
        } && contents@ == "#!/usr/bin/env bash\n../../runtime/"@ + spec_java_dir_name(
            java_version@,
        ) + "/bin/java -jar server.jar nogui\n"@,
        RoutedStage::AwaitInstaller { java_version } => a matches RoutedAction::RunInstaller {
            program,
            installer,
        } && program@ == "../../runtime/"@ + spec_java_dir_name(java_version@) + "/bin/java"@
            && installer@ == spec_download_file(spec_route(flow.loader@)),
        RoutedStage::Succeeded { java_version } => a matches RoutedAction::Finish(Ok((n, j)))
            && n@ == flow.name@ && j@ == java_version@,
        RoutedStage::Failed(e) => a == RoutedAction::Finish(Err(e)),
    }
}

/// Starts a routed creation of a server: refused at once with
/// `Eula` when the EULA was not agreed to.
pub fn download_server(
    name: &str,
    loader: &str,
    version: &str,
    agree_eula: bool,
    force_java_version: Option<String>,
    flags: JavaFlags,
) -> (res: RoutedCreateFlow)
    ensures
        res.name@ == name@,
        res.loader@ == loader@,
        res.version@ == version@,
        res.force_java_version == force_java_version,
        res.flags == flags,
        agree_eula ==> res.stage is AwaitServersDir,
        !agree_eula ==> res.stage == RoutedStage::Failed(SubstrateError::Eula),
{
    let stage = if agree_eula {
        RoutedStage::AwaitServersDir
    } else {
        RoutedStage::Failed(SubstrateError::Eula)
    };
    RoutedCreateFlow {
        name: String::from_str(name),
        loader: String::from_str(loader),
        version: String::from_str(version),
        force_java_version,
        flags,
        stage,
    }
}

impl RoutedCreateFlow {
    /// Whether the creation is over.
    pub fn is_finished(&self) -> (res: bool)
        ensures
            res == (self.stage is Succeeded || self.stage is Failed),
    {
        match self.stage {
            RoutedStage::Succeeded { .. } | RoutedStage::Failed(_) => true,
            _ => false,
        }
    }

    /// The action the creation asks for next.
    pub fn next_action(&self) -> (res: RoutedAction)
        ensures
            routed_action(*self, res),
    {
        match &self.stage {
            RoutedStage::AwaitServersDir => RoutedAction::CheckServersDir,
            RoutedStage::AwaitServersDirCreated => RoutedAction::CreateServersDir,
            RoutedStage::AwaitServerDir => RoutedAction::CheckServerDir,
            RoutedStage::AwaitServerDirCreated => RoutedAction::CreateServerDir,
            RoutedStage::AwaitConfig => RoutedAction::ReadMinecraftConfig,
            RoutedStage::AwaitJavaCheck { java_version, .. } => RoutedAction::CheckJava {
                java_version: java_version.clone(),
            },
            RoutedStage::AwaitJavaInstall { java_version, .. } => RoutedAction::InstallJava {
                java_version: java_version.clone(),
            },
            RoutedStage::AwaitDownload { url, .. } => RoutedAction::Download {
                url: url.clone(),
                file: download_file(install_route(self.loader.as_str())),
            },
            RoutedStage::AwaitScript { java_version } => {
                match routed_script(JavaFlags::Normal, java_version.as_str()) {
                    Ok(contents) => RoutedAction::WriteScript { contents },
                    Err(e) => RoutedAction::Finish(Err(e)),
                }
            },
            RoutedStage::AwaitInstaller { java_version } => RoutedAction::RunInstaller {
                program: java_binary_path(java_version.as_str()),
                installer: download_file(install_route(self.loader.as_str())),
            },
            RoutedStage::Succeeded { java_version } => RoutedAction::Finish(
                Ok((self.name.clone(), java_version.clone())),
            ),
            RoutedStage::Failed(e) => RoutedAction::Finish(Err(e.duplicate())),
        }
    }

    /// Takes the outcome of the pending action into account.
    pub fn advance(&mut self, event: RoutedEvent)
        ensures
            routed_step(*old(self), old(self).stage, event, final(self).stage),
            final(self).name == old(self).name,
            final(self).loader == old(self).loader,
            final(self).version == old(self).version,
            final(self).force_java_version == old(self).force_java_version,
            final(self).flags == old(self).flags,
    {
        let mut stage = RoutedStage::AwaitServersDir;
        std::mem::swap(&mut stage, &mut self.stage);
        let next = match (stage, event) {
            (RoutedStage::Succeeded { java_version }, _) => RoutedStage::Succeeded { java_version },
            (RoutedStage::Failed(e), _) => RoutedStage::Failed(e),
            (_, RoutedEvent::Failed(err)) => RoutedStage::Failed(err),
            (RoutedStage::AwaitServersDir, RoutedEvent::Exists(b)) => if b {
                RoutedStage::AwaitServerDir
            } else {
                RoutedStage::AwaitServersDirCreated
            },
            (RoutedStage::AwaitServersDirCreated, RoutedEvent::Done) => RoutedStage::AwaitServerDir,
            (RoutedStage::AwaitServerDir, RoutedEvent::Exists(b)) => if b {
                RoutedStage::Failed(
                    SubstrateError::AlreadyExists {
                        resource: String::from_str("Directory with name already exists"),
                    },
                )
            } else {
                RoutedStage::AwaitServerDirCreated
            },
            (RoutedStage::AwaitServerDirCreated, RoutedEvent::Done) => RoutedStage::AwaitConfig,
            (RoutedStage::AwaitConfig, RoutedEvent::ConfigLoaded(cfg)) => {
                match get_config(&cfg, self.version.as_str(), self.loader.as_str()) {
                    Ok(lc) => {
                        let ghost g = lc;
                        let java_version = match &self.force_java_version {
                            Some(f) => f.clone(),
                            None => lc.java_version,
                        };
                        let t = RoutedStage::AwaitJavaCheck { java_version, url: lc.url };
                        assert(routed_after_config(
                            cfg,
                            self.version@,
                            self.loader@,
                            self.force_java_version,
                            t,
                        )) by {
                            assert(lookup_outcome(cfg, self.version@, self.loader@, Ok(g)));
                            assert(t->AwaitJavaCheck_url@ == g.url@);
                            assert(t->AwaitJavaCheck_java_version@ == resolved_java(
                                self.force_java_version,
                                g.java_version@,
                            ));
                        }
                        t
                    },
                    Err(e) => RoutedStage::Failed(e),
                }
            },
            (RoutedStage::AwaitJavaCheck { java_version, url }, RoutedEvent::Exists(b)) => if b {
                RoutedStage::AwaitDownload { java_version, url }
            } else {
                RoutedStage::AwaitJavaInstall { java_version, url }
            },
            (RoutedStage::AwaitJavaInstall { java_version, url }, RoutedEvent::Done) => {
                RoutedStage::AwaitDownload { java_version, url }
            },
            (RoutedStage::AwaitDownload { java_version, .. }, RoutedEvent::Done) => {
                match install_route(self.loader.as_str()) {
                    InstallRoute::Jar => match self.flags {
                        JavaFlags::Normal => RoutedStage::AwaitScript { java_version },
                        _ => RoutedStage::Failed(
                            SubstrateError::NotFound {
                                resource: String::from_str("other java flags are not supported yet"),
                            },
                        ),
                    },
                    _ => RoutedStage::AwaitInstaller { java_version },
                }
            },
            (RoutedStage::AwaitScript { java_version }, RoutedEvent::Done) => {
                RoutedStage::Succeeded { java_version }
            },
            (RoutedStage::AwaitInstaller { java_version }, RoutedEvent::Done) => {
                RoutedStage::Succeeded { java_version }
            },
            (other, _) => other,
        };
        self.stage = next;
    }
}

/// A Forge or NeoForge server is installed by its installer, whatever the
/// flags: once the download completed, the creation next asks to run
/// `java -jar` on the loader's installer jar with the chosen Java runtime.
pub proof fn lemma_installer_routes_run_installer(
    flow: RoutedCreateFlow,
    java_version: String,
    url: String,
    t: RoutedStage,
    a: RoutedAction,
)
    requires
        flow.loader@ == "forge"@ || flow.loader@ == "neoforge"@,
        routed_step(flow, RoutedStage::AwaitDownload { java_version, url }, RoutedEvent::Done, t),
        routed_action(RoutedCreateFlow { stage: t, ..flow }, a),
    ensures
        a matches RoutedAction::RunInstaller { program, installer } && program@
            == "../../runtime/java-"@ + java_version@ + "/bin/java"@ && installer@ == (if flow.loader@
            == "forge"@ {
            "forge-installer.jar"@
        } else {
            "neoforge-installer.jar"@
        }),
{
    reveal_strlit("forge");
    reveal_strlit("neoforge");
    reveal_strlit("../../runtime/java-");
    reveal_strlit("../../runtime/");
    reveal_strlit("java-");
    assert("../../runtime/"@ + spec_java_dir_name(java_version@) =~= "../../runtime/java-"@ + java_version@);
    if flow.loader@ == "forge"@ {
        assert("forge"@ != "neoforge"@) by {
            assert("forge"@.len() != "neoforge"@.len());
        }
        assert(spec_route(flow.loader@) == InstallRoute::Forge);
    } else {
        assert(spec_route(flow.loader@) == InstallRoute::NeoForge);
    }
}

/// A server of any other loader is a plain server jar: once the download
/// completed, the creation writes a start script that runs `server.jar`
/// with the chosen Java runtime when the flags are `Normal`, and fails
/// with `NotFound` for other flags.
pub proof fn lemma_jar_route_writes_script(
    flow: RoutedCreateFlow,
    java_version: String,
    url: String,
    t: RoutedStage,
    a: RoutedAction,
)
    requires
        flow.loader@ != "forge"@,
        flow.loader@ != "neoforge"@,
        routed_step(flow, RoutedStage::AwaitDownload { java_version, url }, RoutedEvent::Done, t),
        routed_action(RoutedCreateFlow { stage: t, ..flow }, a),
    ensures
        flow.flags == JavaFlags::Normal ==> (a matches RoutedAction::WriteScript { contents } && contents@
            == "#!/usr/bin/env bash\n../../runtime/java-"@ + java_version@
            + "/bin/java -jar server.jar nogui\n"@),
        flow.flags != JavaFlags::Normal ==> (a matches RoutedAction::Finish(
            Err(SubstrateError::NotFound { resource }),
        ) && resource@ == "other java flags are not supported yet"@),
{
    reveal_strlit("#!/usr/bin/env bash\n../../runtime/java-");
    reveal_strlit("#!/usr/bin/env bash\n../../runtime/");
    reveal_strlit("java-");
    assert("#!/usr/bin/env bash\n../../runtime/"@ + spec_java_dir_name(java_version@)
        =~= "#!/usr/bin/env bash\n../../runtime/java-"@ + java_version@);
}

/// When the check of the chosen Java runtime reports it missing, a routed
/// creation next asks to install exactly that version; when present, it
/// next downloads the route's file.
pub proof fn lemma_routed_missing_java_is_installed(
    flow: RoutedCreateFlow,
    java_version: String,
    url: String,
    present: bool,
    t: RoutedStage,
    a: RoutedAction,
)
    requires
        routed_step(flow, RoutedStage::AwaitJavaCheck { java_version, url }, RoutedEvent::Exists(present), t),
        routed_action(RoutedCreateFlow { stage: t, ..flow }, a),
    ensures
        !present ==> (a matches RoutedAction::InstallJava { java_version: j } && j@ == java_version@),
        present ==> (a matches RoutedAction::Download { url: u, .. } && u@ == url@),
{
}

} // verus!
