//! Installing a Java runtime: the decisions of the installation process as a
//! state machine. The caller performs each action and reports its outcome.
use crate::error::SubstrateError;
use crate::java::{
    first_java_match, is_first_jdk_choice, java_archive_name, java_configured, java_dir_name,
    select_jdk_folder, spec_java_dir_name, DirEntryInfo, JavaConfig,
};
use vstd::prelude::*;
use vstd::string::*;

verus! {

/// Where the installation of a Java runtime stands.
#[derive(Debug)]
pub enum InstallStage {
    /// Waits to learn whether the `runtime` folder exists.
    AwaitRuntimeDir,
    /// Waits for the `runtime` folder to be created.
    AwaitRuntimeDirCreated,
    /// Waits to learn whether `java.json` exists.
    AwaitConfigFile,
    /// Waits for `java.json` to be read.
    AwaitConfig,
    /// Waits to learn whether the archive of the runtime exists.
    AwaitArchive { url: String },
    /// Waits to learn whether the folder of the runtime exists.
    AwaitJavaDir { url: String },
    /// Waits for the archive to be downloaded from `url`.
    AwaitDownload { url: String },
    /// Waits for the archive to be unpacked into the `runtime` folder.
    AwaitUnpack,
    /// Waits to learn whether the runtime's target folder exists.
    AwaitTarget,
    /// Waits for the listing of the `runtime` folder.
    AwaitListing,
    /// Waits for the listed entry at position `entry` to be renamed to the
    /// target folder.
    AwaitRename { entry: usize },
    /// The runtime is installed, or was there already.
    Succeeded,
    /// The installation stopped with an error.
    Failed(SubstrateError),
}

/// The outcome of the last action.
#[derive(Debug)]
pub enum InstallEvent {
    /// The queried path exists or not.
    Exists(bool),
    /// The action completed.
    Done,
    /// `java.json` was read and parsed.
    ConfigLoaded(JavaConfig),
    /// The entries of the `runtime` folder, in the order they were read.
    Listing(Vec<DirEntryInfo>),
    /// The action failed with this error.
    Failed(SubstrateError),
}

/// What the caller has to do next.
#[derive(Debug)]
pub enum InstallAction {
    /// Query whether `<root>/runtime` exists.
    CheckRuntimeDir,
    /// Create `<root>/runtime` with its parents.
    CreateRuntimeDir,
    /// Query whether `<root>/java.json` exists.
    CheckConfigFile,
    /// Read and parse `<root>/java.json`.
    ReadJavaConfig,
    /// Query whether `<root>/runtime/<archive>` exists.
    CheckArchive { archive: String },
    /// Query whether `<root>/runtime/<folder>` exists.
    CheckJavaDir { folder: String },
    /// Download `url` to `<root>/runtime/<archive>`.
    Download { url: String, archive: String },
    /// Unpack the gzip-compressed tar archive `<root>/runtime/<archive>` into `<root>/runtime`.
    Unpack { archive: String },
    /// Query whether `<root>/runtime/<folder>` exists.
    CheckTarget { folder: String },
    /// List the entries of `<root>/runtime`.
    ListRuntime,
    /// Rename the listed entry at position `entry` to `<root>/runtime/<folder>`.
    Rename { entry: usize, folder: String },
    /// The installation is over.
    Finish(Result<(), SubstrateError>),
}

/// The installation of the Java runtime of one version.
#[derive(Debug)]
pub struct JavaInstallFlow {
    pub version: String,
    pub stage: InstallStage,
}

/// The stage reached after `java.json` was read as `cfg`.
pub open spec fn stage_after_java_config(cfg: JavaConfig, version: Seq<char>, t: InstallStage) -> bool {
    match t {
        InstallStage::AwaitArchive { url } => exists|i: int|
            first_java_match(cfg.linux@, version, i) && url == cfg.linux@[i].url,
        InstallStage::Failed(SubstrateError::NotFound { resource }) => !java_configured(
            cfg.linux@,
            version,
        ) && resource@ == "could not find requested java version"@,
        _ => false,
    }
}

/// One step of the installation: from `s` on event `e` to `t`. Terminal
/// stages, and events that do not answer the pending action, change nothing.
pub open spec fn install_step(
    flow: JavaInstallFlow,
    s: InstallStage,
    e: InstallEvent,
    t: InstallStage,
) -> bool {
    match (s, e) {
        (InstallStage::Succeeded, _) => t == s,
        (InstallStage::Failed(_), _) => t == s,
        (_, InstallEvent::Failed(err)) => t == InstallStage::Failed(err),
        (InstallStage::AwaitRuntimeDir, InstallEvent::Exists(b)) => if b {
            t is AwaitConfigFile
        } else {
            t is AwaitRuntimeDirCreated
        },
        (InstallStage::AwaitRuntimeDirCreated, InstallEvent::Done) => t is AwaitConfigFile,
        (InstallStage::AwaitConfigFile, InstallEvent::Exists(b)) => if b {
            t is AwaitConfig
        } else {
            t matches InstallStage::Failed(SubstrateError::NotFound { resource }) && resource@
                == "Could not find config file java.json"@
        },
        (InstallStage::AwaitConfig, InstallEvent::ConfigLoaded(cfg)) => stage_after_java_config(cfg, flow.version@, t),
        (InstallStage::AwaitArchive { url }, InstallEvent::Exists(b)) => if b {
            t is Succeeded
        } else {
            t == InstallStage::AwaitJavaDir { url }
        },
        (InstallStage::AwaitJavaDir { url }, InstallEvent::Exists(b)) => if b {
            t is Succeeded
        } else {
            t == InstallStage::AwaitDownload { url }
        },
        (InstallStage::AwaitDownload { .. }, InstallEvent::Done) => t is AwaitUnpack,
        (InstallStage::AwaitUnpack, InstallEvent::Done) => t is AwaitTarget,
        (InstallStage::AwaitTarget, InstallEvent::Exists(b)) => if b {
            t matches InstallStage::Failed(SubstrateError::AlreadyExists { resource }) && resource@
                == "Target path already exists"@
        } else {
            t is AwaitListing
        },
        (InstallStage::AwaitListing, InstallEvent::Listing(entries)) => match t {
            InstallStage::AwaitRename { entry } => is_first_jdk_choice(
                entries@,
                spec_java_dir_name(flow.version@),
                Some(entry),
            ),
            InstallStage::Succeeded => is_first_jdk_choice(
                entries@,
                spec_java_dir_name(flow.version@),
                None,
            ),
            _ => false,
        },
        (InstallStage::AwaitRename { .. }, InstallEvent::Done) => t is Succeeded,
        _ => t == s,
    }
}

/// The action that `flow` asks for in its current stage.
pub open spec fn install_action(flow: JavaInstallFlow, a: InstallAction) -> bool {
    let folder = spec_java_dir_name(flow.version@);
    let archive = folder + ".tar.gz"@;
    match flow.stage {
        InstallStage::AwaitRuntimeDir => a is CheckRuntimeDir,
        InstallStage::AwaitRuntimeDirCreated => a is CreateRuntimeDir,
        InstallStage::AwaitConfigFile => a is CheckConfigFile,
        InstallStage::AwaitConfig => a is ReadJavaConfig,
        InstallStage::AwaitArchive { .. } => a matches InstallAction::CheckArchive { archive: n }
            && n@ == archive,
        InstallStage::AwaitJavaDir { .. } => a matches InstallAction::CheckJavaDir { folder: n }
            && n@ == folder,
        InstallStage::AwaitDownload { url } => a matches InstallAction::Download {
            url: u,
            archive: n,
        } && n@ == archive && u@ == url@,
        InstallStage::AwaitUnpack => a matches InstallAction::Unpack { archive: n } && n@
            == archive,
        InstallStage::AwaitTarget => a matches InstallAction::CheckTarget { folder: n } && n@
            == folder,
        InstallStage::AwaitListing => a is ListRuntime,
        InstallStage::AwaitRename { entry } => a matches InstallAction::Rename {
            entry: k,
            folder: n,
        } && n@ == folder && k == entry,
        InstallStage::Succeeded => a == InstallAction::Finish(Ok(())),
        InstallStage::Failed(e) => a == InstallAction::Finish(Err(e)),
    }
}

/// Starts the installation of the Java runtime of `version`; it begins by
/// looking for the `runtime` folder.
pub fn download_java(version: &str) -> (res: JavaInstallFlow)
    ensures
        res.version@ == version@,
        res.stage is AwaitRuntimeDir,
{
    JavaInstallFlow { version: String::from_str(version), stage: InstallStage::AwaitRuntimeDir }
}

impl JavaInstallFlow {
    /// Whether the installation is over.
    pub fn is_finished(&self) -> (res: bool)
        ensures
            res == (self.stage is Succeeded || self.stage is Failed),
    {
        match self.stage {
            InstallStage::Succeeded | InstallStage::Failed(_) => true,
            _ => false,
        }
    }

    /// The action the installation asks for next.
    pub fn next_action(&self) -> (res: InstallAction)
        ensures
            install_action(*self, res),
    {
        let v = self.version.as_str();
        match &self.stage {
            InstallStage::AwaitRuntimeDir => InstallAction::CheckRuntimeDir,
            InstallStage::AwaitRuntimeDirCreated => InstallAction::CreateRuntimeDir,
            InstallStage::AwaitConfigFile => InstallAction::CheckConfigFile,
            InstallStage::AwaitConfig => InstallAction::ReadJavaConfig,
            InstallStage::AwaitArchive { .. } => InstallAction::CheckArchive {
                archive: java_archive_name(v),
            },
            InstallStage::AwaitJavaDir { .. } => InstallAction::CheckJavaDir {
                folder: java_dir_name(v),
            },
            InstallStage::AwaitDownload { url } => InstallAction::Download {
                url: url.clone(),
                archive: java_archive_name(v),
            },
            InstallStage::AwaitUnpack => InstallAction::Unpack { archive: java_archive_name(v) },
            InstallStage::AwaitTarget => InstallAction::CheckTarget { folder: java_dir_name(v) },
            InstallStage::AwaitListing => InstallAction::ListRuntime,
            InstallStage::AwaitRename { entry } => InstallAction::Rename {
                entry: *entry,
                folder: java_dir_name(v),
            },
            InstallStage::Succeeded => InstallAction::Finish(Ok(())),
            InstallStage::Failed(e) => InstallAction::Finish(Err(e.duplicate())),
        }
    }

    /// Takes the outcome of the pending action into account.
    pub fn advance(&mut self, event: InstallEvent)
        ensures
            install_step(*old(self), old(self).stage, event, final(self).stage),
            final(self).version == old(self).version,
    {
        let mut stage = InstallStage::AwaitRuntimeDir;
        std::mem::swap(&mut stage, &mut self.stage);
        let next = match (stage, event) {
            (InstallStage::Succeeded, _) => InstallStage::Succeeded,
            (InstallStage::Failed(e), _) => InstallStage::Failed(e),
            (_, InstallEvent::Failed(err)) => InstallStage::Failed(err),
            (InstallStage::AwaitRuntimeDir, InstallEvent::Exists(b)) => if b {
                InstallStage::AwaitConfigFile
            } else {
                InstallStage::AwaitRuntimeDirCreated
            },
            (InstallStage::AwaitRuntimeDirCreated, InstallEvent::Done) => {
                InstallStage::AwaitConfigFile
            },
            (InstallStage::AwaitConfigFile, InstallEvent::Exists(b)) => if b {
                InstallStage::AwaitConfig
            } else {
                InstallStage::Failed(
                    SubstrateError::NotFound {
                        resource: String::from_str("Could not find config file java.json"),
                    },
                )
            },
            (InstallStage::AwaitConfig, InstallEvent::ConfigLoaded(cfg)) => {
                match cfg.find(self.version.as_str()) {
                    Some(j) => InstallStage::AwaitArchive { url: j.url.clone() },
                    None => InstallStage::Failed(
                        SubstrateError::NotFound {
                            resource: String::from_str("could not find requested java version"),
                        },
                    ),
                }
            },
            (InstallStage::AwaitArchive { url }, InstallEvent::Exists(b)) => if b {
                InstallStage::Succeeded
            } else {
                InstallStage::AwaitJavaDir { url }
            },
            (InstallStage::AwaitJavaDir { url }, InstallEvent::Exists(b)) => if b {
                InstallStage::Succeeded
            } else {
                InstallStage::AwaitDownload { url }
            },
            (InstallStage::AwaitDownload { .. }, InstallEvent::Done) => InstallStage::AwaitUnpack,
            (InstallStage::AwaitUnpack, InstallEvent::Done) => InstallStage::AwaitTarget,
            (InstallStage::AwaitTarget, InstallEvent::Exists(b)) => if b {
                InstallStage::Failed(
                    SubstrateError::AlreadyExists {
                        resource: String::from_str("Target path already exists"),
                    },
                )
            } else {
                InstallStage::AwaitListing
            },
            (InstallStage::AwaitListing, InstallEvent::Listing(entries)) => {
                let folder = java_dir_name(self.version.as_str());
                match select_jdk_folder(&entries, folder.as_str()) {
                    Some(entry) => InstallStage::AwaitRename { entry },
                    None => InstallStage::Succeeded,
                }
            },
            (InstallStage::AwaitRename { .. }, InstallEvent::Done) => InstallStage::Succeeded,
            (other, _) => other,
        };
        self.stage = next;
    }
}

} // verus!
