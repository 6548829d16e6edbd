//! Installing a Java runtime for the web API: the decisions of the
//! installation as a state machine. Unlike the installation of the server
//! handler it does not look for an archive left from before, leaves an existing target
//! folder alone, and removes the archive at the end.
use crate::error::ApiError;
use crate::java::{
    first_java_match, is_first_jdk_choice, java_archive_name, java_configured, java_dir_name,
    select_jdk_folder, spec_java_dir_name, DirEntryInfo, JavaConfig,
};
use vstd::prelude::*;
use vstd::string::*;

verus! {

/// Where the installation stands.
#[derive(Debug)]
pub enum LocalStage {
    AwaitRuntimeDir,
    AwaitRuntimeDirCreated,
    AwaitConfigFile,
    AwaitConfig,
    /// Waits to learn whether the runtime's folder exists.
    AwaitJavaDir { url: String },
    AwaitDownload { url: String },
    AwaitUnpack,
    /// Waits to learn whether the target folder exists after unpacking.
    AwaitTarget,
    AwaitListing,
    AwaitRename { entry: usize },
    /// Waits for the archive to be removed.
    AwaitRemoveArchive,
    Succeeded,
    Failed(ApiError),
}

/// The outcome of the last action.
#[derive(Debug)]
pub enum LocalEvent {
    Exists(bool),
    Done,
    ConfigLoaded(JavaConfig),
    Listing(Vec<DirEntryInfo>),
    Failed(ApiError),
}

/// What the caller has to do next.
#[derive(Debug)]
pub enum LocalAction {
    CheckRuntimeDir,
    CreateRuntimeDir,
    CheckConfigFile,
    ReadJavaConfig,
    CheckJavaDir { folder: String },
    Download { url: String, archive: String },
    Unpack { archive: String },
    CheckTarget { folder: String },
    ListRuntime,
    Rename { entry: usize, folder: String },
    RemoveArchive { archive: String },
    Finish(Result<(), ApiError>),
}

/// The installation of the Java runtime of one version.
#[derive(Debug)]
pub struct LocalJavaFlow {
    pub version: String,
    pub stage: LocalStage,
}

/// One step from `s` on event `e` to `t`.
pub open spec fn local_step(flow: LocalJavaFlow, s: LocalStage, e: LocalEvent, t: LocalStage) -> bool {
    match (s, e) {
        (LocalStage::Succeeded, _) => t == s,
        (LocalStage::Failed(_), _) => t == s,
        (_, LocalEvent::Failed(err)) => t == LocalStage::Failed(err),
        (LocalStage::AwaitRuntimeDir, LocalEvent::Exists(b)) => if b {
            t is AwaitConfigFile
        } else {
            t is AwaitRuntimeDirCreated
        },
        (LocalStage::AwaitRuntimeDirCreated, LocalEvent::Done) => t is AwaitConfigFile,
        (LocalStage::AwaitConfigFile, LocalEvent::Exists(b)) => if b {
            t is AwaitConfig
        } else {
            t == LocalStage::Failed(ApiError::NotFound)
        },
        (LocalStage::AwaitConfig, LocalEvent::ConfigLoaded(cfg)) => match t {
            LocalStage::AwaitJavaDir { url } => exists|i: int|
                first_java_match(cfg.linux@, flow.version@, i) && url == cfg.linux@[i].url,
            LocalStage::Failed(e) => e == ApiError::NotFound && !java_configured(
                cfg.linux@,
                flow.version@,
            ),
            _ => false,
        },
        (LocalStage::AwaitJavaDir { url }, LocalEvent::Exists(b)) => if b {
            t is Succeeded
        } else {
            t == LocalStage::AwaitDownload { url }
        },
        (LocalStage::AwaitDownload { .. }, LocalEvent::Done) => t is AwaitUnpack,
        (LocalStage::AwaitUnpack, LocalEvent::Done) => t is AwaitTarget,
        (LocalStage::AwaitTarget, LocalEvent::Exists(b)) => if b {
            t is AwaitRemoveArchive
        } else {
            t is AwaitListing
        },
        (LocalStage::AwaitListing, LocalEvent::Listing(entries)) => match t {
            LocalStage::AwaitRename { entry } => is_first_jdk_choice(
                entries@,
                spec_java_dir_name(flow.version@),
                Some(entry),
            ),
            LocalStage::AwaitRemoveArchive => is_first_jdk_choice(
                entries@,
                spec_java_dir_name(flow.version@),
                None,
            ),
            _ => false,
        },
        (LocalStage::AwaitRename { .. }, LocalEvent::Done) => t is AwaitRemoveArchive,
        (LocalStage::AwaitRemoveArchive, LocalEvent::Done) => t is Succeeded,
        _ => t == s,
    }
}

/// The action that `flow` asks for in its current stage.
pub open spec fn local_action(flow: LocalJavaFlow, a: LocalAction) -> bool {
    let folder = spec_java_dir_name(flow.version@);
    let archive = folder + ".tar.gz"@;
    match flow.stage {
        LocalStage::AwaitRuntimeDir => a is CheckRuntimeDir,
        LocalStage::AwaitRuntimeDirCreated => a is CreateRuntimeDir,
        LocalStage::AwaitConfigFile => a is CheckConfigFile,
        LocalStage::AwaitConfig => a is ReadJavaConfig,
        LocalStage::AwaitJavaDir { .. } => a matches LocalAction::CheckJavaDir { folder: n } && n@
            == folder,
        LocalStage::AwaitDownload { url } => a matches LocalAction::Download { url: u, archive: n }
            && n@ == archive && u@ == url@,
        LocalStage::AwaitUnpack => a matches LocalAction::Unpack { archive: n } && n@ == archive,
        LocalStage::AwaitTarget => a matches LocalAction::CheckTarget { folder: n } && n@ == folder,
        LocalStage::AwaitListing => a is ListRuntime,
        LocalStage::AwaitRename { entry } => a matches LocalAction::Rename { entry: k, folder: n }
            && n@ == folder && k == entry,
        LocalStage::AwaitRemoveArchive => a matches LocalAction::RemoveArchive { archive: n } && n@
            == archive,
        LocalStage::Succeeded => a == LocalAction::Finish(Ok(())),
        LocalStage::Failed(e) => a == LocalAction::Finish(Err(e)),
    }
}

/// Starts the installation of the Java runtime of `version` for the web
/// API; it begins by looking for the `runtime` folder.
pub fn download_java_locally(version: &str) -> (res: LocalJavaFlow)
    ensures
        res.version@ == version@,
        res.stage is AwaitRuntimeDir,
{
    LocalJavaFlow { version: String::from_str(version), stage: LocalStage::AwaitRuntimeDir }
}

impl ApiError {
    /// A copy of this error.
    pub fn duplicate(&self) -> (res: ApiError)
        ensures
            res == *self,
    {
        match self {
            ApiError::NotFound => ApiError::NotFound,
            ApiError::InternalServerError => ApiError::InternalServerError,
            ApiError::HttpRequestError(d) => ApiError::HttpRequestError(d.clone()),
            ApiError::IoError(d) => ApiError::IoError(d.clone()),
            ApiError::JsonError(d) => ApiError::JsonError(d.clone()),
            ApiError::ActixWsError(d) => ApiError::ActixWsError(d.clone()),
            ApiError::WebDataError(d) => ApiError::WebDataError(d.clone()),
        }
    }
}

impl LocalJavaFlow {
    /// Whether the installation is over.
    pub fn is_finished(&self) -> (res: bool)
        ensures
            res == (self.stage is Succeeded || self.stage is Failed),
    {
        match self.stage {
            LocalStage::Succeeded | LocalStage::Failed(_) => true,
            _ => false,
        }
    }

    /// The action the installation asks for next.
    pub fn next_action(&self) -> (res: LocalAction)
        ensures
            local_action(*self, res),
    {
        let v = self.version.as_str();
        match &self.stage {
            LocalStage::AwaitRuntimeDir => LocalAction::CheckRuntimeDir,
            LocalStage::AwaitRuntimeDirCreated => LocalAction::CreateRuntimeDir,
            LocalStage::AwaitConfigFile => LocalAction::CheckConfigFile,
            LocalStage::AwaitConfig => LocalAction::ReadJavaConfig,
            LocalStage::AwaitJavaDir { .. } => LocalAction::CheckJavaDir { folder: java_dir_name(v) },
            LocalStage::AwaitDownload { url } => LocalAction::Download {
                url: url.clone(),
                archive: java_archive_name(v),
            },
            LocalStage::AwaitUnpack => LocalAction::Unpack { archive: java_archive_name(v) },
            LocalStage::AwaitTarget => LocalAction::CheckTarget { folder: java_dir_name(v) },
            LocalStage::AwaitListing => LocalAction::ListRuntime,
            LocalStage::AwaitRename { entry } => LocalAction::Rename {
                entry: *entry,
                folder: java_dir_name(v),
            },
            LocalStage::AwaitRemoveArchive => LocalAction::RemoveArchive {
                archive: java_archive_name(v),
            },
            LocalStage::Succeeded => LocalAction::Finish(Ok(())),
            LocalStage::Failed(e) => LocalAction::Finish(Err(e.duplicate())),
        }
    }

    /// Takes the outcome of the pending action into account.
    pub fn advance(&mut self, event: LocalEvent)
        ensures
            local_step(*old(self), old(self).stage, event, final(self).stage),
            final(self).version == old(self).version,
    {
        let mut stage = LocalStage::AwaitRuntimeDir;
        std::mem::swap(&mut stage, &mut self.stage);
        let next = match (stage, event) {
            (LocalStage::Succeeded, _) => LocalStage::Succeeded,
            (LocalStage::Failed(e), _) => LocalStage::Failed(e),
            (_, LocalEvent::Failed(err)) => LocalStage::Failed(err),
            (LocalStage::AwaitRuntimeDir, LocalEvent::Exists(b)) => if b {
                LocalStage::AwaitConfigFile
            } else {
                LocalStage::AwaitRuntimeDirCreated
            },
            (LocalStage::AwaitRuntimeDirCreated, LocalEvent::Done) => LocalStage::AwaitConfigFile,
            (LocalStage::AwaitConfigFile, LocalEvent::Exists(b)) => if b {
                LocalStage::AwaitConfig
            } else {
                LocalStage::Failed(ApiError::NotFound)
            },
            (LocalStage::AwaitConfig, LocalEvent::ConfigLoaded(cfg)) => {
                match cfg.find(self.version.as_str()) {
                    Some(j) => LocalStage::AwaitJavaDir { url: j.url.clone() },
                    None => LocalStage::Failed(ApiError::NotFound),
                }
            },
            (LocalStage::AwaitJavaDir { url }, LocalEvent::Exists(b)) => if b {
                LocalStage::Succeeded
            } else {
                LocalStage::AwaitDownload { url }
            },
            (LocalStage::AwaitDownload { .. }, LocalEvent::Done) => LocalStage::AwaitUnpack,
            (LocalStage::AwaitUnpack, LocalEvent::Done) => LocalStage::AwaitTarget,
            (LocalStage::AwaitTarget, LocalEvent::Exists(b)) => if b {
                LocalStage::AwaitRemoveArchive
            } else {
                LocalStage::AwaitListing
            },
            (LocalStage::AwaitListing, LocalEvent::Listing(entries)) => {
                let folder = java_dir_name(self.version.as_str());
                match select_jdk_folder(&entries, folder.as_str()) {
                    Some(entry) => LocalStage::AwaitRename { entry },
                    None => LocalStage::AwaitRemoveArchive,
                }
            },
            (LocalStage::AwaitRename { .. }, LocalEvent::Done) => LocalStage::AwaitRemoveArchive,
            (LocalStage::AwaitRemoveArchive, LocalEvent::Done) => LocalStage::Succeeded,
            (other, _) => other,
        };
        self.stage = next;
    }
}

} // verus!
