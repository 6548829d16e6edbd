//! Java runtimes: the configured downloads, the names of the files and
//! folders a runtime occupies, and the choice of the unpacked JDK folder.
use crate::error::SubstrateError;
use crate::text::{seq_contains, str_contains};
use vstd::prelude::*;
use vstd::string::*;

verus! {

/// One downloadable Java runtime.
#[derive(Debug)]
pub struct JavaDownloadConfig {
    pub version: String,
    pub url: String,
}

/// The Java runtimes that can be downloaded, as read from `java.json`.
#[derive(Debug)]
pub struct JavaConfig {
    pub linux: Vec<JavaDownloadConfig>,
}

impl Default for JavaConfig {
    fn default() -> (res: JavaConfig)
        ensures
            res.linux@.len() == 0,
    {
        JavaConfig { linux: Vec::new() }
    }
}

/// `i` is the first position in `entries` whose version is `version`.
pub open spec fn first_java_match(entries: Seq<JavaDownloadConfig>, version: Seq<char>, i: int) -> bool {
    &&& 0 <= i < entries.len()
    &&& entries[i].version@ == version
    &&& forall|k: int| 0 <= k < i ==> entries[k].version@ != version
}

/// Some entry of `entries` has the version `version`.
pub open spec fn java_configured(entries: Seq<JavaDownloadConfig>, version: Seq<char>) -> bool {
    exists|k: int| 0 <= k < entries.len() && entries[k].version@ == version
}

impl JavaConfig {
    /// The first configured runtime of the given version.
    pub fn find(&self, version: &str) -> (res: Option<&JavaDownloadConfig>)
        ensures
            match res {
                Some(j) => exists|i: int|
                    first_java_match(self.linux@, version@, i) && *j == self.linux@[i],
                None => !java_configured(self.linux@, version@),
            },
    {
        let wanted = String::from_str(version);
        let n = self.linux.len();
        let mut i: usize = 0;
        while i < n
            invariant
                n == self.linux@.len(),
                i <= n,
                wanted@ == version@,
                forall|k: int| 0 <= k < i ==> self.linux@[k].version@ != version@,
            decreases n - i,
        {
            if self.linux[i].version == wanted {
                assert(first_java_match(self.linux@, version@, i as int));
                return Some(&self.linux[i]);
            }
            i = i + 1;
        }
        None
    }
}

/// The name of the folder that holds the runtime of a Java version.
pub open spec fn spec_java_dir_name(version: Seq<char>) -> Seq<char> {
    "java-"@ + version
}

/// `java-<version>`: the folder under `runtime` that holds a Java version.
pub fn java_dir_name(version: &str) -> (res: String)
    ensures
        res@ == spec_java_dir_name(version@),
{
    let mut s = String::from_str("java-");
    s.append(version);
    s
}

/// `java-<version>.tar.gz`: the archive a Java version is downloaded to.
pub fn java_archive_name(version: &str) -> (res: String)
    ensures
        res@ == spec_java_dir_name(version@) + ".tar.gz"@,
{
    let mut s = java_dir_name(version);
    s.append(".tar.gz");
    s
}

/// The program that runs a server with the given Java version, relative to
/// the server's folder.
pub fn java_binary_path(version: &str) -> (res: String)
    ensures
        res@ == "../../runtime/"@ + spec_java_dir_name(version@) + "/bin/java"@,
{
    let mut s = String::from_str("../../runtime/");
    s.append(java_dir_name(version).as_str());
    s.append("/bin/java");
    s
}

/// Whether the Java runtime of `version` counts as installed: it is
/// configured in `config`, and its folder `runtime/java-<version>` exists
/// (`folder_exists`).
pub fn check_java_installed(config: &JavaConfig, version: &str, folder_exists: bool) -> (res: bool)
    ensures
        res == (java_configured(config.linux@, version@) && folder_exists),
{
    match config.find(version) {
        Some(_) => folder_exists,
        None => false,
    }
}

/// What is known of one entry of a directory listing: its name, where it
/// is valid Unicode, and whether it is a directory.
#[derive(Debug)]
pub struct DirEntryInfo {
    pub name: Option<String>,
    pub is_dir: bool,
}

/// The uppercase form of a text, as the standard library computes it.
pub uninterp spec fn spec_to_uppercase(s: Seq<char>) -> Seq<char>;

/// Calls `str::to_uppercase`; its result is named `spec_to_uppercase` of the
/// argument, with nothing more stated of the Unicode case mapping.
#[verifier::external_body]
fn to_uppercase(s: &str) -> (res: String)
    ensures
        res@ == spec_to_uppercase(s@),
{
    s.to_uppercase()
}

/// An uppercased folder name looks like a JDK when it contains `JDK`.
pub fn looks_like_jdk(upper_name: &str) -> (res: bool)
    ensures
        res == seq_contains(upper_name@, "JDK"@),
{
    str_contains(upper_name, "JDK")
}

/// The entry is a folder whose name differs from `target` and whose
/// uppercase form contains `JDK`.
pub open spec fn is_jdk_candidate(e: DirEntryInfo, target: Seq<char>) -> bool {
    &&& e.is_dir
    &&& e.name matches Some(n) && n@ != target && seq_contains(spec_to_uppercase(n@), "JDK"@)
}

/// `choice` is the position of the first JDK candidate of `entries`, or
/// `None` when there is no candidate.
pub open spec fn is_first_jdk_choice(
    entries: Seq<DirEntryInfo>,
    target: Seq<char>,
    choice: Option<usize>,
) -> bool {
    match choice {
        Some(i) => i < entries.len() && is_jdk_candidate(entries[i as int], target) && forall|
            k: int,
        | 0 <= k < i ==> !is_jdk_candidate(entries[k], target),
        None => forall|k: int| 0 <= k < entries.len() ==> !is_jdk_candidate(entries[k], target),
    }
}

/// The first entry of `entries` that looks like the unpacked JDK folder.
pub fn select_jdk_folder(entries: &Vec<DirEntryInfo>, target_name: &str) -> (res: Option<usize>)
    ensures
        is_first_jdk_choice(entries@, target_name@, res),
{
    let target = String::from_str(target_name);
    let n = entries.len();
    let mut i: usize = 0;
    while i < n
        invariant
            n == entries@.len(),
            i <= n,
            target@ == target_name@,
            forall|k: int| 0 <= k < i ==> !is_jdk_candidate(entries@[k], target_name@),
        decreases n - i,
    {
        let e = &entries[i];
        if e.is_dir {
            match &e.name {
                Some(name) => {
                    if *name != target {
                        let upper = to_uppercase(name.as_str());
                        if looks_like_jdk(upper.as_str()) {
                            return Some(i);
                        }
                    }
                },
                None => {},
            }
        }
        i = i + 1;
    }
    None
}

/// The decision of renaming the unpacked Java folder to `target_name`:
/// when the target already exists this is an error; otherwise the first
/// directory entry that looks like a JDK is chosen for renaming (`None`
/// when there is none, and nothing is renamed). `entries` is the listing of
/// the runtime folder, read only when the target does not exist.
pub fn rename_unpacked_java_folder(
    target_exists: bool,
    entries: &Vec<DirEntryInfo>,
    target_name: &str,
) -> (res: Result<Option<usize>, SubstrateError>)
    ensures
        match res {
            Err(SubstrateError::AlreadyExists { resource }) => target_exists && resource@
                == "Target path already exists"@,
            Err(_) => false,
            Ok(choice) => !target_exists && is_first_jdk_choice(entries@, target_name@, choice),
        },
{
    if target_exists {
        return Err(
            SubstrateError::AlreadyExists { resource: String::from_str("Target path already exists") },
        );
    }
    Ok(select_jdk_folder(entries, target_name))
}

} // verus!
