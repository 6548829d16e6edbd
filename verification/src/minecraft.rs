//! Minecraft server configuration: the downloadable server versions and
//! loaders, the start script of a server, and the lookup of the loader that
//! a new server is created from.
use crate::error::SubstrateError;
use crate::java::spec_java_dir_name;
use vstd::prelude::*;
use vstd::string::*;

verus! {

/// Where a server of one version and loader is downloaded from, and the
/// Java version it runs on.
#[derive(Debug)]
pub struct LoaderConfig {
    pub url: String,
    pub java_version: String,
}

/// One loader of a Minecraft version.
#[derive(Debug)]
pub struct LoaderEntry {
    pub loader: String,
    pub config: LoaderConfig,
}

/// The loaders available for one Minecraft version.
#[derive(Debug)]
pub struct VersionEntry {
    pub version: String,
    pub loaders: Vec<LoaderEntry>,
}

/// The content of `minecraft.json`: for each Minecraft version, for each
/// loader, where to download the server. Of two entries with the same key
/// the first one counts.
#[derive(Debug)]
pub struct MinecraftConfig {
    pub versions: Vec<VersionEntry>,
}

/// `i` is the first position of `vs` that holds the version `v`.
pub open spec fn first_version(vs: Seq<VersionEntry>, v: Seq<char>, i: int) -> bool {
    &&& 0 <= i < vs.len()
    &&& vs[i].version@ == v
    &&& forall|k: int| 0 <= k < i ==> vs[k].version@ != v
}

/// `i` is the first position of `ls` that holds the loader `l`.
pub open spec fn first_loader(ls: Seq<LoaderEntry>, l: Seq<char>, i: int) -> bool {
    &&& 0 <= i < ls.len()
    &&& ls[i].loader@ == l
    &&& forall|k: int| 0 <= k < i ==> ls[k].loader@ != l
}

/// Some entry of `vs` holds the version `v`.
pub open spec fn has_version(vs: Seq<VersionEntry>, v: Seq<char>) -> bool {
    exists|i: int| 0 <= i < vs.len() && vs[i].version@ == v
}

/// Some entry of `ls` holds the loader `l`.
pub open spec fn has_loader(ls: Seq<LoaderEntry>, l: Seq<char>) -> bool {
    exists|i: int| 0 <= i < ls.len() && ls[i].loader@ == l
}

/// `lc` is the loader configuration that `config` holds for `version` and
/// `loader`.
pub open spec fn configured_loader(
    config: MinecraftConfig,
    version: Seq<char>,
    loader: Seq<char>,
    lc: LoaderConfig,
) -> bool {
    exists|i: int, j: int|
        #![trigger config.versions@[i].loaders@[j]]
        first_version(config.versions@, version, i) && first_loader(
            config.versions@[i].loaders@,
            loader,
            j,
        ) && config.versions@[i].loaders@[j].config == lc
}

/// The outcome of looking up `version` and `loader` in `config`.
pub open spec fn lookup_outcome(
    config: MinecraftConfig,
    version: Seq<char>,
    loader: Seq<char>,
    res: Result<LoaderConfig, SubstrateError>,
) -> bool {
    match res {
        Ok(lc) => configured_loader(config, version, loader, lc),
        Err(SubstrateError::NotFound { resource }) => {
            ||| !has_version(config.versions@, version) && resource@
                == "Could not find minecraft version in minecraft.json"@
            ||| exists|i: int|
                first_version(config.versions@, version, i) && !has_loader(
                    #[trigger] config.versions@[i].loaders@,
                    loader,
                ) && resource@ == "Could not find minecraft loader in minecraft.json"@
        },
        Err(_) => false,
    }
}

impl LoaderConfig {
    /// A copy of this configuration.
    pub fn duplicate(&self) -> (res: LoaderConfig)
        ensures
            res == *self,
    {
        LoaderConfig { url: self.url.clone(), java_version: self.java_version.clone() }
    }
}

/// Looks up the server download for a Minecraft version and loader: an error
/// names the version when it is missing, else the loader.
pub fn get_config(config: &MinecraftConfig, version: &str, loader: &str) -> (res: Result<
    LoaderConfig,
    SubstrateError,
>)
    ensures
        lookup_outcome(*config, version@, loader@, res),
{
    let wanted_version = String::from_str(version);
    let wanted_loader = String::from_str(loader);
    let n = config.versions.len();
    let mut i: usize = 0;
    while i < n
        invariant
            n == config.versions@.len(),
            i <= n,
            wanted_version@ == version@,
            wanted_loader@ == loader@,
            forall|k: int| 0 <= k < i ==> config.versions@[k].version@ != version@,
        decreases n - i,
    {
        if config.versions[i].version == wanted_version {
            assert(first_version(config.versions@, version@, i as int));
            let loaders = &config.versions[i].loaders;
            let m = loaders.len();
            let mut j: usize = 0;
            while j < m
                invariant
                    m == loaders@.len(),
                    i < n,
                    n == config.versions@.len(),
                    *loaders == config.versions@[i as int].loaders,
                    first_version(config.versions@, version@, i as int),
                    j <= m,
                    wanted_loader@ == loader@,
                    forall|k: int| 0 <= k < j ==> loaders@[k].loader@ != loader@,
                decreases m - j,
            {
                if loaders[j].loader == wanted_loader {
                    assert(first_loader(loaders@, loader@, j as int));
                    let lc = loaders[j].config.duplicate();
                    assert(config.versions@[i as int].loaders@[j as int].config == lc);
                    assert(configured_loader(*config, version@, loader@, lc));
                    return Ok(lc);
                }
                j = j + 1;
            }
            return Err(
                SubstrateError::NotFound {
                    resource: String::from_str("Could not find minecraft loader in minecraft.json"),
                },
            );
        }
        i = i + 1;
    }
    Err(
        SubstrateError::NotFound {
            resource: String::from_str("Could not find minecraft version in minecraft.json"),
        },
    )
}

/// The JVM options of the start script that uses Aikar's flags.
pub open spec fn aikars_options() -> Seq<char> {
    " -XX:+AlwaysPreTouch -XX:+DisableExplicitGC -XX:+ParallelRefProcEnabled -XX:+PerfDisableSharedMem -XX:+UnlockExperimentalVMOptions -XX:+UseG1GC -XX:G1HeapRegionSize=8M -XX:G1HeapWastePercent=5 -XX:G1MaxNewSizePercent=40 -XX:G1MixedGCCountTarget=4 -XX:G1MixedGCLiveThresholdPercent=90 -XX:G1NewSizePercent=30 -XX:G1RSetUpdatingPauseTimePercent=5 -XX:G1ReservePercent=20 -XX:InitiatingHeapOccupancyPercent=15 -XX:MaxGCPauseMillis=200 -XX:MaxTenuringThreshold=1 -XX:SurvivorRatio=32 -Dusing.aikars.flags=https://mcflags.emc.gs -Daikars.new.flags=true -jar server.jar --nogui"@
}

/// The JVM flags a server's start script runs Java with.
#[derive(Debug, Clone, Copy, PartialEq, Eq, Structural)]
pub enum JavaFlags {
    Aikars,
    Normal,
}

/// The content of the start script `run.sh` of a server.
pub open spec fn spec_script(flags: JavaFlags, java_version: Seq<char>) -> Seq<char> {
    let head = "#!/usr/bin/env bash\n../../runtime/"@ + spec_java_dir_name(java_version)
        + "/bin/java"@;
    match flags {
        JavaFlags::Aikars => head + aikars_options(),
        JavaFlags::Normal => head + " -jar server.jar --nogui\n"@,
    }
}

/// The content of the start script `run.sh` of a server that runs on
/// `java_version` with the given flags.
pub fn server_script(flags: JavaFlags, java_version: &str) -> (res: String)
    ensures
        res@ == spec_script(flags, java_version@),
{
    let mut s = String::from_str("#!/usr/bin/env bash\n../../runtime/java-");
    s.append(java_version);
    s.append("/bin/java");
    match flags {
        JavaFlags::Aikars => {
            s.append(
                " -XX:+AlwaysPreTouch -XX:+DisableExplicitGC -XX:+ParallelRefProcEnabled -XX:+PerfDisableSharedMem -XX:+UnlockExperimentalVMOptions -XX:+UseG1GC -XX:G1HeapRegionSize=8M -XX:G1HeapWastePercent=5 -XX:G1MaxNewSizePercent=40 -XX:G1MixedGCCountTarget=4 -XX:G1MixedGCLiveThresholdPercent=90 -XX:G1NewSizePercent=30 -XX:G1RSetUpdatingPauseTimePercent=5 -XX:G1ReservePercent=20 -XX:InitiatingHeapOccupancyPercent=15 -XX:MaxGCPauseMillis=200 -XX:MaxTenuringThreshold=1 -XX:SurvivorRatio=32 -Dusing.aikars.flags=https://mcflags.emc.gs -Daikars.new.flags=true -jar server.jar --nogui",
            );
        },
        JavaFlags::Normal => {
            s.append(" -jar server.jar --nogui\n");
        },
    }
    proof {
        let head = "#!/usr/bin/env bash\n../../runtime/"@ + spec_java_dir_name(java_version@)
            + "/bin/java"@;
        assert("#!/usr/bin/env bash\n../../runtime/java-"@ + java_version@ + "/bin/java"@ =~= head)
            by {
            reveal_strlit("#!/usr/bin/env bash\n../../runtime/java-");
            reveal_strlit("#!/usr/bin/env bash\n../../runtime/");
            reveal_strlit("java-");
        }
    }
    s
}

} // verus!
