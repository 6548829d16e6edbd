use substrate_mc::create::{download_server, CreateAction, CreateEvent, CreateServerFlow, ServerConfig, VanillaInstaller};
use substrate_mc::error::SubstrateError;
use substrate_mc::minecraft::{JavaFlags, LoaderConfig, LoaderEntry, MinecraftConfig, VersionEntry};

fn sample() -> MinecraftConfig {
    MinecraftConfig {
        versions: vec![VersionEntry {
            version: "1.21.11".to_string(),
            loaders: vec![LoaderEntry {
                loader: "vanilla".to_string(),
                config: LoaderConfig { url: "https://example.com/server.jar".to_string(), java_version: "21".to_string() },
            }],
        }],
    }
}

fn flow(agree: bool, force: Option<String>) -> CreateServerFlow {
    download_server(
        ServerConfig { name: "test", loader: "vanilla", version: "1.21.11" },
        agree,
        force,
        &JavaFlags::Normal,
        VanillaInstaller {},
    )
}

#[test]
fn eula_refused_immediately() {
    let f = flow(false, None);
    assert!(f.is_finished());
    assert!(matches!(f.next_action(), CreateAction::Finish(Err(SubstrateError::Eula))));
}

#[test]
fn existing_server_folder_is_refused() {
    let mut f = flow(true, None);
    assert!(matches!(f.next_action(), CreateAction::CheckServersDir));
    f.advance(CreateEvent::Exists(true));
    assert!(matches!(f.next_action(), CreateAction::CheckServerDir));
    f.advance(CreateEvent::Exists(true));
    assert!(matches!(
        f.next_action(),
        CreateAction::Finish(Err(SubstrateError::AlreadyExists { resource })) if resource == "Directory with server name does already exist"
    ));
    f.advance(CreateEvent::Done);
    assert!(f.is_finished());
}

#[test]
fn full_creation_with_java_install() {
    let mut f = flow(true, None);
    f.advance(CreateEvent::Exists(false));
    assert!(matches!(f.next_action(), CreateAction::CreateServersDir));
    f.advance(CreateEvent::Done);
    assert!(matches!(f.next_action(), CreateAction::CheckServerDir));
    f.advance(CreateEvent::Exists(false));
    assert!(matches!(f.next_action(), CreateAction::CreateServerDir));
    f.advance(CreateEvent::Done);
    assert!(matches!(f.next_action(), CreateAction::WriteEula { contents } if contents == "eula=true"));
    f.advance(CreateEvent::Done);
    assert!(matches!(f.next_action(), CreateAction::ReadMinecraftConfig));
    f.advance(CreateEvent::ConfigLoaded(sample()));
    assert!(matches!(f.next_action(), CreateAction::CheckJava { java_version } if java_version == "21"));
    f.advance(CreateEvent::Exists(false));
    assert!(matches!(f.next_action(), CreateAction::InstallJava { java_version } if java_version == "21"));
    f.advance(CreateEvent::Done);
    assert!(matches!(f.next_action(), CreateAction::DownloadJar { url } if url == "https://example.com/server.jar"));
    f.advance(CreateEvent::Done);
    assert!(matches!(
        f.next_action(),
        CreateAction::WriteScript { contents } if contents == "#!/usr/bin/env bash\n../../runtime/java-21/bin/java -jar server.jar --nogui\n"
    ));
    f.advance(CreateEvent::Done);
    assert!(f.is_finished());
    assert!(matches!(f.next_action(), CreateAction::Finish(Ok((n, j))) if n == "test" && j == "21"));
}

#[test]
fn forced_java_version_wins() {
    let mut f = flow(true, Some("17".to_string()));
    f.advance(CreateEvent::Exists(true));
    f.advance(CreateEvent::Exists(false));
    f.advance(CreateEvent::Done);
    f.advance(CreateEvent::Done);
    f.advance(CreateEvent::ConfigLoaded(sample()));
    assert!(matches!(f.next_action(), CreateAction::CheckJava { java_version } if java_version == "17"));
    f.advance(CreateEvent::Exists(true));
    assert!(matches!(f.next_action(), CreateAction::DownloadJar { .. }));
}

#[test]
fn unknown_version_fails_and_io_failure_stops() {
    let mut f = download_server(
        ServerConfig { name: "t", loader: "vanilla", version: "9.9" },
        true,
        None,
        &JavaFlags::Aikars,
        VanillaInstaller {},
    );
    f.advance(CreateEvent::Exists(true));
    f.advance(CreateEvent::Exists(false));
    f.advance(CreateEvent::Done);
    f.advance(CreateEvent::Done);
    f.advance(CreateEvent::ConfigLoaded(sample()));
    assert!(matches!(
        f.next_action(),
        CreateAction::Finish(Err(SubstrateError::NotFound { resource })) if resource == "Could not find minecraft version in minecraft.json"
    ));

    let mut g = flow(true, None);
    g.advance(CreateEvent::Failed(SubstrateError::Io { source: "denied".to_string() }));
    assert!(matches!(g.next_action(), CreateAction::Finish(Err(SubstrateError::Io { source })) if source == "denied"));
}

#[test]
fn unexpected_event_is_ignored() {
    let mut f = flow(true, None);
    f.advance(CreateEvent::Done);
    assert!(matches!(f.next_action(), CreateAction::CheckServersDir));
}

/// Runs a creation against a set of server folders, answering each query
/// from the set and adding the server's folder when asked to create it.
fn run_against(mut f: CreateServerFlow, folders: &mut std::collections::HashSet<String>) -> Result<(String, String), SubstrateError> {
    loop {
        let event = match f.next_action() {
            CreateAction::Finish(result) => return result,
            CreateAction::CheckServersDir => CreateEvent::Exists(true),
            CreateAction::CheckServerDir => CreateEvent::Exists(folders.contains(&f.name)),
            CreateAction::CreateServerDir => {
                folders.insert(f.name.clone());
                CreateEvent::Done
            }
            CreateAction::ReadMinecraftConfig => CreateEvent::ConfigLoaded(sample()),
            CreateAction::CheckJava { .. } => CreateEvent::Exists(true),
            _ => CreateEvent::Done,
        };
        f.advance(event);
    }
}

#[test]
fn second_creation_of_same_name_fails() {
    let mut folders = std::collections::HashSet::new();
    assert!(matches!(run_against(flow(true, None), &mut folders), Ok((n, j)) if n == "test" && j == "21"));
    assert!(folders.contains("test"));
    assert!(matches!(
        run_against(flow(true, None), &mut folders),
        Err(SubstrateError::AlreadyExists { resource }) if resource == "Directory with server name does already exist"
    ));
    assert_eq!(folders.len(), 1);
}
