use substrate_mc::error::SubstrateError;
use substrate_mc::install::{download_java, InstallAction, InstallEvent};
use substrate_mc::java::{DirEntryInfo, JavaConfig, JavaDownloadConfig};

fn config() -> JavaConfig {
    JavaConfig { linux: vec![JavaDownloadConfig { version: "21".to_string(), url: "https://x/jdk.tar.gz".to_string() }] }
}

fn dir(name: &str) -> DirEntryInfo {
    DirEntryInfo { name: Some(name.to_string()), is_dir: true }
}

#[test]
fn full_installation() {
    let mut f = download_java("21");
    assert!(matches!(f.next_action(), InstallAction::CheckRuntimeDir));
    f.advance(InstallEvent::Exists(false));
    assert!(matches!(f.next_action(), InstallAction::CreateRuntimeDir));
    f.advance(InstallEvent::Done);
    assert!(matches!(f.next_action(), InstallAction::CheckConfigFile));
    f.advance(InstallEvent::Exists(true));
    assert!(matches!(f.next_action(), InstallAction::ReadJavaConfig));
    f.advance(InstallEvent::ConfigLoaded(config()));
    assert!(matches!(f.next_action(), InstallAction::CheckArchive { archive } if archive == "java-21.tar.gz"));
    f.advance(InstallEvent::Exists(false));
    assert!(matches!(f.next_action(), InstallAction::CheckJavaDir { folder } if folder == "java-21"));
    f.advance(InstallEvent::Exists(false));
    assert!(matches!(
        f.next_action(),
        InstallAction::Download { url, archive } if url == "https://x/jdk.tar.gz" && archive == "java-21.tar.gz"
    ));
    f.advance(InstallEvent::Done);
    assert!(matches!(f.next_action(), InstallAction::Unpack { archive } if archive == "java-21.tar.gz"));
    f.advance(InstallEvent::Done);
    assert!(matches!(f.next_action(), InstallAction::CheckTarget { folder } if folder == "java-21"));
    f.advance(InstallEvent::Exists(false));
    assert!(matches!(f.next_action(), InstallAction::ListRuntime));
    f.advance(InstallEvent::Listing(vec![dir("java-21.tar.gz"), dir("jdk-21.0.5+11")]));
    assert!(matches!(f.next_action(), InstallAction::Rename { entry: 1, folder } if folder == "java-21"));
    f.advance(InstallEvent::Done);
    assert!(f.is_finished());
    assert!(matches!(f.next_action(), InstallAction::Finish(Ok(()))));
}

#[test]
fn missing_config_file_or_version() {
    let mut f = download_java("21");
    f.advance(InstallEvent::Exists(true));
    f.advance(InstallEvent::Exists(false));
    assert!(matches!(
        f.next_action(),
        InstallAction::Finish(Err(SubstrateError::NotFound { resource })) if resource == "Could not find config file java.json"
    ));
    let mut g = download_java("8");
    g.advance(InstallEvent::Exists(true));
    g.advance(InstallEvent::Exists(true));
    g.advance(InstallEvent::ConfigLoaded(config()));
    assert!(matches!(
        g.next_action(),
        InstallAction::Finish(Err(SubstrateError::NotFound { resource })) if resource == "could not find requested java version"
    ));
}

#[test]
fn existing_archive_or_folder_ends_early() {
    let mut f = download_java("21");
    f.advance(InstallEvent::Exists(true));
    f.advance(InstallEvent::Exists(true));
    f.advance(InstallEvent::ConfigLoaded(config()));
    f.advance(InstallEvent::Exists(true));
    assert!(matches!(f.next_action(), InstallAction::Finish(Ok(()))));
    let mut g = download_java("21");
    g.advance(InstallEvent::Exists(true));
    g.advance(InstallEvent::Exists(true));
    g.advance(InstallEvent::ConfigLoaded(config()));
    g.advance(InstallEvent::Exists(false));
    g.advance(InstallEvent::Exists(true));
    assert!(matches!(g.next_action(), InstallAction::Finish(Ok(()))));
}

#[test]
fn existing_target_after_unpack_is_error() {
    let mut f = download_java("21");
    f.advance(InstallEvent::Exists(true));
    f.advance(InstallEvent::Exists(true));
    f.advance(InstallEvent::ConfigLoaded(config()));
    f.advance(InstallEvent::Exists(false));
    f.advance(InstallEvent::Exists(false));
    f.advance(InstallEvent::Done);
    f.advance(InstallEvent::Done);
    f.advance(InstallEvent::Exists(true));
    assert!(matches!(
        f.next_action(),
        InstallAction::Finish(Err(SubstrateError::AlreadyExists { resource })) if resource == "Target path already exists"
    ));
}

#[test]
fn no_jdk_folder_means_nothing_renamed() {
    let mut f = download_java("21");
    f.advance(InstallEvent::Exists(true));
    f.advance(InstallEvent::Exists(true));
    f.advance(InstallEvent::ConfigLoaded(config()));
    f.advance(InstallEvent::Exists(false));
    f.advance(InstallEvent::Exists(false));
    f.advance(InstallEvent::Done);
    f.advance(InstallEvent::Done);
    f.advance(InstallEvent::Exists(false));
    f.advance(InstallEvent::Listing(vec![dir("lib")]));
    assert!(matches!(f.next_action(), InstallAction::Finish(Ok(()))));
}
