use substrate_mc::error::ApiError;
use substrate_mc::java::{DirEntryInfo, JavaConfig, JavaDownloadConfig};
use substrate_mc::local_java::{download_java_locally, LocalAction, LocalEvent};

fn config() -> JavaConfig {
    JavaConfig { linux: vec![JavaDownloadConfig { version: "21".to_string(), url: "https://x/j.tgz".to_string() }] }
}

#[test]
fn full_local_installation() {
    let mut f = download_java_locally("21");
    f.advance(LocalEvent::Exists(true));
    assert!(matches!(f.next_action(), LocalAction::CheckConfigFile));
    f.advance(LocalEvent::Exists(true));
    f.advance(LocalEvent::ConfigLoaded(config()));
    assert!(matches!(f.next_action(), LocalAction::CheckJavaDir { folder } if folder == "java-21"));
    f.advance(LocalEvent::Exists(false));
    assert!(matches!(f.next_action(), LocalAction::Download { url, archive } if url == "https://x/j.tgz" && archive == "java-21.tar.gz"));
    f.advance(LocalEvent::Done);
    f.advance(LocalEvent::Done);
    f.advance(LocalEvent::Exists(false));
    f.advance(LocalEvent::Listing(vec![DirEntryInfo { name: Some("jdk-21".to_string()), is_dir: true }]));
    assert!(matches!(f.next_action(), LocalAction::Rename { entry: 0, folder } if folder == "java-21"));
    f.advance(LocalEvent::Done);
    assert!(matches!(f.next_action(), LocalAction::RemoveArchive { archive } if archive == "java-21.tar.gz"));
    f.advance(LocalEvent::Done);
    assert!(matches!(f.next_action(), LocalAction::Finish(Ok(()))));
}

#[test]
fn local_errors_and_shortcuts() {
    let mut f = download_java_locally("21");
    f.advance(LocalEvent::Exists(false));
    assert!(matches!(f.next_action(), LocalAction::CreateRuntimeDir));
    f.advance(LocalEvent::Done);
    f.advance(LocalEvent::Exists(false));
    assert!(matches!(f.next_action(), LocalAction::Finish(Err(ApiError::NotFound))));

    let mut g = download_java_locally("21");
    g.advance(LocalEvent::Exists(true));
    g.advance(LocalEvent::Exists(true));
    g.advance(LocalEvent::ConfigLoaded(config()));
    g.advance(LocalEvent::Exists(true));
    assert!(matches!(g.next_action(), LocalAction::Finish(Ok(()))));

    let mut h = download_java_locally("21");
    h.advance(LocalEvent::Exists(true));
    h.advance(LocalEvent::Exists(true));
    h.advance(LocalEvent::ConfigLoaded(config()));
    h.advance(LocalEvent::Exists(false));
    h.advance(LocalEvent::Done);
    h.advance(LocalEvent::Done);
    h.advance(LocalEvent::Exists(true));
    assert!(matches!(h.next_action(), LocalAction::RemoveArchive { .. }));

    let mut k = download_java_locally("8");
    k.advance(LocalEvent::Exists(true));
    k.advance(LocalEvent::Exists(true));
    k.advance(LocalEvent::ConfigLoaded(config()));
    assert!(matches!(k.next_action(), LocalAction::Finish(Err(ApiError::NotFound))));
}
