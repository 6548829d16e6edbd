use substrate_mc::error::ApiError;
use substrate_mc::indexed_create::{download_server, server_config_contents, IndexedAction, IndexedEvent};
use substrate_mc::minecraft::{LoaderConfig, LoaderEntry, MinecraftConfig, VersionEntry};

fn sample() -> MinecraftConfig {
    MinecraftConfig {
        versions: vec![VersionEntry {
            version: "1.21.11".to_string(),
            loaders: vec![LoaderEntry {
                loader: "vanilla".to_string(),
                config: LoaderConfig { url: "https://example.com/server.jar".to_string(), java_version: "21".to_string() },
            }],
        }],
    }
}

#[test]
fn config_json_text() {
    assert_eq!(
        server_config_contents("1.21.11", "vanilla", "21"),
        "{\n  \"java_version\": \"21\",\n  \"loader\": \"vanilla\",\n  \"minecraft_version\": \"1.21.11\"\n}"
    );
}

#[test]
fn indexed_creation_full_run() {
    let mut f = download_server("test", "1.21.11", "vanilla", None, true);
    assert!(matches!(f.next_action(), IndexedAction::CheckServerDir));
    f.advance(IndexedEvent::Exists(false));
    f.advance(IndexedEvent::Done);
    assert!(matches!(f.next_action(), IndexedAction::WriteEula { contents } if contents == "eula=true"));
    f.advance(IndexedEvent::Done);
    assert!(matches!(f.next_action(), IndexedAction::CountServerDirs));
    f.advance(IndexedEvent::Count(3));
    assert!(matches!(f.next_action(), IndexedAction::CheckIndexFile));
    f.advance(IndexedEvent::Exists(false));
    assert!(matches!(f.next_action(), IndexedAction::CreateIndexDir));
    f.advance(IndexedEvent::Done);
    assert!(matches!(f.next_action(), IndexedAction::RegisterServer { id: 3, name } if name == "test"));
    f.advance(IndexedEvent::Done);
    f.advance(IndexedEvent::Exists(true));
    f.advance(IndexedEvent::ConfigLoaded(sample()));
    assert!(matches!(f.next_action(), IndexedAction::DownloadJar { url } if url == "https://example.com/server.jar"));
    f.advance(IndexedEvent::Done);
    assert!(matches!(f.next_action(), IndexedAction::CheckJava { java_version } if java_version == "21"));
    f.advance(IndexedEvent::Exists(true));
    assert!(matches!(f.next_action(), IndexedAction::CheckServerConfig));
    f.advance(IndexedEvent::Exists(false));
    assert!(matches!(f.next_action(), IndexedAction::WriteServerConfig { contents } if contents.contains("\"loader\": \"vanilla\"")));
    f.advance(IndexedEvent::Done);
    assert!(matches!(f.next_action(), IndexedAction::Finish(Ok(3))));
}

#[test]
fn indexed_creation_refusals() {
    let f = download_server("t", "1.21.11", "vanilla", None, false);
    assert!(matches!(f.next_action(), IndexedAction::Finish(Err(ApiError::InternalServerError))));
    let mut g = download_server("t", "1.21.11", "vanilla", None, true);
    g.advance(IndexedEvent::Exists(true));
    assert!(matches!(g.next_action(), IndexedAction::Finish(Err(ApiError::InternalServerError))));
    let mut h = download_server("t", "1.0", "vanilla", Some("8".to_string()), true);
    h.advance(IndexedEvent::Exists(false));
    h.advance(IndexedEvent::Done);
    h.advance(IndexedEvent::Done);
    h.advance(IndexedEvent::Count(1));
    h.advance(IndexedEvent::Exists(true));
    h.advance(IndexedEvent::Done);
    h.advance(IndexedEvent::Exists(false));
    assert!(matches!(h.next_action(), IndexedAction::Finish(Err(ApiError::NotFound))));
}

#[test]
fn config_json_escapes_strings() {
    assert_eq!(
        server_config_contents("a\"b", "x\ny", "\u{1}\\"),
        "{\n  \"java_version\": \"\\u0001\\\\\",\n  \"loader\": \"x\\ny\",\n  \"minecraft_version\": \"a\\\"b\"\n}"
    );
}
