use substrate_mc::create::CreateAction;
use substrate_mc::handler::{
    installer_for, record_created, Command, CreateServerConfig, HandlerAction, HandlerFault,
    McServerConfig, ServerCreateRequest, ServerRegistry,
};
use substrate_mc::minecraft::JavaFlags;

fn s(x: &str) -> String {
    x.to_string()
}

fn registry() -> ServerRegistry {
    let mut r = ServerRegistry::new();
    r.register(s("alpha"), s("21"));
    r.register(s("beta"), s("17"));
    r
}

#[test]
fn register_and_overview() {
    let r = registry();
    assert_eq!(r.len(), 2);
    assert_eq!(r.overview(), vec![(s("alpha"), false), (s("beta"), false)]);
    assert_eq!(r.position("beta"), Some(1));
    assert_eq!(r.position("gamma"), None);
}

#[test]
fn register_same_name_replaces_in_place() {
    let mut r = registry();
    r.register(s("alpha"), s("8"));
    assert_eq!(r.len(), 2);
    assert_eq!(r.entry(0).java_version, "8");
}

#[test]
fn start_stop_cycle() {
    let mut r = registry();
    let a = r.handle(Command::StartServer { name: s("alpha") });
    assert!(matches!(a, Ok(HandlerAction::StartProcess { name, program }) if name == "alpha" && program == "../../runtime/java-21/bin/java"));
    assert_eq!(r.overview(), vec![(s("alpha"), false), (s("beta"), false)]);
    r.start_outcome("alpha", true);
    assert_eq!(r.overview(), vec![(s("alpha"), true), (s("beta"), false)]);
    let b = r.handle(Command::StopServer { name: s("alpha") });
    assert!(matches!(b, Ok(HandlerAction::StopProcess { name }) if name == "alpha"));
    assert_eq!(r.overview(), vec![(s("alpha"), false), (s("beta"), false)]);
    let c = r.handle(Command::StopServer { name: s("alpha") });
    assert!(matches!(c, Err(HandlerFault::NotRunning)));
    let d = r.handle(Command::GetOutput { name: s("alpha") });
    assert!(matches!(d, Ok(HandlerAction::Subscribe { name }) if name == "alpha"));
}

#[test]
fn faults() {
    let mut r = registry();
    assert!(matches!(r.handle(Command::StartServer { name: s("x") }), Err(HandlerFault::UnknownServer)));
    assert!(matches!(r.handle(Command::GetOutput { name: s("beta") }), Err(HandlerFault::NoConsole)));
    assert!(matches!(
        r.handle(Command::SendCommand { name: s("beta"), command: s("list") }),
        Err(HandlerFault::NotRunning)
    ));
    r.handle(Command::StartServer { name: s("beta") }).unwrap();
    r.start_outcome("beta", true);
    assert!(matches!(
        r.handle(Command::SendCommand { name: s("beta"), command: s("list") }),
        Ok(HandlerAction::WriteInput { name, command }) if name == "beta" && command == "list"
    ));
}

#[test]
fn delete_and_view() {
    let mut r = registry();
    assert!(matches!(r.handle(Command::DeleteServer { name: s("alpha") }), Ok(HandlerAction::RemoveServerDir { name }) if name == "alpha"));
    assert!(matches!(r.handle(Command::DeleteServer { name: s("alpha") }), Ok(HandlerAction::Nothing)));
    assert!(matches!(r.handle(Command::ViewServers), Ok(HandlerAction::Reply(list)) if list == vec![(s("beta"), false)]));
}

#[test]
fn create_command_builds_flow() {
    let mut r = registry();
    let req = ServerCreateRequest {
        name: s("new"),
        minecraft_version: s("1.21.11"),
        loader: s("vanilla"),
        forced_java_version: None,
        agree_eula: true,
        flags: JavaFlags::Normal,
    };
    match r.handle(Command::CreateServer { request: req }) {
        Ok(HandlerAction::Create(flow)) => {
            assert_eq!(flow.name, "new");
            assert!(matches!(flow.next_action(), CreateAction::CheckServersDir));
        }
        other => panic!("unexpected {:?}", other),
    }
    let req = ServerCreateRequest {
        name: s("mod"),
        minecraft_version: s("1.21.11"),
        loader: s("fabric"),
        forced_java_version: None,
        agree_eula: true,
        flags: JavaFlags::Normal,
    };
    assert!(matches!(r.handle(Command::CreateServer { request: req }), Err(HandlerFault::UnsupportedLoader)));
    assert!(installer_for("vanilla").is_some());
    assert!(installer_for("forge").is_none());
}

#[test]
fn registry_from_config_collapses_duplicates() {
    let cfg = CreateServerConfig {
        servers: vec![
            McServerConfig { name: s("a"), java_version: s("17") },
            McServerConfig { name: s("b"), java_version: s("21") },
            McServerConfig { name: s("a"), java_version: s("21") },
        ],
    };
    let r = ServerRegistry::from_config(&cfg);
    assert_eq!(r.overview(), vec![(s("a"), false), (s("b"), false)]);
    assert_eq!(r.entry(0).java_version, "21");
}

#[test]
fn record_created_appends() {
    let c = record_created(None, s("a"), s("21"));
    assert_eq!(c.servers.len(), 1);
    let c = record_created(Some(c), s("b"), s("17"));
    assert_eq!(c.servers.len(), 2);
    assert_eq!(c.servers[1].name, "b");
    assert_eq!(c.servers[1].java_version, "17");
    assert_eq!(c.servers[0].name, "a");
}

#[test]
fn console_needs_started_server() {
    let mut r = registry();
    assert!(r.entry(0).subscribe().is_err());
    assert!(matches!(r.entry(0).listen_to_output(), Err(substrate_mc::error::SubstrateError::NotFound { resource }) if resource == "Could not clone handler"));
    r.handle(Command::StartServer { name: s("alpha") }).unwrap();
    assert!(r.entry(0).subscribe().is_err());
    r.start_outcome("alpha", true);
    assert!(r.entry(0).subscribe().is_ok());
    assert!(r.entry(0).listen_to_output().is_ok());
}

#[test]
fn failed_spawn_leaves_server_stopped() {
    let mut r = registry();
    r.handle(Command::StartServer { name: s("alpha") }).unwrap();
    r.start_outcome("alpha", false);
    assert_eq!(r.overview(), vec![(s("alpha"), false), (s("beta"), false)]);
    assert!(!r.entry(0).has_console);
    assert!(matches!(r.handle(Command::StopServer { name: s("alpha") }), Err(HandlerFault::NotRunning)));
    r.start_outcome("nobody", true);
    assert_eq!(r.len(), 2);
}

#[test]
fn record_creation_registers_records_and_numbers() {
    let mut r = registry();
    let existing = CreateServerConfig { servers: vec![McServerConfig { name: s("alpha"), java_version: s("21") }] };
    let (id, cfg) = r.record_creation(s("gamma"), s("17"), Some(existing), 3);
    assert_eq!(id, 3);
    assert_eq!(cfg.servers.len(), 2);
    assert_eq!(cfg.servers[1].name, "gamma");
    assert_eq!(cfg.servers[1].java_version, "17");
    assert_eq!(r.overview(), vec![(s("alpha"), false), (s("beta"), false), (s("gamma"), false)]);
    let (id, cfg) = r.record_creation(s("delta"), s("21"), None, 4);
    assert_eq!(id, 4);
    assert_eq!(cfg.servers.len(), 1);
}
