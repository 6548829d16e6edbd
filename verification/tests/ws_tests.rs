use std::collections::HashMap;
use substrate_mc::error::ApiError;
use substrate_mc::index::{add_entry, Index};
use substrate_mc::mc_server::{McServer, ServerConfig, ServerState};
use substrate_mc::ws::{resolve_target, ws_decide, IndexedControlMessage, Servers, WsAction};

#[test]
fn target_needs_server_and_index_entry() {
    let mut servers = Servers { servers: HashMap::new() };
    servers.servers.insert(1, McServer::new());
    servers.servers.insert(2, McServer::new());
    let mut index = Index::new();
    add_entry(&mut index, 1, "one".to_string());
    add_entry(&mut index, 3, "three".to_string());
    let m = IndexedControlMessage::StartServer { server_id: 1 };
    assert_eq!(resolve_target(&servers, &index, &m), Some((1, "one".to_string())));
    let m = IndexedControlMessage::StopServer { server_id: 2 };
    assert_eq!(resolve_target(&servers, &index, &m), None);
    let m = IndexedControlMessage::GetConsoleOutput { server_id: 3 };
    assert_eq!(resolve_target(&servers, &index, &m), None);
    assert_eq!(resolve_target(&servers, &index, &IndexedControlMessage::Fail), None);
    let m = IndexedControlMessage::SendCommand { server_id: 1, command: "list".to_string() };
    assert_eq!(m.server_id(), Some(1));
}

#[test]
fn mc_server_start_stop_rules() {
    let mut s = McServer::new();
    assert!(s.check_stop().is_err());
    assert!(s.check_start().is_ok());
    s.mark_started();
    assert_eq!(s.child, ServerState::Running);
    assert!(matches!(s.check_start(), Err(ApiError::InternalServerError)));
    assert!(s.check_stop().is_ok());
    s.record_line("a".to_string());
    s.record_line("b".to_string());
    assert_eq!(s.history.oldest_first(), vec!["a".to_string(), "b".to_string()]);
    s.clear_history();
    assert!(s.history.oldest_first().is_empty());
    let cfg = ServerConfig { java_version: "21".to_string() };
    assert_eq!(McServer::launch_program(&cfg), "../../runtime/java-21/bin/java");
}

fn controlled() -> (Servers, Index) {
    let mut servers = Servers { servers: HashMap::new() };
    servers.servers.insert(1, McServer::new());
    let mut running = McServer::new();
    running.mark_started();
    running.record_line("first".to_string());
    running.record_line("second".to_string());
    servers.servers.insert(2, running);
    servers.servers.insert(5, McServer::new());
    let mut index = Index::new();
    add_entry(&mut index, 1, "one".to_string());
    add_entry(&mut index, 2, "two".to_string());
    (servers, index)
}

#[test]
fn ws_start_only_stopped_servers() {
    let (servers, index) = controlled();
    let a = ws_decide(&servers, &index, IndexedControlMessage::StartServer { server_id: 1 });
    assert!(matches!(a, Some(WsAction::Start { id: 1, name }) if name == "one"));
    let a = ws_decide(&servers, &index, IndexedControlMessage::StartServer { server_id: 2 });
    assert!(matches!(a, Some(WsAction::Refuse { id: 2, name, error: ApiError::InternalServerError }) if name == "two"));
}

#[test]
fn ws_stop_only_running_servers() {
    let (servers, index) = controlled();
    let a = ws_decide(&servers, &index, IndexedControlMessage::StopServer { server_id: 2 });
    assert!(matches!(a, Some(WsAction::Stop { id: 2, name }) if name == "two"));
    let a = ws_decide(&servers, &index, IndexedControlMessage::StopServer { server_id: 1 });
    assert!(matches!(a, Some(WsAction::Refuse { id: 1, error: ApiError::InternalServerError, .. })));
}

#[test]
fn ws_replay_oldest_first_and_commands() {
    let (servers, index) = controlled();
    let a = ws_decide(&servers, &index, IndexedControlMessage::GetConsoleOutput { server_id: 2 });
    assert!(matches!(a, Some(WsAction::Replay { id: 2, lines }) if lines == vec!["first".to_string(), "second".to_string()]));
    let a = ws_decide(&servers, &index, IndexedControlMessage::SendCommand { server_id: 1, command: "say hi".to_string() });
    assert!(matches!(a, Some(WsAction::Write { id: 1, command }) if command == "say hi"));
}

#[test]
fn ws_skips_unknown_targets() {
    let (servers, index) = controlled();
    assert!(ws_decide(&servers, &index, IndexedControlMessage::StartServer { server_id: 5 }).is_none());
    assert!(ws_decide(&servers, &index, IndexedControlMessage::StartServer { server_id: 9 }).is_none());
    assert!(ws_decide(&servers, &index, IndexedControlMessage::Fail).is_none());
}

#[test]
fn after_stop_clears_history_only_on_success() {
    let mut s = McServer::new();
    s.mark_started();
    s.record_line("x".to_string());
    s.after_stop(false);
    assert_eq!(s.history.oldest_first(), vec!["x".to_string()]);
    s.after_stop(true);
    assert!(s.history.oldest_first().is_empty());
    assert_eq!(s.child, ServerState::Running);
}
