use substrate_mc::control::{route_control_message, ControlMessage};
use substrate_mc::handler::Command;

fn start(n: &str) -> ControlMessage {
    ControlMessage::StartServer { server_name: n.to_string() }
}

#[test]
fn start_requests_for_same_server_are_equal() {
    assert!(start("a") == start("a"));
    assert!(start("a") != start("b"));
}

#[test]
fn stop_requests_compare_by_name() {
    let a = ControlMessage::StopServer { server_name: "x".to_string() };
    let b = ControlMessage::StopServer { server_name: "x".to_string() };
    assert!(a == b);
    assert!(a != start("x"));
}

#[test]
fn fail_and_console_requests_never_equal() {
    assert!(ControlMessage::Fail != ControlMessage::Fail);
    let c = ControlMessage::GetConsoleOutput { server_name: "x".to_string() };
    let d = ControlMessage::GetConsoleOutput { server_name: "x".to_string() };
    assert!(c != d);
    let e = ControlMessage::SendCommand { server_name: "x".to_string(), command: "say".to_string() };
    let f = ControlMessage::SendCommand { server_name: "x".to_string(), command: "say".to_string() };
    assert!(e != f);
}

#[test]
fn server_name_of_messages() {
    assert_eq!(start("a").server_name(), Some(&"a".to_string()));
    assert_eq!(ControlMessage::Fail.server_name(), None);
}

#[test]
fn routing_maps_each_message() {
    assert!(matches!(route_control_message(start("s")), Some(Command::StartServer { name }) if name == "s"));
    assert!(matches!(
        route_control_message(ControlMessage::StopServer { server_name: "s".to_string() }),
        Some(Command::StopServer { name }) if name == "s"
    ));
    assert!(matches!(
        route_control_message(ControlMessage::GetConsoleOutput { server_name: "s".to_string() }),
        Some(Command::GetOutput { name }) if name == "s"
    ));
    assert!(matches!(
        route_control_message(ControlMessage::SendCommand { server_name: "s".to_string(), command: "stop".to_string() }),
        Some(Command::SendCommand { name, command }) if name == "s" && command == "stop"
    ));
    assert!(route_control_message(ControlMessage::Fail).is_none());
}
