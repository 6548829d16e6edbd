use substrate_mc::api::{create_reply, create_server, delete_server, indexed_create_reply};
use substrate_mc::error::SubstrateError;
use substrate_mc::handler::{Command, ServerCreateRequest};
use substrate_mc::minecraft::JavaFlags;

#[test]
fn create_server_hands_request_to_handler() {
    let req = ServerCreateRequest {
        name: "test".to_string(),
        minecraft_version: "1.21.11".to_string(),
        loader: "vanilla".to_string(),
        forced_java_version: Some("21".to_string()),
        agree_eula: true,
        flags: JavaFlags::Aikars,
    };
    let cmd = create_server(req);
    assert!(matches!(cmd, Command::CreateServer { request } if request.name == "test" && request.agree_eula));
}

#[test]
fn create_reply_is_msgpack_id() {
    assert_eq!(create_reply(Ok(1)).unwrap(), vec![1u8]);
    assert_eq!(create_reply(Ok(300)).unwrap(), vec![0xcd, 1, 44]);
}

#[test]
fn create_reply_for_taken_name_fails() {
    let err = SubstrateError::AlreadyExists {
        resource: "Directory with server name does already exist".to_string(),
    };
    match create_reply(Err(err)) {
        Err(SubstrateError::AlreadyExists { resource }) => {
            assert_eq!(resource, "Directory with server name does already exist")
        }
        other => panic!("unexpected {:?}", other),
    }
    assert!(matches!(create_reply(Err(SubstrateError::Eula)), Err(SubstrateError::Eula)));
}

#[test]
fn delete_server_answer() {
    let (cmd, body) = delete_server("x".to_string());
    assert_eq!(body, "Server deleted");
    assert!(matches!(cmd, Command::DeleteServer { name } if name == "x"));
}

#[test]
fn indexed_reply_is_shortest_msgpack() {
    assert_eq!(indexed_create_reply(3), vec![3u8]);
    assert_eq!(indexed_create_reply(127), vec![127u8]);
    assert_eq!(indexed_create_reply(200), vec![0xcc, 200]);
    assert_eq!(indexed_create_reply(300), vec![0xcd, 1, 44]);
    assert_eq!(indexed_create_reply(70000), vec![0xce, 0, 1, 0x11, 0x70]);
}
