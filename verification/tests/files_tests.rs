use substrate_mc::error::{ApiError, SubstrateError};
use substrate_mc::files::{
    check_api_download_url, check_config_file, check_download_url, check_eula, check_response,
    create_eula, delete_server, status_is_success, upload_mod, File,
};

#[test]
fn download_url_must_not_be_empty() {
    assert!(check_download_url("https://x").is_ok());
    assert!(matches!(check_download_url(""), Err(SubstrateError::NotFound { resource }) if resource == "Url cant be empty"));
    assert!(matches!(check_api_download_url(""), Err(ApiError::NotFound)));
    assert!(check_api_download_url("u").is_ok());
}

#[test]
fn status_codes() {
    assert!(status_is_success(200));
    assert!(status_is_success(204));
    assert!(status_is_success(299));
    assert!(!status_is_success(199));
    assert!(!status_is_success(300));
    assert!(!status_is_success(404));
    assert!(check_response(200, String::new()).is_ok());
    assert!(matches!(check_response(500, "oops".to_string()), Err(SubstrateError::HttpStatus { body }) if body == "oops"));
}

#[test]
fn eula_content() {
    assert!(check_eula("eula=true"));
    assert!(check_eula("#comment\neula=true\n"));
    assert!(!check_eula("eula=false"));
    assert!(!check_eula(""));
}

#[test]
fn eula_creation_and_upload_and_delete() {
    assert!(create_eula(false).is_ok());
    assert!(matches!(create_eula(true), Err(SubstrateError::AlreadyExists { resource }) if resource == "Eula file is already existing"));
    let empty = File { bytes: vec![], path: "mods/a.jar".to_string() };
    assert!(matches!(upload_mod(&empty), Err(SubstrateError::UploadModError { message }) if message == "Mod file is empty"));
    let full = File { bytes: vec![1, 2, 3], path: "mods/a.jar".to_string() };
    assert!(upload_mod(&full).is_ok());
    assert!(delete_server(true).is_ok());
    assert!(matches!(delete_server(false), Err(SubstrateError::NotFound { resource }) if resource == "Could not find server directory"));
    assert!(check_config_file(true).is_ok());
    assert!(matches!(check_config_file(false), Err(ApiError::NotFound)));
}
