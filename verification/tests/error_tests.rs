use substrate_mc::error::{ApiError, SubstrateError};

#[test]
fn substrate_error_messages() {
    assert_eq!(
        SubstrateError::NotFound { resource: "x".to_string() }.message(),
        "Resource not found: x"
    );
    assert_eq!(
        SubstrateError::AlreadyExists { resource: "y".to_string() }.message(),
        "Resource already exists: y"
    );
    assert_eq!(SubstrateError::ChannelSend.message(), "Failed to send message through channel");
    assert_eq!(SubstrateError::ChannelReceive.message(), "Failed to receive message from channel");
    assert_eq!(
        SubstrateError::HttpStatus { body: "b".to_string() }.message(),
        "Upstream service returned an error response"
    );
    assert_eq!(SubstrateError::Request { source: "s".to_string() }.message(), "HTTP request failed");
    assert_eq!(SubstrateError::Io { source: "s".to_string() }.message(), "Filesystem operation failed");
    assert_eq!(SubstrateError::Json { source: "s".to_string() }.message(), "JSON processing failed");
    assert_eq!(
        SubstrateError::ConversionError { details: "d".to_string() }.message(),
        "Failed to convert value: d"
    );
    assert_eq!(SubstrateError::Eula.message(), "Minecraft EULA has not been accepted");
    assert_eq!(
        SubstrateError::McServerError { message: "m".to_string() }.message(),
        "Minecraft server failure: m"
    );
    assert_eq!(
        SubstrateError::UploadModError { message: "m".to_string() }.message(),
        "Failed to upload mod: m"
    );
}

#[test]
fn api_error_messages() {
    assert_eq!(ApiError::NotFound.message(), "Not Found");
    assert_eq!(ApiError::InternalServerError.message(), "Internal Server Error");
    assert_eq!(ApiError::HttpRequestError("e".to_string()).message(), "HTTP Request Error: e");
    assert_eq!(ApiError::IoError("e".to_string()).message(), "IO Error: e");
    assert_eq!(ApiError::JsonError("e".to_string()).message(), "JSON Error: e");
    assert_eq!(ApiError::ActixWsError("e".to_string()).message(), "Actix Web Socket Error: e");
    assert_eq!(ApiError::WebDataError("e".to_string()).message(), "Web Data Error: e");
}

#[test]
fn duplicate_keeps_error() {
    let e = SubstrateError::NotFound { resource: "r".to_string() };
    assert_eq!(e.duplicate().message(), e.message());
}
