//! The errors of the library and the text each of them displays.
use vstd::prelude::*;
use vstd::string::*;

verus! {

/// Errors of server creation, Java installation and server control.
/// Errors that come from an outside service or from the file system carry
/// the displayed text of their cause in `source`.
#[derive(Debug)]
pub enum SubstrateError {
    NotFound { resource: String },
    AlreadyExists { resource: String },
    ChannelSend,
    ChannelReceive,
    HttpStatus { body: String },
    Request { source: String },
    Io { source: String },
    Json { source: String },
    ConversionError { details: String },
    Eula,
    McServerError { message: String },
    UploadModError { message: String },
}

/// The text that a `SubstrateError` displays.
pub open spec fn substrate_error_text(e: SubstrateError) -> Seq<char> {
    match e {
        SubstrateError::NotFound { resource } => "Resource not found: "@ + resource@,
        SubstrateError::AlreadyExists { resource } => "Resource already exists: "@ + resource@,
        SubstrateError::ChannelSend => "Failed to send message through channel"@,
        SubstrateError::ChannelReceive => "Failed to receive message from channel"@,
        SubstrateError::HttpStatus { .. } => "Upstream service returned an error response"@,
        SubstrateError::Request { .. } => "HTTP request failed"@,
        SubstrateError::Io { .. } => "Filesystem operation failed"@,
        SubstrateError::Json { .. } => "JSON processing failed"@,
        SubstrateError::ConversionError { details } => "Failed to convert value: "@ + details@,
        SubstrateError::Eula => "Minecraft EULA has not been accepted"@,
        SubstrateError::McServerError { message } => "Minecraft server failure: "@ + message@,
        SubstrateError::UploadModError { message } => "Failed to upload mod: "@ + message@,
    }
}

/// A string made of a fixed prefix followed by `rest`.
fn prefixed(prefix: &str, rest: &String) -> (res: String)
    ensures
        res@ == prefix@ + rest@,
{
    let mut s = String::from_str(prefix);
    s.append(rest.as_str());
    s
}

impl SubstrateError {
    /// A copy of this error.
    pub fn duplicate(&self) -> (res: SubstrateError)
        ensures
            res == *self,
    {
        match self {
            SubstrateError::NotFound { resource } => SubstrateError::NotFound {
                resource: resource.clone(),
            },
            SubstrateError::AlreadyExists { resource } => SubstrateError::AlreadyExists {
                resource: resource.clone(),
            },
            SubstrateError::ChannelSend => SubstrateError::ChannelSend,
            SubstrateError::ChannelReceive => SubstrateError::ChannelReceive,
            SubstrateError::HttpStatus { body } => SubstrateError::HttpStatus { body: body.clone() },
            SubstrateError::Request { source } => SubstrateError::Request { source: source.clone() },
            SubstrateError::Io { source } => SubstrateError::Io { source: source.clone() },
            SubstrateError::Json { source } => SubstrateError::Json { source: source.clone() },
            SubstrateError::ConversionError { details } => SubstrateError::ConversionError {
                details: details.clone(),
            },
            SubstrateError::Eula => SubstrateError::Eula,
            SubstrateError::McServerError { message } => SubstrateError::McServerError {
                message: message.clone(),
            },
            SubstrateError::UploadModError { message } => SubstrateError::UploadModError {
                message: message.clone(),
            },
        }
    }

    /// The text this error displays.
    pub fn message(&self) -> (res: String)
        ensures
            res@ == substrate_error_text(*self),
    {
        match self {
            SubstrateError::NotFound { resource } => prefixed("Resource not found: ", resource),
            SubstrateError::AlreadyExists { resource } => prefixed(
                "Resource already exists: ",
                resource,
            ),
            SubstrateError::ChannelSend => String::from_str(
                "Failed to send message through channel",
            ),
            SubstrateError::ChannelReceive => String::from_str(
                "Failed to receive message from channel",
            ),
            SubstrateError::HttpStatus { .. } => String::from_str(
                "Upstream service returned an error response",
            ),
            SubstrateError::Request { .. } => String::from_str("HTTP request failed"),
            SubstrateError::Io { .. } => String::from_str("Filesystem operation failed"),
            SubstrateError::Json { .. } => String::from_str("JSON processing failed"),
            SubstrateError::ConversionError { details } => prefixed(
                "Failed to convert value: ",
                details,
            ),
            SubstrateError::Eula => String::from_str("Minecraft EULA has not been accepted"),
            SubstrateError::McServerError { message } => prefixed(
                "Minecraft server failure: ",
                message,
            ),
            SubstrateError::UploadModError { message } => prefixed(
                "Failed to upload mod: ",
                message,
            ),
        }
    }
}

/// Errors of the web API. The variants that wrap an error of another kind
/// carry the displayed text of that error in their field.
#[derive(Debug)]
pub enum ApiError {
    NotFound,
    InternalServerError,
    HttpRequestError(String),
    IoError(String),
    JsonError(String),
    ActixWsError(String),
    WebDataError(String),
}

/// The text that an `ApiError` displays.
pub open spec fn api_error_text(e: ApiError) -> Seq<char> {
    match e {
        ApiError::NotFound => "Not Found"@,
        ApiError::InternalServerError => "Internal Server Error"@,
        ApiError::HttpRequestError(d) => "HTTP Request Error: "@ + d@,
        ApiError::IoError(d) => "IO Error: "@ + d@,
        ApiError::JsonError(d) => "JSON Error: "@ + d@,
        ApiError::ActixWsError(d) => "Actix Web Socket Error: "@ + d@,
        ApiError::WebDataError(d) => "Web Data Error: "@ + d@,
    }
}

impl ApiError {
    /// The text this error displays.
    pub fn message(&self) -> (res: String)
        ensures
            res@ == api_error_text(*self),
    {
        match self {
            ApiError::NotFound => String::from_str("Not Found"),
            ApiError::InternalServerError => String::from_str("Internal Server Error"),
            ApiError::HttpRequestError(d) => prefixed("HTTP Request Error: ", d),
            ApiError::IoError(d) => prefixed("IO Error: ", d),
            ApiError::JsonError(d) => prefixed("JSON Error: ", d),
            ApiError::ActixWsError(d) => prefixed("Actix Web Socket Error: ", d),
            ApiError::WebDataError(d) => prefixed("Web Data Error: ", d),
        }
    }
}

} // verus!
