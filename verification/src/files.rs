//! Checks made before a file is downloaded, written or read: download URLs
//! and responses, the EULA file, and uploaded mods.
use crate::error::{ApiError, SubstrateError};
use crate::text::{seq_contains, str_contains};
use vstd::prelude::*;
use vstd::string::*;

verus! {

/// An empty URL cannot be downloaded: it is refused with `NotFound`.
pub fn check_download_url(url: &str) -> (res: Result<(), SubstrateError>)
    ensures
        match res {
            Ok(()) => url@.len() > 0,
            Err(SubstrateError::NotFound { resource }) => url@.len() == 0 && resource@
                == "Url cant be empty"@,
            Err(_) => false,
        },
{
    if url.is_empty() {
        return Err(SubstrateError::NotFound { resource: String::from_str("Url cant be empty") });
    }
    Ok(())
}

/// An empty URL cannot be downloaded: the web API refuses it with `NotFound`.
pub fn check_api_download_url(url: &str) -> (res: Result<(), ApiError>)
    ensures
        res is Ok <==> url@.len() > 0,
        res is Err ==> res == Err::<(), ApiError>(ApiError::NotFound),
{
    if url.is_empty() {
        return Err(ApiError::NotFound);
    }
    Ok(())
}

/// Whether an HTTP status code reports success (the range 200 to 299).
pub fn status_is_success(code: u16) -> (res: bool)
    ensures
        res == (200 <= code && code < 300),
{
    200 <= code && code < 300
}

/// The outcome of a download response with the given status code: a status
/// other than success is an `HttpStatus` error carrying the response body.
pub fn check_response(code: u16, body: String) -> (res: Result<(), SubstrateError>)
    ensures
        match res {
            Ok(()) => 200 <= code < 300,
            Err(SubstrateError::HttpStatus { body: b }) => !(200 <= code < 300) && b == body,
            Err(_) => false,
        },
{
    if !status_is_success(code) {
        return Err(SubstrateError::HttpStatus { body });
    }
    Ok(())
}

/// The EULA counts as accepted when `eula.txt` contains `eula=true`.
pub fn check_eula(content: &str) -> (res: bool)
    ensures
        res == seq_contains(content@, "eula=true"@),
{
    str_contains(content, "eula=true")
}

/// An `eula.txt` may only be created where none exists yet.
pub fn create_eula(eula_exists: bool) -> (res: Result<(), SubstrateError>)
    ensures
        match res {
            Ok(()) => !eula_exists,
            Err(SubstrateError::AlreadyExists { resource }) => eula_exists && resource@
                == "Eula file is already existing"@,
            Err(_) => false,
        },
{
    if eula_exists {
        return Err(
            SubstrateError::AlreadyExists {
                resource: String::from_str("Eula file is already existing"),
            },
        );
    }
    Ok(())
}

/// A mod file to upload: its content and where to write it.
#[derive(Debug)]
pub struct File {
    pub bytes: Vec<u8>,
    pub path: String,
}

/// An empty mod file is refused with `UploadModError`.
pub fn upload_mod(file: &File) -> (res: Result<(), SubstrateError>)
    ensures
        match res {
            Ok(()) => file.bytes@.len() > 0,
            Err(SubstrateError::UploadModError { message }) => file.bytes@.len() == 0 && message@
                == "Mod file is empty"@,
            Err(_) => false,
        },
{
    if file.bytes.len() == 0 {
        return Err(SubstrateError::UploadModError { message: String::from_str("Mod file is empty") });
    }
    Ok(())
}

/// A file of a server may only be read or written when it exists: a
/// missing file is refused with `NotFound`.
pub fn check_config_file(exists: bool) -> (res: Result<(), ApiError>)
    ensures
        res is Ok <==> exists,
        res is Err ==> res == Err::<(), ApiError>(ApiError::NotFound),
{
    if !exists {
        return Err(ApiError::NotFound);
    }
    Ok(())
}

/// A server can only be deleted when its folder exists; a missing folder
/// is refused with `NotFound`.
pub fn delete_server(folder_exists: bool) -> (res: Result<(), SubstrateError>)
    ensures
        match res {
            Ok(()) => folder_exists,
            Err(SubstrateError::NotFound { resource }) => !folder_exists && resource@
                == "Could not find server directory"@,
            Err(_) => false,
        },
{
    if !folder_exists {
        return Err(
            SubstrateError::NotFound { resource: String::from_str("Could not find server directory") },
        );
    }
    Ok(())
}

} // verus!
