//! The web API: the commands its requests give the server handler and the
//! bodies of its answers.
use crate::error::SubstrateError;
use crate::handler::{Command, ServerCreateRequest};
use vstd::prelude::*;
use vstd::string::*;

verus! {

/// The MessagePack encoding of an unsigned integer in its shortest form: a
/// positive fixint below 128, else the `uint 8`, `uint 16` or `uint 32` form
/// with its marker byte followed by the value in big-endian order.
pub open spec fn msgpack_uint(v: u32) -> Seq<u8> {
    if v < 128 {
        seq![v as u8]
    } else if v < 256 {
        seq![0xccu8, v as u8]
    } else if v < 65536 {
        seq![0xcdu8, (v / 256) as u8, (v % 256) as u8]
    } else {
        seq![
            0xceu8,
            (v / 16777216) as u8,
            ((v / 65536) % 256) as u8,
            ((v / 256) % 256) as u8,
            (v % 256) as u8,
        ]
    }
}

/// Calls `rmp_serde::to_vec` on a `u32`. Its source serialises the value
/// with `rmp::encode::write_uint`, which writes the shortest MessagePack form,
/// and writing to a vector cannot fail, so the result is unwrapped.
#[verifier::external_body]
fn msgpack_of_u32(v: u32) -> (res: Vec<u8>)
    ensures
        res@ == msgpack_uint(v),
{
    rmp_serde::to_vec(&v).unwrap()
}

/// The body of the answer to a creation that gave the server the id `id`:
/// the id encoded as MessagePack.
pub fn indexed_create_reply(id: u32) -> (res: Vec<u8>)
    ensures
        res@ == msgpack_uint(id),
{
    msgpack_of_u32(id)
}

/// A request to create a server: the command for the handler, which runs
/// the creation and reports how it went.
pub fn create_server(request: ServerCreateRequest) -> (res: Command)
    ensures
        res == (Command::CreateServer { request }),
{
    Command::CreateServer { request }
}

/// The answer to a creation request, once the creation ran: the new
/// server's id encoded as MessagePack, or the error the creation failed
/// with (such as `AlreadyExists` for a name that is taken).
pub fn create_reply(outcome: Result<u32, SubstrateError>) -> (res: Result<Vec<u8>, SubstrateError>)
    ensures
        match outcome {
            Ok(id) => res matches Ok(body) && body@ == msgpack_uint(id),
            Err(e) => res == Err::<Vec<u8>, SubstrateError>(e),
        },
{
    match outcome {
        Ok(id) => Ok(indexed_create_reply(id)),
        Err(e) => Err(e),
    }
}

/// A request to delete a server: the command for the handler, and the body
/// of the answer.
pub fn delete_server(name: String) -> (res: (Command, String))
    ensures
        res.0 == (Command::DeleteServer { name }),
        res.1@ == "Server deleted"@,
{
    (Command::DeleteServer { name }, String::from_str("Server deleted"))
}

} // verus!
