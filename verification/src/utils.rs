//! Convenience builders for assembling a message outside the
//! request/response pairing of [`Protocol`].

use vstd::prelude::*;

use crate::protocol::spec_body_bytes;
use crate::protocol::spec_header_bytes;
use crate::protocol::Command;
use crate::protocol::Header;
use crate::protocol::Protocol;
use crate::protocol::Type;
use crate::protocol::HEADER_BYTES;
use crate::requests::PullRequest;

verus! {

/// Build the encoded header for a request or a response.
pub fn build_header(_type: Type, command: Command, body_size: u64) -> (r: Vec<u8>)
    ensures
        r@ == spec_header_bytes(Header { _type, command, length: body_size }),
        r@.len() == HEADER_BYTES,
{
    Protocol::write_header(_type, command, body_size)
}

/// Build the encoded body for a pull request.
pub fn build_body(body: &PullRequest) -> (r: Vec<u8>)
    ensures
        r@ == spec_body_bytes(body.image@),
{
    Protocol::write_body(body)
}

/// Build a message from an encoded header and an encoded body.
pub fn build_message(header: Vec<u8>, body: Vec<u8>) -> (r: Vec<u8>)
    ensures
        r@ == header@ + body@,
{
    Protocol::write_message(header, body)
}

} // verus!
