//! The client side: the parsed command surface and the message builder.
//!
//! The client connects once, builds one request message — encode the body,
//! measure it, encode a request header carrying that length, concatenate —
//! and writes it in one logical send.  Connecting and writing are socket
//! work and live in the surrounding binary; what stands here is the exact
//! content of the bytes it sends.

use vstd::prelude::*;
use vstd::utf8::encode_utf8;

use crate::error::DecodeError;
use crate::protocol::lemma_body_round_trip;
use crate::protocol::lemma_header_round_trip;
use crate::protocol::lemma_header_size_fixed;
use crate::protocol::spec_body_bytes;
use crate::protocol::spec_decode_body;
use crate::protocol::spec_decode_header;
use crate::protocol::spec_header_bytes;
use crate::protocol::Command;
use crate::protocol::Header;
use crate::protocol::Protocol;
use crate::protocol::Type;
use crate::protocol::HEADER_BYTES;
use crate::protocol::STRING_DELIMITER;
use crate::requests::PullRequest;

verus! {

/// The parsed command line of the client.
#[derive(Debug)]
pub struct ClapCli {
    pub command: Option<Commands>,
}

/// The subcommands the client understands.
#[derive(Debug)]
pub enum Commands {
    /// Pull an image from the registry.
    Pull { image: String },
}

/// The exact message a pull request puts on the wire: a request header
/// whose length field is the encoded body's byte count, then the body.
pub open spec fn spec_pull_message(image: Seq<char>) -> Seq<u8> {
    let body = spec_body_bytes(image);
    spec_header_bytes(
        Header { _type: Type::Request, command: Command::Pull, length: body.len() as u64 },
    ) + body
}

/// Build the one message a `pull` invocation sends: `MessageType` is
/// always `Request`, the command is `Pull`, and the declared body length is
/// exactly the byte length of the encoded body.
pub fn pull_message(image: &String) -> (r: Vec<u8>)
    ensures
        r@ == spec_pull_message(image@),
{
    let request = PullRequest { image: image.clone() };
    let body_bytes = Protocol::write_body(&request);
    let header_bytes = Protocol::write_header(Type::Request, Command::Pull, body_bytes.len() as u64);
    Protocol::write_message(header_bytes, body_bytes)
}

/// Law: the whole message a pull invocation sends parses back exactly on
/// the receiving side — its first [`HEADER_BYTES`] bytes decode to a
/// request header for `Pull` carrying the body's byte count, and the rest
/// decodes back to the image reference (nonempty and free of the string
/// delimiter byte in its UTF-8 form, as the body format requires).
pub proof fn lemma_pull_message_round_trip(image: Seq<char>)
    requires
        image.len() > 0,
        !encode_utf8(image).contains(STRING_DELIMITER),
    ensures
        ({
            let m = spec_pull_message(image);
            let body = spec_body_bytes(image);
            &&& m.len() == HEADER_BYTES + body.len()
            &&& spec_decode_header(m.subrange(0, HEADER_BYTES as int)) == Ok::<
                Header,
                DecodeError,
            >(Header { _type: Type::Request, command: Command::Pull, length: body.len() as u64 })
            &&& spec_decode_body(m.subrange(HEADER_BYTES as int, m.len() as int)) == Some(image)
        }),
{
    let body = spec_body_bytes(image);
    let h = Header { _type: Type::Request, command: Command::Pull, length: body.len() as u64 };
    let m = spec_pull_message(image);
    lemma_header_size_fixed(h);
    assert(m.subrange(0, HEADER_BYTES as int) =~= spec_header_bytes(h));
    assert(m.subrange(HEADER_BYTES as int, m.len() as int) =~= body);
    lemma_header_round_trip(h);
    lemma_body_round_trip(image);
}

/// Decide what a parsed command line sends: a `pull` builds its request
/// message, no subcommand sends nothing.
pub fn request_message(cli: &ClapCli) -> (r: Option<Vec<u8>>)
    ensures
        cli.command matches Some(Commands::Pull { image }) ==> r matches Some(m) && m@
            == spec_pull_message(image@),
        cli.command is None ==> r is None,
{
    match &cli.command {
        Some(Commands::Pull { image }) => Some(pull_message(image)),
        None => None,
    }
}

} // verus!
