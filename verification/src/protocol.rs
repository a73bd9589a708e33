//! The wire format of a message header and its codec.
//!
//! A message on the wire is `Header || Body`.  The header has a fixed
//! encoded size, [`HEADER_BYTES`], and a fixed layout: one byte for the
//! message type, one byte for the command, and the body length as a
//! fixed-width 64-bit little-endian integer.  The enums are encoded by
//! explicit tag functions rather than by any native enum layout, so both
//! ends of the socket agree on the bytes.

use vstd::bytes::lemma_auto_spec_u64_to_from_le_bytes;
use vstd::bytes::spec_u64_from_le_bytes;
use vstd::bytes::spec_u64_to_le_bytes;
use vstd::bytes::u64_from_le_bytes;
use vstd::bytes::u64_to_le_bytes;
use vstd::prelude::*;
use vstd::slice::slice_subrange;
use vstd::utf8::decode_utf8;
use vstd::utf8::encode_utf8;
use vstd::utf8::encode_utf8_decode_utf8;
use vstd::utf8::encode_utf8_valid_utf8;
use vstd::utf8::valid_utf8;

use crate::error::DecodeError;
use crate::requests::PullRequest;

verus! {

/// Whether a header begins a request or a reply.
#[derive(Clone, Copy, Debug, PartialEq, Eq, Structural)]
pub enum Type {
    Request,
    Response,
}

/// The operation a decoded message routes to.  A closed set: the wire tags
/// are assigned by [`command_code`] and extending the protocol means adding
/// a variant there.
#[derive(Clone, Copy, Debug, PartialEq, Eq, Structural)]
pub enum Command {
    Pull,
    Run,
    Stop,
    Rm,
    Ps,
    Images,
    Logs,
    Exec,
    Tag,
}

/// The fixed-size prefix of every message: its type, its command, and the
/// exact byte length of the body that follows it on the wire.
#[derive(Clone, Copy, Debug, PartialEq, Eq, Structural)]
pub struct Header {
    pub _type: Type,
    pub command: Command,
    pub length: u64,
}

/// The encoded size of a header: 1 tag byte for the type, 1 for the
/// command, 8 for the body length.  Constant for all field values; both
/// ends rely on it, since the header carries no self-describing length.
pub const HEADER_BYTES: usize = 10;

impl Header {
    /// Create a new header.
    pub fn new(_type: Type, command: Command, length: u64) -> (h: Header)
        ensures
            h == (Header { _type, command, length }),
    {
        Header { _type, command, length }
    }
}

/// The wire tag of a message type.
pub open spec fn type_code(t: Type) -> u8 {
    match t {
        Type::Request => 1,
        Type::Response => 2,
    }
}

/// The message type a wire tag stands for; `None` for an unknown tag.
pub open spec fn type_of_code(code: u8) -> Option<Type> {
    if code == 1 {
        Some(Type::Request)
    } else if code == 2 {
        Some(Type::Response)
    } else {
        None
    }
}

/// The wire tag of a command.
pub open spec fn command_code(c: Command) -> u8 {
    match c {
        Command::Pull => 1,
        Command::Run => 2,
        Command::Stop => 3,
        Command::Rm => 4,
        Command::Ps => 5,
        Command::Images => 6,
        Command::Logs => 7,
        Command::Exec => 8,
        Command::Tag => 9,
    }
}

/// The command a wire tag stands for; `None` for an unknown tag.
pub open spec fn command_of_code(code: u8) -> Option<Command> {
    if code == 1 {
        Some(Command::Pull)
    } else if code == 2 {
        Some(Command::Run)
    } else if code == 3 {
        Some(Command::Stop)
    } else if code == 4 {
        Some(Command::Rm)
    } else if code == 5 {
        Some(Command::Ps)
    } else if code == 6 {
        Some(Command::Images)
    } else if code == 7 {
        Some(Command::Logs)
    } else if code == 8 {
        Some(Command::Exec)
    } else {
        if code == 9 {
            Some(Command::Tag)
        } else {
            None
        }
    }
}

/// The exact bytes a header encodes to.
pub open spec fn spec_header_bytes(h: Header) -> Seq<u8> {
    seq![type_code(h._type), command_code(h.command)] + spec_u64_to_le_bytes(h.length)
}

/// The exact result of decoding a header buffer: a wrong size or an
/// out-of-range tag is rejected with the matching [`DecodeError`], never
/// mapped to a default variant.
pub open spec fn spec_decode_header(b: Seq<u8>) -> Result<Header, DecodeError> {
    if b.len() != HEADER_BYTES {
        Err(DecodeError::HeaderLength { got: b.len() as usize })
    } else if type_of_code(b[0]) is None {
        Err(DecodeError::UnknownType { code: b[0] })
    } else if command_of_code(b[1]) is None {
        Err(DecodeError::UnknownCommand { code: b[1] })
    } else {
        Ok(
            Header {
                _type: type_of_code(b[0])->Some_0,
                command: command_of_code(b[1])->Some_0,
                length: spec_u64_from_le_bytes(b.subrange(2, HEADER_BYTES as int)),
            },
        )
    }
}

/// Decoding inverts encoding exactly: every header comes back from its own
/// bytes.
pub proof fn lemma_header_round_trip(h: Header)
    ensures
        spec_decode_header(spec_header_bytes(h)) == Ok::<Header, DecodeError>(h),
{
    lemma_auto_spec_u64_to_from_le_bytes();
    let b = spec_header_bytes(h);
    assert(b.subrange(2, HEADER_BYTES as int) =~= spec_u64_to_le_bytes(h.length));
}

/// The encoded size of a header is the same constant for every message
/// type, command and body length.
pub proof fn lemma_header_size_fixed(h: Header)
    ensures
        spec_header_bytes(h).len() == HEADER_BYTES,
{
    lemma_auto_spec_u64_to_from_le_bytes();
}

/// Law: a header buffer carrying an out-of-range message type or command
/// tag never decodes — it fails, it is not mapped to a default variant.
pub proof fn lemma_unknown_discriminant_rejected(b: Seq<u8>)
    requires
        b.len() == HEADER_BYTES,
        type_of_code(b[0]) is None || command_of_code(b[1]) is None,
    ensures
        spec_decode_header(b) is Err,
{
}

fn type_byte(t: Type) -> (r: u8)
    ensures
        r == type_code(t),
{
    match t {
        Type::Request => 1,
        Type::Response => 2,
    }
}

fn type_from_byte(code: u8) -> (r: Option<Type>)
    ensures
        r == type_of_code(code),
{
    if code == 1 {
        Some(Type::Request)
    } else if code == 2 {
        Some(Type::Response)
    } else {
        None
    }
}

fn command_byte(c: Command) -> (r: u8)
    ensures
        r == command_code(c),
{
    match c {
        Command::Pull => 1,
        Command::Run => 2,
        Command::Stop => 3,
        Command::Rm => 4,
        Command::Ps => 5,
        Command::Images => 6,
        Command::Logs => 7,
        Command::Exec => 8,
        Command::Tag => 9,
    }
}

fn command_from_byte(code: u8) -> (r: Option<Command>)
    ensures
        r == command_of_code(code),
{
    if code == 1 {
        Some(Command::Pull)
    } else if code == 2 {
        Some(Command::Run)
    } else if code == 3 {
        Some(Command::Stop)
    } else if code == 4 {
        Some(Command::Rm)
    } else if code == 5 {
        Some(Command::Ps)
    } else if code == 6 {
        Some(Command::Images)
    } else if code == 7 {
        Some(Command::Logs)
    } else if code == 8 {
        Some(Command::Exec)
    } else if code == 9 {
        Some(Command::Tag)
    } else {
        None
    }
}

/// The byte that ends a serialized string in the body format.  The body of
/// a message is produced by the `rust_fr` serializer, which writes a string
/// as its UTF-8 bytes followed by this delimiter.
pub const STRING_DELIMITER: u8 = 134;

/// The exact bytes the body of a pull request encodes to: the UTF-8
/// encoding of the image reference, then the string delimiter.
pub open spec fn spec_body_bytes(image: Seq<char>) -> Seq<u8> {
    encode_utf8(image).push(STRING_DELIMITER)
}

/// The index of the first string delimiter in `b` at position `from` or
/// later; `None` when there is none.
pub open spec fn first_delimiter_from(b: Seq<u8>, from: int) -> Option<int>
    decreases b.len() - from,
{
    if from >= b.len() {
        None
    } else if b[from] == STRING_DELIMITER {
        Some(from)
    } else {
        first_delimiter_from(b, from + 1)
    }
}

/// The payload the body deserializer extracts from `b`: the bytes before
/// the first string delimiter at an index of one or more (it always
/// consumes one byte before looking for the delimiter).  `None` when no
/// such delimiter exists, in which case deserialization fails.
pub open spec fn spec_string_payload(b: Seq<u8>) -> Option<Seq<u8>> {
    match first_delimiter_from(b, 1) {
        Some(i) => Some(b.subrange(0, i)),
        None => None,
    }
}

/// The exact result of decoding a body buffer as a string payload: the
/// decoded characters of the payload before the first delimiter, when that
/// payload is valid UTF-8, and `None` (a decode failure) otherwise.
pub open spec fn spec_decode_body(b: Seq<u8>) -> Option<Seq<char>> {
    match spec_string_payload(b) {
        Some(data) => if valid_utf8(data) {
            Some(decode_utf8(data))
        } else {
            None
        },
        None => None,
    }
}

/// Relies on `rust_fr::serializer::to_bytes`: `serialize_str` writes the
/// string's UTF-8 bytes followed by the string delimiter byte and never
/// returns an error, so serializing a string value cannot fail.
#[verifier::external_body]
fn fr_encode_str(s: &str) -> (r: Vec<u8>)
    ensures
        r@ == encode_utf8(s@).push(STRING_DELIMITER),
{
    rust_fr::serializer::to_bytes(&s).unwrap()
}

/// Relies on `rust_fr::deserializer::from_bytes::<String>`: `parse_str`
/// consumes one byte, then keeps consuming until the next byte is the
/// string delimiter (so the delimiter is found at an index of one or more,
/// and running out of bytes first is an error), takes the consumed bytes as
/// the payload, accepts exactly the valid-UTF-8 payloads, and ignores
/// whatever follows the delimiter.
#[verifier::external_body]
fn fr_decode_string(bytes: &Vec<u8>) -> (r: Result<String, String>)
    ensures
        match spec_decode_body(bytes@) {
            Some(chars) => r matches Ok(s) && s@ == chars,
            None => r is Err,
        },
{
    match rust_fr::deserializer::from_bytes::<String>(bytes.as_slice()) {
        Ok(s) => Ok(s),
        Err(e) => Err(e.to_string()),
    }
}

/// The UTF-8 encoding of a nonempty character sequence is nonempty: every
/// scalar takes at least one byte.
proof fn lemma_encode_utf8_nonempty(chars: Seq<char>)
    requires
        chars.len() > 0,
    ensures
        encode_utf8(chars).len() > 0,
{
    assert(encode_utf8(chars) == vstd::utf8::encode_scalar(chars[0] as u32) + encode_utf8(
        chars.drop_first(),
    ));
}

/// Pins down the delimiter scan: if `b[k]` is the first delimiter at or
/// after `from`, the scan finds exactly `k`.
proof fn lemma_first_delimiter_found(b: Seq<u8>, from: int, k: int)
    requires
        1 <= from <= k < b.len(),
        b[k] == STRING_DELIMITER,
        forall|j: int| from <= j < k ==> b[j] != STRING_DELIMITER,
    ensures
        first_delimiter_from(b, from) == Some(k),
    decreases k - from,
{
    if from < k {
        lemma_first_delimiter_found(b, from + 1, k);
    }
}

/// Law: decoding a body inverts encoding it — every pull request comes back
/// from its own bytes — provided the image reference is nonempty and its
/// UTF-8 encoding does not itself contain the string delimiter byte.  (For
/// the excluded inputs the body format genuinely loses the value: the
/// deserializer unconditionally consumes one byte and stops at the first
/// delimiter it sees.)
pub proof fn lemma_body_round_trip(image: Seq<char>)
    requires
        image.len() > 0,
        !encode_utf8(image).contains(STRING_DELIMITER),
    ensures
        spec_decode_body(spec_body_bytes(image)) == Some(image),
{
    let utf8 = encode_utf8(image);
    let b = spec_body_bytes(image);
    lemma_encode_utf8_nonempty(image);
    assert(forall|j: int| 1 <= j < utf8.len() ==> b[j] != STRING_DELIMITER) by {
        assert(forall|j: int| 0 <= j < utf8.len() ==> utf8[j] != STRING_DELIMITER);
    }
    lemma_first_delimiter_found(b, 1, utf8.len() as int);
    assert(b.subrange(0, utf8.len() as int) =~= utf8);
    encode_utf8_valid_utf8(image);
    encode_utf8_decode_utf8(image);
}

/// Reader/writer pairing of the codec operations for one message.
pub struct Protocol;

impl Protocol {
    /// Encode a header for a request or a response: always exactly
    /// [`HEADER_BYTES`] bytes, whatever the field values.
    pub fn write_header(_type: Type, command: Command, body_size: u64) -> (r: Vec<u8>)
        ensures
            r@ == spec_header_bytes(Header { _type, command, length: body_size }),
            r@.len() == HEADER_BYTES,
    {
        let h = Header { _type, command, length: body_size };
        proof {
            lemma_header_size_fixed(h);
        }
        let mut out: Vec<u8> = Vec::new();
        out.push(type_byte(h._type));
        out.push(command_byte(h.command));
        let mut length_bytes = u64_to_le_bytes(h.length);
        out.append(&mut length_bytes);
        proof {
            assert(out@ =~= spec_header_bytes(h));
        }
        out
    }

    /// Decode a header buffer, exactly as [`spec_decode_header`] says:
    /// the result is `Ok` if and only if the buffer has the fixed header
    /// size and both tag bytes are in range.
    pub fn decode_header(bytes: &Vec<u8>) -> (r: Result<Header, DecodeError>)
        ensures
            r == spec_decode_header(bytes@),
    {
        if bytes.len() != HEADER_BYTES {
            return Err(DecodeError::HeaderLength { got: bytes.len() });
        }
        let _type = match type_from_byte(bytes[0]) {
            Some(t) => t,
            None => {
                return Err(DecodeError::UnknownType { code: bytes[0] });
            },
        };
        let command = match command_from_byte(bytes[1]) {
            Some(c) => c,
            None => {
                return Err(DecodeError::UnknownCommand { code: bytes[1] });
            },
        };
        let length = u64_from_le_bytes(slice_subrange(bytes.as_slice(), 2, HEADER_BYTES));
        Ok(Header { _type, command, length })
    }

    /// Encode the body of a pull request.  Deterministic: the bytes are a
    /// function of the image reference alone, so both ends of the socket
    /// agree on the layout.
    pub fn write_body(body: &PullRequest) -> (r: Vec<u8>)
        ensures
            r@ == spec_body_bytes(body.image@),
    {
        fr_encode_str(body.image.as_str())
    }

    /// Decode body bytes into the payload of a `Pull` request, exactly as
    /// [`spec_decode_body`] says: malformed bytes are rejected with
    /// [`DecodeError::MalformedBody`], never mapped to a default value.
    pub fn decode_body(bytes: &Vec<u8>) -> (r: Result<PullRequest, DecodeError>)
        ensures
            match spec_decode_body(bytes@) {
                Some(chars) => r matches Ok(p) && p.image@ == chars,
                None => r matches Err(e) && e matches DecodeError::MalformedBody { .. },
            },
    {
        match fr_decode_string(bytes) {
            Ok(image) => Ok(PullRequest { image }),
            Err(detail) => Err(DecodeError::MalformedBody { detail }),
        }
    }

    /// Concatenate an encoded header and an encoded body into the one
    /// contiguous byte run that goes on the wire.
    pub fn write_message(header: Vec<u8>, body: Vec<u8>) -> (r: Vec<u8>)
        ensures
            r@ == header@ + body@,
    {
        let mut message = header;
        let mut body = body;
        message.append(&mut body);
        message
    }
}

} // verus!
