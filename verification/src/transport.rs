//! The socket's edges: what the sending actor writes, and the errors the
//! sending and receiving actors report.

use vstd::prelude::*;

use crate::codec::{encodable, encode_packet, encoding, unencodable_error};
use crate::failure::{error_with_detail, send_error, ErrorKind, ErrorMessage};
use crate::packet::OutgoingPacket;

verus! {

/// The bytes to write for `packet`: refused when the writer is not set up
/// yet or the packet cannot be encoded.
pub fn prepare_write(writer_ready: bool, packet: &OutgoingPacket) -> (r: Result<Vec<u8>, ErrorMessage>)
    ensures
        !writer_ready ==> (r matches Err(e) && e.kind == ErrorKind::NotFound && e.message@ == "Writer is none"@),
        writer_ready ==> (r is Ok <==> encodable(packet@)),
        writer_ready ==> (r matches Ok(bytes) ==> bytes@ == encoding(packet@)),
        writer_ready ==> (r matches Err(e) ==> e.kind == ErrorKind::Interrupted && e.message@ == unencodable_error()),
{
    if !writer_ready {
        return Err(send_error(ErrorKind::NotFound, "Writer is none"));
    }
    encode_packet(packet)
}

/// The error reported when the writer fails (`detail`: the failure's text);
/// the client then stops.
pub fn writer_error(detail: &str) -> (e: ErrorMessage)
    ensures
        e.kind == ErrorKind::Interrupted,
        e.message@ == detail@,
{
    ErrorMessage { kind: ErrorKind::Interrupted, message: String::from_str(detail) }
}

/// The error reported when a received packet cannot be handed to the
/// dispatcher (`detail`: the failure's text).
pub fn forward_error(detail: &str) -> (e: ErrorMessage)
    ensures
        e.kind == ErrorKind::Interrupted,
        e.message@ == "Error when sending packet: "@ + detail@,
{
    error_with_detail(ErrorKind::Interrupted, "Error when sending packet: ", detail)
}

/// The error reported when the bytes received do not parse as a packet
/// (`detail`: the parser's error); the client then stops.
pub fn parse_error(detail: &str) -> (e: ErrorMessage)
    ensures
        e.kind == ErrorKind::Interrupted,
        e.message@ == "Error when parsing packet: "@ + detail@,
{
    error_with_detail(ErrorKind::Interrupted, "Error when parsing packet: ", detail)
}

/// The error reported when the receiving actor has no stream to read; the
/// client then stops.
pub fn missing_stream_error() -> (e: ErrorMessage)
    ensures
        e.kind == ErrorKind::NotFound,
        e.message@ == "Failed to create packet stream: input stream is None"@,
{
    send_error(ErrorKind::NotFound, "Failed to create packet stream: input stream is None")
}

} // verus!
