//! The framing of a small text protocol over a byte stream: a message is its
//! length in four bytes, most significant first, and then its UTF-8 bytes.
//! A connection opens with a greeting of four bytes from each side.
//!
//! The functions here work on bytes that were read or are to be written;
//! the stream itself is the caller's.

use crate::codec::string_from_utf8;
use crate::text::{decimal, decimal_text};
use vstd::prelude::*;
use vstd::string::*;
use vstd::utf8::*;

verus! {

/// Why a message could not be sent.
#[derive(Debug, Clone, Copy, PartialEq, Eq, Structural)]
pub enum SendError {
    /// The stream failed.
    Io,
}

/// Why a message could not be received.
#[derive(Debug, Clone, Copy, PartialEq, Eq, Structural)]
pub enum RecvError {
    /// The stream failed or ended before the message did.
    Io,
    /// The bytes of the message are not valid UTF-8.
    BadEncoding,
}

/// Why a request got no response.
#[derive(Debug, Clone, Copy, PartialEq, Eq, Structural)]
pub enum RequestError {
    /// The request could not be sent.
    Send(SendError),
    /// The response could not be received.
    Recv(RecvError),
}

/// Why a server could not be bound to its address.
#[derive(Debug, Clone, Copy, PartialEq, Eq, Structural)]
pub enum BindError {
    /// The socket failed.
    Io,
}

/// Why no connection came about.
#[derive(Debug, PartialEq, Eq)]
pub enum ConnectError {
    /// The stream failed.
    Io,
    /// The other side sent a greeting that is not the expected one; the text
    /// says what it sent.
    BadHandshake(String),
}

/// The number of bytes of the length field, and of a greeting.
pub const HEADER_LEN: usize = 4;

/// The four bytes of `n`, most significant first.
pub open spec fn be_bytes(n: int) -> Seq<u8> {
    seq![
        ((n / 0x100_0000) % 256) as u8,
        ((n / 0x1_0000) % 256) as u8,
        ((n / 0x100) % 256) as u8,
        (n % 256) as u8,
    ]
}

/// The number that four bytes spell, most significant first.
pub open spec fn be_value(bytes: Seq<u8>) -> int {
    bytes[0] * 0x100_0000 + bytes[1] * 0x1_0000 + bytes[2] * 0x100 + bytes[3]
}

/// The frame of a message: the length of its encoding, cut to 32 bits, and
/// the encoding.
pub open spec fn spec_frame(text: Seq<char>) -> Seq<u8> {
    be_bytes((encode_utf8(text).len() % 0x1_0000_0000) as int) + encode_utf8(text)
}

/// What reading one message from the start of `input` gives.
pub open spec fn spec_parse(input: Seq<u8>) -> Result<Seq<char>, RecvError> {
    if input.len() < HEADER_LEN {
        Err(RecvError::Io)
    } else {
        let len = be_value(input.subrange(0, HEADER_LEN as int));
        if input.len() < HEADER_LEN + len {
            Err(RecvError::Io)
        } else {
            let payload = input.subrange(HEADER_LEN as int, HEADER_LEN + len);
            if valid_utf8(payload) {
                Ok(decode_utf8(payload))
            } else {
                Err(RecvError::BadEncoding)
            }
        }
    }
}

/// Four bytes spell the number they were made from.
pub proof fn lemma_be_round_trip(n: int)
    requires
        0 <= n < 0x1_0000_0000,
    ensures
        be_bytes(n).len() == 4,
        be_value(be_bytes(n)) == n,
{
}

/// A message that was framed is read back as it was, whatever follows it
/// in the stream, as long as its encoding is shorter than 2^32 bytes.
pub proof fn lemma_parse_frame(text: Seq<char>, rest: Seq<u8>)
    requires
        encode_utf8(text).len() < 0x1_0000_0000,
    ensures
        spec_parse(spec_frame(text) + rest) == Ok::<Seq<char>, RecvError>(text),
{
    let payload = encode_utf8(text);
    let n = payload.len() as int;
    let input = spec_frame(text) + rest;
    lemma_be_round_trip(n);
    assert(input.subrange(0, HEADER_LEN as int) =~= be_bytes(n));
    assert(input.subrange(HEADER_LEN as int, HEADER_LEN + n) =~= payload);
    encode_utf8_valid_utf8(text);
    encode_utf8_decode_utf8(text);
}

/// Frames `data` for sending: four bytes of length, then the bytes of the
/// text. The length field holds the length cut to 32 bits.
pub fn send_comand(data: &str) -> (frame: Vec<u8>)
    ensures
        frame@ == spec_frame(data@),
{
    let bytes = data.as_bytes();
    let total: u64 = bytes.len() as u64;
    let len: u64 = total % 0x1_0000_0000;
    let mut frame: Vec<u8> = Vec::new();
    frame.push(((len / 0x100_0000) % 256) as u8);
    frame.push(((len / 0x1_0000) % 256) as u8);
    frame.push(((len / 0x100) % 256) as u8);
    frame.push((len % 256) as u8);
    let mut i: usize = 0;
    while i < bytes.len()
        invariant
            i <= bytes.len(),
            bytes@ == encode_utf8(data@),
            frame@ == be_bytes(len as int) + bytes@.subrange(0, i as int),
        decreases bytes.len() - i,
    {
        frame.push(bytes[i]);
        proof {
            assert(frame@ =~= be_bytes(len as int) + bytes@.subrange(0, i as int + 1));
        }
        i += 1;
    }
    proof {
        assert(bytes@.subrange(0, bytes@.len() as int) =~= bytes@);
    }
    frame
}

/// Reads one message from the start of `input`, the bytes that the stream
/// gave. Fails with `Io` where the stream ended before the length field or
/// the message did, and with `BadEncoding` where the message is not valid
/// UTF-8.
pub fn recv_status(input: &Vec<u8>) -> (text: Result<String, RecvError>)
    ensures
        text matches Ok(s) ==> spec_parse(input@) == Ok::<Seq<char>, RecvError>(s@),
        text matches Err(e) ==> spec_parse(input@) == Err::<Seq<char>, RecvError>(e),
{
    if input.len() < HEADER_LEN {
        return Err(RecvError::Io);
    }
    let len: u64 = input[0] as u64 * 0x100_0000 + input[1] as u64 * 0x1_0000 + input[2] as u64
        * 0x100 + input[3] as u64;
    proof {
        assert(len == be_value(input@.subrange(0, HEADER_LEN as int)));
    }
    let available: u64 = (input.len() - HEADER_LEN) as u64;
    if available < len {
        return Err(RecvError::Io);
    }
    let end: usize = HEADER_LEN + len as usize;
    let mut payload: Vec<u8> = Vec::new();
    let mut i: usize = HEADER_LEN;
    while i < end
        invariant
            HEADER_LEN <= i <= end <= input@.len(),
            payload@ == input@.subrange(HEADER_LEN as int, i as int),
        decreases end - i,
    {
        payload.push(input[i]);
        proof {
            assert(payload@ =~= input@.subrange(HEADER_LEN as int, i as int + 1));
        }
        i += 1;
    }
    match string_from_utf8(payload) {
        Some(s) => Ok(s),
        None => Err(RecvError::BadEncoding),
    }
}

/// The greeting that a client opens with.
pub open spec fn client_greeting() -> Seq<u8> {
    seq![99u8, 108u8, 110u8, 116u8]
}

/// The greeting that a server answers with.
pub open spec fn server_greeting() -> Seq<u8> {
    seq![115u8, 101u8, 114u8, 118u8]
}

/// The text that says which four bytes came instead of a greeting.
pub open spec fn received_text(bytes: Seq<u8>) -> Seq<char> {
    "received: ["@ + decimal(bytes[0] as nat) + ", "@ + decimal(bytes[1] as nat) + ", "@
        + decimal(bytes[2] as nat) + ", "@ + decimal(bytes[3] as nat) + "]"@
}

/// The greeting that a client opens with: the letters `clnt`.
pub fn client_hello() -> (greeting: Vec<u8>)
    ensures
        greeting@ == client_greeting(),
{
    let mut greeting: Vec<u8> = Vec::new();
    greeting.push(99);
    greeting.push(108);
    greeting.push(110);
    greeting.push(116);
    proof {
        assert(greeting@ =~= client_greeting());
    }
    greeting
}

/// The greeting that a server answers with: the letters `serv`.
pub fn server_hello() -> (greeting: Vec<u8>)
    ensures
        greeting@ == server_greeting(),
{
    let mut greeting: Vec<u8> = Vec::new();
    greeting.push(115);
    greeting.push(101);
    greeting.push(114);
    greeting.push(118);
    proof {
        assert(greeting@ =~= server_greeting());
    }
    greeting
}

fn received(bytes: &[u8; 4]) -> (text: String)
    ensures
        text@ == received_text(bytes@),
{
    let mut text = "received: [".to_owned();
    let first = decimal_text(bytes[0]);
    text.append(first.as_str());
    text.append(", ");
    let second = decimal_text(bytes[1]);
    text.append(second.as_str());
    text.append(", ");
    let third = decimal_text(bytes[2]);
    text.append(third.as_str());
    text.append(", ");
    let fourth = decimal_text(bytes[3]);
    text.append(fourth.as_str());
    text.append("]");
    text
}

/// The client's part of the handshake, after it has sent its greeting and
/// read four bytes: they must be the server's greeting.
pub fn client_handshake(answer: &[u8; 4]) -> (outcome: Result<(), ConnectError>)
    ensures
        outcome is Ok <==> answer@ == server_greeting(),
        outcome matches Err(e) ==> (e matches ConnectError::BadHandshake(said) && said@
            == received_text(answer@)),
{
    if answer[0] == 115 && answer[1] == 101 && answer[2] == 114 && answer[3] == 118 {
        proof {
            assert(answer@ =~= server_greeting());
        }
        Ok(())
    } else {
        Err(ConnectError::BadHandshake(received(answer)))
    }
}

/// The server's part of the handshake, after it has read four bytes: they
/// must be the client's greeting, and then the server's greeting is to be
/// sent.
pub fn server_handshake(greeting: &[u8; 4]) -> (outcome: Result<Vec<u8>, ConnectError>)
    ensures
        outcome is Ok <==> greeting@ == client_greeting(),
        outcome matches Ok(answer) ==> answer@ == server_greeting(),
        outcome matches Err(e) ==> (e matches ConnectError::BadHandshake(said) && said@
            == received_text(greeting@)),
{
    if greeting[0] == 99 && greeting[1] == 108 && greeting[2] == 110 && greeting[3] == 116 {
        proof {
            assert(greeting@ =~= client_greeting());
        }
        Ok(server_hello())
    } else {
        Err(ConnectError::BadHandshake(received(greeting)))
    }
}

/// The outcome of a request: what sending made of it, then what receiving
/// gave.
pub fn send_request(sent: Result<(), SendError>, input: &Vec<u8>) -> (response: Result<
    String,
    RequestError,
>)
    ensures
        sent matches Err(e) ==> response == Err::<String, RequestError>(RequestError::Send(e)),
        sent is Ok ==> (match response {
            Ok(s) => spec_parse(input@) == Ok::<Seq<char>, RecvError>(s@),
            Err(e) => e matches RequestError::Recv(r) && spec_parse(input@) == Err::<
                Seq<char>,
                RecvError,
            >(r),
        }),
{
    match sent {
        Err(e) => Err(RequestError::Send(e)),
        Ok(()) => match recv_status(input) {
            Ok(s) => Ok(s),
            Err(e) => Err(RequestError::Recv(e)),
        },
    }
}

} // verus!
