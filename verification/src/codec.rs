//! The wire format: each message travels as a frame, a length of four bytes,
//! big-endian, followed by that many bytes of UTF-8 text.

use byteorder::{BigEndian, ByteOrder};
use vstd::prelude::*;

verus! {

/// The number of bytes of a frame's length prefix.
pub const HEADER_LEN: usize = 4;

/// Why a stream of bytes gave no message.
#[derive(Clone, Copy, Debug, PartialEq, Eq, Structural)]
pub enum CodecError {
    /// The stream ends before the frame does.
    FramingError,
    /// The frame's payload is not UTF-8 text.
    DecodeError,
}

/// The four bytes that hold `n`, most significant first.
pub open spec fn be_bytes(n: u32) -> Seq<u8> {
    seq![
        (n / 0x100_0000) as u8,
        (n / 0x1_0000 % 0x100) as u8,
        (n / 0x100 % 0x100) as u8,
        (n % 0x100) as u8,
    ]
}

/// The number that the first four bytes hold, most significant first.
pub open spec fn be_value(bytes: Seq<u8>) -> int
    recommends
        bytes.len() >= HEADER_LEN,
{
    bytes[0] * 0x100_0000 + bytes[1] * 0x1_0000 + bytes[2] * 0x100 + bytes[3]
}

/// The frame that carries `text`.
pub open spec fn frame(text: Seq<char>) -> Seq<u8>
    recommends
        vstd::utf8::encode_utf8(text).len() <= u32::MAX,
{
    be_bytes(vstd::utf8::encode_utf8(text).len() as u32) + vstd::utf8::encode_utf8(text)
}

/// Whether the stream holds a whole frame at its start.
pub open spec fn framed(stream: Seq<u8>) -> bool {
    stream.len() >= HEADER_LEN && stream.len() >= HEADER_LEN + be_value(stream)
}

/// The payload of the frame at the start of the stream.
pub open spec fn payload(stream: Seq<u8>) -> Seq<u8>
    recommends
        framed(stream),
{
    stream.subrange(HEADER_LEN as int, HEADER_LEN + be_value(stream))
}

/// What decoding the start of a stream gives: the text of the first frame
/// and the number of bytes that the frame takes, or why there is none.
pub open spec fn decoded(stream: Seq<u8>) -> Result<(Seq<char>, int), CodecError> {
    if !framed(stream) {
        Err(CodecError::FramingError)
    } else if !vstd::utf8::valid_utf8(payload(stream)) {
        Err(CodecError::DecodeError)
    } else {
        Ok((vstd::utf8::decode_utf8(payload(stream)), HEADER_LEN + be_value(stream)))
    }
}

/// Calls `byteorder::ByteOrder::write_u32` of `BigEndian` on a buffer of four
/// bytes: the buffer then holds `n`, most significant byte first.
#[verifier::external_body]
fn write_u32_be(n: u32) -> (bytes: [u8; 4])
    ensures
        bytes@ == be_bytes(n),
{
    let mut bytes = [0u8; 4];
    BigEndian::write_u32(&mut bytes, n);
    bytes
}

/// Calls `byteorder::ByteOrder::read_u32` of `BigEndian`: the number that
/// the first four bytes hold, most significant byte first. The call panics
/// on fewer than four bytes.
#[verifier::external_body]
fn read_u32_be(bytes: &[u8]) -> (n: u32)
    requires
        bytes@.len() >= HEADER_LEN,
    ensures
        n == be_value(bytes@),
{
    BigEndian::read_u32(bytes)
}

/// Calls `std::str::from_utf8`: the bytes as text where they are valid
/// UTF-8, and nothing where they are not. The text's bytes are the input.
#[verifier::external_body]
fn utf8_text(bytes: &[u8]) -> (text: Option<&str>)
    ensures
        text is Some <==> vstd::utf8::valid_utf8(bytes@),
        text is Some ==> vstd::utf8::encode_utf8(text->0@) == bytes@,
{
    match std::str::from_utf8(bytes) {
        Ok(text) => Some(text),
        Err(_) => None,
    }
}

/// Four bytes hold the number that they were made from.
pub proof fn lemma_be_round_trip(n: u32)
    ensures
        be_bytes(n).len() == HEADER_LEN,
        be_value(be_bytes(n)) == n,
{
}

/// The frame of a text decodes to that text and takes the whole frame,
/// whatever follows it in the stream.
pub proof fn lemma_frame_round_trip(text: Seq<char>, rest: Seq<u8>)
    requires
        vstd::utf8::encode_utf8(text).len() <= u32::MAX,
    ensures
        decoded(frame(text) + rest) == Ok::<(Seq<char>, int), CodecError>(
            (text, frame(text).len() as int),
        ),
{
    let body = vstd::utf8::encode_utf8(text);
    let stream = frame(text) + rest;
    lemma_be_round_trip(body.len() as u32);
    assert(be_value(stream) == be_value(be_bytes(body.len() as u32)));
    assert(payload(stream) =~= body);
    vstd::utf8::encode_utf8_valid_utf8(text);
    vstd::utf8::encode_utf8_decode_utf8(text);
}

/// The length prefix of a frame whose payload has `len` bytes.
pub fn frame_header(len: u32) -> (header: [u8; 4])
    ensures
        header@ == be_bytes(len),
{
    write_u32_be(len)
}

/// The payload length that a frame's first four bytes announce, or nothing
/// where there are fewer than four bytes.
pub fn frame_length(header: &[u8]) -> (len: Option<u32>)
    ensures
        len is Some <==> header@.len() >= HEADER_LEN,
        len is Some ==> len->0 == be_value(header@),
{
    if header.len() < HEADER_LEN {
        None
    } else {
        Some(read_u32_be(header))
    }
}

/// The text of a frame's payload, or `DecodeError` where the payload is not
/// valid UTF-8.
pub fn payload_text(payload: &[u8]) -> (text: Result<String, CodecError>)
    ensures
        text is Ok <==> vstd::utf8::valid_utf8(payload@),
        text is Ok ==> text->Ok_0@ == vstd::utf8::decode_utf8(payload@),
        text is Err ==> text->Err_0 == CodecError::DecodeError,
{
    match utf8_text(payload) {
        Some(text) => {
            proof {
                vstd::utf8::encode_utf8_decode_utf8(text@);
            }
            Ok(text.to_owned())
        },
        None => Err(CodecError::DecodeError),
    }
}

/// The frame that carries `text`: the length of its UTF-8 bytes in four
/// bytes, most significant first, and then those bytes.
pub fn encode(text: &str) -> (bytes: Vec<u8>)
    requires
        vstd::utf8::encode_utf8(text@).len() <= u32::MAX,
    ensures
        bytes@ == frame(text@),
{
    let body: &[u8] = text.as_bytes();
    let header: [u8; 4] = write_u32_be(body.len() as u32);
    let mut bytes: Vec<u8> = Vec::new();
    bytes.push(header[0]);
    bytes.push(header[1]);
    bytes.push(header[2]);
    bytes.push(header[3]);
    bytes.extend_from_slice(body);
    assert(bytes@ =~= frame(text@));
    bytes
}

/// Decodes the frame at the start of `stream`: its text, and how many bytes
/// of the stream it takes. `FramingError` where the stream ends before the
/// announced length is complete; `DecodeError` where the payload is not
/// valid UTF-8.
pub fn decode(stream: &[u8]) -> (res: Result<(String, usize), CodecError>)
    ensures
        match res {
            Ok((text, used)) => decoded(stream@) == Ok::<(Seq<char>, int), CodecError>(
                (text@, used as int),
            ),
            Err(e) => decoded(stream@) == Err::<(Seq<char>, int), CodecError>(e),
        },
{
    let len: u32 = match frame_length(stream) {
        Some(len) => len,
        None => {
            return Err(CodecError::FramingError);
        },
    };
    if stream.len() - HEADER_LEN < len as usize {
        return Err(CodecError::FramingError);
    }
    let end: usize = HEADER_LEN + len as usize;
    let body: &[u8] = vstd::slice::slice_subrange(stream, HEADER_LEN, end);
    match payload_text(body) {
        Ok(text) => Ok((text, end)),
        Err(e) => Err(e),
    }
}

/// The bytes that have arrived on a connection and have not been decoded
/// yet. Bytes go in as they arrive, in pieces of any size, and frames come
/// out whole, in the order in which they were sent.
pub struct FrameBuffer {
    pending: Vec<u8>,
}

impl View for FrameBuffer {
    type V = Seq<u8>;

    /// The bytes not decoded yet, oldest first.
    closed spec fn view(&self) -> Seq<u8> {
        self.pending@
    }
}

impl FrameBuffer {
    /// A buffer without bytes.
    pub fn new() -> (buffer: FrameBuffer)
        ensures
            buffer@ == Seq::<u8>::empty(),
    {
        FrameBuffer { pending: Vec::new() }
    }

    /// The number of bytes not decoded yet. Bytes that are left when the
    /// connection closes are a frame cut short.
    pub fn len(&self) -> (len: usize)
        ensures
            len == self@.len(),
    {
        self.pending.len()
    }

    /// Takes in bytes that have just arrived.
    pub fn extend(&mut self, chunk: &[u8])
        ensures
            final(self)@ == old(self)@ + chunk@,
    {
        self.pending.extend_from_slice(chunk);
        assert(self@ =~= old(self)@ + chunk@);
    }

    /// Takes the first frame out of the buffer, if it is there in full.
    /// With less than a whole frame in the buffer, nothing comes out and
    /// the buffer stays as it is. A whole frame leaves the buffer and comes
    /// out as its text, or as `DecodeError` where its payload is not valid
    /// UTF-8; what follows the frame stays.
    pub fn next_frame(&mut self) -> (res: Option<Result<String, CodecError>>)
        ensures
            res is None <==> !framed(old(self)@),
            res is None ==> final(self)@ == old(self)@,
            res is Some ==> final(self)@ == old(self)@.skip(HEADER_LEN + be_value(old(self)@)),
            match res {
                Some(Ok(text)) => decoded(old(self)@) == Ok::<(Seq<char>, int), CodecError>(
                    (text@, HEADER_LEN + be_value(old(self)@)),
                ),
                Some(Err(e)) => e == CodecError::DecodeError && decoded(old(self)@) == Err::<
                    (Seq<char>, int),
                    CodecError,
                >(e),
                None => true,
            },
    {
        let len: u32 = match frame_length(self.pending.as_slice()) {
            Some(len) => len,
            None => {
                return None;
            },
        };
        if self.pending.len() - HEADER_LEN < len as usize {
            return None;
        }
        let end: usize = HEADER_LEN + len as usize;
        let mut rest: Vec<u8> = self.pending.split_off(end);
        let text = payload_text(vstd::slice::slice_subrange(self.pending.as_slice(), HEADER_LEN, end));
        assert(self.pending@.subrange(HEADER_LEN as int, end as int) =~= payload(old(self)@));
        self.pending.clear();
        self.pending.append(&mut rest);
        assert(self@ =~= old(self)@.skip(end as int));
        Some(text)
    }
}

/// Frames come out of a buffer in the order in which they went in: with
/// the frames of two texts at the start of a stream, the first decodes to
/// the first text, and what is left after it starts with the frame of the
/// second.
pub proof fn lemma_frames_in_order(first: Seq<char>, second: Seq<char>, rest: Seq<u8>)
    requires
        vstd::utf8::encode_utf8(first).len() <= u32::MAX,
        vstd::utf8::encode_utf8(second).len() <= u32::MAX,
    ensures
        ({
            let stream = frame(first) + frame(second) + rest;
            let used = frame(first).len() as int;
            &&& decoded(stream) == Ok::<(Seq<char>, int), CodecError>((first, used))
            &&& stream.skip(used) == frame(second) + rest
            &&& decoded(stream.skip(used)) == Ok::<(Seq<char>, int), CodecError>(
                (second, frame(second).len() as int),
            )
        }),
{
    let stream = frame(first) + frame(second) + rest;
    let used = frame(first).len() as int;
    assert(stream =~= frame(first) + (frame(second) + rest));
    lemma_frame_round_trip(first, frame(second) + rest);
    assert(stream.skip(used) =~= frame(second) + rest);
    lemma_frame_round_trip(second, rest);
}

} // verus!
