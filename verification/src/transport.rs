//! How messages travel as bytes: one JSON text per line on standard
//! input/output, and length-prefixed JSON texts over TCP.

use crate::decimal::{decimal_text, u64_decimal};
use crate::error::McpError;
use crate::json::{json_compact_text, parsed_json};
use crate::protocol::{message_doc, message_outcome_matches, trim_spec, McpMessage};
use vstd::prelude::*;
use vstd::utf8::{decode_utf8, encode_utf8, valid_utf8};

verus! {

/// One message's JSON text, as it is handed to or taken from a transport.
pub struct MessageFrame(pub String);

impl MessageFrame {
    /// The UTF-8 bytes of the frame's text.
    pub fn as_bytes(&self) -> (r: &[u8])
        ensures
            r@ == encode_utf8(self.0@),
    {
        self.0.as_str().as_bytes()
    }
}

/// Whether a line read from standard input carries a message: lines that
/// are empty or white space only are skipped.
pub fn is_message_line(line: &str) -> (r: bool)
    ensures
        r == (trim_spec(line@).len() != 0),
{
    let t = crate::protocol::str_trim(line);
    !t.is_empty()
}

/// The bytes written to standard output for a frame: its text and a newline.
pub fn line_bytes(frame: &MessageFrame) -> (r: Vec<u8>)
    ensures
        r@ == encode_utf8(frame.0@).push(10u8),
{
    let bytes = frame.as_bytes();
    let mut out: Vec<u8> = Vec::new();
    let mut i: usize = 0;
    while i < bytes.len()
        invariant
            i <= bytes@.len(),
            out@ == bytes@.subrange(0, i as int),
        decreases bytes@.len() - i,
    {
        out.push(bytes[i]);
        i = i + 1;
        proof {
            assert(out@ =~= bytes@.subrange(0, i as int));
        }
    }
    assert(out@ =~= bytes@);
    out.push(10u8);
    out
}

/// A message's frame: its JSON text.
pub fn frame_message(message: &McpMessage) -> (r: Result<MessageFrame, McpError>)
    ensures
        r matches Ok(f) && f.0@ == json_compact_text(message_doc(*message)) && (
        crate::json::json_text_stable(crate::protocol::message_json(message@)) ==> parsed_json(f.0@)
            == Some(crate::protocol::message_json(message@))),
{
    match message.to_json() {
        Ok(text) => Ok(MessageFrame(text)),
        Err(e) => Err(e),
    }
}

/// Reads a frame's text as a message (see `McpMessage::from_json`).
pub fn read_frame(frame: &MessageFrame) -> (r: Result<McpMessage, McpError>)
    ensures
        match parsed_json(frame.0@) {
            Some(m) => message_outcome_matches(m, trim_spec(frame.0@), r),
            None => r matches Err(McpError::Serialization(_)),
        },
{
    McpMessage::from_json(frame.0.as_str())
}

// ---- Length-prefixed frames (TCP)

/// The number of bytes of the length that precedes each payload.
pub const LENGTH_PREFIX_BYTES: usize = 4;

/// A payload length as four big-endian bytes.
pub open spec fn length_prefix(n: u32) -> Seq<u8> {
    seq![
        (n / 0x100_0000) as u8,
        (n / 0x1_0000 % 0x100) as u8,
        (n / 0x100 % 0x100) as u8,
        (n % 0x100) as u8,
    ]
}

/// The length that four big-endian bytes give.
pub open spec fn length_of_prefix(b: Seq<u8>) -> u32 {
    (b[0] * 0x100_0000 + b[1] * 0x1_0000 + b[2] * 0x100 + b[3]) as u32
}

/// The bytes of one length-prefixed frame.
pub open spec fn tcp_frame(payload: Seq<u8>) -> Seq<u8> {
    length_prefix(payload.len() as u32) + payload
}

/// Puts a payload behind its length. A payload longer than `u32::MAX` bytes
/// cannot be framed.
pub fn encode_length_prefixed(payload: &[u8]) -> (r: Result<Vec<u8>, McpError>)
    ensures
        payload@.len() <= u32::MAX ==> (r matches Ok(b) && b@ == tcp_frame(payload@)),
        payload@.len() > u32::MAX ==> (r matches Err(McpError::ProtocolError(m)) && m@
            == "Message too large: "@ + decimal_text(payload@.len() as int)
            + " bytes, exceeds u32 max."@),
{
    let payload_len = payload.len();
    if payload_len > u32::MAX as usize {
        let mut text = "Message too large: ".to_string();
        let number = u64_decimal(payload_len as u64);
        text.append(number.as_str());
        text.append(" bytes, exceeds u32 max.");
        assert(text@ == "Message too large: "@ + number@ + " bytes, exceeds u32 max."@);
        return Err(McpError::ProtocolError(text));
    }
    let n = payload_len as u32;
    let mut out: Vec<u8> = Vec::new();
    out.push((n / 0x100_0000) as u8);
    out.push((n / 0x1_0000 % 0x100) as u8);
    out.push((n / 0x100 % 0x100) as u8);
    out.push((n % 0x100) as u8);
    assert(out@ =~= length_prefix(payload_len as u32));
    let mut i: usize = 0;
    while i < payload.len()
        invariant
            i <= payload@.len(),
            payload_len == payload@.len(),
            out@ == length_prefix(payload_len as u32) + payload@.subrange(0, i as int),
        decreases payload@.len() - i,
    {
        out.push(payload[i]);
        i = i + 1;
        proof {
            assert(out@ =~= length_prefix(payload_len as u32) + payload@.subrange(0, i as int));
        }
    }
    assert(payload@.subrange(0, payload@.len() as int) =~= payload@);
    Ok(out)
}

/// A message as the bytes of a length-prefixed frame: the UTF-8 of its
/// compact JSON text behind the text's length. A text longer than
/// `u32::MAX` bytes cannot be framed.
pub fn encode_tcp_message(message: &McpMessage) -> (r: Result<Vec<u8>, McpError>)
    ensures
        ({
            let payload = tcp_message_payload(*message);
            &&& payload.len() <= u32::MAX ==> (r matches Ok(b) && b@ == tcp_frame(payload))
            &&& payload.len() > u32::MAX ==> (r matches Err(McpError::ProtocolError(m)) && m@
                == "Message too large: "@ + decimal_text(payload.len() as int)
                + " bytes, exceeds u32 max."@)
        }),
{
    let frame = match frame_message(message) {
        Ok(f) => f,
        Err(e) => return Err(e),
    };
    encode_length_prefixed(frame.as_bytes())
}

/// Calls `String::from_utf8`, which accepts exactly the valid UTF-8 byte
/// sequences and decodes them.
#[verifier::external_body]
fn string_from_utf8(bytes: Vec<u8>) -> (r: Result<String, std::string::FromUtf8Error>)
    ensures
        r is Ok <==> valid_utf8(bytes@),
        r matches Ok(s) ==> s@ == decode_utf8(bytes@),
{
    String::from_utf8(bytes)
}

#[verifier::external_type_specification]
#[verifier::external_body]
pub struct ExFromUtf8Error(std::string::FromUtf8Error);

/// Reads a payload as a message: it must be UTF-8 text, which is then read
/// as `McpMessage::from_json` reads it.
pub fn decode_tcp_payload(payload: Vec<u8>) -> (r: Result<McpMessage, McpError>)
    ensures
        !valid_utf8(payload@) ==> (r matches Err(McpError::ProtocolError(m))
            && "Invalid UTF-8 in payload: "@.is_prefix_of(m@)),
        valid_utf8(payload@) ==> match parsed_json(decode_utf8(payload@)) {
            Some(m) => message_outcome_matches(m, trim_spec(decode_utf8(payload@)), r),
            None => r matches Err(McpError::Serialization(_)),
        },
{
    match string_from_utf8(payload) {
        Ok(text) => McpMessage::from_json(text.as_str()),
        Err(e) => {
            let mut m = "Invalid UTF-8 in payload: ".to_string();
            let detail = e.to_string();
            m.append(detail.as_str());
            Err(McpError::ProtocolError(m))
        },
    }
}

/// What the frame reader needs or has.
pub enum FramePoll {
    /// Fewer than four bytes of a length prefix are buffered.
    NeedHeader,
    /// The length is known; this many more payload bytes are needed.
    NeedPayload(usize),
    /// A whole payload.
    Frame(Vec<u8>),
}

#[verifier::external_type_specification]
#[verifier::external_body]
pub struct ExBytesMut(bytes::BytesMut);

/// The bytes that a `BytesMut` holds.
pub uninterp spec fn bytes_mut_contents(b: bytes::BytesMut) -> Seq<u8>;

/// Calls `BytesMut::with_capacity`, which makes an empty buffer. (It panics
/// when the capacity is beyond `isize::MAX` bytes.)
#[verifier::external_body]
fn bytes_with_capacity(capacity: usize) -> (r: bytes::BytesMut)
    requires
        capacity <= isize::MAX,
    ensures
        bytes_mut_contents(r) == Seq::<u8>::empty(),
{
    bytes::BytesMut::with_capacity(capacity)
}

/// Calls `BytesMut::len`.
#[verifier::external_body]
fn bytes_len(b: &bytes::BytesMut) -> (r: usize)
    ensures
        r == bytes_mut_contents(*b).len(),
{
    b.len()
}

/// Calls `BufMut::put_slice`, which `BytesMut` implements by appending the
/// bytes. (Growing the buffer panics beyond `isize::MAX` bytes.)
#[verifier::external_body]
fn bytes_put_slice(b: &mut bytes::BytesMut, data: &[u8])
    requires
        bytes_mut_contents(*old(b)).len() + data@.len() <= isize::MAX,
    ensures
        bytes_mut_contents(*final(b)) == bytes_mut_contents(*old(b)) + data@,
{
    bytes::BufMut::put_slice(b, data)
}

/// Calls `BytesMut::split_to`: the first `at` bytes come out, the rest stay.
/// (It panics when `at` is beyond the length.)
#[verifier::external_body]
fn bytes_split_to(b: &mut bytes::BytesMut, at: usize) -> (r: bytes::BytesMut)
    requires
        at <= bytes_mut_contents(*old(b)).len(),
    ensures
        bytes_mut_contents(r) == bytes_mut_contents(*old(b)).subrange(0, at as int),
        bytes_mut_contents(*final(b)) == bytes_mut_contents(*old(b)).subrange(
            at as int,
            bytes_mut_contents(*old(b)).len() as int,
        ),
{
    b.split_to(at)
}

/// Calls `Buf::get_u32`, which reads four bytes as a big-endian number and
/// takes them off the front. (It panics when fewer than four are left.)
#[verifier::external_body]
fn bytes_get_u32(b: &mut bytes::BytesMut) -> (r: u32)
    requires
        bytes_mut_contents(*old(b)).len() >= 4,
    ensures
        r == length_of_prefix(bytes_mut_contents(*old(b)).subrange(0, 4)),
        bytes_mut_contents(*final(b)) == bytes_mut_contents(*old(b)).subrange(
            4,
            bytes_mut_contents(*old(b)).len() as int,
        ),
{
    bytes::Buf::get_u32(b)
}

/// Copies the bytes out (`to_vec` on the buffer's slice).
#[verifier::external_body]
fn bytes_to_vec(b: &bytes::BytesMut) -> (r: Vec<u8>)
    ensures
        r@ == bytes_mut_contents(*b),
{
    b.to_vec()
}

/// Collects bytes from a stream and cuts them into length-prefixed payloads.
/// Once a length prefix is complete it is taken off the buffer, and the
/// length is kept until the payload is complete.
pub struct FrameReader {
    buffer: bytes::BytesMut,
    pending: Option<usize>,
}

pub struct FrameReaderView {
    pub buffer: Seq<u8>,
    pub pending: Option<nat>,
}

impl View for FrameReader {
    type V = FrameReaderView;

    closed spec fn view(&self) -> FrameReaderView {
        FrameReaderView {
            buffer: bytes_mut_contents(self.buffer),
            pending: match self.pending {
                Some(n) => Some(n as nat),
                None => None,
            },
        }
    }
}

/// What a poll does to a reader's state, and what it gives.
pub enum PollOutcome {
    NeedHeader,
    NeedPayload(nat),
    Frame(Seq<u8>),
}

pub open spec fn poll_spec(s: FrameReaderView) -> (FrameReaderView, PollOutcome) {
    let (buffer, pending) = match s.pending {
        Some(n) => (s.buffer, Some(n)),
        None => if s.buffer.len() >= 4 {
            (s.buffer.subrange(4, s.buffer.len() as int), Some(length_of_prefix(s.buffer.subrange(0, 4)) as nat))
        } else {
            (s.buffer, None)
        },
    };
    match pending {
        None => (FrameReaderView { buffer, pending }, PollOutcome::NeedHeader),
        Some(n) => if buffer.len() < n {
            (FrameReaderView { buffer, pending }, PollOutcome::NeedPayload((n - buffer.len()) as nat))
        } else {
            (
                FrameReaderView { buffer: buffer.subrange(n as int, buffer.len() as int), pending: None },
                PollOutcome::Frame(buffer.subrange(0, n as int)),
            )
        },
    }
}

impl FrameReader {
    pub fn new() -> (r: FrameReader)
        ensures
            r@.buffer == Seq::<u8>::empty(),
            r@.pending is None,
    {
        FrameReader { buffer: bytes_with_capacity(4096), pending: None }
    }

    /// The number of bytes buffered and not yet cut off.
    pub fn buffered(&self) -> (r: usize)
        ensures
            r == self@.buffer.len(),
    {
        bytes_len(&self.buffer)
    }

    /// Appends bytes read from the stream. (A buffer holds at most
    /// `isize::MAX` bytes.)
    pub fn feed(&mut self, bytes: &[u8])
        requires
            old(self)@.buffer.len() + bytes@.len() <= isize::MAX,
        ensures
            final(self)@.buffer == old(self)@.buffer + bytes@,
            final(self)@.pending == old(self)@.pending,
    {
        bytes_put_slice(&mut self.buffer, bytes);
    }

    /// Takes a length prefix off the buffer when one is complete, then a
    /// payload when it is complete.
    pub fn poll(&mut self) -> (r: FramePoll)
        ensures
            final(self)@ == poll_spec(old(self)@).0,
            match (r, poll_spec(old(self)@).1) {
                (FramePoll::NeedHeader, PollOutcome::NeedHeader) => true,
                (FramePoll::NeedPayload(k), PollOutcome::NeedPayload(j)) => k == j,
                (FramePoll::Frame(p), PollOutcome::Frame(q)) => p@ == q,
                _ => false,
            },
    {
        if self.pending.is_none() {
            if bytes_len(&self.buffer) < LENGTH_PREFIX_BYTES {
                return FramePoll::NeedHeader;
            }
            let mut header = bytes_split_to(&mut self.buffer, LENGTH_PREFIX_BYTES);
            assert(bytes_mut_contents(header).subrange(0, 4) =~= bytes_mut_contents(header));
            let n = bytes_get_u32(&mut header) as usize;
            self.pending = Some(n);
        }
        let n = match self.pending {
            Some(n) => n,
            None => 0,
        };
        let available = bytes_len(&self.buffer);
        if available < n {
            return FramePoll::NeedPayload(n - available);
        }
        let payload = bytes_split_to(&mut self.buffer, n);
        self.pending = None;
        FramePoll::Frame(bytes_to_vec(&payload))
    }
}

// ---- Laws

/// Reading the four bytes of a length gives the length back.
pub proof fn law_length_prefix_roundtrip(n: u32)
    ensures
        length_prefix(n).len() == 4,
        length_of_prefix(length_prefix(n)) == n,
{
    let p = length_prefix(n);
    assert(n == (n / 0x100_0000) * 0x100_0000 + (n / 0x1_0000 % 0x100) * 0x1_0000 + (n / 0x100
        % 0x100) * 0x100 + n % 0x100) by (nonlinear_arith);
    assert(p[0] == n / 0x100_0000);
}

/// A length is written as four bytes, most significant first, and four bytes
/// read back as a length in the same order: each byte is worth 256 times the
/// one after it.
pub proof fn law_length_prefix_is_big_endian(n: u32, b: Seq<u8>)
    requires
        b.len() == 4,
    ensures
        length_prefix(n).len() == 4,
        length_prefix(n)[0] * 0x100_0000 + length_prefix(n)[1] * 0x1_0000 + length_prefix(n)[2]
            * 0x100 + length_prefix(n)[3] == n,
        length_of_prefix(b) == b[0] * 0x100_0000 + b[1] * 0x1_0000 + b[2] * 0x100 + b[3],
{
    law_length_prefix_roundtrip(n);
    assert(b[0] * 0x100_0000 + b[1] * 0x1_0000 + b[2] * 0x100 + b[3] <= 0xffff_ffff) by (
    nonlinear_arith)
        requires
            b[0] < 256,
            b[1] < 256,
            b[2] < 256,
            b[3] < 256,
    ;
}

/// A reader that holds no partial frame cuts a frame off the front of its
/// buffer, whatever follows: the payload comes out whole and the bytes after
/// it stay buffered.
pub proof fn law_frame_reader_cuts_frames(payload: Seq<u8>, rest: Seq<u8>)
    requires
        payload.len() <= u32::MAX,
    ensures
        ({
            let s = FrameReaderView { buffer: tcp_frame(payload) + rest, pending: None };
            poll_spec(s) == (
                FrameReaderView { buffer: rest, pending: None },
                PollOutcome::Frame(payload),
            )
        }),
{
    law_length_prefix_roundtrip(payload.len() as u32);
    let b = tcp_frame(payload) + rest;
    assert(b.subrange(0, 4) =~= length_prefix(payload.len() as u32));
    let after = b.subrange(4, b.len() as int);
    assert(after =~= payload + rest);
    assert(after.subrange(payload.len() as int, after.len() as int) =~= rest);
    assert(after.subrange(0, payload.len() as int) =~= payload);
}

/// The bytes that a message is sent as over TCP read back as that message:
/// the reader cuts out the payload, which is the message's JSON text.
pub proof fn law_tcp_message_roundtrip(text: Seq<char>, rest: Seq<u8>)
    requires
        encode_utf8(text).len() <= u32::MAX,
    ensures
        ({
            let s = FrameReaderView { buffer: tcp_frame(encode_utf8(text)) + rest, pending: None };
            &&& poll_spec(s).1 == PollOutcome::Frame(encode_utf8(text))
            &&& valid_utf8(encode_utf8(text))
            &&& decode_utf8(encode_utf8(text)) == text
        }),
{
    law_frame_reader_cuts_frames(encode_utf8(text), rest);
    vstd::utf8::encode_utf8_valid_utf8(text);
    vstd::utf8::encode_utf8_decode_utf8(text);
}

/// Once a frame is complete, bytes that arrive later do not change it: a poll
/// gives the same frame, and the later bytes stay buffered behind the rest.
pub proof fn law_later_bytes_keep_frame(s: FrameReaderView, later: Seq<u8>)
    requires
        poll_spec(s).1 is Frame,
    ensures
        poll_spec(FrameReaderView { buffer: s.buffer + later, pending: s.pending }) == (
            FrameReaderView { buffer: poll_spec(s).0.buffer + later, pending: None },
            poll_spec(s).1,
        ),
{
    let t = FrameReaderView { buffer: s.buffer + later, pending: s.pending };
    match s.pending {
        Some(n) => {
            assert(t.buffer.subrange(0, n as int) =~= s.buffer.subrange(0, n as int));
            assert(t.buffer.subrange(n as int, t.buffer.len() as int) =~= s.buffer.subrange(
                n as int,
                s.buffer.len() as int,
            ) + later);
        },
        None => {
            let head = s.buffer.subrange(0, 4);
            assert(t.buffer.subrange(0, 4) =~= head);
            let body = s.buffer.subrange(4, s.buffer.len() as int);
            let tbody = t.buffer.subrange(4, t.buffer.len() as int);
            assert(tbody =~= body + later);
            let n = length_of_prefix(head) as nat;
            assert(tbody.subrange(0, n as int) =~= body.subrange(0, n as int));
            assert(tbody.subrange(n as int, tbody.len() as int) =~= body.subrange(
                n as int,
                body.len() as int,
            ) + later);
        },
    }
}

/// A reader's state once more bytes have arrived.
pub open spec fn fed(s: FrameReaderView, bytes: Seq<u8>) -> FrameReaderView {
    FrameReaderView { buffer: s.buffer + bytes, pending: s.pending }
}

/// What polling a reader until it needs more bytes gives: the whole frames
/// in order, and the state it is left in.
pub open spec fn drain(s: FrameReaderView) -> (Seq<Seq<u8>>, FrameReaderView)
    decreases 2 * s.buffer.len() + (if s.pending is Some {
        1int
    } else {
        0int
    }),
{
    let (next, outcome) = poll_spec(s);
    match outcome {
        PollOutcome::Frame(p) => {
            let (rest, last) = drain(next);
            (seq![p] + rest, last)
        },
        _ => (Seq::empty(), next),
    }
}

/// What a reader gives when the bytes arrive in the given chunks and it is
/// polled until it needs more after each one.
pub open spec fn read_chunks(s: FrameReaderView, chunks: Seq<Seq<u8>>) -> (
    Seq<Seq<u8>>,
    FrameReaderView,
)
    decreases chunks.len(),
{
    if chunks.len() == 0 {
        drain(s)
    } else {
        let (before, t) = read_chunks(s, chunks.drop_last());
        let (after, u) = drain(fed(t, chunks.last()));
        (before + after, u)
    }
}

/// All the chunks, one after the other.
pub open spec fn chunks_joined(chunks: Seq<Seq<u8>>) -> Seq<u8>
    decreases chunks.len(),
{
    if chunks.len() == 0 {
        Seq::empty()
    } else {
        chunks_joined(chunks.drop_last()) + chunks.last()
    }
}

/// A poll that finds no whole frame loses nothing: feeding more bytes
/// afterwards leaves the reader where feeding them first would have.
pub proof fn law_incomplete_poll_then_feed(s: FrameReaderView, more: Seq<u8>)
    requires
        !(poll_spec(s).1 is Frame),
    ensures
        poll_spec(fed(poll_spec(s).0, more)) == poll_spec(fed(s, more)),
{
    let t = fed(s, more);
    if s.pending is None && s.buffer.len() >= 4 {
        assert(t.buffer.subrange(0, 4) =~= s.buffer.subrange(0, 4));
        assert(t.buffer.subrange(4, t.buffer.len() as int) =~= s.buffer.subrange(
            4,
            s.buffer.len() as int,
        ) + more);
    }
}

proof fn lemma_drain_same_poll(x: FrameReaderView, y: FrameReaderView)
    requires
        poll_spec(x) == poll_spec(y),
    ensures
        drain(x) == drain(y),
{
}

proof fn lemma_drain_fed(s: FrameReaderView, more: Seq<u8>)
    ensures
        drain(fed(s, more)) == (
            drain(s).0 + drain(fed(drain(s).1, more)).0,
            drain(fed(drain(s).1, more)).1,
        ),
    decreases 2 * s.buffer.len() + (if s.pending is Some {
        1int
    } else {
        0int
    }),
{
    let (next, outcome) = poll_spec(s);
    match outcome {
        PollOutcome::Frame(p) => {
            law_later_bytes_keep_frame(s, more);
            assert(fed(s, more) == FrameReaderView { buffer: s.buffer + more, pending: s.pending });
            lemma_drain_fed(next, more);
            assert(seq![p] + (drain(next).0 + drain(fed(drain(next).1, more)).0) =~= (seq![p]
                + drain(next).0) + drain(fed(drain(next).1, more)).0);
        },
        _ => {
            law_incomplete_poll_then_feed(s, more);
            lemma_drain_same_poll(fed(next, more), fed(s, more));
            assert(drain(s).0 =~= Seq::<Seq<u8>>::empty());
            assert(drain(s).0 + drain(fed(next, more)).0 =~= drain(fed(next, more)).0);
        },
    }
}

/// However the bytes are cut into chunks, a reader gives the same frames,
/// in the same order, and is left in the same state, as when all of them
/// arrive at once.
pub proof fn law_chunking_does_not_matter(s: FrameReaderView, chunks: Seq<Seq<u8>>)
    ensures
        read_chunks(s, chunks) == drain(fed(s, chunks_joined(chunks))),
    decreases chunks.len(),
{
    if chunks.len() == 0 {
        assert(s.buffer + Seq::<u8>::empty() =~= s.buffer);
        assert(fed(s, Seq::<u8>::empty()) == s);
    } else {
        let init = chunks.drop_last();
        law_chunking_does_not_matter(s, init);
        let j = chunks_joined(init);
        lemma_drain_fed(fed(s, j), chunks.last());
        assert((s.buffer + j) + chunks.last() =~= s.buffer + chunks_joined(chunks));
        assert(fed(fed(s, j), chunks.last()) == fed(s, chunks_joined(chunks)));
    }
}

/// Two messages sent one after the other come out of a fresh reader in the
/// same order, whatever chunks their bytes arrive in, and nothing is left
/// over.
pub proof fn law_two_frames_in_order(p1: Seq<u8>, p2: Seq<u8>, chunks: Seq<Seq<u8>>)
    requires
        p1.len() <= u32::MAX,
        p2.len() <= u32::MAX,
        chunks_joined(chunks) == tcp_frame(p1) + tcp_frame(p2),
    ensures
        read_chunks(FrameReaderView { buffer: Seq::empty(), pending: None }, chunks) == (
            seq![p1, p2],
            FrameReaderView { buffer: Seq::<u8>::empty(), pending: None },
        ),
{
    let empty = FrameReaderView { buffer: Seq::<u8>::empty(), pending: None };
    law_chunking_does_not_matter(empty, chunks);
    let all = fed(empty, chunks_joined(chunks));
    assert(all.buffer =~= tcp_frame(p1) + (tcp_frame(p2) + Seq::<u8>::empty()));
    law_frame_reader_cuts_frames(p1, tcp_frame(p2) + Seq::<u8>::empty());
    let second = FrameReaderView { buffer: tcp_frame(p2) + Seq::<u8>::empty(), pending: None };
    law_frame_reader_cuts_frames(p2, Seq::<u8>::empty());
    assert(drain(empty) == (Seq::<Seq<u8>>::empty(), empty));
    assert(drain(second) == (seq![p2], empty));
    assert(drain(all) == (seq![p1] + seq![p2], empty));
    assert(seq![p1] + seq![p2] =~= seq![p1, p2]);
}

/// The bytes that `encode_tcp_message` sends for a message.
pub open spec fn tcp_message_payload(m: McpMessage) -> Seq<u8> {
    encode_utf8(json_compact_text(message_doc(m)))
}

/// Two messages sent one after the other with `encode_tcp_message` reach a
/// fresh reader whole and in order, whatever chunks the bytes arrive in:
/// each payload comes out as the UTF-8 of that message's JSON text, which
/// `decode_tcp_payload` then reads.
pub proof fn law_tcp_messages_arrive_in_order(m1: McpMessage, m2: McpMessage, chunks: Seq<Seq<u8>>)
    requires
        tcp_message_payload(m1).len() <= u32::MAX,
        tcp_message_payload(m2).len() <= u32::MAX,
        chunks_joined(chunks) == tcp_frame(tcp_message_payload(m1)) + tcp_frame(
            tcp_message_payload(m2),
        ),
    ensures
        read_chunks(FrameReaderView { buffer: Seq::empty(), pending: None }, chunks) == (
            seq![tcp_message_payload(m1), tcp_message_payload(m2)],
            FrameReaderView { buffer: Seq::<u8>::empty(), pending: None },
        ),
        valid_utf8(tcp_message_payload(m1)),
        decode_utf8(tcp_message_payload(m1)) == json_compact_text(message_doc(m1)),
        valid_utf8(tcp_message_payload(m2)),
        decode_utf8(tcp_message_payload(m2)) == json_compact_text(message_doc(m2)),
{
    law_two_frames_in_order(tcp_message_payload(m1), tcp_message_payload(m2), chunks);
    vstd::utf8::encode_utf8_valid_utf8(json_compact_text(message_doc(m1)));
    vstd::utf8::encode_utf8_decode_utf8(json_compact_text(message_doc(m1)));
    vstd::utf8::encode_utf8_valid_utf8(json_compact_text(message_doc(m2)));
    vstd::utf8::encode_utf8_decode_utf8(json_compact_text(message_doc(m2)));
}

} // verus!
