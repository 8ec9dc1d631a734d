//! The fetch bridge: the watch side of a request/response protocol over a
//! message channel, with chunked responses, acknowledged streams and CRC-32
//! checked frames. Messages arrive already split into fields
//! ([`BridgeMessage`]) and leave as typed values ([`BridgeReply`]).
use vstd::prelude::*;
use vstd::string::StringSliceAdditionalSpecFns;

use crate::codec::{base64_decode, base64_standard_decoded};
use crate::model::opt_string_view;
use crate::registry::Registry;
use crate::text::{
    ascii_lowercase, crc32, hex_lower, hex_lower_bytes, hex_upper, hex_upper_bytes, lemma_hex_digits, crc32_value, decimal, hex8_lower, push_decimal, push_hex8_lower,
    str_eq, to_ascii_lowercase,
};

verus! {

pub const PROTOCOL_VERSION: u8 = 4;

pub const MAX_CHUNK_SIZE: usize = 2048;

pub const ACK_WINDOW: u8 = 1;

/// The largest response body the bridge assembles.
pub const MAX_RESPONSE_BYTES: usize = 2097152;

/// The most chunks a response may announce: the body limit over the chunk size, rounded up.
pub const MAX_RESPONSE_CHUNKS: usize = 1024;

/// How a request is to be made by the phone.
#[derive(Clone, Debug, PartialEq, Eq)]
pub struct FetchOptions {
    pub method: &'static str,
    pub headers: Vec<(String, String)>,
    pub body: Option<String>,
    pub raw: bool,
    pub stream: bool,
}

impl Default for FetchOptions {
    fn default() -> (o: FetchOptions)
        ensures
            o.method@ == "GET"@,
            o.headers@.len() == 0,
            o.body is None,
            !o.raw,
            !o.stream,
    {
        FetchOptions { method: "GET", headers: Vec::new(), body: None, raw: false, stream: false }
    }
}

/// The capabilities announced in a handshake.
#[derive(Clone, Debug, PartialEq, Eq)]
pub struct Handshake {
    pub count: u8,
    pub version: u8,
    pub stream: bool,
    pub chunk: bool,
    pub max_chunk_size: usize,
    pub encodings: [&'static str; 3],
    pub compressions: [&'static str; 1],
    pub ack: bool,
    pub ack_window: u8,
}

/// A request for the phone to fetch a URL.
#[derive(Clone, Debug, PartialEq, Eq)]
pub struct FetchRequest {
    pub id: String,
    pub url: String,
    pub method: &'static str,
    pub headers: Vec<(String, String)>,
    pub body: Option<String>,
    pub raw: bool,
    pub stream: bool,
}

/// A request to stop a stream.
#[derive(Clone, Debug, PartialEq, Eq)]
pub struct StreamCancel {
    pub id: String,
    pub reason: String,
}

/// A message the bridge sends back while receiving.
#[derive(Clone, Debug, PartialEq, Eq)]
pub enum BridgeReply {
    Handshake(Handshake),
    FetchAck { id: String, ack: usize },
    StreamAck { id: String, ack: u64 },
}

/// The response header of a fetch, field by field; a field is `None` when it
/// is missing or not of the expected JSON type.
#[derive(Clone, Debug, Default, PartialEq, Eq)]
pub struct FetchResponse {
    pub ok: Option<bool>,
    pub status: Option<i64>,
    pub status_text: Option<String>,
    pub stream: Option<bool>,
    pub content_length: Option<u64>,
    pub chunked: Option<bool>,
    pub chunk_count: Option<u64>,
    pub total_bytes: Option<u64>,
    pub body: Option<String>,
    pub body_encoding: Option<String>,
    pub raw: Option<bool>,
    pub compression: Option<String>,
    pub ack: Option<bool>,
    /// The members of `headers`, in order, with the value when it is a string.
    pub headers: Vec<(String, Option<String>)>,
}

/// An incoming message, field by field; a field is `None` when it is missing
/// or not of the expected JSON type. `resp` is present whenever the message has
/// a `resp` member.
#[derive(Clone, Debug, Default, PartialEq, Eq)]
pub struct BridgeMessage {
    pub tag: Option<String>,
    pub id: Option<String>,
    pub count: Option<u64>,
    pub message: Option<String>,
    pub resp: Option<FetchResponse>,
    pub seq: Option<u64>,
    pub data: Option<String>,
    pub crc32: Option<String>,
    pub final_frame: Option<bool>,
    pub total_bytes: Option<u64>,
}

/// What an incoming message amounted to.
#[derive(Clone, Debug, PartialEq, Eq)]
pub enum BridgeEvent {
    HandshakeComplete,
    Response { id: String, status: i32, headers: Registry<String>, body: Vec<u8> },
    StreamOpened { id: String, content_length: Option<u64> },
    StreamChunk { id: String, bytes: Vec<u8> },
    StreamEnded { id: String, total_bytes: u64, bytes: Vec<u8> },
    Failed { id: String, message: String },
    Ignored,
}

/// An event and the replies to send for it.
#[derive(Clone, Debug, PartialEq, Eq)]
pub struct IngestResult {
    pub event: BridgeEvent,
    pub replies: Vec<BridgeReply>,
}

/// Why an incoming message was refused.
#[derive(Clone, Copy, Debug, PartialEq, Eq, Structural)]
pub enum BridgeError {
    Json,
    Protocol,
    UnknownRequest,
    Encoding,
    UnsupportedCompression,
    Checksum,
    Length,
}

/// A chunked response being assembled.
#[derive(Clone, Debug)]
struct ChunkedResponse {
    status: i32,
    headers: Registry<String>,
    encoding: String,
    compression: String,
    total_bytes: usize,
    chunks: Vec<Option<Vec<u8>>>,
    ack: bool,
    frontier: usize,
}

/// A stream being received.
#[derive(Clone, Debug)]
struct StreamResponse {
    encoding: String,
    next: u64,
    received_bytes: u64,
}

/// The abstract state of a chunked response.
pub struct ChunkedView {
    pub status: i32,
    pub headers: Map<Seq<char>, Seq<char>>,
    pub encoding: Seq<char>,
    pub compression: Seq<char>,
    pub total_bytes: nat,
    pub chunks: Seq<Option<Seq<u8>>>,
    pub ack: bool,
    pub frontier: nat,
}

/// The abstract state of a stream.
pub struct StreamView {
    pub encoding: Seq<char>,
    pub next: u64,
    pub received_bytes: u64,
}

/// The views of optional chunks.
pub open spec fn chunk_seq_view(chunks: Seq<Option<Vec<u8>>>) -> Seq<Option<Seq<u8>>> {
    chunks.map_values(
        |c: Option<Vec<u8>>|
            match c {
                Some(v) => Some(v@),
                None => None,
            },
    )
}

impl View for ChunkedResponse {
    type V = ChunkedView;

    closed spec fn view(&self) -> ChunkedView {
        ChunkedView {
            status: self.status,
            headers: self.headers.map(),
            encoding: self.encoding@,
            compression: self.compression@,
            total_bytes: self.total_bytes as nat,
            chunks: chunk_seq_view(self.chunks@),
            ack: self.ack,
            frontier: self.frontier as nat,
        }
    }
}

impl View for StreamResponse {
    type V = StreamView;

    closed spec fn view(&self) -> StreamView {
        StreamView {
            encoding: self.encoding@,
            next: self.next,
            received_bytes: self.received_bytes,
        }
    }
}

/// The abstract state of the bridge.
pub struct BridgeView {
    pub next_id: u32,
    pub chunked: Map<Seq<char>, ChunkedView>,
    pub streams: Map<Seq<char>, StreamView>,
}

/// The abstract value of an event.
pub enum EventView {
    HandshakeComplete,
    Response { id: Seq<char>, status: i32, headers: Map<Seq<char>, Seq<char>>, body: Seq<u8> },
    StreamOpened { id: Seq<char>, content_length: Option<u64> },
    StreamChunk { id: Seq<char>, bytes: Seq<u8> },
    StreamEnded { id: Seq<char>, total_bytes: u64, bytes: Seq<u8> },
    Failed { id: Seq<char>, message: Seq<char> },
    Ignored,
}

/// The abstract value of a reply.
pub enum ReplyView {
    Handshake(u8),
    FetchAck(Seq<char>, usize),
    StreamAck(Seq<char>, u64),
}

impl View for BridgeEvent {
    type V = EventView;

    open spec fn view(&self) -> EventView {
        match self {
            BridgeEvent::HandshakeComplete => EventView::HandshakeComplete,
            BridgeEvent::Response { id, status, headers, body } => EventView::Response {
                id: id@,
                status: *status,
                headers: headers.map(),
                body: body@,
            },
            BridgeEvent::StreamOpened { id, content_length } => EventView::StreamOpened {
                id: id@,
                content_length: *content_length,
            },
            BridgeEvent::StreamChunk { id, bytes } => EventView::StreamChunk {
                id: id@,
                bytes: bytes@,
            },
            BridgeEvent::StreamEnded { id, total_bytes, bytes } => EventView::StreamEnded {
                id: id@,
                total_bytes: *total_bytes,
                bytes: bytes@,
            },
            BridgeEvent::Failed { id, message } => EventView::Failed {
                id: id@,
                message: message@,
            },
            BridgeEvent::Ignored => EventView::Ignored,
        }
    }
}

impl View for BridgeReply {
    type V = ReplyView;

    open spec fn view(&self) -> ReplyView {
        match self {
            BridgeReply::Handshake(h) => ReplyView::Handshake(h.count),
            BridgeReply::FetchAck { id, ack } => ReplyView::FetchAck(id@, *ack),
            BridgeReply::StreamAck { id, ack } => ReplyView::StreamAck(id@, *ack),
        }
    }
}

/// The views of a sequence of replies.
pub open spec fn replies_view(r: Seq<BridgeReply>) -> Seq<ReplyView> {
    r.map_values(|x: BridgeReply| x@)
}

/// Replies whose views hold no handshake hold none.
proof fn lemma_no_handshake(r: Result<IngestResult, BridgeError>)
    requires
        r matches Ok(o) ==> forall|i: int|
            0 <= i < o.replies@.len() ==> !(#[trigger] replies_view(o.replies@)[i] is Handshake),
    ensures
        r matches Ok(o) ==> forall|i: int|
            0 <= i < o.replies@.len() ==> (#[trigger] o.replies@[i] matches BridgeReply::Handshake(
                h,
            ) ==> handshake_spec(h, h.count)),
{
    if let Ok(o) = r {
        assert forall|i: int| 0 <= i < o.replies@.len() implies (#[trigger] o.replies@[i] matches BridgeReply::Handshake(
            h,
        ) ==> handshake_spec(h, h.count)) by {
            assert(replies_view(o.replies@)[i] == o.replies@[i]@);
        }
    }
}

/// The abstract outcome of an ingest.
pub open spec fn outcome_view(r: Result<IngestResult, BridgeError>) -> Result<
    (EventView, Seq<ReplyView>),
    BridgeError,
> {
    match r {
        Ok(res) => Ok((res.event@, replies_view(res.replies@))),
        Err(e) => Err(e),
    }
}

/// The UTF-8 bytes of a string.
pub open spec fn bytes_of(s: Seq<char>) -> Seq<u8> {
    vstd::utf8::encode_utf8(s)
}

/// The value of a hexadecimal digit byte.
pub open spec fn hex_value(b: u8) -> Option<u8> {
    if 48 <= b <= 57 {
        Some((b - 48) as u8)
    } else if 97 <= b <= 102 {
        Some((b - 87) as u8)
    } else if 65 <= b <= 70 {
        Some((b - 55) as u8)
    } else {
        None
    }
}

/// The bytes that a hexadecimal text stands for: pairs of digits, high digit first.
pub open spec fn hex_decoded(b: Seq<u8>) -> Option<Seq<u8>> {
    if b.len() % 2 != 0 || exists|i: int| 0 <= i < b.len() && #[trigger] hex_value(b[i]) is None {
        None
    } else {
        Some(
            Seq::new(
                b.len() / 2,
                |k: int| (hex_value(b[2 * k]).unwrap() * 16 + hex_value(b[2 * k + 1]).unwrap()) as u8,
            ),
        )
    }
}

/// The bytes that a body in `encoding` stands for.
pub open spec fn decoded(input: Seq<u8>, encoding: Seq<char>) -> Option<Seq<u8>> {
    if encoding == "text"@ {
        Some(input)
    } else if encoding == "base64"@ {
        base64_standard_decoded(input)
    } else if encoding == "hex"@ {
        hex_decoded(input)
    } else {
        None
    }
}

/// The body encoding a response announces.
pub open spec fn encoding_of(resp: FetchResponse) -> Seq<char> {
    match resp.body_encoding {
        Some(e) => e@,
        None => if resp.raw == Some(true) {
            "base64"@
        } else {
            "text"@
        },
    }
}

/// The compression a response announces.
pub open spec fn compression_of(resp: FetchResponse) -> Seq<char> {
    match resp.compression {
        Some(c) => c@,
        None => "none"@,
    }
}

/// The headers of a response: string members, names in lower case, later ones winning.
pub open spec fn header_map(raw: Seq<(String, Option<String>)>) -> Map<Seq<char>, Seq<char>>
    decreases raw.len(),
{
    if raw.len() == 0 {
        Map::empty()
    } else {
        let m = header_map(raw.drop_last());
        match raw.last().1 {
            Some(v) => m.insert(ascii_lowercase(raw.last().0@), v@),
            None => m,
        }
    }
}

/// A non-negative number that fits in `usize`.
pub open spec fn usize_of(v: Option<u64>) -> Option<nat> {
    match v {
        Some(n) => if n <= usize::MAX {
            Some(n as nat)
        } else {
            None
        },
        None => None,
    }
}

/// The first missing chunk at or after `f`.
pub open spec fn advance_frontier(chunks: Seq<Option<Seq<u8>>>, f: nat) -> nat
    decreases chunks.len() - f,
{
    if f >= chunks.len() {
        f
    } else if chunks[f as int] is Some {
        advance_frontier(chunks, f + 1)
    } else {
        f
    }
}

/// The concatenation of present chunks.
pub open spec fn joined_chunks(chunks: Seq<Option<Seq<u8>>>) -> Seq<u8>
    decreases chunks.len(),
{
    if chunks.len() == 0 {
        Seq::empty()
    } else {
        joined_chunks(chunks.drop_last()) + match chunks.last() {
            Some(c) => c,
            None => Seq::empty(),
        }
    }
}

/// The id of a fetch: `lyra-` and the counter in decimal.
pub open spec fn request_id(n: u32) -> Seq<char> {
    "lyra-"@ + decimal(n as nat)
}

/// The counter after issuing an id: one more, skipping zero.
pub open spec fn bumped(n: u32) -> u32 {
    if n == u32::MAX {
        1
    } else {
        (n + 1) as u32
    }
}

/// The effect of a `fetch` response header.
pub open spec fn header_step(
    old: BridgeView,
    msg: BridgeMessage,
    new: BridgeView,
    r: Result<(EventView, Seq<ReplyView>), BridgeError>,
) -> bool {
    match (msg.id, msg.resp) {
        (Some(id), Some(resp)) => {
            let id = id@;
            let status = (match resp.status {
                Some(s) => s,
                None => 0,
            }) as i32;
            if resp.ok != Some(true) {
                &&& new == old
                &&& r == Ok::<(EventView, Seq<ReplyView>), BridgeError>(
                    (
                        EventView::Failed {
                            id,
                            message: match resp.status_text {
                                Some(t) => t@,
                                None => "fetch failed"@,
                            },
                        },
                        Seq::empty(),
                    ),
                )
            } else if resp.stream == Some(true) {
                &&& new == BridgeView {
                    streams: old.streams.insert(
                        id,
                        StreamView { encoding: encoding_of(resp), next: 0, received_bytes: 0 },
                    ),
                    ..old
                }
                &&& r == Ok::<(EventView, Seq<ReplyView>), BridgeError>(
                    (
                        EventView::StreamOpened { id, content_length: resp.content_length },
                        Seq::empty(),
                    ),
                )
            } else if resp.chunked == Some(true) {
                match (usize_of(resp.chunk_count), usize_of(resp.total_bytes)) {
                    (Some(count), Some(total)) => {
                        if count == 0 || count > MAX_RESPONSE_CHUNKS || total > MAX_RESPONSE_BYTES
                            || count * MAX_CHUNK_SIZE < total {
                            new == old && r == Err::<(EventView, Seq<ReplyView>), BridgeError>(
                                BridgeError::Length,
                            )
                        } else {
                            &&& new == BridgeView {
                                chunked: old.chunked.insert(
                                    id,
                                    ChunkedView {
                                        status,
                                        headers: header_map(resp.headers@),
                                        encoding: encoding_of(resp),
                                        compression: compression_of(resp),
                                        total_bytes: total,
                                        chunks: Seq::new(count, |i: int| None),
                                        ack: resp.ack == Some(true),
                                        frontier: 0,
                                    },
                                ),
                                ..old
                            }
                            &&& r == Ok::<(EventView, Seq<ReplyView>), BridgeError>(
                                (EventView::Ignored, Seq::empty()),
                            )
                        }
                    },
                    _ => new == old && r == Err::<(EventView, Seq<ReplyView>), BridgeError>(
                        BridgeError::Protocol,
                    ),
                }
            } else {
                let body = match resp.body {
                    Some(b) => bytes_of(b@),
                    None => Seq::empty(),
                };
                &&& new == old
                &&& match decoded(body, encoding_of(resp)) {
                    None => r == Err::<(EventView, Seq<ReplyView>), BridgeError>(
                        BridgeError::Encoding,
                    ),
                    Some(bytes) => if compression_of(resp) == "none"@ {
                        r == Ok::<(EventView, Seq<ReplyView>), BridgeError>(
                            (
                                EventView::Response {
                                    id,
                                    status,
                                    headers: header_map(resp.headers@),
                                    body: bytes,
                                },
                                Seq::empty(),
                            ),
                        )
                    } else {
                        r == Err::<(EventView, Seq<ReplyView>), BridgeError>(
                            BridgeError::UnsupportedCompression,
                        )
                    },
                }
            }
        },
        _ => new == old && r == Err::<(EventView, Seq<ReplyView>), BridgeError>(
            BridgeError::Protocol,
        ),
    }
}

/// The effect of a chunk of a chunked response.
pub open spec fn chunk_step(
    old: BridgeView,
    msg: BridgeMessage,
    new: BridgeView,
    r: Result<(EventView, Seq<ReplyView>), BridgeError>,
) -> bool {
    match (msg.id, usize_of(msg.seq), msg.data) {
        (Some(id), Some(seq), Some(data)) => {
            let id = id@;
            if !old.chunked.contains_key(id) {
                new == old && r == Err::<(EventView, Seq<ReplyView>), BridgeError>(
                    BridgeError::UnknownRequest,
                )
            } else {
                let slot = old.chunked[id];
                if seq >= slot.chunks.len() {
                    new == old && r == Err::<(EventView, Seq<ReplyView>), BridgeError>(
                        BridgeError::Protocol,
                    )
                } else if slot.chunks[seq as int] is None && decoded(
                    bytes_of(data@),
                    slot.encoding,
                ) is None {
                    new == old && r == Err::<(EventView, Seq<ReplyView>), BridgeError>(
                        BridgeError::Encoding,
                    )
                } else {
                    let chunks = if slot.chunks[seq as int] is None {
                        slot.chunks.update(seq as int, decoded(bytes_of(data@), slot.encoding))
                    } else {
                        slot.chunks
                    };
                    let frontier = advance_frontier(chunks, slot.frontier);
                    let updated = ChunkedView { chunks, frontier, ..slot };
                    let replies = if slot.ack {
                        seq![ReplyView::FetchAck(id, frontier as usize)]
                    } else {
                        Seq::empty()
                    };
                    let body = joined_chunks(chunks);
                    if frontier != chunks.len() {
                        &&& new == BridgeView { chunked: old.chunked.insert(id, updated), ..old }
                        &&& r == Ok::<(EventView, Seq<ReplyView>), BridgeError>(
                            (EventView::Ignored, replies),
                        )
                    } else if slot.compression != "none"@ {
                        &&& new == BridgeView { chunked: old.chunked.insert(id, updated), ..old }
                        &&& r == Err::<(EventView, Seq<ReplyView>), BridgeError>(
                            BridgeError::UnsupportedCompression,
                        )
                    } else if body.len() != slot.total_bytes {
                        &&& new == BridgeView { chunked: old.chunked.insert(id, updated), ..old }
                        &&& r == Err::<(EventView, Seq<ReplyView>), BridgeError>(
                            BridgeError::Length,
                        )
                    } else {
                        &&& new == BridgeView { chunked: old.chunked.remove(id), ..old }
                        &&& r == Ok::<(EventView, Seq<ReplyView>), BridgeError>(
                            (
                                EventView::Response {
                                    id,
                                    status: slot.status,
                                    headers: slot.headers,
                                    body,
                                },
                                replies,
                            ),
                        )
                    }
                }
            }
        },
        _ => new == old && r == Err::<(EventView, Seq<ReplyView>), BridgeError>(
            BridgeError::Protocol,
        ),
    }
}

/// The effect of a frame of a stream.
pub open spec fn stream_step(
    old: BridgeView,
    msg: BridgeMessage,
    new: BridgeView,
    r: Result<(EventView, Seq<ReplyView>), BridgeError>,
) -> bool {
    match (msg.id, msg.seq) {
        (Some(id), Some(seq)) => {
            let id = id@;
            if !old.streams.contains_key(id) {
                new == old && r == Err::<(EventView, Seq<ReplyView>), BridgeError>(
                    BridgeError::UnknownRequest,
                )
            } else {
                let st = old.streams[id];
                if seq < st.next {
                    &&& new == old
                    &&& r == Ok::<(EventView, Seq<ReplyView>), BridgeError>(
                        (EventView::Ignored, seq![ReplyView::StreamAck(id, st.next)]),
                    )
                } else if seq != st.next || st.next == u64::MAX {
                    new == old && r == Err::<(EventView, Seq<ReplyView>), BridgeError>(
                        BridgeError::Protocol,
                    )
                } else {
                    let data = match msg.data {
                        Some(d) => bytes_of(d@),
                        None => Seq::empty(),
                    };
                    match decoded(data, st.encoding) {
                        None => new == old && r == Err::<(EventView, Seq<ReplyView>), BridgeError>(
                            BridgeError::Encoding,
                        ),
                        Some(bytes) => match msg.crc32 {
                            None => new == old && r == Err::<
                                (EventView, Seq<ReplyView>),
                                BridgeError,
                            >(BridgeError::Protocol),
                            Some(expected) => if hex8_lower(crc32(bytes)) != expected@ {
                                new == old && r == Err::<
                                    (EventView, Seq<ReplyView>),
                                    BridgeError,
                                >(BridgeError::Checksum)
                            } else if st.received_bytes + bytes.len() > u64::MAX {
                                new == old && r == Err::<
                                    (EventView, Seq<ReplyView>),
                                    BridgeError,
                                >(BridgeError::Length)
                            } else {
                                let next = (st.next + 1) as u64;
                                let received = (st.received_bytes + bytes.len()) as u64;
                                let advanced = StreamView { next, received_bytes: received, ..st };
                                let ack = seq![ReplyView::StreamAck(id, next)];
                                if msg.final_frame == Some(true) {
                                    let total = match msg.total_bytes {
                                        Some(t) => t,
                                        None => received,
                                    };
                                    if total != received {
                                        &&& new == BridgeView {
                                            streams: old.streams.insert(id, advanced),
                                            ..old
                                        }
                                        &&& r == Err::<(EventView, Seq<ReplyView>), BridgeError>(
                                            BridgeError::Length,
                                        )
                                    } else {
                                        &&& new == BridgeView {
                                            streams: old.streams.remove(id),
                                            ..old
                                        }
                                        &&& r == Ok::<(EventView, Seq<ReplyView>), BridgeError>(
                                            (
                                                EventView::StreamEnded {
                                                    id,
                                                    total_bytes: total,
                                                    bytes,
                                                },
                                                ack,
                                            ),
                                        )
                                    }
                                } else {
                                    &&& new == BridgeView {
                                        streams: old.streams.insert(id, advanced),
                                        ..old
                                    }
                                    &&& r == Ok::<(EventView, Seq<ReplyView>), BridgeError>(
                                        (EventView::StreamChunk { id, bytes }, ack),
                                    )
                                }
                            },
                        },
                    }
                }
            }
        },
        _ => new == old && r == Err::<(EventView, Seq<ReplyView>), BridgeError>(
            BridgeError::Protocol,
        ),
    }
}

/// The effect of any incoming message.
pub open spec fn ingest_step(
    old: BridgeView,
    msg: BridgeMessage,
    new: BridgeView,
    r: Result<(EventView, Seq<ReplyView>), BridgeError>,
) -> bool {
    match msg.tag {
        None => new == old && r == Err::<(EventView, Seq<ReplyView>), BridgeError>(
            BridgeError::Protocol,
        ),
        Some(tag) => if tag@ == "__hs__"@ {
            let count = (match msg.count {
                Some(c) => c,
                None => 0,
            }) as u8;
            &&& new == old
            &&& r == Ok::<(EventView, Seq<ReplyView>), BridgeError>(
                (
                    EventView::HandshakeComplete,
                    if count < 2 {
                        seq![ReplyView::Handshake((count + 1) as u8)]
                    } else {
                        Seq::empty()
                    },
                ),
            )
        } else if tag@ == "fetch"@ {
            header_step(old, msg, new, r)
        } else if tag@ == "fetch-chunk"@ {
            chunk_step(old, msg, new, r)
        } else if tag@ == "fetch-stream"@ {
            stream_step(old, msg, new, r)
        } else if tag@ == "fetch-stream-error"@ {
            match msg.id {
                None => new == old && r == Err::<(EventView, Seq<ReplyView>), BridgeError>(
                    BridgeError::Protocol,
                ),
                Some(id) => {
                    &&& new == BridgeView { streams: old.streams.remove(id@), ..old }
                    &&& r == Ok::<(EventView, Seq<ReplyView>), BridgeError>(
                        (
                            EventView::Failed {
                                id: id@,
                                message: match msg.message {
                                    Some(m) => m@,
                                    None => "stream failed"@,
                                },
                            },
                            Seq::empty(),
                        ),
                    )
                },
            }
        } else {
            new == old && r == Ok::<(EventView, Seq<ReplyView>), BridgeError>(
                (EventView::Ignored, Seq::empty()),
            )
        },
    }
}

/// The value of a hexadecimal digit byte.
fn hex_digit(byte: u8) -> (r: Result<u8, BridgeError>)
    ensures
        match hex_value(byte) {
            Some(v) => r == Ok::<u8, BridgeError>(v),
            None => r == Err::<u8, BridgeError>(BridgeError::Encoding),
        },
{
    if 48 <= byte && byte <= 57 {
        Ok(byte - 48)
    } else if 97 <= byte && byte <= 102 {
        Ok(byte - 87)
    } else if 65 <= byte && byte <= 70 {
        Ok(byte - 55)
    } else {
        Err(BridgeError::Encoding)
    }
}

/// The bytes that a hexadecimal text stands for.
fn decode_hex(input: &[u8]) -> (r: Result<Vec<u8>, BridgeError>)
    ensures
        match hex_decoded(input@) {
            Some(b) => r matches Ok(v) && v@ == b,
            None => r == Err::<Vec<u8>, BridgeError>(BridgeError::Encoding),
        },
{
    if input.len() % 2 != 0 {
        return Err(BridgeError::Encoding);
    }
    let mut output: Vec<u8> = Vec::new();
    let mut i: usize = 0;
    while i < input.len()
        invariant
            input@.len() % 2 == 0,
            i % 2 == 0,
            i <= input@.len(),
            output@.len() == i / 2,
            forall|j: int| 0 <= j < i ==> hex_value(#[trigger] input@[j]) is Some,
            forall|k: int|
                0 <= k < i / 2 ==> #[trigger] output@[k] == (hex_value(input@[2 * k]).unwrap() * 16
                    + hex_value(input@[2 * k + 1]).unwrap()) as u8,
        decreases input@.len() - i,
    {
        let high = match hex_digit(input[i]) {
            Ok(v) => v,
            Err(e) => {
                assert(hex_value(input@[i as int]) is None);
                return Err(e);
            },
        };
        let low = match hex_digit(input[i + 1]) {
            Ok(v) => v,
            Err(e) => {
                assert(hex_value(input@[i + 1]) is None);
                return Err(e);
            },
        };
        output.push(high * 16 + low);
        i = i + 2;
    }
    proof {
        let expected = hex_decoded(input@).unwrap();
        assert(output@ =~= expected);
    }
    Ok(output)
}

/// The bytes that `input` stands for in `encoding`.
fn decode(input: &str, encoding: &str) -> (r: Result<Vec<u8>, BridgeError>)
    ensures
        match decoded(input.spec_bytes(), encoding@) {
            Some(b) => r matches Ok(v) && v@ == b,
            None => r == Err::<Vec<u8>, BridgeError>(BridgeError::Encoding),
        },
{
    if str_eq(encoding, "text") {
        Ok(vstd::slice::slice_to_vec(input.as_bytes()))
    } else if str_eq(encoding, "base64") {
        match base64_decode(input.as_bytes()) {
            Some(v) => Ok(v),
            None => Err(BridgeError::Encoding),
        }
    } else if str_eq(encoding, "hex") {
        decode_hex(input.as_bytes())
    } else {
        Err(BridgeError::Encoding)
    }
}

/// The CRC-32 of `bytes` as eight lower-case hex digits.
pub fn crc32_hex(bytes: &[u8]) -> (r: String)
    ensures
        r@ == hex8_lower(crc32(bytes@)),
{
    let mut out = String::new();
    push_hex8_lower(&mut out, crc32_value(bytes));
    assert(out@ =~= hex8_lower(crc32(bytes@)));
    out
}

/// Where the frontier stops: at or after `f`, every chunk before it present,
/// and at the end or at a missing chunk.
pub proof fn lemma_advance_frontier(chunks: Seq<Option<Seq<u8>>>, f: nat)
    requires
        f <= chunks.len(),
    ensures
        f <= advance_frontier(chunks, f) <= chunks.len(),
        forall|i: int| f <= i < advance_frontier(chunks, f) ==> #[trigger] chunks[i] is Some,
        advance_frontier(chunks, f) < chunks.len() ==> chunks[advance_frontier(chunks, f) as int]
            is None,
    decreases chunks.len() - f,
{
    if f < chunks.len() && chunks[f as int] is Some {
        lemma_advance_frontier(chunks, f + 1);
    }
}

/// The state of each slot: a sensible number of chunks, every chunk before the
/// frontier present, and the frontier at the end or at a missing chunk.
pub open spec fn slot_wf(slot: ChunkedView) -> bool {
    &&& 0 < slot.chunks.len() <= MAX_RESPONSE_CHUNKS
    &&& slot.total_bytes <= MAX_RESPONSE_BYTES
    &&& slot.frontier <= slot.chunks.len()
    &&& forall|i: int| 0 <= i < slot.frontier ==> #[trigger] slot.chunks[i] is Some
}

/// The bridge between the watch and the phone's fetch service.
#[derive(Clone, Debug)]
pub struct FetchBridge {
    next_id: u32,
    chunked: Registry<ChunkedResponse>,
    streams: Registry<StreamResponse>,
}

impl View for FetchBridge {
    type V = BridgeView;

    closed spec fn view(&self) -> BridgeView {
        BridgeView {
            next_id: self.next_id,
            chunked: self.chunked.map(),
            streams: self.streams.map(),
        }
    }
}

/// The capabilities the bridge announces, with `count` held at 2.
pub open spec fn handshake_spec(h: Handshake, count: u8) -> bool {
    &&& h.count == (if count < 2 {
        count
    } else {
        2
    })
    &&& h.version == PROTOCOL_VERSION
    &&& h.stream
    &&& h.chunk
    &&& h.max_chunk_size == MAX_CHUNK_SIZE
    &&& h.encodings[0]@ == "base64"@
    &&& h.encodings[1]@ == "hex"@
    &&& h.encodings[2]@ == "text"@
    &&& h.compressions[0]@ == "none"@
    &&& h.ack
    &&& h.ack_window == ACK_WINDOW
}

/// The headers of a response: string members, names in lower case, later ones winning.
fn response_headers(raw: &Vec<(String, Option<String>)>) -> (r: Registry<String>)
    ensures
        r.wf(),
        r.map() == header_map(raw@),
{
    let mut out: Registry<String> = Registry::new();
    let mut i: usize = 0;
    while i < raw.len()
        invariant
            i <= raw@.len(),
            out.wf(),
            out.map() == header_map(raw@.take(i as int)),
        decreases raw@.len() - i,
    {
        assert(raw@.take(i as int + 1).drop_last() == raw@.take(i as int));
        match &raw[i].1 {
            Some(value) => {
                out.insert(to_ascii_lowercase(raw[i].0.as_str()), value.clone());
            },
            None => {},
        }
        i = i + 1;
    }
    assert(raw@.take(raw@.len() as int) == raw@);
    out
}

/// The body encoding a response announces.
fn encoding(resp: &FetchResponse) -> (r: String)
    ensures
        r@ == encoding_of(*resp),
{
    match &resp.body_encoding {
        Some(e) => e.clone(),
        None => if resp.raw == Some(true) {
            String::from_str("base64")
        } else {
            String::from_str("text")
        },
    }
}

/// The compression a response announces.
fn compression(resp: &FetchResponse) -> (r: String)
    ensures
        r@ == compression_of(*resp),
{
    match &resp.compression {
        Some(c) => c.clone(),
        None => String::from_str("none"),
    }
}

/// A number that fits in `usize`.
fn usize_field(v: Option<u64>) -> (r: Option<usize>)
    ensures
        match usize_of(v) {
            Some(n) => r == Some(n as usize),
            None => r is None,
        },
{
    match v {
        Some(n) => if n <= usize::MAX as u64 {
            Some(n as usize)
        } else {
            None
        },
        None => None,
    }
}

/// An event with no replies.
fn result(event: BridgeEvent) -> (r: IngestResult)
    ensures
        r.event == event,
        r.replies@.len() == 0,
{
    IngestResult { event, replies: Vec::new() }
}

impl FetchBridge {
    /// The registries are well formed and every slot is in order.
    pub closed spec fn wf(&self) -> bool {
        &&& self.chunked.wf()
        &&& self.streams.wf()
        &&& forall|k: Seq<char>|
            #[trigger] self.chunked.map().contains_key(k) ==> slot_wf(self.chunked.map()[k])
    }

    /// A bridge with no requests whose first id is `lyra-1`.
    pub fn new() -> (b: FetchBridge)
        ensures
            b.wf(),
            b@ == (BridgeView {
                next_id: 1,
                chunked: Map::empty(),
                streams: Map::empty(),
            }),
    {
        FetchBridge { next_id: 1, chunked: Registry::new(), streams: Registry::new() }
    }

    /// The handshake message with `count` (held at 2).
    pub fn handshake(&self, count: u8) -> (h: Handshake)
        ensures
            handshake_spec(h, count),
    {
        let h = Handshake {
            count: if count < 2 {
                count
            } else {
                2
            },
            version: PROTOCOL_VERSION,
            stream: true,
            chunk: true,
            max_chunk_size: MAX_CHUNK_SIZE,
            encodings: ["base64", "hex", "text"],
            compressions: ["none"],
            ack: true,
            ack_window: ACK_WINDOW,
        };
        proof {
            reveal_strlit("base64");
            reveal_strlit("hex");
            reveal_strlit("text");
            reveal_strlit("none");
        }
        h
    }

    /// A fetch of `url` under a fresh id; returns the id and the request.
    pub fn fetch(&mut self, url: &str, options: &FetchOptions) -> (r: (String, FetchRequest))
        ensures
            r.0@ == request_id(old(self)@.next_id),
            r.1.id@ == r.0@,
            r.1.url@ == url@,
            r.1.method == options.method,
            r.1.headers.deep_view() == options.headers.deep_view(),
            opt_string_view(r.1.body) == opt_string_view(options.body),
            r.1.raw == options.raw,
            r.1.stream == options.stream,
            final(self)@ == (BridgeView { next_id: bumped(old(self)@.next_id), ..old(self)@ }),
            final(self).wf() == old(self).wf(),
    {
        let mut id = String::from_str("lyra-");
        push_decimal(&mut id, self.next_id as u64);
        self.next_id = if self.next_id == u32::MAX {
            1
        } else {
            self.next_id + 1
        };
        let mut headers: Vec<(String, String)> = Vec::new();
        let mut i: usize = 0;
        while i < options.headers.len()
            invariant
                i <= options.headers@.len(),
                headers@.len() == i,
                forall|j: int|
                    0 <= j < i ==> #[trigger] headers@[j].0@ == options.headers@[j].0@
                        && headers@[j].1@ == options.headers@[j].1@,
            decreases options.headers@.len() - i,
        {
            headers.push((options.headers[i].0.clone(), options.headers[i].1.clone()));
            i = i + 1;
        }
        assert(headers.deep_view() =~= options.headers.deep_view());
        let request = FetchRequest {
            id: id.clone(),
            url: String::from_str(url),
            method: options.method,
            headers,
            body: crate::model::copy_opt_string(&options.body),
            raw: options.raw,
            stream: options.stream,
        };
        proof {
            reveal_strlit("lyra-");
        }
        (id, request)
    }

    /// Forgets the stream `id`; returns the cancellation to send.
    pub fn cancel_stream(&mut self, id: &str, reason: &str) -> (r: StreamCancel)
        requires
            old(self).wf(),
        ensures
            final(self).wf(),
            final(self)@ == (BridgeView { streams: old(self)@.streams.remove(id@), ..old(self)@ }),
            r.id@ == id@,
            r.reason@ == reason@,
    {
        let _ = self.streams.remove(id);
        assert(self.streams.map() =~= old(self).streams.map().remove(id@));
        StreamCancel { id: String::from_str(id), reason: String::from_str(reason) }
    }

    /// Takes one incoming message.
    pub fn ingest(&mut self, msg: &BridgeMessage) -> (r: Result<IngestResult, BridgeError>)
        requires
            old(self).wf(),
        ensures
            final(self).wf(),
            ingest_step(old(self)@, *msg, final(self)@, outcome_view(r)),
            r matches Ok(o) ==> forall|i: int|
                0 <= i < o.replies@.len() ==> (#[trigger] o.replies@[i] matches BridgeReply::Handshake(
                    h,
                ) ==> handshake_spec(h, h.count)),
    {
        let tag = match &msg.tag {
            Some(t) => t,
            None => return Err(BridgeError::Protocol),
        };
        proof {
            reveal_strlit("__hs__");
            reveal_strlit("fetch");
            reveal_strlit("fetch-chunk");
            reveal_strlit("fetch-stream");
            reveal_strlit("fetch-stream-error");
        }
        if str_eq(tag.as_str(), "__hs__") {
            let count = match msg.count {
                Some(c) => #[verifier::truncate] (c as u8),
                None => 0,
            };
            let mut output = result(BridgeEvent::HandshakeComplete);
            if count < 2 {
                output.replies.push(BridgeReply::Handshake(self.handshake(count + 1)));
            }
            assert(replies_view(output.replies@) =~= (if count < 2 {
                seq![ReplyView::Handshake((count + 1) as u8)]
            } else {
                Seq::empty()
            }));
            Ok(output)
        } else if str_eq(tag.as_str(), "fetch") {
            let r = self.ingest_header(msg);
            proof {
                lemma_no_handshake(r);
            }
            r
        } else if str_eq(tag.as_str(), "fetch-chunk") {
            let r = self.ingest_chunk(msg);
            proof {
                lemma_no_handshake(r);
            }
            r
        } else if str_eq(tag.as_str(), "fetch-stream") {
            let r = self.ingest_stream(msg);
            proof {
                lemma_no_handshake(r);
            }
            r
        } else if str_eq(tag.as_str(), "fetch-stream-error") {
            let id = match &msg.id {
                Some(id) => id,
                None => return Err(BridgeError::Protocol),
            };
            let _ = self.streams.remove(id.as_str());
            assert(self.streams.map() =~= old(self).streams.map().remove(id@));
            let message = match &msg.message {
                Some(m) => m.clone(),
                None => String::from_str("stream failed"),
            };
            let r = result(BridgeEvent::Failed { id: id.clone(), message });
            assert(replies_view(r.replies@) =~= Seq::<ReplyView>::empty());
            Ok(r)
        } else {
            let r = result(BridgeEvent::Ignored);
            assert(replies_view(r.replies@) =~= Seq::<ReplyView>::empty());
            Ok(r)
        }
    }

    /// Takes the header of a response.
    pub fn ingest_header(&mut self, msg: &BridgeMessage) -> (r: Result<IngestResult, BridgeError>)
        requires
            old(self).wf(),
        ensures
            final(self).wf(),
            header_step(old(self)@, *msg, final(self)@, outcome_view(r)),
            r matches Ok(o) ==> forall|i: int|
                0 <= i < o.replies@.len() ==> !(#[trigger] replies_view(o.replies@)[i] is Handshake),
    {
        let id = match &msg.id {
            Some(id) => id,
            None => return Err(BridgeError::Protocol),
        };
        let resp = match &msg.resp {
            Some(resp) => resp,
            None => return Err(BridgeError::Protocol),
        };
        let ok = match resp.ok {
            Some(b) => b,
            None => false,
        };
        let status = match resp.status {
            Some(s) => s as i32,
            None => 0,
        };
        if !ok {
            let message = match &resp.status_text {
                Some(t) => t.clone(),
                None => String::from_str("fetch failed"),
            };
            let r = result(BridgeEvent::Failed { id: id.clone(), message });
            assert(replies_view(r.replies@) =~= Seq::<ReplyView>::empty());
            return Ok(r);
        }
        if resp.stream == Some(true) {
            self.streams.insert(
                id.clone(),
                StreamResponse { encoding: encoding(resp), next: 0, received_bytes: 0 },
            );
            let r = result(
                BridgeEvent::StreamOpened { id: id.clone(), content_length: resp.content_length },
            );
            assert(replies_view(r.replies@) =~= Seq::<ReplyView>::empty());
            return Ok(r);
        }
        if resp.chunked == Some(true) {
            let count = match usize_field(resp.chunk_count) {
                Some(c) => c,
                None => return Err(BridgeError::Protocol),
            };
            let total_bytes = match usize_field(resp.total_bytes) {
                Some(t) => t,
                None => return Err(BridgeError::Protocol),
            };
            if count == 0 || count > MAX_RESPONSE_CHUNKS || total_bytes > MAX_RESPONSE_BYTES
                || count * MAX_CHUNK_SIZE < total_bytes {
                return Err(BridgeError::Length);
            }
            let mut chunks: Vec<Option<Vec<u8>>> = Vec::new();
            let mut i: usize = 0;
            while i < count
                invariant
                    i <= count,
                    chunks@.len() == i,
                    forall|j: int| 0 <= j < i ==> #[trigger] chunks@[j] is None,
                decreases count - i,
            {
                chunks.push(None);
                i = i + 1;
            }
            let slot = ChunkedResponse {
                status,
                headers: response_headers(&resp.headers),
                encoding: encoding(resp),
                compression: compression(resp),
                total_bytes,
                chunks,
                ack: resp.ack == Some(true),
                frontier: 0,
            };
            assert(chunk_seq_view(slot.chunks@) =~= Seq::new(count as nat, |i: int| None));
            self.chunked.insert(id.clone(), slot);
            proof {
                assert forall|k: Seq<char>| #[trigger]
                    self.chunked.map().contains_key(k) implies slot_wf(self.chunked.map()[k]) by {
                    if k != id@ {
                        assert(old(self).chunked.map().contains_key(k));
                    }
                }
            }
            let r = result(BridgeEvent::Ignored);
            assert(replies_view(r.replies@) =~= Seq::<ReplyView>::empty());
            return Ok(r);
        }
        let body = match &resp.body {
            Some(b) => b.as_str(),
            None => "",
        };
        proof {
            reveal_strlit("");
            reveal_strlit("none");
            if resp.body is None {
                assert(body.spec_bytes() =~= Seq::<u8>::empty());
            }
        }
        let enc = encoding(resp);
        let bytes = match decode(body, enc.as_str()) {
            Ok(b) => b,
            Err(e) => return Err(e),
        };
        if !str_eq(compression(resp).as_str(), "none") {
            return Err(BridgeError::UnsupportedCompression);
        }
        let r = result(
            BridgeEvent::Response {
                id: id.clone(),
                status,
                headers: response_headers(&resp.headers),
                body: bytes,
            },
        );
        assert(replies_view(r.replies@) =~= Seq::<ReplyView>::empty());
        Ok(r)
    }

    /// Takes a chunk of a chunked response.
    pub fn ingest_chunk(&mut self, msg: &BridgeMessage) -> (r: Result<IngestResult, BridgeError>)
        requires
            old(self).wf(),
        ensures
            final(self).wf(),
            chunk_step(old(self)@, *msg, final(self)@, outcome_view(r)),
            r matches Ok(o) ==> forall|i: int|
                0 <= i < o.replies@.len() ==> !(#[trigger] replies_view(o.replies@)[i] is Handshake),
    {
        let id = match &msg.id {
            Some(id) => id,
            None => return Err(BridgeError::Protocol),
        };
        let seq = match usize_field(msg.seq) {
            Some(s) => s,
            None => return Err(BridgeError::Protocol),
        };
        let data = match &msg.data {
            Some(d) => d,
            None => return Err(BridgeError::Protocol),
        };
        let slot_ref = match self.chunked.get(id.as_str()) {
            Some(s) => s,
            None => return Err(BridgeError::UnknownRequest),
        };
        if seq >= slot_ref.chunks.len() {
            return Err(BridgeError::Protocol);
        }
        let fresh = if slot_ref.chunks[seq].is_none() {
            match decode(data.as_str(), slot_ref.encoding.as_str()) {
                Ok(b) => Some(b),
                Err(e) => return Err(e),
            }
        } else {
            None
        };
        let ghost old_view = slot_ref@;
        let mut slot = match self.chunked.remove(id.as_str()) {
            Some(s) => s,
            None => return Err(BridgeError::UnknownRequest),
        };
        assert(slot@ == old_view);
        match fresh {
            Some(b) => {
                slot.chunks.set(seq, Some(b));
            },
            None => {},
        }
        let ghost chunks = chunk_seq_view(slot.chunks@);
        assert(chunks =~= (if old_view.chunks[seq as int] is None {
            old_view.chunks.update(seq as int, decoded(bytes_of(data@), old_view.encoding))
        } else {
            old_view.chunks
        }));
        proof {
            lemma_advance_frontier(chunks, slot.frontier as nat);
        }
        let ghost pre = slot@;
        while slot.frontier < slot.chunks.len() && slot.chunks[slot.frontier].is_some()
            invariant
                slot@ == (ChunkedView { frontier: slot.frontier as nat, ..pre }),
                chunk_seq_view(slot.chunks@) == chunks,
                old_view.frontier <= slot.frontier <= slot.chunks@.len(),
                advance_frontier(chunks, slot.frontier as nat) == advance_frontier(
                    chunks,
                    old_view.frontier,
                ),
            decreases slot.chunks@.len() - slot.frontier,
        {
            slot.frontier = slot.frontier + 1;
        }
        let ghost frontier = slot.frontier as nat;
        assert(frontier == advance_frontier(chunks, old_view.frontier));
        let mut replies: Vec<BridgeReply> = Vec::new();
        if slot.ack {
            replies.push(BridgeReply::FetchAck { id: id.clone(), ack: slot.frontier });
        }
        let ghost updated = ChunkedView { chunks, frontier, ..old_view };
        assert(slot@ == updated);
        proof {
            assert forall|i: int| 0 <= i < frontier implies #[trigger] chunks[i] is Some by {
                if i < old_view.frontier {
                    assert(old_view.chunks[i] is Some);
                    if i == seq {
                        assert(old_view.chunks[seq as int] is Some);
                    }
                }
            }
            assert(slot_wf(updated));
            assert(replies_view(replies@) =~= (if old_view.ack {
                seq![ReplyView::FetchAck(id@, frontier as usize)]
            } else {
                Seq::empty()
            }));
        }
        if slot.frontier != slot.chunks.len() {
            self.chunked.insert(id.clone(), slot);
            proof {
                self.lemma_slots_after_insert(*old(self), id@, updated);
            }
            return Ok(IngestResult { event: BridgeEvent::Ignored, replies });
        }
        proof {
            reveal_strlit("none");
        }
        if !str_eq(slot.compression.as_str(), "none") {
            self.chunked.insert(id.clone(), slot);
            proof {
                self.lemma_slots_after_insert(*old(self), id@, updated);
            }
            return Err(BridgeError::UnsupportedCompression);
        }
        let mut body: Vec<u8> = Vec::new();
        let mut k: usize = 0;
        while k < slot.chunks.len()
            invariant
                chunk_seq_view(slot.chunks@) == chunks,
                k <= chunks.len(),
                forall|i: int| 0 <= i < chunks.len() ==> #[trigger] chunks[i] is Some,
                body@ == joined_chunks(chunks.take(k as int)),
            decreases chunks.len() - k,
        {
            assert(chunks.take(k as int + 1).drop_last() == chunks.take(k as int));
            match &slot.chunks[k] {
                Some(part) => {
                    let ghost before = body@;
                    body.extend_from_slice(part.as_slice());
                    assert(body@ =~= before + part@);
                },
                None => {
                    assert(chunks[k as int] is Some);
                },
            }
            k = k + 1;
        }
        assert(chunks.take(chunks.len() as int) == chunks);
        if body.len() != slot.total_bytes {
            self.chunked.insert(id.clone(), slot);
            proof {
                self.lemma_slots_after_insert(*old(self), id@, updated);
            }
            return Err(BridgeError::Length);
        }
        proof {
            assert forall|k2: Seq<char>| #[trigger]
                self.chunked.map().contains_key(k2) implies slot_wf(self.chunked.map()[k2]) by {
                assert(old(self).chunked.map().contains_key(k2));
            }
        }
        Ok(
            IngestResult {
                event: BridgeEvent::Response {
                    id: id.clone(),
                    status: slot.status,
                    headers: slot.headers,
                    body,
                },
                replies,
            },
        )
    }

    proof fn lemma_slots_after_insert(&self, old_bridge: FetchBridge, id: Seq<char>, slot: ChunkedView)
        requires
            old_bridge.wf(),
            self.chunked.wf(),
            self.streams.wf(),
            slot_wf(slot),
            self.chunked.map() == old_bridge.chunked.map().remove(id).insert(id, slot),
            self.streams.map() == old_bridge.streams.map(),
            self.next_id == old_bridge.next_id,
        ensures
            self.wf(),
            self@ == (BridgeView { chunked: old_bridge@.chunked.insert(id, slot), ..old_bridge@ }),
    {
        assert(self.chunked.map() =~= old_bridge.chunked.map().insert(id, slot));
        assert forall|k: Seq<char>| #[trigger]
            self.chunked.map().contains_key(k) implies slot_wf(self.chunked.map()[k]) by {
            if k != id {
                assert(old_bridge.chunked.map().contains_key(k));
            }
        }
    }

    /// Takes a frame of a stream.
    pub fn ingest_stream(&mut self, msg: &BridgeMessage) -> (r: Result<IngestResult, BridgeError>)
        requires
            old(self).wf(),
        ensures
            final(self).wf(),
            stream_step(old(self)@, *msg, final(self)@, outcome_view(r)),
            r matches Ok(o) ==> forall|i: int|
                0 <= i < o.replies@.len() ==> !(#[trigger] replies_view(o.replies@)[i] is Handshake),
    {
        let id = match &msg.id {
            Some(id) => id,
            None => return Err(BridgeError::Protocol),
        };
        let seq = match msg.seq {
            Some(s) => s,
            None => return Err(BridgeError::Protocol),
        };
        let st = match self.streams.get(id.as_str()) {
            Some(s) => s,
            None => return Err(BridgeError::UnknownRequest),
        };
        if seq < st.next {
            let mut replies: Vec<BridgeReply> = Vec::new();
            replies.push(BridgeReply::StreamAck { id: id.clone(), ack: st.next });
            assert(replies_view(replies@) =~= seq![ReplyView::StreamAck(id@, st@.next)]);
            return Ok(IngestResult { event: BridgeEvent::Ignored, replies });
        }
        if seq != st.next || st.next == u64::MAX {
            return Err(BridgeError::Protocol);
        }
        let data = match &msg.data {
            Some(d) => d.as_str(),
            None => "",
        };
        proof {
            reveal_strlit("");
            if msg.data is None {
                assert(data.spec_bytes() =~= Seq::<u8>::empty());
            }
        }
        let bytes = match decode(data, st.encoding.as_str()) {
            Ok(b) => b,
            Err(e) => return Err(e),
        };
        let expected = match &msg.crc32 {
            Some(c) => c,
            None => return Err(BridgeError::Protocol),
        };
        if !str_eq(crc32_hex(bytes.as_slice()).as_str(), expected.as_str()) {
            return Err(BridgeError::Checksum);
        }
        let len = bytes.len() as u64;
        if st.received_bytes > u64::MAX - len {
            return Err(BridgeError::Length);
        }
        let ghost old_view = st@;
        let mut stream = match self.streams.remove(id.as_str()) {
            Some(s) => s,
            None => return Err(BridgeError::UnknownRequest),
        };
        stream.next = stream.next + 1;
        stream.received_bytes = stream.received_bytes + len;
        let ack = stream.next;
        let mut replies: Vec<BridgeReply> = Vec::new();
        replies.push(BridgeReply::StreamAck { id: id.clone(), ack });
        assert(replies_view(replies@) =~= seq![ReplyView::StreamAck(id@, ack)]);
        if msg.final_frame == Some(true) {
            let total = match msg.total_bytes {
                Some(t) => t,
                None => stream.received_bytes,
            };
            if total != stream.received_bytes {
                let ghost sv = stream@;
                self.streams.insert(id.clone(), stream);
                assert(self.streams.map() =~= old(self).streams.map().insert(id@, sv));
                return Err(BridgeError::Length);
            }
            return Ok(
                IngestResult {
                    event: BridgeEvent::StreamEnded { id: id.clone(), total_bytes: total, bytes },
                    replies,
                },
            );
        }
        let ghost sv = stream@;
        self.streams.insert(id.clone(), stream);
        assert(self.streams.map() =~= old(self).streams.map().insert(id@, sv));
        Ok(IngestResult { event: BridgeEvent::StreamChunk { id: id.clone(), bytes }, replies })
    }
}

impl Default for FetchBridge {
    fn default() -> (b: FetchBridge)
        ensures
            b.wf(),
            b@ == (BridgeView {
                next_id: 0,
                chunked: Map::empty(),
                streams: Map::empty(),
            }),
    {
        FetchBridge { next_id: 0, chunked: Registry::new(), streams: Registry::new() }
    }
}


/// A stream moves forward one frame at a time: a step on a stream that stays
/// open leaves its next frame number where it was or moves it by one, and
/// never forgets a received byte.
pub proof fn lemma_stream_moves_forward(
    old: BridgeView,
    msg: BridgeMessage,
    new: BridgeView,
    r: Result<(EventView, Seq<ReplyView>), BridgeError>,
    id: Seq<char>,
)
    requires
        stream_step(old, msg, new, r),
        old.streams.contains_key(id),
        new.streams.contains_key(id),
    ensures
        new.streams[id].next == old.streams[id].next || new.streams[id].next
            == old.streams[id].next + 1,
        new.streams[id].received_bytes >= old.streams[id].received_bytes,
        new.streams[id].encoding == old.streams[id].encoding,
{
}


/// Chunks are kept as first received: a step on a chunked response that stays
/// open never replaces a chunk already held, keeps its number of chunks, and
/// never moves the acknowledged count backwards.
pub proof fn lemma_chunks_kept_and_ack_grows(
    old: BridgeView,
    msg: BridgeMessage,
    new: BridgeView,
    r: Result<(EventView, Seq<ReplyView>), BridgeError>,
    id: Seq<char>,
)
    requires
        chunk_step(old, msg, new, r),
        old.chunked.contains_key(id),
        slot_wf(old.chunked[id]),
        new.chunked.contains_key(id),
    ensures
        new.chunked[id].chunks.len() == old.chunked[id].chunks.len(),
        forall|i: int|
            0 <= i < old.chunked[id].chunks.len() && (#[trigger] old.chunked[id].chunks[i]) is Some
                ==> new.chunked[id].chunks[i] == old.chunked[id].chunks[i],
        new.chunked[id].frontier >= old.chunked[id].frontier,
{
    if new.chunked[id] != old.chunked[id] {
        let slot = old.chunked[id];
        let seq = usize_of(msg.seq).unwrap();
        let data = msg.data.unwrap();
        let chunks = if slot.chunks[seq as int] is None {
            slot.chunks.update(seq as int, decoded(bytes_of(data@), slot.encoding))
        } else {
            slot.chunks
        };
        lemma_advance_frontier(chunks, slot.frontier);
    }
}

/// A stream frame older than the next one expected is acknowledged again
/// with the number of the next frame and changes nothing, so sending it again
/// gets the same answer and the next frame is still the one taken next.
pub proof fn lemma_old_frame_acked_again(
    old: BridgeView,
    msg: BridgeMessage,
    new: BridgeView,
    r: Result<(EventView, Seq<ReplyView>), BridgeError>,
)
    requires
        ingest_step(old, msg, new, r),
        msg.tag matches Some(t) && t@ == "fetch-stream"@,
        msg.id matches Some(id) && old.streams.contains_key(id@),
        msg.seq matches Some(k) && k < old.streams[msg.id.unwrap()@].next,
    ensures
        new == old,
        r == Ok::<(EventView, Seq<ReplyView>), BridgeError>(
            (
                EventView::Ignored,
                seq![ReplyView::StreamAck(msg.id.unwrap()@, old.streams[msg.id.unwrap()@].next)],
            ),
        ),
{
    reveal_strlit("__hs__");
    reveal_strlit("fetch");
    reveal_strlit("fetch-chunk");
    reveal_strlit("fetch-stream");
    let t = msg.tag.unwrap()@;
    assert(t.len() == 12);
    assert(t != "__hs__"@ && t != "fetch"@ && t != "fetch-chunk"@);
    assert(stream_step(old, msg, new, r));
}

/// A chunk numbered at or past the chunk count announced in its response's
/// header is refused as a protocol error and changes nothing.
pub proof fn lemma_chunk_out_of_range(
    old: BridgeView,
    msg: BridgeMessage,
    new: BridgeView,
    r: Result<(EventView, Seq<ReplyView>), BridgeError>,
)
    requires
        ingest_step(old, msg, new, r),
        msg.tag matches Some(t) && t@ == "fetch-chunk"@,
        msg.id matches Some(id) && old.chunked.contains_key(id@),
        msg.data is Some,
        usize_of(msg.seq) matches Some(k) && k >= old.chunked[msg.id.unwrap()@].chunks.len(),
    ensures
        new == old,
        r == Err::<(EventView, Seq<ReplyView>), BridgeError>(BridgeError::Protocol),
{
    reveal_strlit("__hs__");
    reveal_strlit("fetch");
    reveal_strlit("fetch-chunk");
    let t = msg.tag.unwrap()@;
    assert(t.len() == 11);
    assert(t != "__hs__"@ && t != "fetch"@);
    assert(chunk_step(old, msg, new, r));
}

/// An ASCII hex digit character of either case reads back as the number it writes.
proof fn lemma_hex_digit_reads_back(n: int)
    requires
        0 <= n < 16,
    ensures
        '\0' <= hex_lower(n) <= '\u{7f}',
        '\0' <= hex_upper(n) <= '\u{7f}',
        hex_value(hex_lower(n) as u8) == Some(n as u8),
        hex_value(hex_upper(n) as u8) == Some(n as u8),
{
}

/// Position `i` of the hex text of `b`: the high digit of byte `i / 2` at even
/// positions, its low digit at odd ones.
proof fn lemma_hex_text_at(b: Seq<u8>, i: int)
    requires
        0 <= i < 2 * b.len(),
    ensures
        ({
            let d = if i % 2 == 0 {
                b[i / 2] as int / 16
            } else {
                b[i / 2] as int % 16
            };
            &&& 0 <= d < 16
            &&& hex_lower_bytes(b)[i] == hex_lower(d)
            &&& hex_upper_bytes(b)[i] == hex_upper(d)
        }),
{
    lemma_hex_digits(b);
    let k = i / 2;
    assert(hex_lower_bytes(b)[2 * k] == hex_lower(b[k] as int / 16));
    assert(hex_upper_bytes(b)[2 * k] == hex_upper(b[k] as int / 16));
    if i % 2 == 0 {
        assert(i == 2 * k);
    } else {
        assert(i == 2 * k + 1);
    }
}

/// Hex decoding inverts hex encoding: the two-digits-per-byte text of any
/// bytes, high digit first, in lower or upper case, decodes to those bytes.
pub proof fn lemma_hex_round_trip(b: Seq<u8>)
    ensures
        hex_decoded(bytes_of(hex_lower_bytes(b))) == Some(b),
        hex_decoded(bytes_of(hex_upper_bytes(b))) == Some(b),
{
    lemma_hex_digits(b);
    let lo = hex_lower_bytes(b);
    let up = hex_upper_bytes(b);
    assert forall|i: int| 0 <= i < lo.len() implies '\0' <= #[trigger] lo[i] <= '\u{7f}' && '\0'
        <= up[i] <= '\u{7f}' && hex_value(lo[i] as u8) is Some && hex_value(up[i] as u8) is Some by {
        lemma_hex_text_at(b, i);
        if i % 2 == 0 {
            lemma_hex_digit_reads_back(b[i / 2] as int / 16);
        } else {
            lemma_hex_digit_reads_back(b[i / 2] as int % 16);
        }
    }
    assert(vstd::utf8::is_ascii_chars(lo));
    assert(vstd::utf8::is_ascii_chars(up)) by {
        assert forall|i: int| 0 <= i < up.len() implies '\0' <= #[trigger] up[i] <= '\u{7f}' by {
            assert('\0' <= lo[i] <= '\u{7f}');
        }
    }
    vstd::utf8::is_ascii_chars_encode_utf8(lo);
    vstd::utf8::is_ascii_chars_encode_utf8(up);
    let bl = bytes_of(lo);
    let bu = bytes_of(up);
    assert forall|i: int| 0 <= i < bl.len() implies hex_value(#[trigger] bl[i]) is Some by {
        assert(bl[i] == lo[i] as u8);
    }
    assert forall|i: int| 0 <= i < bu.len() implies hex_value(#[trigger] bu[i]) is Some by {
        assert(bu[i] == up[i] as u8);
        assert('\0' <= lo[i] <= '\u{7f}');
    }
    assert forall|k: int| 0 <= k < b.len() implies (hex_value(bl[2 * k]).unwrap() * 16 + hex_value(
        bl[2 * k + 1],
    ).unwrap()) as u8 == b[k] && (hex_value(bu[2 * k]).unwrap() * 16 + hex_value(
        bu[2 * k + 1],
    ).unwrap()) as u8 == b[k] by {
        lemma_hex_text_at(b, 2 * k);
        lemma_hex_text_at(b, 2 * k + 1);
        lemma_hex_digit_reads_back(b[k] as int / 16);
        lemma_hex_digit_reads_back(b[k] as int % 16);
        assert(bl[2 * k] == lo[2 * k] as u8);
        assert(bl[2 * k + 1] == lo[2 * k + 1] as u8);
        assert(bu[2 * k] == up[2 * k] as u8);
        assert(bu[2 * k + 1] == up[2 * k + 1] as u8);
    }
    assert(hex_decoded(bl).unwrap() =~= b);
    assert(hex_decoded(bu).unwrap() =~= b);
}

} // verus!
