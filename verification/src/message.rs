//! The messages of the protocol and their encoding.
//!
//! A message is the protocol's mark, one byte that tells which message it
//! is, and the fields of that message, laid out as the module `wire`
//! describes. Nothing may follow the last field. Decoding is total: a
//! payload that is no such message is reported as such and in no other
//! way, so that a caller can hand it on to whoever it belongs to.

use vstd::prelude::*;
use crate::types::{
    HttpOverWsError,
    HttpRequest,
    HttpRequestId,
    HttpRequestView,
    HttpResponse,
    HttpResponseView,
};
use crate::wire::{
    decode_request,
    decode_response,
    decode_string,
    decode_u64,
    encode_request,
    encode_response,
    encode_string,
    encode_u64,
    lemma_decode_encode_request,
    lemma_decode_encode_response,
    lemma_decode_encode_string,
    lemma_decode_encode_u64,
    read_request,
    read_response,
    read_string,
    read_u64,
    request_fits,
    response_fits,
    string_fits,
    write_request,
    write_response,
    write_string,
    write_u64,
};

verus! {

/// The mark that opens every message: the bytes `HTTP_WS` and the version 1.
pub const PROTOCOL_MARK: u64 = 0x0153_575f_5054_5448;

pub const TAG_SETUP_PROXY_CLIENT: u8 = 0;

pub const TAG_HTTP_REQUEST: u8 = 1;

pub const TAG_HTTP_RESPONSE: u8 = 2;

pub const TAG_ERROR: u8 = 3;

#[derive(Debug, PartialEq, Eq)]
pub enum HttpOverWsMessage {
    /// A proxy announces that it is ready to take requests.
    SetupProxyClient,
    /// The library asks a proxy to perform a request.
    HttpRequest(HttpRequestId, HttpRequest),
    /// A proxy hands back the response to a request.
    HttpResponse(HttpRequestId, HttpResponse),
    /// One side reports an error, about one request or about none.
    Error(Option<HttpRequestId>, String),
}

pub enum HttpOverWsMessageView {
    SetupProxyClient,
    HttpRequest(HttpRequestId, HttpRequestView),
    HttpResponse(HttpRequestId, HttpResponseView),
    Error(Option<HttpRequestId>, Seq<char>),
}

impl View for HttpOverWsMessage {
    type V = HttpOverWsMessageView;

    open spec fn view(&self) -> HttpOverWsMessageView {
        match self {
            HttpOverWsMessage::SetupProxyClient => HttpOverWsMessageView::SetupProxyClient,
            HttpOverWsMessage::HttpRequest(id, request) => HttpOverWsMessageView::HttpRequest(
                *id,
                request@,
            ),
            HttpOverWsMessage::HttpResponse(id, response) => HttpOverWsMessageView::HttpResponse(
                *id,
                response@,
            ),
            HttpOverWsMessage::Error(id, text) => HttpOverWsMessageView::Error(*id, text@),
        }
    }
}

/// An id that may be absent: one byte that says whether it is there, then the id.
pub open spec fn encode_optional_id(id: Option<HttpRequestId>) -> Seq<u8> {
    match id {
        None => seq![0u8],
        Some(id) => seq![1u8] + encode_u64(id),
    }
}

pub open spec fn decode_optional_id(s: Seq<u8>) -> Option<(Option<HttpRequestId>, Seq<u8>)> {
    if s.len() >= 1 {
        if s[0] == 0 {
            Some((None, s.skip(1)))
        } else if s[0] == 1 {
            match decode_u64(s.skip(1)) {
                Some((id, rest)) => Some((Some(id), rest)),
                None => None,
            }
        } else {
            None
        }
    } else {
        None
    }
}

/// The fields of a message, after the mark and the tag.
pub open spec fn encode_fields(m: HttpOverWsMessageView) -> Seq<u8> {
    match m {
        HttpOverWsMessageView::SetupProxyClient => Seq::empty(),
        HttpOverWsMessageView::HttpRequest(id, request) => encode_u64(id) + encode_request(request),
        HttpOverWsMessageView::HttpResponse(id, response) => encode_u64(id) + encode_response(
            response,
        ),
        HttpOverWsMessageView::Error(id, text) => encode_optional_id(id) + encode_string(text),
    }
}

pub open spec fn tag_of(m: HttpOverWsMessageView) -> u8 {
    match m {
        HttpOverWsMessageView::SetupProxyClient => TAG_SETUP_PROXY_CLIENT,
        HttpOverWsMessageView::HttpRequest(_, _) => TAG_HTTP_REQUEST,
        HttpOverWsMessageView::HttpResponse(_, _) => TAG_HTTP_RESPONSE,
        HttpOverWsMessageView::Error(_, _) => TAG_ERROR,
    }
}

/// The bytes of a message.
pub open spec fn encode_message(m: HttpOverWsMessageView) -> Seq<u8> {
    encode_u64(PROTOCOL_MARK) + seq![tag_of(m)] + encode_fields(m)
}

/// The fields of the message that `tag` announces, and what follows them.
pub open spec fn decode_fields(tag: u8, s: Seq<u8>) -> Option<(HttpOverWsMessageView, Seq<u8>)> {
    if tag == TAG_SETUP_PROXY_CLIENT {
        Some((HttpOverWsMessageView::SetupProxyClient, s))
    } else if tag == TAG_HTTP_REQUEST {
        match decode_u64(s) {
            Some((id, s1)) => match decode_request(s1) {
                Some((request, s2)) => Some((HttpOverWsMessageView::HttpRequest(id, request), s2)),
                None => None,
            },
            None => None,
        }
    } else if tag == TAG_HTTP_RESPONSE {
        match decode_u64(s) {
            Some((id, s1)) => match decode_response(s1) {
                Some((response, s2)) => Some(
                    (HttpOverWsMessageView::HttpResponse(id, response), s2),
                ),
                None => None,
            },
            None => None,
        }
    } else if tag == TAG_ERROR {
        match decode_optional_id(s) {
            Some((id, s1)) => match decode_string(s1) {
                Some((text, s2)) => Some((HttpOverWsMessageView::Error(id, text), s2)),
                None => None,
            },
            None => None,
        }
    } else {
        None
    }
}

/// The message that a payload holds, if it is one: the mark, a known tag,
/// well-formed fields, and nothing after them.
pub open spec fn decode_message(s: Seq<u8>) -> Option<HttpOverWsMessageView> {
    match decode_u64(s) {
        Some((mark, s1)) => if mark == PROTOCOL_MARK && s1.len() >= 1 {
            match decode_fields(s1[0], s1.skip(1)) {
                Some((m, rest)) => if rest.len() == 0 {
                    Some(m)
                } else {
                    None
                },
                None => None,
            }
        } else {
            None
        },
        None => None,
    }
}

/// A message whose texts, lists and bodies have lengths that the layout can
/// hold. Every message held in memory is one.
pub open spec fn message_fits(m: HttpOverWsMessageView) -> bool {
    match m {
        HttpOverWsMessageView::SetupProxyClient => true,
        HttpOverWsMessageView::HttpRequest(_, request) => request_fits(request),
        HttpOverWsMessageView::HttpResponse(_, response) => response_fits(response),
        HttpOverWsMessageView::Error(_, text) => string_fits(text),
    }
}

/// Decoding what was encoded gives the message back, whichever it is and
/// whatever its fields hold: no headers, no body, an empty body, no id.
pub proof fn lemma_decode_encode_message(m: HttpOverWsMessageView)
    requires
        message_fits(m),
    ensures
        decode_message(encode_message(m)) == Some(m),
{
    let fields = encode_fields(m);
    let s1 = seq![tag_of(m)] + fields;
    assert(encode_message(m) =~= encode_u64(PROTOCOL_MARK) + s1);
    lemma_decode_encode_u64(PROTOCOL_MARK, s1);
    assert(s1[0] == tag_of(m));
    assert(s1.skip(1) =~= fields);
    let nothing = Seq::<u8>::empty();
    match m {
        HttpOverWsMessageView::SetupProxyClient => {},
        HttpOverWsMessageView::HttpRequest(id, request) => {
            assert(fields =~= encode_u64(id) + (encode_request(request) + nothing));
            lemma_decode_encode_u64(id, encode_request(request) + nothing);
            lemma_decode_encode_request(request, nothing);
        },
        HttpOverWsMessageView::HttpResponse(id, response) => {
            assert(fields =~= encode_u64(id) + (encode_response(response) + nothing));
            lemma_decode_encode_u64(id, encode_response(response) + nothing);
            lemma_decode_encode_response(response, nothing);
        },
        HttpOverWsMessageView::Error(id, text) => {
            let t1 = encode_string(text) + nothing;
            assert(fields =~= encode_optional_id(id) + t1);
            match id {
                None => {
                    assert(fields.skip(1) =~= t1);
                },
                Some(id) => {
                    assert(fields.skip(1) =~= encode_u64(id) + t1);
                    lemma_decode_encode_u64(id, t1);
                },
            }
            lemma_decode_encode_string(text, nothing);
        },
    }
}

/// What `from_bytes` says of a payload that is no message of this protocol.
pub open spec fn not_a_message_text() -> Seq<char> {
    "payload is not an HTTP-over-WebSocket message"@
}

/// Reads an id that may be absent at `pos`.
fn read_optional_id(bytes: &[u8], pos: usize) -> (r: Option<(Option<HttpRequestId>, usize)>)
    requires
        pos <= bytes@.len(),
    ensures
        match r {
            Some((id, next)) => pos <= next <= bytes@.len() && decode_optional_id(
                bytes@.skip(pos as int),
            ) == Some((id, bytes@.skip(next as int))),
            None => decode_optional_id(bytes@.skip(pos as int)) is None,
        },
{
    if pos >= bytes.len() {
        return None;
    }
    let flag = bytes[pos];
    proof {
        assert(bytes@.skip(pos as int)[0] == bytes@[pos as int]);
        assert(bytes@.skip(pos as int).skip(1) =~= bytes@.skip(pos + 1));
    }
    if flag == 0 {
        Some((None, pos + 1))
    } else if flag == 1 {
        match read_u64(bytes, pos + 1) {
            Some((id, next)) => Some((Some(id), next)),
            None => None,
        }
    } else {
        None
    }
}

/// Reads the fields of the message that `tag` announces at `pos`.
fn read_fields(tag: u8, bytes: &[u8], pos: usize) -> (r: Option<(HttpOverWsMessage, usize)>)
    requires
        pos <= bytes@.len(),
    ensures
        match r {
            Some((m, next)) => pos <= next <= bytes@.len() && decode_fields(
                tag,
                bytes@.skip(pos as int),
            ) == Some((m@, bytes@.skip(next as int))),
            None => decode_fields(tag, bytes@.skip(pos as int)) is None,
        },
{
    if tag == TAG_SETUP_PROXY_CLIENT {
        Some((HttpOverWsMessage::SetupProxyClient, pos))
    } else if tag == TAG_HTTP_REQUEST {
        let (id, after_id) = match read_u64(bytes, pos) {
            Some(x) => x,
            None => { return None; },
        };
        match read_request(bytes, after_id) {
            Some((request, next)) => Some((HttpOverWsMessage::HttpRequest(id, request), next)),
            None => None,
        }
    } else if tag == TAG_HTTP_RESPONSE {
        let (id, after_id) = match read_u64(bytes, pos) {
            Some(x) => x,
            None => { return None; },
        };
        match read_response(bytes, after_id) {
            Some((response, next)) => Some((HttpOverWsMessage::HttpResponse(id, response), next)),
            None => None,
        }
    } else if tag == TAG_ERROR {
        let (id, after_id) = match read_optional_id(bytes, pos) {
            Some(x) => x,
            None => { return None; },
        };
        match read_string(bytes, after_id) {
            Some((text, next)) => Some((HttpOverWsMessage::Error(id, text), next)),
            None => None,
        }
    } else {
        None
    }
}

/// Reads a whole message.
fn read_message(bytes: &[u8]) -> (r: Option<HttpOverWsMessage>)
    ensures
        match r {
            Some(m) => decode_message(bytes@) == Some(m@),
            None => decode_message(bytes@) is None,
        },
{
    assert(bytes@.skip(0) =~= bytes@);
    let (mark, after_mark) = match read_u64(bytes, 0) {
        Some(x) => x,
        None => { return None; },
    };
    if mark != PROTOCOL_MARK || after_mark >= bytes.len() {
        return None;
    }
    let tag = bytes[after_mark];
    proof {
        assert(bytes@.skip(after_mark as int)[0] == bytes@[after_mark as int]);
        assert(bytes@.skip(after_mark as int).skip(1) =~= bytes@.skip(after_mark + 1));
    }
    match read_fields(tag, bytes, after_mark + 1) {
        Some((m, next)) => {
            if next == bytes.len() {
                Some(m)
            } else {
                None
            }
        },
        None => None,
    }
}

impl HttpOverWsMessage {
    /// The bytes of this message. Decoding them gives the message back.
    pub fn to_bytes(&self) -> (bytes: Vec<u8>)
        ensures
            bytes@ == encode_message(self@),
            message_fits(self@),
            decode_message(bytes@) == Some(self@),
    {
        let mut out: Vec<u8> = Vec::new();
        write_u64(&mut out, PROTOCOL_MARK);
        match self {
            HttpOverWsMessage::SetupProxyClient => {
                out.push(TAG_SETUP_PROXY_CLIENT);
            },
            HttpOverWsMessage::HttpRequest(id, request) => {
                out.push(TAG_HTTP_REQUEST);
                write_u64(&mut out, *id);
                write_request(&mut out, request);
            },
            HttpOverWsMessage::HttpResponse(id, response) => {
                out.push(TAG_HTTP_RESPONSE);
                write_u64(&mut out, *id);
                write_response(&mut out, response);
            },
            HttpOverWsMessage::Error(id, text) => {
                out.push(TAG_ERROR);
                match id {
                    None => {
                        out.push(0u8);
                    },
                    Some(id) => {
                        out.push(1u8);
                        write_u64(&mut out, *id);
                    },
                }
                write_string(&mut out, text.as_str());
            },
        }
        proof {
            assert(out@ =~= encode_message(self@));
            lemma_decode_encode_message(self@);
        }
        out
    }

    /// The message that a payload holds. A payload that holds none gives
    /// the same error text, whatever is wrong with it.
    pub fn from_bytes(bytes: &[u8]) -> (r: Result<Self, String>)
        ensures
            match decode_message(bytes@) {
                Some(m) => r is Ok && r->Ok_0@ == m,
                None => r is Err && r->Err_0@ == not_a_message_text(),
            },
    {
        match read_message(bytes) {
            Some(m) => Ok(m),
            None => Err("payload is not an HTTP-over-WebSocket message".to_owned()),
        }
    }
}

} // verus!
