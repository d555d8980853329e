//! The byte layout of the values inside a message.
//!
//! An integer is eight bytes, least significant first. A byte string is its
//! length as an integer, then the bytes. A text is the byte string of its
//! UTF-8 encoding. A header is two texts; a header list is its count, then
//! the headers. Every decoder reads a value from the front of its input and
//! hands back what follows it.

use vstd::prelude::*;
use vstd::bytes::{
    lemma_auto_spec_u64_to_from_le_bytes,
    spec_u64_from_le_bytes,
    spec_u64_to_le_bytes,
    u64_from_le_bytes,
    u64_to_le_bytes,
};
use vstd::slice::slice_subrange;
use vstd::string::StringSliceAdditionalSpecFns;
use vstd::utf8::{
    decode_utf8,
    encode_utf8,
    encode_utf8_decode_utf8,
    encode_utf8_valid_utf8,
    valid_utf8,
};
use crate::types::{
    body_view,
    headers_view,
    HttpHeader,
    HttpHeaderView,
    HttpMethod,
    HttpRequest,
    HttpRequestView,
    HttpResponse,
    HttpResponseView,
};

verus! {

// ---------------------------------------------------------------------
// Integers
// ---------------------------------------------------------------------
pub open spec fn encode_u64(v: u64) -> Seq<u8> {
    spec_u64_to_le_bytes(v)
}

pub open spec fn decode_u64(s: Seq<u8>) -> Option<(u64, Seq<u8>)> {
    if s.len() >= 8 {
        Some((spec_u64_from_le_bytes(s.subrange(0, 8)), s.skip(8)))
    } else {
        None
    }
}

/// Decoding reads back an encoded integer and leaves what follows it.
pub proof fn lemma_decode_encode_u64(v: u64, tail: Seq<u8>)
    ensures
        decode_u64(encode_u64(v) + tail) == Some((v, tail)),
{
    lemma_auto_spec_u64_to_from_le_bytes();
    let s = encode_u64(v) + tail;
    assert(s.subrange(0, 8) =~= encode_u64(v));
    assert(s.skip(8) =~= tail);
}

// ---------------------------------------------------------------------
// Byte strings
// ---------------------------------------------------------------------
pub open spec fn encode_bytes(b: Seq<u8>) -> Seq<u8> {
    encode_u64(b.len() as u64) + b
}

pub open spec fn decode_bytes(s: Seq<u8>) -> Option<(Seq<u8>, Seq<u8>)> {
    match decode_u64(s) {
        Some((n, rest)) => if n <= rest.len() {
            Some((rest.take(n as int), rest.skip(n as int)))
        } else {
            None
        },
        None => None,
    }
}

pub proof fn lemma_decode_encode_bytes(b: Seq<u8>, tail: Seq<u8>)
    requires
        b.len() <= u64::MAX,
    ensures
        decode_bytes(encode_bytes(b) + tail) == Some((b, tail)),
{
    let n = b.len() as u64;
    assert(encode_bytes(b) + tail =~= encode_u64(n) + (b + tail));
    lemma_decode_encode_u64(n, b + tail);
    assert((b + tail).take(n as int) =~= b);
    assert((b + tail).skip(n as int) =~= tail);
}

// ---------------------------------------------------------------------
// Texts
// ---------------------------------------------------------------------
pub open spec fn encode_string(t: Seq<char>) -> Seq<u8> {
    encode_bytes(encode_utf8(t))
}

pub open spec fn decode_string(s: Seq<u8>) -> Option<(Seq<char>, Seq<u8>)> {
    match decode_bytes(s) {
        Some((b, rest)) => if valid_utf8(b) {
            Some((decode_utf8(b), rest))
        } else {
            None
        },
        None => None,
    }
}

/// A text whose encoding has a length that the layout can hold.
pub open spec fn string_fits(t: Seq<char>) -> bool {
    encode_utf8(t).len() <= u64::MAX
}

pub proof fn lemma_decode_encode_string(t: Seq<char>, tail: Seq<u8>)
    requires
        string_fits(t),
    ensures
        decode_string(encode_string(t) + tail) == Some((t, tail)),
{
    lemma_decode_encode_bytes(encode_utf8(t), tail);
    encode_utf8_valid_utf8(t);
    encode_utf8_decode_utf8(t);
}

// ---------------------------------------------------------------------
// Headers
// ---------------------------------------------------------------------
pub open spec fn encode_header(h: HttpHeaderView) -> Seq<u8> {
    encode_string(h.name) + encode_string(h.value)
}

pub open spec fn decode_header(s: Seq<u8>) -> Option<(HttpHeaderView, Seq<u8>)> {
    match decode_string(s) {
        Some((name, rest)) => match decode_string(rest) {
            Some((value, rest2)) => Some((HttpHeaderView { name, value }, rest2)),
            None => None,
        },
        None => None,
    }
}

pub open spec fn header_fits(h: HttpHeaderView) -> bool {
    string_fits(h.name) && string_fits(h.value)
}

pub proof fn lemma_decode_encode_header(h: HttpHeaderView, tail: Seq<u8>)
    requires
        header_fits(h),
    ensures
        decode_header(encode_header(h) + tail) == Some((h, tail)),
{
    assert(encode_header(h) + tail =~= encode_string(h.name) + (encode_string(h.value) + tail));
    lemma_decode_encode_string(h.name, encode_string(h.value) + tail);
    lemma_decode_encode_string(h.value, tail);
}

/// The headers one after another, without their count.
pub open spec fn encode_header_list(hs: Seq<HttpHeaderView>) -> Seq<u8>
    decreases hs.len(),
{
    if hs.len() == 0 {
        Seq::empty()
    } else {
        encode_header(hs[0]) + encode_header_list(hs.drop_first())
    }
}

/// Reads `n` headers.
pub open spec fn decode_header_list(s: Seq<u8>, n: nat) -> Option<(Seq<HttpHeaderView>, Seq<u8>)>
    decreases n,
{
    if n == 0 {
        Some((Seq::empty(), s))
    } else {
        match decode_header(s) {
            Some((h, rest)) => match decode_header_list(rest, (n - 1) as nat) {
                Some((hs, rest2)) => Some((seq![h] + hs, rest2)),
                None => None,
            },
            None => None,
        }
    }
}

pub open spec fn header_list_fits(hs: Seq<HttpHeaderView>) -> bool {
    forall|i: int| 0 <= i < hs.len() ==> header_fits(#[trigger] hs[i])
}

pub open spec fn headers_fit(hs: Seq<HttpHeaderView>) -> bool {
    hs.len() <= u64::MAX && header_list_fits(hs)
}

/// Encoding a list with one more header at its end appends that header's encoding.
pub proof fn lemma_encode_header_list_push(hs: Seq<HttpHeaderView>, h: HttpHeaderView)
    ensures
        encode_header_list(hs.push(h)) == encode_header_list(hs) + encode_header(h),
    decreases hs.len(),
{
    if hs.len() == 0 {
        assert(hs.push(h).drop_first() =~= Seq::<HttpHeaderView>::empty());
        assert(encode_header_list(Seq::<HttpHeaderView>::empty()) =~= Seq::<u8>::empty());
        assert(hs.push(h)[0] == h);
        assert(encode_header_list(hs.push(h)) =~= encode_header(h));
        assert(encode_header_list(hs) + encode_header(h) =~= encode_header(h));
    } else {
        assert(hs.push(h).drop_first() =~= hs.drop_first().push(h));
        lemma_encode_header_list_push(hs.drop_first(), h);
        assert(encode_header_list(hs.push(h)) =~= encode_header_list(hs) + encode_header(h));
    }
}

pub proof fn lemma_decode_encode_header_list(hs: Seq<HttpHeaderView>, tail: Seq<u8>)
    requires
        header_list_fits(hs),
    ensures
        decode_header_list(encode_header_list(hs) + tail, hs.len()) == Some((hs, tail)),
    decreases hs.len(),
{
    if hs.len() == 0 {
        assert(encode_header_list(hs) + tail =~= tail);
        assert(hs =~= Seq::<HttpHeaderView>::empty());
    } else {
        let first = hs[0];
        let others = hs.drop_first();
        assert(encode_header_list(hs) + tail =~= encode_header(first) + (encode_header_list(others)
            + tail));
        lemma_decode_encode_header(first, encode_header_list(others) + tail);
        lemma_decode_encode_header_list(others, tail);
        assert(seq![first] + others =~= hs);
    }
}

pub open spec fn encode_headers(hs: Seq<HttpHeaderView>) -> Seq<u8> {
    encode_u64(hs.len() as u64) + encode_header_list(hs)
}

pub open spec fn decode_headers(s: Seq<u8>) -> Option<(Seq<HttpHeaderView>, Seq<u8>)> {
    match decode_u64(s) {
        Some((n, rest)) => decode_header_list(rest, n as nat),
        None => None,
    }
}

pub proof fn lemma_decode_encode_headers(hs: Seq<HttpHeaderView>, tail: Seq<u8>)
    requires
        headers_fit(hs),
    ensures
        decode_headers(encode_headers(hs) + tail) == Some((hs, tail)),
{
    let n = hs.len() as u64;
    assert(encode_headers(hs) + tail =~= encode_u64(n) + (encode_header_list(hs) + tail));
    lemma_decode_encode_u64(n, encode_header_list(hs) + tail);
    lemma_decode_encode_header_list(hs, tail);
}

// ---------------------------------------------------------------------
// Methods and optional bodies
// ---------------------------------------------------------------------
pub open spec fn method_code(m: HttpMethod) -> u8 {
    match m {
        HttpMethod::GET => 0,
        HttpMethod::POST => 1,
        HttpMethod::PUT => 2,
        HttpMethod::HEAD => 3,
        HttpMethod::DELETE => 4,
    }
}

pub open spec fn method_of_code(code: u8) -> Option<HttpMethod> {
    if code == 0 {
        Some(HttpMethod::GET)
    } else if code == 1 {
        Some(HttpMethod::POST)
    } else if code == 2 {
        Some(HttpMethod::PUT)
    } else if code == 3 {
        Some(HttpMethod::HEAD)
    } else if code == 4 {
        Some(HttpMethod::DELETE)
    } else {
        None
    }
}

pub open spec fn decode_method(s: Seq<u8>) -> Option<(HttpMethod, Seq<u8>)> {
    if s.len() >= 1 {
        match method_of_code(s[0]) {
            Some(m) => Some((m, s.skip(1))),
            None => None,
        }
    } else {
        None
    }
}

/// A body that may be absent: one byte that says whether it is there, then the body.
pub open spec fn encode_optional_bytes(b: Option<Seq<u8>>) -> Seq<u8> {
    match b {
        None => seq![0u8],
        Some(b) => seq![1u8] + encode_bytes(b),
    }
}

pub open spec fn decode_optional_bytes(s: Seq<u8>) -> Option<(Option<Seq<u8>>, Seq<u8>)> {
    if s.len() >= 1 {
        if s[0] == 0 {
            Some((None, s.skip(1)))
        } else if s[0] == 1 {
            match decode_bytes(s.skip(1)) {
                Some((b, rest)) => Some((Some(b), rest)),
                None => None,
            }
        } else {
            None
        }
    } else {
        None
    }
}

pub open spec fn optional_bytes_fit(b: Option<Seq<u8>>) -> bool {
    match b {
        None => true,
        Some(b) => b.len() <= u64::MAX,
    }
}

pub proof fn lemma_decode_encode_optional_bytes(b: Option<Seq<u8>>, tail: Seq<u8>)
    requires
        optional_bytes_fit(b),
    ensures
        decode_optional_bytes(encode_optional_bytes(b) + tail) == Some((b, tail)),
{
    let s = encode_optional_bytes(b) + tail;
    match b {
        None => {
            assert(s.skip(1) =~= tail);
        },
        Some(body) => {
            assert(s.skip(1) =~= encode_bytes(body) + tail);
            lemma_decode_encode_bytes(body, tail);
        },
    }
}

// ---------------------------------------------------------------------
// Requests and responses
// ---------------------------------------------------------------------
pub open spec fn encode_request(r: HttpRequestView) -> Seq<u8> {
    encode_string(r.url) + seq![method_code(r.method)] + encode_headers(r.headers)
        + encode_optional_bytes(r.body)
}

pub open spec fn decode_request(s: Seq<u8>) -> Option<(HttpRequestView, Seq<u8>)> {
    match decode_string(s) {
        Some((url, s1)) => match decode_method(s1) {
            Some((method, s2)) => match decode_headers(s2) {
                Some((headers, s3)) => match decode_optional_bytes(s3) {
                    Some((body, s4)) => Some((HttpRequestView { url, method, headers, body }, s4)),
                    None => None,
                },
                None => None,
            },
            None => None,
        },
        None => None,
    }
}

pub open spec fn request_fits(r: HttpRequestView) -> bool {
    string_fits(r.url) && headers_fit(r.headers) && optional_bytes_fit(r.body)
}

pub proof fn lemma_decode_encode_request(r: HttpRequestView, tail: Seq<u8>)
    requires
        request_fits(r),
    ensures
        decode_request(encode_request(r) + tail) == Some((r, tail)),
{
    let t3 = encode_optional_bytes(r.body) + tail;
    let t2 = encode_headers(r.headers) + t3;
    let t1 = seq![method_code(r.method)] + t2;
    assert(encode_request(r) + tail =~= encode_string(r.url) + t1);
    lemma_decode_encode_string(r.url, t1);
    assert(t1.skip(1) =~= t2);
    assert(t1[0] == method_code(r.method));
    lemma_decode_encode_headers(r.headers, t3);
    lemma_decode_encode_optional_bytes(r.body, tail);
}

pub open spec fn encode_response(r: HttpResponseView) -> Seq<u8> {
    encode_u64(r.status) + encode_headers(r.headers) + encode_bytes(r.body)
}

pub open spec fn decode_response(s: Seq<u8>) -> Option<(HttpResponseView, Seq<u8>)> {
    match decode_u64(s) {
        Some((status, s1)) => match decode_headers(s1) {
            Some((headers, s2)) => match decode_bytes(s2) {
                Some((body, s3)) => Some((HttpResponseView { status, headers, body }, s3)),
                None => None,
            },
            None => None,
        },
        None => None,
    }
}

pub open spec fn response_fits(r: HttpResponseView) -> bool {
    headers_fit(r.headers) && r.body.len() <= u64::MAX
}

pub proof fn lemma_decode_encode_response(r: HttpResponseView, tail: Seq<u8>)
    requires
        response_fits(r),
    ensures
        decode_response(encode_response(r) + tail) == Some((r, tail)),
{
    let t2 = encode_bytes(r.body) + tail;
    let t1 = encode_headers(r.headers) + t2;
    assert(encode_response(r) + tail =~= encode_u64(r.status) + t1);
    lemma_decode_encode_u64(r.status, t1);
    lemma_decode_encode_headers(r.headers, t2);
    lemma_decode_encode_bytes(r.body, tail);
}

// ---------------------------------------------------------------------
// Writing
// ---------------------------------------------------------------------
/// Appends an integer.
pub fn write_u64(out: &mut Vec<u8>, v: u64)
    ensures
        final(out)@ == old(out)@ + encode_u64(v),
{
    let mut bytes = u64_to_le_bytes(v);
    out.append(&mut bytes);
}

/// Appends a byte string.
pub fn write_bytes(out: &mut Vec<u8>, b: &[u8])
    ensures
        final(out)@ == old(out)@ + encode_bytes(b@),
        b@.len() <= u64::MAX,
{
    let ghost start = out@;
    write_u64(out, b.len() as u64);
    let ghost prefix = out@;
    let mut i: usize = 0;
    while i < b.len()
        invariant
            i <= b.len(),
            out@ == prefix + b@.subrange(0, i as int),
        decreases b.len() - i,
    {
        out.push(b[i]);
        assert(b@.subrange(0, i + 1) =~= b@.subrange(0, i as int).push(b@[i as int]));
        assert(out@ =~= prefix + b@.subrange(0, i + 1));
        i += 1;
    }
    assert(b@.subrange(0, b@.len() as int) =~= b@);
    assert(out@ =~= start + encode_bytes(b@));
}

/// Appends a text.
pub fn write_string(out: &mut Vec<u8>, t: &str)
    ensures
        final(out)@ == old(out)@ + encode_string(t@),
        string_fits(t@),
{
    write_bytes(out, t.as_bytes());
}

/// Appends a header.
pub fn write_header(out: &mut Vec<u8>, h: &HttpHeader)
    ensures
        final(out)@ == old(out)@ + encode_header(h@),
        header_fits(h@),
{
    let ghost start = out@;
    write_string(out, h.name.as_str());
    write_string(out, h.value.as_str());
    assert(out@ =~= start + encode_header(h@));
}

/// Appends a header list, count first.
pub fn write_headers(out: &mut Vec<u8>, headers: &Vec<HttpHeader>)
    ensures
        final(out)@ == old(out)@ + encode_headers(headers_view(headers@)),
        headers_fit(headers_view(headers@)),
{
    let ghost start = out@;
    let ghost all = headers_view(headers@);
    write_u64(out, headers.len() as u64);
    let ghost prefix = out@;
    let mut i: usize = 0;
    assert(all.take(0) =~= Seq::<HttpHeaderView>::empty());
    while i < headers.len()
        invariant
            i <= headers.len(),
            all == headers_view(headers@),
            out@ == prefix + encode_header_list(all.take(i as int)),
            header_list_fits(all.take(i as int)),
        decreases headers.len() - i,
    {
        let ghost before = out@;
        write_header(out, &headers[i]);
        proof {
            let h = headers[i as int]@;
            assert(all.take(i + 1) =~= all.take(i as int).push(h));
            lemma_encode_header_list_push(all.take(i as int), h);
            assert(out@ =~= prefix + encode_header_list(all.take(i + 1)));
            assert forall|j: int| 0 <= j < all.take(i + 1).len() implies header_fits(
                #[trigger] all.take(i + 1)[j],
            ) by {
                if j < i {
                    assert(all.take(i + 1)[j] == all.take(i as int)[j]);
                }
            }
        }
        i += 1;
    }
    assert(all.take(headers.len() as int) =~= all);
    assert(out@ =~= start + encode_headers(all));
}

/// The byte that stands for a method.
pub fn method_to_code(m: HttpMethod) -> (code: u8)
    ensures
        code == method_code(m),
{
    match m {
        HttpMethod::GET => 0,
        HttpMethod::POST => 1,
        HttpMethod::PUT => 2,
        HttpMethod::HEAD => 3,
        HttpMethod::DELETE => 4,
    }
}

/// Appends a body that may be absent.
pub fn write_optional_bytes(out: &mut Vec<u8>, b: &Option<Vec<u8>>)
    ensures
        final(out)@ == old(out)@ + encode_optional_bytes(body_view(*b)),
        b matches Some(body) ==> body@.len() <= u64::MAX,
{
    let ghost start = out@;
    match b {
        None => {
            out.push(0u8);
            assert(out@ =~= start + seq![0u8]);
        },
        Some(body) => {
            out.push(1u8);
            write_bytes(out, body.as_slice());
            assert(out@ =~= start + (seq![1u8] + encode_bytes(body@)));
        },
    }
}

/// Appends a request.
pub fn write_request(out: &mut Vec<u8>, r: &HttpRequest)
    ensures
        final(out)@ == old(out)@ + encode_request(r@),
        request_fits(r@),
{
    let ghost start = out@;
    write_string(out, r.url.as_str());
    out.push(method_to_code(r.method));
    write_headers(out, &r.headers);
    write_optional_bytes(out, &r.body);
    assert(out@ =~= start + encode_request(r@));
}

/// Appends a response.
pub fn write_response(out: &mut Vec<u8>, r: &HttpResponse)
    ensures
        final(out)@ == old(out)@ + encode_response(r@),
        response_fits(r@),
{
    let ghost start = out@;
    write_u64(out, r.status);
    write_headers(out, &r.headers);
    write_bytes(out, r.body.as_slice());
    assert(out@ =~= start + encode_response(r@));
}

// ---------------------------------------------------------------------
// Reading
// ---------------------------------------------------------------------
/// `String::from_utf8` of std: the text that the bytes encode, if they are
/// well-formed UTF-8, and nothing otherwise.
#[verifier::external_body]
fn string_from_utf8(bytes: Vec<u8>) -> (r: Option<String>)
    ensures
        r is Some <==> valid_utf8(bytes@),
        r matches Some(t) ==> t@ == decode_utf8(bytes@),
{
    String::from_utf8(bytes).ok()
}

/// Reads an integer at `pos`.
pub fn read_u64(bytes: &[u8], pos: usize) -> (r: Option<(u64, usize)>)
    requires
        pos <= bytes@.len(),
    ensures
        match r {
            Some((v, next)) => pos <= next <= bytes@.len() && decode_u64(bytes@.skip(pos as int))
                == Some((v, bytes@.skip(next as int))),
            None => decode_u64(bytes@.skip(pos as int)) is None,
        },
{
    if bytes.len() - pos < 8 {
        return None;
    }
    let v = u64_from_le_bytes(slice_subrange(bytes, pos, pos + 8));
    proof {
        assert(bytes@.skip(pos as int).subrange(0, 8) =~= bytes@.subrange(pos as int, pos + 8));
        assert(bytes@.skip(pos as int).skip(8) =~= bytes@.skip(pos + 8));
    }
    Some((v, pos + 8))
}

/// Reads a byte string at `pos`.
pub fn read_bytes(bytes: &[u8], pos: usize) -> (r: Option<(Vec<u8>, usize)>)
    requires
        pos <= bytes@.len(),
    ensures
        match r {
            Some((b, next)) => pos <= next <= bytes@.len() && decode_bytes(
                bytes@.skip(pos as int),
            ) == Some((b@, bytes@.skip(next as int))),
            None => decode_bytes(bytes@.skip(pos as int)) is None,
        },
{
    let (n, start) = match read_u64(bytes, pos) {
        Some(x) => x,
        None => { return None; },
    };
    if n > (bytes.len() - start) as u64 {
        return None;
    }
    let end = start + n as usize;
    let b = vstd::slice::slice_to_vec(slice_subrange(bytes, start, end));
    proof {
        let rest = bytes@.skip(start as int);
        assert(rest.take(n as int) =~= bytes@.subrange(start as int, end as int));
        assert(rest.skip(n as int) =~= bytes@.skip(end as int));
    }
    Some((b, end))
}

/// Reads a text at `pos`.
pub fn read_string(bytes: &[u8], pos: usize) -> (r: Option<(String, usize)>)
    requires
        pos <= bytes@.len(),
    ensures
        match r {
            Some((t, next)) => pos <= next <= bytes@.len() && decode_string(
                bytes@.skip(pos as int),
            ) == Some((t@, bytes@.skip(next as int))),
            None => decode_string(bytes@.skip(pos as int)) is None,
        },
{
    let (b, next) = match read_bytes(bytes, pos) {
        Some(x) => x,
        None => { return None; },
    };
    match string_from_utf8(b) {
        Some(t) => Some((t, next)),
        None => None,
    }
}

/// Reads a header at `pos`.
pub fn read_header(bytes: &[u8], pos: usize) -> (r: Option<(HttpHeader, usize)>)
    requires
        pos <= bytes@.len(),
    ensures
        match r {
            Some((h, next)) => pos <= next <= bytes@.len() && decode_header(
                bytes@.skip(pos as int),
            ) == Some((h@, bytes@.skip(next as int))),
            None => decode_header(bytes@.skip(pos as int)) is None,
        },
{
    let (name, after_name) = match read_string(bytes, pos) {
        Some(x) => x,
        None => { return None; },
    };
    let (value, after_value) = match read_string(bytes, after_name) {
        Some(x) => x,
        None => { return None; },
    };
    Some((HttpHeader { name, value }, after_value))
}

/// What `decode_header_list` gives for a list whose first headers are already read.
pub open spec fn prepend_headers(
    done: Seq<HttpHeaderView>,
    others: Option<(Seq<HttpHeaderView>, Seq<u8>)>,
) -> Option<(Seq<HttpHeaderView>, Seq<u8>)> {
    match others {
        Some((hs, rest)) => Some((done + hs, rest)),
        None => None,
    }
}

/// Reads a header list at `pos`.
pub fn read_headers(bytes: &[u8], pos: usize) -> (r: Option<(Vec<HttpHeader>, usize)>)
    requires
        pos <= bytes@.len(),
    ensures
        match r {
            Some((hs, next)) => pos <= next <= bytes@.len() && decode_headers(
                bytes@.skip(pos as int),
            ) == Some((headers_view(hs@), bytes@.skip(next as int))),
            None => decode_headers(bytes@.skip(pos as int)) is None,
        },
{
    let (n, start) = match read_u64(bytes, pos) {
        Some(x) => x,
        None => { return None; },
    };
    let ghost whole = decode_headers(bytes@.skip(pos as int));
    let mut headers: Vec<HttpHeader> = Vec::new();
    let mut cur: usize = start;
    let mut i: u64 = 0;
    proof {
        let first = decode_header_list(bytes@.skip(cur as int), n as nat);
        assert(headers_view(headers@) =~= Seq::<HttpHeaderView>::empty());
        if first is Some {
            assert(Seq::<HttpHeaderView>::empty() + (first->0).0 =~= (first->0).0);
        }
    }
    while i < n
        invariant
            i <= n,
            start <= cur <= bytes@.len(),
            whole == decode_headers(bytes@.skip(pos as int)),
            whole == prepend_headers(
                headers_view(headers@),
                decode_header_list(bytes@.skip(cur as int), (n - i) as nat),
            ),
        decreases n - i,
    {
        let ghost done = headers_view(headers@);
        let ghost here = bytes@.skip(cur as int);
        match read_header(bytes, cur) {
            Some((h, next)) => {
                proof {
                    let there = bytes@.skip(next as int);
                    let others = decode_header_list(there, (n - i - 1) as nat);
                    assert(headers_view(headers@.push(h)) =~= done.push(h@));
                    if others is Some {
                        assert(done + (seq![h@] + (others->0).0) =~= done.push(h@) + (others->0).0);
                    }
                }
                headers.push(h);
                cur = next;
                i += 1;
            },
            None => {
                return None;
            },
        }
    }
    proof {
        assert(headers_view(headers@) + Seq::<HttpHeaderView>::empty() =~= headers_view(headers@));
    }
    Some((headers, cur))
}

/// The method that a byte stands for.
pub fn method_from_code(code: u8) -> (m: Option<HttpMethod>)
    ensures
        m == method_of_code(code),
{
    if code == 0 {
        Some(HttpMethod::GET)
    } else if code == 1 {
        Some(HttpMethod::POST)
    } else if code == 2 {
        Some(HttpMethod::PUT)
    } else if code == 3 {
        Some(HttpMethod::HEAD)
    } else if code == 4 {
        Some(HttpMethod::DELETE)
    } else {
        None
    }
}

/// Reads a body that may be absent at `pos`.
pub fn read_optional_bytes(bytes: &[u8], pos: usize) -> (r: Option<(Option<Vec<u8>>, usize)>)
    requires
        pos <= bytes@.len(),
    ensures
        match r {
            Some((b, next)) => pos <= next <= bytes@.len() && decode_optional_bytes(
                bytes@.skip(pos as int),
            ) == Some((body_view(b), bytes@.skip(next as int))),
            None => decode_optional_bytes(bytes@.skip(pos as int)) is None,
        },
{
    if pos >= bytes.len() {
        return None;
    }
    let flag = bytes[pos];
    proof {
        assert(bytes@.skip(pos as int)[0] == bytes@[pos as int]);
        assert(bytes@.skip(pos as int).skip(1) =~= bytes@.skip(pos + 1));
    }
    if flag == 0 {
        Some((None, pos + 1))
    } else if flag == 1 {
        match read_bytes(bytes, pos + 1) {
            Some((b, next)) => Some((Some(b), next)),
            None => None,
        }
    } else {
        None
    }
}

/// Reads a request at `pos`.
pub fn read_request(bytes: &[u8], pos: usize) -> (r: Option<(HttpRequest, usize)>)
    requires
        pos <= bytes@.len(),
    ensures
        match r {
            Some((req, next)) => pos <= next <= bytes@.len() && decode_request(
                bytes@.skip(pos as int),
            ) == Some((req@, bytes@.skip(next as int))),
            None => decode_request(bytes@.skip(pos as int)) is None,
        },
{
    let (url, after_url) = match read_string(bytes, pos) {
        Some(x) => x,
        None => { return None; },
    };
    if after_url >= bytes.len() {
        return None;
    }
    proof {
        assert(bytes@.skip(after_url as int)[0] == bytes@[after_url as int]);
        assert(bytes@.skip(after_url as int).skip(1) =~= bytes@.skip(after_url + 1));
    }
    let method = match method_from_code(bytes[after_url]) {
        Some(m) => m,
        None => { return None; },
    };
    let (headers, after_headers) = match read_headers(bytes, after_url + 1) {
        Some(x) => x,
        None => { return None; },
    };
    let (body, after_body) = match read_optional_bytes(bytes, after_headers) {
        Some(x) => x,
        None => { return None; },
    };
    Some((HttpRequest { url, method, headers, body }, after_body))
}

/// Reads a response at `pos`.
pub fn read_response(bytes: &[u8], pos: usize) -> (r: Option<(HttpResponse, usize)>)
    requires
        pos <= bytes@.len(),
    ensures
        match r {
            Some((resp, next)) => pos <= next <= bytes@.len() && decode_response(
                bytes@.skip(pos as int),
            ) == Some((resp@, bytes@.skip(next as int))),
            None => decode_response(bytes@.skip(pos as int)) is None,
        },
{
    let (status, after_status) = match read_u64(bytes, pos) {
        Some(x) => x,
        None => { return None; },
    };
    let (headers, after_headers) = match read_headers(bytes, after_status) {
        Some(x) => x,
        None => { return None; },
    };
    let (body, after_body) = match read_bytes(bytes, after_headers) {
        Some(x) => x,
        None => { return None; },
    };
    Some((HttpResponse { status, headers, body }, after_body))
}

} // verus!
