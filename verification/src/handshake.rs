//! The handshake that is played before the payload is looked at: a
//! decorative status line, or a WebSocket opening handshake with a computed
//! accept value.

use vstd::prelude::*;
use vstd::string::StringSliceAdditionalSpecFns;
use crate::base64::{base64_spec, encode};
use crate::bytes::{append_bytes, copy_range};
use crate::sha1::{sha1, sha1_spec};

verus! {

/// A byte folded to lower case, where it is an ASCII capital.
pub open spec fn lower(b: u8) -> u8 {
    if 65 <= b <= 90 {
        (b + 32) as u8
    } else {
        b
    }
}

/// A space or a tab.
pub open spec fn is_blank(b: u8) -> bool {
    b == 32 || b == 9
}

/// A carriage return or a line feed.
pub open spec fn is_break(b: u8) -> bool {
    b == 13 || b == 10
}

/// `name` stands in `data` at offset `at`, letters compared without regard
/// to case.
pub open spec fn occurs_folded_at(data: Seq<u8>, name: Seq<u8>, at: int) -> bool {
    &&& 0 <= at
    &&& at + name.len() <= data.len()
    &&& forall|k: int| 0 <= k < name.len() ==> lower(data[at + k]) == lower(#[trigger] name[k])
}

/// The first offset from `from` on at which `name` stands in `data`,
/// letters compared without regard to case.
pub open spec fn find_folded(data: Seq<u8>, name: Seq<u8>, from: int) -> Option<int>
    decreases data.len() - from,
{
    if from < 0 || from + name.len() > data.len() {
        None
    } else if occurs_folded_at(data, name, from) {
        Some(from)
    } else {
        find_folded(data, name, from + 1)
    }
}

/// The first offset from `from` on that holds no blank, or the end.
pub open spec fn skip_blanks(data: Seq<u8>, from: int) -> int
    decreases data.len() - from,
{
    if 0 <= from < data.len() && is_blank(data[from]) {
        skip_blanks(data, from + 1)
    } else {
        from
    }
}

/// The first offset from `from` on that holds a line break, or the end.
pub open spec fn line_end(data: Seq<u8>, from: int) -> int
    decreases data.len() - from,
{
    if 0 <= from < data.len() && !is_break(data[from]) {
        line_end(data, from + 1)
    } else {
        from
    }
}

/// The end of `data[from..to]` once blanks at its end are left off.
pub open spec fn trim_end(data: Seq<u8>, from: int, to: int) -> int
    decreases to - from,
{
    if 0 <= from < to <= data.len() && is_blank(data[to - 1]) {
        trim_end(data, from, to - 1)
    } else {
        to
    }
}

/// The value of a header whose name and colon end at `from`: the rest of
/// the line, without the blanks around it; nothing where `from` lies beyond
/// the data.
pub open spec fn value_spec(data: Seq<u8>, from: int) -> Seq<u8> {
    if 0 <= from <= data.len() {
        let start = skip_blanks(data, from);
        let end = trim_end(data, start, line_end(data, start));
        data.subrange(start, end)
    } else {
        Seq::empty()
    }
}

/// The name of the key header, with its colon.
pub open spec fn key_header() -> Seq<u8> {
    "sec-websocket-key:".spec_bytes()
}

/// The text that is appended to the key before hashing.
pub open spec fn accept_guid() -> Seq<u8> {
    "258EAFA5-E914-47DA-95CA-C5AB0DC85B11".spec_bytes()
}

/// The value of the first key header of an opening request, if it has one.
/// The header is found by its name wherever it first stands, in any case of
/// letters.
pub open spec fn key_spec(request: Seq<u8>) -> Option<Seq<u8>> {
    match find_folded(request, key_header(), 0) {
        Some(at) => Some(value_spec(request, at + key_header().len())),
        None => None,
    }
}

/// The accept value for a key: the Base64 text of the SHA-1 digest of the
/// key followed by the fixed text.
pub open spec fn accept_spec(key: Seq<u8>) -> Seq<u8> {
    base64_spec(sha1_spec(key + accept_guid()))
}

/// The response that accepts an upgrade.
pub open spec fn switching_spec(accept: Seq<u8>) -> Seq<u8> {
    "HTTP/1.1 101 Switching Protocols\r\nUpgrade: websocket\r\nConnection: Upgrade\r\nSec-WebSocket-Accept: ".spec_bytes()
        + accept + "\r\n\r\n".spec_bytes()
}

/// The response that refuses a request without a key.
pub open spec fn bad_request_spec() -> Seq<u8> {
    "HTTP/1.1 400 Bad Request\r\n\r\n".spec_bytes()
}

/// The decorative line that opens a connection.
pub open spec fn opening_line_spec(banner: Seq<u8>) -> Seq<u8> {
    "HTTP/1.1 101 ".spec_bytes() + banner + "\r\n\r\n".spec_bytes()
}

/// The decorative line that follows the client's first read.
pub open spec fn follow_up_line_spec(banner: Seq<u8>) -> Seq<u8> {
    "HTTP/1.1 200 ".spec_bytes() + banner + "\r\n\r\n".spec_bytes()
}

/// The answer to an opening request.
#[derive(Debug)]
pub enum HandshakeReply {
    /// The upgrade is accepted: write these bytes and go on.
    Accept(Vec<u8>),
    /// The request is refused: write these bytes and close; no backend is
    /// connected to.
    Reject(Vec<u8>),
}

/// An answer as mathematical values.
pub enum HandshakeReplyView {
    Accept(Seq<u8>),
    Reject(Seq<u8>),
}

impl View for HandshakeReply {
    type V = HandshakeReplyView;

    open spec fn view(&self) -> HandshakeReplyView {
        match *self {
            HandshakeReply::Accept(bytes) => HandshakeReplyView::Accept(bytes@),
            HandshakeReply::Reject(bytes) => HandshakeReplyView::Reject(bytes@),
        }
    }
}

/// The answer to an opening request: the accepting response with the
/// accept value of its key, or the refusal where it has no key header.
pub open spec fn answer_spec(request: Seq<u8>) -> HandshakeReplyView {
    match key_spec(request) {
        Some(key) => HandshakeReplyView::Accept(switching_spec(accept_spec(key))),
        None => HandshakeReplyView::Reject(bad_request_spec()),
    }
}

fn fold(b: u8) -> (r: u8)
    ensures
        r == lower(b),
{
    if 65 <= b && b <= 90 {
        b + 32
    } else {
        b
    }
}

fn matches_folded_at(data: &[u8], name: &[u8], at: usize) -> (hit: bool)
    ensures
        hit == occurs_folded_at(data@, name@, at as int),
{
    if name.len() > data.len() || at > data.len() - name.len() {
        return false;
    }
    let mut k: usize = 0;
    while k < name.len()
        invariant
            k <= name.len(),
            at + name.len() <= data.len(),
            forall|j: int| 0 <= j < k ==> lower(data@[at + j]) == lower(#[trigger] name@[j]),
        decreases name.len() - k,
    {
        if fold(data[at + k]) != fold(name[k]) {
            return false;
        }
        k += 1;
    }
    true
}

/// Finds the first place where `name` stands in `data`, letters compared
/// without regard to case.
pub fn find_header(data: &[u8], name: &[u8]) -> (found: Option<usize>)
    ensures
        match found {
            Some(at) => find_folded(data@, name@, 0) == Some(at as int) && occurs_folded_at(
                data@,
                name@,
                at as int,
            ),
            None => find_folded(data@, name@, 0) == None::<int>,
        },
{
    if name.len() > data.len() {
        return None;
    }
    let last: usize = data.len() - name.len();
    let mut at: usize = 0;
    while at <= last
        invariant
            last == data.len() - name.len(),
            at <= last + 1,
            find_folded(data@, name@, 0) == find_folded(data@, name@, at as int),
        decreases last + 1 - at,
    {
        if matches_folded_at(data, name, at) {
            return Some(at);
        }
        at += 1;
    }
    None
}

/// Reads the value of a header whose name and colon end at `from`.
pub fn header_value(data: &[u8], from: usize) -> (value: Vec<u8>)
    ensures
        value@ == value_spec(data@, from as int),
{
    if from > data.len() {
        return Vec::new();
    }
    let mut start: usize = from;
    while start < data.len() && (data[start] == 32 || data[start] == 9)
        invariant
            from <= start <= data.len(),
            skip_blanks(data@, from as int) == skip_blanks(data@, start as int),
        decreases data.len() - start,
    {
        start += 1;
    }
    let mut stop: usize = start;
    while stop < data.len() && !(data[stop] == 13 || data[stop] == 10)
        invariant
            start <= stop <= data.len(),
            line_end(data@, start as int) == line_end(data@, stop as int),
        decreases data.len() - stop,
    {
        stop += 1;
    }
    let ghost full = stop;
    while start < stop && (data[stop - 1] == 32 || data[stop - 1] == 9)
        invariant
            start <= stop <= data.len(),
            trim_end(data@, start as int, full as int) == trim_end(data@, start as int, stop as int),
        decreases stop - start,
    {
        stop -= 1;
    }
    copy_range(data, start, stop)
}

/// Finds the key of an opening request.
pub fn find_key(request: &[u8]) -> (found: Option<Vec<u8>>)
    ensures
        match found {
            Some(key) => key_spec(request@) == Some(key@),
            None => key_spec(request@) == None::<Seq<u8>>,
        },
{
    let name = "sec-websocket-key:".as_bytes();
    let length: usize = request.len();
    match find_header(request, name) {
        Some(at) => {
            assert(at + name@.len() <= length);
            Some(header_value(request, at + name.len()))
        },
        None => None,
    }
}

/// Computes the accept value for a key.
pub fn accept_key(key: &[u8]) -> (accept: Vec<u8>)
    ensures
        accept@ == accept_spec(key@),
{
    let mut text: Vec<u8> = Vec::new();
    append_bytes(&mut text, key);
    append_bytes(&mut text, "258EAFA5-E914-47DA-95CA-C5AB0DC85B11".as_bytes());
    assert(text@ =~= key@ + accept_guid());
    let digest = sha1(text.as_slice());
    encode(digest.as_slice())
}

/// Builds the response that accepts an upgrade with the given accept value.
pub fn switching_protocols(accept: &[u8]) -> (response: Vec<u8>)
    ensures
        response@ == switching_spec(accept@),
{
    let mut response: Vec<u8> = Vec::new();
    append_bytes(
        &mut response,
        "HTTP/1.1 101 Switching Protocols\r\nUpgrade: websocket\r\nConnection: Upgrade\r\nSec-WebSocket-Accept: ".as_bytes(),
    );
    append_bytes(&mut response, accept);
    append_bytes(&mut response, "\r\n\r\n".as_bytes());
    response
}

/// Builds the response that refuses a request without a key.
pub fn bad_request() -> (response: Vec<u8>)
    ensures
        response@ == bad_request_spec(),
{
    let mut response: Vec<u8> = Vec::new();
    append_bytes(&mut response, "HTTP/1.1 400 Bad Request\r\n\r\n".as_bytes());
    response
}

/// Builds the decorative line that opens a connection.
pub fn opening_line(banner: &str) -> (line: Vec<u8>)
    ensures
        line@ == opening_line_spec(banner.spec_bytes()),
{
    let mut line: Vec<u8> = Vec::new();
    append_bytes(&mut line, "HTTP/1.1 101 ".as_bytes());
    append_bytes(&mut line, banner.as_bytes());
    append_bytes(&mut line, "\r\n\r\n".as_bytes());
    line
}

/// Builds the decorative line that follows the client's first read.
pub fn follow_up_line(banner: &str) -> (line: Vec<u8>)
    ensures
        line@ == follow_up_line_spec(banner.spec_bytes()),
{
    let mut line: Vec<u8> = Vec::new();
    append_bytes(&mut line, "HTTP/1.1 200 ".as_bytes());
    append_bytes(&mut line, banner.as_bytes());
    append_bytes(&mut line, "\r\n\r\n".as_bytes());
    line
}

/// Answers an opening request.
pub fn answer(request: &[u8]) -> (reply: HandshakeReply)
    ensures
        reply@ == answer_spec(request@),
{
    match find_key(request) {
        Some(key) => {
            let accept = accept_key(key.as_slice());
            HandshakeReply::Accept(switching_protocols(accept.as_slice()))
        },
        None => HandshakeReply::Reject(bad_request()),
    }
}

/// The accept value of a key depends on the key alone and is twenty-eight
/// characters long.
pub proof fn accept_value_is_fixed(key: Seq<u8>, other: Seq<u8>)
    ensures
        key == other ==> accept_spec(key) == accept_spec(other),
        accept_spec(key).len() == 28,
{
    crate::base64::encoded_length(sha1_spec(key + accept_guid()));
    crate::sha1::digest_length(key + accept_guid());
}

/// An opening request is refused exactly when the key header's name stands
/// nowhere in it.
pub proof fn refused_without_key(request: Seq<u8>)
    ensures
        answer_spec(request) is Reject <==> forall|at: int|
            !occurs_folded_at(request, key_header(), at),
{
    find_folded_finds(request, key_header(), 0);
}

/// `find_folded` gives the first place from `from` on, and none exactly
/// when there is none.
pub proof fn find_folded_finds(data: Seq<u8>, name: Seq<u8>, from: int)
    requires
        0 <= from,
    ensures
        match find_folded(data, name, from) {
            Some(at) => from <= at && occurs_folded_at(data, name, at) && forall|j: int|
                from <= j < at ==> !occurs_folded_at(data, name, j),
            None => forall|j: int| from <= j ==> !occurs_folded_at(data, name, j),
        },
    decreases data.len() - from,
{
    if from + name.len() <= data.len() && !occurs_folded_at(data, name, from) {
        find_folded_finds(data, name, from + 1);
    }
}

} // verus!
