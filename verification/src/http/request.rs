//! The request line: how its three fields are cut out of the raw bytes, and
//! which status a line gets.

use crate::bytes::{
    all_ascii, ascii, bytes_of, clip, equal, find, is_ascii_bytes, is_span, lemma_span,
    span,
};
use crate::http::response::{ResponseMessage, Status};
use crate::limits::{METHOD_LIMIT, PATH_LIMIT, REQUEST_CAP, SLASH, SP, VERSION_LIMIT};
use vstd::prelude::*;

verus! {

/// The three fields of a request line: the mathematical value of a
/// [`RequestMessage`].
pub struct RequestLine {
    pub method: Seq<u8>,
    pub path: Seq<u8>,
    pub http: Seq<u8>,
}

/// The bytes of `s` that stand before its first space: all of `s` where it
/// holds none.
pub open spec fn head(s: Seq<u8>) -> Seq<u8> {
    s.take(span(s, SP) as int)
}

/// The bytes of `s` that stand behind its first space: none where it holds
/// no space.
pub open spec fn tail(s: Seq<u8>) -> Seq<u8> {
    if span(s, SP) < s.len() {
        s.skip(span(s, SP) as int + 1)
    } else {
        Seq::empty()
    }
}

/// The fields of a raw line. The first two spaces part the line in three;
/// what follows the second space, further spaces included, is the version.
/// Each part is cut down to the limit of its field, and a part that the
/// line does not reach is empty.
pub open spec fn parse(raw: Seq<u8>) -> RequestLine {
    RequestLine {
        method: clip(head(raw), METHOD_LIMIT as nat),
        path: clip(head(tail(raw)), PATH_LIMIT as nat),
        http: clip(tail(tail(raw)), VERSION_LIMIT as nat),
    }
}

/// The method is one of the eight that are accepted.
pub open spec fn method_known(method: Seq<u8>) -> bool {
    ||| method == ascii("GET"@)
    ||| method == ascii("HEAD"@)
    ||| method == ascii("POST"@)
    ||| method == ascii("PUT"@)
    ||| method == ascii("DELETE"@)
    ||| method == ascii("OPTIONS"@)
    ||| method == ascii("PATCH"@)
    ||| method == ascii("TRACE"@)
}

/// The path is not empty and begins with a slash.
pub open spec fn path_rooted(path: Seq<u8>) -> bool {
    path.len() > 0 && path[0] == SLASH
}

/// The version is one of the two that are supported.
pub open spec fn version_known(http: Seq<u8>) -> bool {
    http == ascii("HTTP/1.0"@) || http == ascii("HTTP/1.1"@)
}

/// The status of a raw line with its fields. The rules are tried from the
/// top and the first that applies decides.
pub open spec fn decide(raw: Seq<u8>, line: RequestLine) -> Status {
    if raw.len() == 0 || !is_ascii_bytes(raw) {
        Status::BadRequest
    } else if !method_known(line.method) {
        Status::MethodNotAllowed
    } else if !path_rooted(line.path) || line.http.len() == 0 {
        Status::UriTooLong
    } else if !version_known(line.http) {
        Status::VersionNotSupported
    } else if line.path == ascii("/healthz"@) {
        Status::Okay
    } else {
        Status::NotFound
    }
}

/// The status of a raw line: that of the line with the fields it parses to.
pub open spec fn status_of(raw: Seq<u8>) -> Status {
    decide(raw, parse(raw))
}

/// A simplified HTTP request message.
pub struct RequestMessage<'a> {
    pub method: &'a [u8],
    pub path: &'a [u8],
    pub http: &'a [u8],
}

impl<'a> View for RequestMessage<'a> {
    type V = RequestLine;

    open spec fn view(&self) -> RequestLine {
        RequestLine { method: self.method@, path: self.path@, http: self.http@ }
    }
}

/// Some message whose fields hold the bytes of `line`.
pub closed spec fn message_of<'a>(line: RequestLine) -> RequestMessage<'a> {
    choose|request: RequestMessage<'a>| request@ == line
}

/// The first `limit` bytes of `s`, or `s` where it is no longer.
fn clipped<'a>(s: &'a [u8], limit: usize) -> (kept: &'a [u8])
    ensures
        kept@ == clip(s@, limit as nat),
{
    if s.len() > limit {
        &s[0..limit]
    } else {
        s
    }
}

/// Parts `s` at its first space.
fn split<'a>(s: &'a [u8]) -> (parts: (&'a [u8], &'a [u8]))
    ensures
        parts.0@ == head(s@),
        parts.1@ == tail(s@),
{
    let i: usize = find(s, SP);
    if i < s.len() {
        (&s[0..i], &s[i + 1..s.len()])
    } else {
        assert(s@.take(i as int) =~= s@);
        (s, &s[0..0])
    }
}

impl<'a> From<&'a [u8]> for RequestMessage<'a> {
    /// Cuts the three fields out of a raw line. The fields borrow from the
    /// line; no byte is copied.
    fn from(value: &'a [u8]) -> (request: Self)
        ensures
            request@ == parse(value@),
            request.method@.len() <= METHOD_LIMIT,
            request.path@.len() <= PATH_LIMIT,
            request.http@.len() <= VERSION_LIMIT,
    {
        let (first, after_first) = split(value);
        let (second, after_second) = split(after_first);
        let request = RequestMessage {
            method: clipped(first, METHOD_LIMIT),
            path: clipped(second, PATH_LIMIT),
            http: clipped(after_second, VERSION_LIMIT),
        };
        proof {
            let chosen = message_of::<'a>(parse(value@));
            assert(request@ == parse(value@));
            assert(chosen@ == parse(value@));
            assert(chosen.method =~= request.method);
            assert(chosen.path =~= request.path);
            assert(chosen.http =~= request.http);
        }
        request
    }
}

impl<'a> vstd::std_specs::convert::FromSpecImpl<&'a [u8]> for RequestMessage<'a> {
    open spec fn obeys_from_spec() -> bool {
        true
    }

    open spec fn from_spec(value: &'a [u8]) -> Self {
        message_of(parse(value@))
    }
}

impl<'a> RequestMessage<'a> {
    /// The most bytes of a raw line that a request message is made from.
    pub const LIMIT: usize = REQUEST_CAP;

    /// Checks if the method is supported.
    pub fn is_method_valid(&self) -> (valid: bool)
        ensures
            valid == method_known(self.method@),
    {
        proof {
            reveal_strlit("GET");
            reveal_strlit("HEAD");
            reveal_strlit("POST");
            reveal_strlit("PUT");
            reveal_strlit("DELETE");
            reveal_strlit("OPTIONS");
            reveal_strlit("PATCH");
            reveal_strlit("TRACE");
        }
        equal(self.method, bytes_of("GET")) || equal(self.method, bytes_of("HEAD")) || equal(
            self.method,
            bytes_of("POST"),
        ) || equal(self.method, bytes_of("PUT")) || equal(self.method, bytes_of("DELETE"))
            || equal(self.method, bytes_of("OPTIONS")) || equal(self.method, bytes_of("PATCH"))
            || equal(self.method, bytes_of("TRACE"))
    }

    /// Checks if the path is valid.
    pub fn is_path_valid(&self) -> (valid: bool)
        ensures
            valid == path_rooted(self.path@),
    {
        self.path.len() > 0 && self.path[0] == SLASH
    }

    /// Checks if the HTTP version is supported.
    pub fn is_http_valid(&self) -> (valid: bool)
        ensures
            valid == version_known(self.http@),
    {
        proof {
            reveal_strlit("HTTP/1.0");
            reveal_strlit("HTTP/1.1");
        }
        equal(self.http, bytes_of("HTTP/1.0")) || equal(self.http, bytes_of("HTTP/1.1"))
    }

    /// Checks if all three fields are empty.
    pub fn is_empty(&self) -> (empty: bool)
        ensures
            empty == (self.method@.len() == 0 && self.path@.len() == 0 && self.http@.len() == 0),
    {
        self.method.len() == 0 && self.path.len() == 0 && self.http.len() == 0
    }

    /// Checks if all three fields hold ASCII bytes only.
    pub fn is_ascii(&self) -> (plain: bool)
        ensures
            plain == (is_ascii_bytes(self.method@) && is_ascii_bytes(self.path@) && is_ascii_bytes(
                self.http@,
            )),
    {
        all_ascii(self.method) && all_ascii(self.path) && all_ascii(self.http)
    }

    /// The status of the raw line `raw` whose fields this message holds.
    pub fn status(&self, raw: &[u8]) -> (status: Status)
        ensures
            status == decide(raw@, self@),
    {
        if raw.len() == 0 || !all_ascii(raw) {
            Status::BadRequest
        } else if !self.is_method_valid() {
            Status::MethodNotAllowed
        } else if !self.is_path_valid() || self.http.len() == 0 {
            Status::UriTooLong
        } else if !self.is_http_valid() {
            Status::VersionNotSupported
        } else {
            proof {
                reveal_strlit("/healthz");
            }
            if equal(self.path, bytes_of("/healthz")) {
                Status::Okay
            } else {
                Status::NotFound
            }
        }
    }

    /// Returns the response message for the raw line `raw` whose fields this
    /// message holds.
    pub fn response(&self, raw: &[u8]) -> (response: ResponseMessage<'static>)
        ensures
            response@ == decide(raw@, self@).said(),
    {
        self.status(raw).message()
    }
}

/// A line that holds no space and is no longer than the method limit is
/// all method: the path and the version are empty. The empty line is such
/// a line.
pub proof fn lemma_word_is_method(raw: Seq<u8>)
    requires
        raw.len() <= METHOD_LIMIT,
        !raw.contains(SP),
    ensures
        parse(raw) == (RequestLine { method: raw, path: Seq::empty(), http: Seq::empty() }),
{
    lemma_span(raw, SP);
    assert(span(raw, SP) == raw.len()) by {
        if span(raw, SP) < raw.len() {
            assert(raw.contains(raw[span(raw, SP) as int]));
        }
    }
    assert(head(raw) =~= raw);
    assert(tail(raw) =~= Seq::<u8>::empty());
    assert(head(tail(raw)) =~= Seq::<u8>::empty());
    assert(tail(tail(raw)) =~= Seq::<u8>::empty());
}

/// Three fields joined by single spaces parse back to themselves, where
/// the method and the path hold no space and each field fits its limit.
pub proof fn lemma_parse_of_joined(method: Seq<u8>, path: Seq<u8>, http: Seq<u8>)
    requires
        !method.contains(SP),
        !path.contains(SP),
        method.len() <= METHOD_LIMIT,
        path.len() <= PATH_LIMIT,
        http.len() <= VERSION_LIMIT,
    ensures
        parse(method + seq![SP] + path + seq![SP] + http) == (RequestLine { method, path, http }),
{
    let raw = method + seq![SP] + path + seq![SP] + http;
    let rest = path + seq![SP] + http;
    lemma_span(raw, SP);
    assert(is_span(raw, SP, method.len() as int)) by {
        assert forall|j: int| 0 <= j < method.len() implies raw[j] != SP by {
            assert(method.contains(method[j]));
        }
    }
    assert(head(raw) =~= method);
    assert(tail(raw) =~= rest);
    lemma_span(rest, SP);
    assert(is_span(rest, SP, path.len() as int)) by {
        assert forall|j: int| 0 <= j < path.len() implies rest[j] != SP by {
            assert(path.contains(path[j]));
        }
    }
    assert(head(rest) =~= path);
    assert(tail(rest) =~= http);
}

/// No field is longer than its limit, whatever the line.
pub proof fn lemma_fields_capped(raw: Seq<u8>)
    ensures
        parse(raw).method.len() <= METHOD_LIMIT,
        parse(raw).path.len() <= PATH_LIMIT,
        parse(raw).http.len() <= VERSION_LIMIT,
{
}

/// The fields of a line of ASCII bytes hold ASCII bytes only, and those of
/// the empty line are empty.
pub proof fn lemma_fields_of_line(raw: Seq<u8>)
    ensures
        is_ascii_bytes(raw) ==> is_ascii_bytes(parse(raw).method) && is_ascii_bytes(
            parse(raw).path,
        ) && is_ascii_bytes(parse(raw).http),
        raw.len() == 0 ==> parse(raw).method.len() == 0 && parse(raw).path.len() == 0 && parse(
            raw,
        ).http.len() == 0,
{
    lemma_span(raw, SP);
    lemma_span(tail(raw), SP);
}

/// The status of a line is a function of its bytes alone: two lines that
/// hold the same bytes get the same status, whenever they are asked.
pub proof fn lemma_status_is_function(first: Seq<u8>, second: Seq<u8>)
    requires
        first.len() == second.len(),
        forall|i: int| 0 <= i < first.len() ==> first[i] == second[i],
    ensures
        status_of(first) == status_of(second),
        parse(first) == parse(second),
{
    assert(first =~= second);
}

} // verus!
