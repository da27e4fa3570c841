//! The catalog of statuses, the message that carries one, and its wire form.

use crate::bytes::{append, ascii, bytes_of};
use crate::limits::{CR, LF, RESPONSE_CAP, SP};
use vstd::prelude::*;

verus! {

/// What a response message says: the mathematical value of a
/// [`ResponseMessage`].
pub struct Message {
    /// The protocol version that opens the status line.
    pub http: Seq<u8>,
    /// The numeric status code.
    pub code: u16,
    /// The reason phrase.
    pub desc: Seq<u8>,
    /// The one header line that follows the status line.
    pub header: Seq<u8>,
}

/// The message that every response is: version `HTTP/1.1`, the given code
/// and reason, and the header `Connection: close`.
pub open spec fn answer(code: u16, desc: Seq<u8>) -> Message {
    Message { http: ascii("HTTP/1.1"@), code, desc, header: ascii("Connection: close"@) }
}

/// The decimal digits of `n`, most significant first, without leading zeros.
pub open spec fn decimal(n: nat) -> Seq<u8>
    decreases n,
{
    if n < 10 {
        seq![(0x30 + n) as u8]
    } else {
        decimal(n / 10).push((0x30 + n % 10) as u8)
    }
}

/// The bytes that go out for a message: the status line, the header line and
/// the empty line that ends the head, each closed by CR LF.
pub open spec fn wire(m: Message) -> Seq<u8> {
    m.http + seq![SP] + decimal(m.code as nat) + seq![SP] + m.desc + seq![CR, LF] + m.header
        + seq![CR, LF, CR, LF]
}

/// A simplified HTTP response message.
pub struct ResponseMessage<'a> {
    pub http: &'a [u8],
    pub code: u16,
    pub desc: &'a [u8],
    pub headers: [&'a [u8]; 1],
}

impl<'a> View for ResponseMessage<'a> {
    type V = Message;

    open spec fn view(&self) -> Message {
        Message { http: self.http@, code: self.code, desc: self.desc@, header: self.headers[0]@ }
    }
}

/// Puts the decimal digits of `n` at the end of `out`.
fn push_decimal(out: &mut Vec<u8>, n: u16)
    ensures
        final(out)@ == old(out)@ + decimal(n as nat),
    decreases n,
{
    if n >= 10 {
        push_decimal(out, n / 10);
    }
    let digit: u8 = (n % 10) as u8;
    out.push(0x30 + digit);
    assert(out@ =~= old(out)@ + decimal(n as nat));
}

impl<'a> ResponseMessage<'a> {
    /// Creates a response message with a given status code and description.
    pub fn with_status(code: u16, desc: &'a [u8]) -> (response: ResponseMessage<'a>)
        ensures
            response@ == answer(code, desc@),
            response.desc == desc,
    {
        proof {
            reveal_strlit("HTTP/1.1");
            reveal_strlit("Connection: close");
        }
        ResponseMessage {
            http: bytes_of("HTTP/1.1"),
            code,
            desc,
            headers: [bytes_of("Connection: close")],
        }
    }

    /// The bytes that are written to the connection for this message.
    pub fn to_bytes(&self) -> (out: Vec<u8>)
        ensures
            out@ == wire(self@),
    {
        let mut out: Vec<u8> = Vec::with_capacity(RESPONSE_CAP);
        append(&mut out, self.http);
        out.push(SP);
        push_decimal(&mut out, self.code);
        out.push(SP);
        append(&mut out, self.desc);
        out.push(CR);
        out.push(LF);
        append(&mut out, self.headers[0]);
        out.push(CR);
        out.push(LF);
        out.push(CR);
        out.push(LF);
        assert(out@ =~= wire(self@));
        out
    }
}

/// The closed catalog of statuses that the responder answers with.
#[derive(Clone, Copy, Debug, PartialEq, Eq, Structural)]
pub enum Status {
    /// 200 OK
    Okay,
    /// 400 Bad Request
    BadRequest,
    /// 404 Not Found
    NotFound,
    /// 405 Method Not Allowed
    MethodNotAllowed,
    /// 414 URI Too Long
    UriTooLong,
    /// 505 HTTP Version Not Supported
    VersionNotSupported,
}

impl Status {
    /// The numeric code of the status.
    pub open spec fn number(self) -> u16 {
        match self {
            Status::Okay => 200,
            Status::BadRequest => 400,
            Status::NotFound => 404,
            Status::MethodNotAllowed => 405,
            Status::UriTooLong => 414,
            Status::VersionNotSupported => 505,
        }
    }

    /// The reason phrase of the status.
    pub open spec fn phrase(self) -> Seq<u8> {
        match self {
            Status::Okay => ascii("OK"@),
            Status::BadRequest => ascii("Bad Request"@),
            Status::NotFound => ascii("Not Found"@),
            Status::MethodNotAllowed => ascii("Method Not Allowed"@),
            Status::UriTooLong => ascii("URI Too Long"@),
            Status::VersionNotSupported => ascii("HTTP Version Not Supported"@),
        }
    }

    /// What the message of the status says.
    pub open spec fn said(self) -> Message {
        answer(self.number(), self.phrase())
    }

    /// The numeric code of the status.
    pub fn code(self) -> (code: u16)
        ensures
            code == self.number(),
    {
        match self {
            Status::Okay => 200,
            Status::BadRequest => 400,
            Status::NotFound => 404,
            Status::MethodNotAllowed => 405,
            Status::UriTooLong => 414,
            Status::VersionNotSupported => 505,
        }
    }

    /// The reason phrase of the status.
    pub fn reason(self) -> (reason: &'static [u8])
        ensures
            reason@ == self.phrase(),
    {
        proof {
            reveal_strlit("OK");
            reveal_strlit("Bad Request");
            reveal_strlit("Not Found");
            reveal_strlit("Method Not Allowed");
            reveal_strlit("URI Too Long");
            reveal_strlit("HTTP Version Not Supported");
        }
        match self {
            Status::Okay => bytes_of("OK"),
            Status::BadRequest => bytes_of("Bad Request"),
            Status::NotFound => bytes_of("Not Found"),
            Status::MethodNotAllowed => bytes_of("Method Not Allowed"),
            Status::UriTooLong => bytes_of("URI Too Long"),
            Status::VersionNotSupported => bytes_of("HTTP Version Not Supported"),
        }
    }

    /// The response message of the status.
    pub fn message(self) -> (response: ResponseMessage<'static>)
        ensures
            response@ == self.said(),
    {
        ResponseMessage::with_status(self.code(), self.reason())
    }
}

/// The wire form of every status of the catalog fits the response capacity.
pub proof fn lemma_catalog_fits(status: Status)
    ensures
        wire(status.said()).len() <= RESPONSE_CAP,
{
    reveal_strlit("HTTP/1.1");
    reveal_strlit("Connection: close");
    reveal_strlit("OK");
    reveal_strlit("Bad Request");
    reveal_strlit("Not Found");
    reveal_strlit("Method Not Allowed");
    reveal_strlit("URI Too Long");
    reveal_strlit("HTTP Version Not Supported");
    reveal_with_fuel(decimal, 3);
}

} // verus!
