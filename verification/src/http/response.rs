//! Responses and their exact text on the wire.

use crate::http::request::protocol_text;
use vstd::prelude::*;
use vstd::utf8::encode_utf8;

verus! {

/// The status of a response.
#[derive(Debug, Clone, Copy, PartialEq, Eq, Structural)]
#[allow(non_camel_case_types)]
pub enum StatusCode {
    OK,
    Created,
    NotFound,
}

impl StatusCode {
    /// The status as the status line spells it.
    pub open spec fn text(self) -> Seq<char> {
        match self {
            StatusCode::OK => "200 OK"@,
            StatusCode::Created => "201 Created"@,
            StatusCode::NotFound => "404 Not Found"@,
        }
    }

    /// The status as the status line spells it.
    pub fn to_string(&self) -> (s: String)
        ensures
            s@ == self.text(),
    {
        match self {
            StatusCode::OK => "200 OK".to_owned(),
            StatusCode::Created => "201 Created".to_owned(),
            StatusCode::NotFound => "404 Not Found".to_owned(),
        }
    }
}

/// The content type of a response.
#[derive(Debug, Clone, Copy, PartialEq, Eq, Structural)]
pub enum ContentType {
    TextPlain,
    OctetStream,
}

impl ContentType {
    /// The content type as its header spells it.
    pub open spec fn text(self) -> Seq<char> {
        match self {
            ContentType::TextPlain => "text/plain"@,
            ContentType::OctetStream => "application/octet-stream"@,
        }
    }

    /// The content type as its header spells it.
    pub fn to_string(&self) -> (s: String)
        ensures
            s@ == self.text(),
    {
        match self {
            ContentType::TextPlain => "text/plain".to_owned(),
            ContentType::OctetStream => "application/octet-stream".to_owned(),
        }
    }
}

/// The decimal digit of value `d`.
pub open spec fn digit(d: nat) -> char
    recommends
        d < 10,
{
    if d == 0 {
        '0'
    } else if d == 1 {
        '1'
    } else if d == 2 {
        '2'
    } else if d == 3 {
        '3'
    } else if d == 4 {
        '4'
    } else if d == 5 {
        '5'
    } else if d == 6 {
        '6'
    } else if d == 7 {
        '7'
    } else if d == 8 {
        '8'
    } else {
        '9'
    }
}

/// `n` in decimal digits, without leading zeros.
pub open spec fn decimal(n: nat) -> Seq<char>
    decreases n,
{
    if n < 10 {
        seq![digit(n)]
    } else {
        decimal(n / 10).push(digit(n % 10))
    }
}

/// The value of the digit `c`.
pub open spec fn digit_value(c: char) -> nat {
    if c == '1' {
        1
    } else if c == '2' {
        2
    } else if c == '3' {
        3
    } else if c == '4' {
        4
    } else if c == '5' {
        5
    } else if c == '6' {
        6
    } else if c == '7' {
        7
    } else if c == '8' {
        8
    } else if c == '9' {
        9
    } else {
        0
    }
}

/// The number that the decimal digits `digits` denote.
pub open spec fn decimal_value(digits: Seq<char>) -> nat
    decreases digits.len(),
{
    if digits.len() == 0 {
        0
    } else {
        decimal_value(digits.drop_last()) * 10 + digit_value(digits.last())
    }
}

/// The digits of a number denote that number.
pub proof fn lemma_decimal_value(n: nat)
    ensures
        decimal_value(decimal(n)) == n,
        decimal(n).len() >= 1,
    decreases n,
{
    if n < 10 {
        assert(decimal(n).drop_last() =~= Seq::<char>::empty());
        assert(decimal_value(Seq::<char>::empty()) == 0);
    } else {
        lemma_decimal_value(n / 10);
        assert(decimal(n).drop_last() =~= decimal(n / 10));
    }
}

/// How many bytes the UTF-8 encoding of `body` takes.
pub open spec fn byte_len(body: Seq<char>) -> nat {
    encode_utf8(body).len()
}

/// A response as contracts speak of it.
pub struct ResponseView {
    pub protocol: Seq<char>,
    pub status: StatusCode,
    pub content_type: ContentType,
    pub content_len: nat,
    pub body: Seq<char>,
}

impl ResponseView {
    /// The response with status 200 that carries `body`.
    pub open spec fn ok(body: Seq<char>, content_type: ContentType) -> ResponseView {
        ResponseView {
            protocol: protocol_text(),
            status: StatusCode::OK,
            content_type,
            content_len: byte_len(body),
            body,
        }
    }

    /// The response with status 201 and no body.
    pub open spec fn created(content_type: ContentType) -> ResponseView {
        ResponseView {
            protocol: protocol_text(),
            status: StatusCode::Created,
            content_type,
            content_len: 0,
            body: Seq::empty(),
        }
    }

    /// The response with status 404 and no body.
    pub open spec fn not_found() -> ResponseView {
        ResponseView {
            protocol: protocol_text(),
            status: StatusCode::NotFound,
            content_type: ContentType::TextPlain,
            content_len: 0,
            body: Seq::empty(),
        }
    }

    /// Whether the content length is the byte length of the body.
    pub open spec fn consistent(self) -> bool {
        self.content_len == byte_len(self.body)
    }

    /// The response as it goes over the wire: status line, the two headers,
    /// an empty line, and the body with nothing behind it.
    pub open spec fn wire(self) -> Seq<char> {
        self.protocol + " "@ + self.status.text() + "\r\n"@ + "Content-Type: "@
            + self.content_type.text() + "\r\n"@ + "Content-Length: "@ + decimal(self.content_len)
            + "\r\n"@ + "\r\n"@ + self.body
    }
}

/// The Content-Length line of a response whose content length was taken
/// from its body states the number of bytes of that body, in digits that
/// denote that number; this holds of the three kinds of response that the
/// constructors make, whatever the body.
pub proof fn lemma_content_length(response: ResponseView)
    requires
        response.consistent(),
    ensures
        response.wire() == response.protocol + " "@ + response.status.text() + "\r\n"@
            + "Content-Type: "@ + response.content_type.text() + "\r\n"@ + "Content-Length: "@
            + decimal(byte_len(response.body)) + "\r\n"@ + "\r\n"@ + response.body,
        decimal_value(decimal(byte_len(response.body))) == byte_len(response.body),
{
    lemma_decimal_value(byte_len(response.body));
}

/// The responses that the constructors make take their content length
/// from their body.
pub proof fn lemma_constructors_consistent(body: Seq<char>, content_type: ContentType)
    ensures
        ResponseView::ok(body, content_type).consistent(),
        ResponseView::created(content_type).consistent(),
        ResponseView::not_found().consistent(),
{
}

/// A response.
#[derive(Debug)]
pub struct Response {
    pub protocol: String,
    pub status: StatusCode,
    pub content_type: ContentType,
    pub content_len: usize,
    pub body: String,
}

impl View for Response {
    type V = ResponseView;

    open spec fn view(&self) -> ResponseView {
        ResponseView {
            protocol: self.protocol@,
            status: self.status,
            content_type: self.content_type,
            content_len: self.content_len as nat,
            body: self.body@,
        }
    }
}

/// The digit of value `d` as a string.
fn digit_text(d: usize) -> (s: &'static str)
    requires
        d < 10,
    ensures
        s@ == seq![digit(d as nat)],
{
    proof {
        reveal_strlit("0");
        reveal_strlit("1");
        reveal_strlit("2");
        reveal_strlit("3");
        reveal_strlit("4");
        reveal_strlit("5");
        reveal_strlit("6");
        reveal_strlit("7");
        reveal_strlit("8");
        reveal_strlit("9");
    }
    if d == 0 {
        "0"
    } else if d == 1 {
        "1"
    } else if d == 2 {
        "2"
    } else if d == 3 {
        "3"
    } else if d == 4 {
        "4"
    } else if d == 5 {
        "5"
    } else if d == 6 {
        "6"
    } else if d == 7 {
        "7"
    } else if d == 8 {
        "8"
    } else {
        "9"
    }
}

/// Appends `n` in decimal digits to `out`.
fn push_decimal(out: &mut String, n: usize)
    ensures
        final(out)@ == old(out)@ + decimal(n as nat),
    decreases n,
{
    if n >= 10 {
        push_decimal(out, n / 10);
    }
    out.append(digit_text(n % 10));
}

impl Response {
    /// The response with status 200 that carries `body`; the content length
    /// is the length of `body` in bytes.
    pub fn ok(body: &str, content_type: ContentType) -> (response: Self)
        ensures
            response@ == ResponseView::ok(body@, content_type),
            response@.consistent(),
    {
        Response {
            protocol: "HTTP/1.1".to_owned(),
            status: StatusCode::OK,
            content_type,
            content_len: body.as_bytes().len(),
            body: body.to_owned(),
        }
    }

    /// The response with status 201 and no body.
    pub fn created(content_type: ContentType) -> (response: Self)
        ensures
            response@ == ResponseView::created(content_type),
            response@.consistent(),
    {
        proof {
            lemma_constructors_consistent(Seq::empty(), content_type);
        }
        Response {
            protocol: "HTTP/1.1".to_owned(),
            status: StatusCode::Created,
            content_type,
            content_len: 0,
            body: String::new(),
        }
    }

    /// The response with status 404 and no body.
    pub fn not_found() -> (response: Self)
        ensures
            response@ == ResponseView::not_found(),
            response@.consistent(),
    {
        proof {
            lemma_constructors_consistent(Seq::empty(), ContentType::TextPlain);
        }
        Response {
            protocol: "HTTP/1.1".to_owned(),
            status: StatusCode::NotFound,
            content_type: ContentType::TextPlain,
            content_len: 0,
            body: String::new(),
        }
    }

    /// The response as it goes over the wire.
    pub fn to_string(&self) -> (s: String)
        ensures
            s@ == self@.wire(),
    {
        let mut out = String::new();
        out.append(self.protocol.as_str());
        out.append(" ");
        out.append(self.status.to_string().as_str());
        out.append("\r\n");
        out.append("Content-Type: ");
        out.append(self.content_type.to_string().as_str());
        out.append("\r\n");
        out.append("Content-Length: ");
        push_decimal(&mut out, self.content_len);
        out.append("\r\n");
        out.append("\r\n");
        out.append(self.body.as_str());
        out
    }
}

} // verus!
