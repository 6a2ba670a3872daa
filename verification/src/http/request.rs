//! Requests: the model, the builder, and the parser that reads a request
//! from a byte buffer line by line.

use crate::http::error::{Error, ErrorKind};
use crate::http::headers::{
    headers_wire, lemma_with_field, names_distinct, value_of, with_field, Field, Headers,
};
use crate::http::lines::{after_line, lemma_line_len_bounds, line_bytes, next_line};
use crate::text::{
    begins_with, chars_of, first_end, first_start, first_token, has_separator, is_space,
    lemma_skip_spaces_bounds, range_is, scan_separator, scan_spaces, scan_trim_end, scan_word,
    second_end, second_start, second_token, trim_end,
};
use vstd::prelude::*;
use vstd::utf8::{decode_utf8, valid_utf8};

verus! {

/// The methods that a request may name.
#[derive(Debug, Clone, Copy, PartialEq, Eq, Structural)]
pub enum Method {
    Get,
    Put,
    Post,
    Delete,
}

impl Method {
    /// The method as the request line spells it.
    pub open spec fn text(self) -> Seq<char> {
        match self {
            Method::Get => "GET"@,
            Method::Put => "PUT"@,
            Method::Post => "POST"@,
            Method::Delete => "DELETE"@,
        }
    }

    /// The method as the request line spells it.
    pub fn to_string(&self) -> (s: String)
        ensures
            s@ == self.text(),
    {
        match self {
            Method::Get => "GET".to_owned(),
            Method::Put => "PUT".to_owned(),
            Method::Post => "POST".to_owned(),
            Method::Delete => "DELETE".to_owned(),
        }
    }
}

/// The method that `token` spells, if it spells one.
pub open spec fn method_named(token: Seq<char>) -> Option<Method> {
    if token == "GET"@ {
        Some(Method::Get)
    } else if token == "POST"@ {
        Some(Method::Post)
    } else if token == "PUT"@ {
        Some(Method::Put)
    } else if token == "DELETE"@ {
        Some(Method::Delete)
    } else {
        None
    }
}

/// The protocol version of every request and response.
pub open spec fn protocol_text() -> Seq<char> {
    "HTTP/1.1"@
}

/// A request as contracts speak of it.
pub struct RequestView {
    pub method: Method,
    pub path: Seq<char>,
    pub protocol: Seq<char>,
    pub headers: Seq<Field>,
    pub body: Seq<char>,
}

impl RequestView {
    /// The request as it goes over the wire: the request line, the header
    /// lines, an empty line, and the body with nothing behind it.
    pub open spec fn wire(self) -> Seq<char> {
        self.method.text() + " "@ + self.path + " "@ + self.protocol + "\r\n"@ + headers_wire(
            self.headers,
        ) + "\r\n"@ + self.body
    }
}

/// A parsed request.
#[derive(Debug)]
pub struct Request {
    pub method: Method,
    pub path: String,
    pub protocol: String,
    pub headers: Headers,
    pub body: String,
}

impl View for Request {
    type V = RequestView;

    open spec fn view(&self) -> RequestView {
        RequestView {
            method: self.method,
            path: self.path@,
            protocol: self.protocol@,
            headers: self.headers@,
            body: self.body@,
        }
    }
}

impl Clone for Request {
    fn clone(&self) -> (copy: Self)
        ensures
            copy@ == self@,
    {
        Request {
            method: self.method,
            path: self.path.clone(),
            protocol: self.protocol.clone(),
            headers: self.headers.clone(),
            body: self.body.clone(),
        }
    }
}

impl Request {
    /// A request of protocol version `HTTP/1.1`.
    pub fn new(method: Method, path: String, headers: Headers, body: String) -> (request: Self)
        ensures
            request@ == (RequestView {
                method,
                path: path@,
                protocol: protocol_text(),
                headers: headers@,
                body: body@,
            }),
    {
        Request { method, path, protocol: "HTTP/1.1".to_owned(), headers, body }
    }

    /// The request as it goes over the wire.
    pub fn to_string(&self) -> (s: String)
        ensures
            s@ == self@.wire(),
    {
        let mut out = String::new();
        out.append(self.method.to_string().as_str());
        out.append(" ");
        out.append(self.path.as_str());
        out.append(" ");
        out.append(self.protocol.as_str());
        out.append("\r\n");
        self.headers.write_to(&mut out);
        out.append("\r\n");
        out.append(self.body.as_str());
        out
    }

    /// The value of the header named exactly `header_name`.
    pub fn get_header_value(&self, header_name: &str) -> (value: Option<&str>)
        ensures
            match value {
                Some(v) => value_of(self@.headers, header_name@) == Some(v@),
                None => value_of(self@.headers, header_name@) is None,
            },
    {
        self.headers.get(header_name)
    }
}

/// The text that an optional string holds.
pub open spec fn text_of(s: Option<String>) -> Option<Seq<char>> {
    match s {
        Some(s) => Some(s@),
        None => None,
    }
}

/// A request under construction as contracts speak of it.
pub struct BuilderView {
    pub method: Option<Method>,
    pub path: Option<Seq<char>>,
    pub protocol: Option<Seq<char>>,
    pub headers: Seq<Field>,
    pub body: Option<Seq<char>>,
}

impl BuilderView {
    /// The builder to which nothing has been given yet.
    pub open spec fn fresh() -> BuilderView {
        BuilderView {
            method: None,
            path: None,
            protocol: Some(protocol_text()),
            headers: Seq::empty(),
            body: None,
        }
    }

    /// The request that the builder stands for. A path is mandatory; the
    /// method defaults to GET, the protocol to `HTTP/1.1`, the body to the
    /// empty string.
    pub open spec fn build(self) -> Result<RequestView, ErrorKind> {
        match self.path {
            None => Err(ErrorKind::NoUrl),
            Some(path) => Ok(
                RequestView {
                    method: match self.method {
                        Some(method) => method,
                        None => Method::Get,
                    },
                    path,
                    protocol: match self.protocol {
                        Some(protocol) => protocol,
                        None => protocol_text(),
                    },
                    headers: self.headers,
                    body: match self.body {
                        Some(body) => body,
                        None => Seq::empty(),
                    },
                },
            ),
        }
    }
}

/// Collects the parts of a request one by one; `build` makes the request.
#[derive(Debug)]
pub struct RequestBuilder {
    pub method: Option<Method>,
    pub path: Option<String>,
    pub protocol: Option<String>,
    pub headers: Headers,
    pub body: Option<String>,
}

impl View for RequestBuilder {
    type V = BuilderView;

    open spec fn view(&self) -> BuilderView {
        BuilderView {
            method: self.method,
            path: text_of(self.path),
            protocol: text_of(self.protocol),
            headers: self.headers@,
            body: text_of(self.body),
        }
    }
}

impl Default for RequestBuilder {
    fn default() -> (builder: Self)
        ensures
            builder@ == BuilderView::fresh(),
    {
        RequestBuilder {
            method: None,
            path: None,
            protocol: Some("HTTP/1.1".to_owned()),
            headers: Headers::new(),
            body: None,
        }
    }
}

impl RequestBuilder {
    /// A builder to which nothing has been given yet.
    pub fn new() -> (builder: Self)
        ensures
            builder@ == BuilderView::fresh(),
    {
        RequestBuilder::default()
    }

    /// Sets the method.
    pub fn method(self, method: Method) -> (builder: Self)
        ensures
            builder@ == (BuilderView { method: Some(method), ..self@ }),
    {
        let mut builder = self;
        builder.method = Some(method);
        builder
    }

    /// Sets the path.
    pub fn path(self, path: String) -> (builder: Self)
        ensures
            builder@ == (BuilderView { path: Some(path@), ..self@ }),
    {
        let mut builder = self;
        builder.path = Some(path);
        builder
    }

    /// Gives the header named `header.0` the value `header.1`; an earlier
    /// value of that name is overwritten.
    pub fn header(self, header: (String, String)) -> (builder: Self)
        ensures
            builder@ == (BuilderView {
                headers: with_field(self@.headers, header.0@, header.1@),
                ..self@
            }),
    {
        let RequestBuilder { method, path, protocol, headers, body } = self;
        let (name, value) = header;
        RequestBuilder { method, path, protocol, headers: headers.insert(name, value), body }
    }

    /// Sets the body.
    pub fn body(self, body: String) -> (builder: Self)
        ensures
            builder@ == (BuilderView { body: Some(body@), ..self@ }),
    {
        let mut builder = self;
        builder.body = Some(body);
        builder
    }

    /// The request, or `NoUrl` where no path was given.
    pub fn build(self) -> (r: Result<Request, Error>)
        ensures
            match self@.build() {
                Ok(request) => r matches Ok(built) && built@ == request,
                Err(kind) => r matches Err(e) && e.kind() == kind,
            },
    {
        let method = match self.method {
            Some(method) => method,
            None => Method::Get,
        };
        let path = match self.path {
            Some(path) => path,
            None => {
                return Err(Error::NoUrl);
            },
        };
        let protocol = match self.protocol {
            Some(protocol) => protocol,
            None => "HTTP/1.1".to_owned(),
        };
        let body = match self.body {
            Some(body) => body,
            None => String::new(),
        };
        Ok(Request { method, path, protocol, headers: self.headers, body })
    }
}

/// Whether `line` begins with the name of a method.
pub open spec fn begins_with_method(line: Seq<char>) -> bool {
    ||| "GET"@.is_prefix_of(line)
    ||| "POST"@.is_prefix_of(line)
    ||| "PUT"@.is_prefix_of(line)
    ||| "DELETE"@.is_prefix_of(line)
}

/// What `line` says as a request line: the method that its first token
/// spells and the path that its second token gives. Anything behind the
/// path is not looked at.
pub open spec fn request_line(line: Seq<char>) -> Result<(Method, Seq<char>), ErrorKind> {
    match first_token(line) {
        None => Err(ErrorKind::MethodWasNotReadCorrectly),
        Some(token) => match method_named(token) {
            None => Err(ErrorKind::MethodNotSupported),
            Some(method) => match second_token(line) {
                None => Err(ErrorKind::NoUrl),
                Some(path) => Ok((method, path)),
            },
        },
    }
}

/// What `line` says as a header line: the name is its first token without
/// the colons at the token's end, the value its second token, or the empty
/// string where there is no second token.
pub open spec fn header_line(line: Seq<char>) -> Result<Field, ErrorKind> {
    match first_token(line) {
        None => Err(ErrorKind::CanNotParseHeader),
        Some(token) => Ok(
            (
                trim_end(token, ':'),
                match second_token(line) {
                    Some(value) => value,
                    None => Seq::empty(),
                },
            ),
        ),
    }
}

/// What the parser takes a line for.
#[derive(Debug, Clone, Copy, PartialEq, Eq, Structural)]
pub enum LineKind {
    /// An empty line: skipped.
    Blank,
    /// A request line.
    Start,
    /// A header line.
    Header,
    /// The body, which ends the request.
    Body,
}

/// The kind of `line`, where `started` says whether a request line has been
/// read before. The first line that is not empty is the request line. After
/// it, a line that begins with a method name is a request line again, a line
/// with a colon and a space is a header line, and any other line is the body.
pub open spec fn line_kind(started: bool, line: Seq<char>) -> LineKind {
    if line.len() == 0 {
        LineKind::Blank
    } else if !started || begins_with_method(line) {
        LineKind::Start
    } else if has_separator(line) {
        LineKind::Header
    } else {
        LineKind::Body
    }
}

/// The builder after `line` has been read, and whether the request is
/// complete with it. A request line has been read before exactly if the
/// builder holds a path.
pub open spec fn line_step(builder: BuilderView, line: Seq<char>) -> Result<
    (BuilderView, bool),
    ErrorKind,
> {
    match line_kind(builder.path is Some, line) {
        LineKind::Blank => Ok((builder, false)),
        LineKind::Start => match request_line(line) {
            Err(kind) => Err(kind),
            Ok((method, path)) => Ok(
                (BuilderView { method: Some(method), path: Some(path), ..builder }, false),
            ),
        },
        LineKind::Header => match header_line(line) {
            Err(kind) => Err(kind),
            Ok((name, value)) => Ok(
                (BuilderView { headers: with_field(builder.headers, name, value), ..builder }, false),
            ),
        },
        LineKind::Body => Ok((BuilderView { body: Some(trim_end(line, '\0')), ..builder }, true)),
    }
}

/// The request that the bytes of `input` give to a parser that has come as
/// far as `builder`. The lines are read one by one until the body line or
/// the end of the input; a line that is not UTF-8 fails the parse as an I/O
/// error; what follows the body line is never looked at.
pub open spec fn parse_rest(input: Seq<u8>, builder: BuilderView) -> Result<RequestView, ErrorKind>
    decreases input.len(),
{
    if input.len() == 0 {
        builder.build()
    } else if !valid_utf8(line_bytes(input)) {
        Err(ErrorKind::Io)
    } else {
        match line_step(builder, decode_utf8(line_bytes(input))) {
            Err(kind) => Err(kind),
            Ok((next, complete)) => if complete {
                next.build()
            } else {
                proof {
                    lemma_line_len_bounds(input);
                }
                parse_rest(after_line(input), next)
            },
        }
    }
}

/// The request that the bytes of `input` give.
pub open spec fn parse(input: Seq<u8>) -> Result<RequestView, ErrorKind> {
    parse_rest(input, BuilderView::fresh())
}

/// The bounds of the first two tokens of `chars`.
fn token_bounds(chars: &Vec<char>) -> (at: (usize, usize, usize, usize))
    ensures
        at.0 == first_start(chars@),
        at.1 == first_end(chars@),
        at.2 == second_start(chars@),
        at.3 == second_end(chars@),
        at.0 <= at.1 <= at.2 <= at.3 <= chars@.len(),
{
    let a: usize = scan_spaces(chars, 0);
    let b: usize = scan_word(chars, a);
    let c: usize = scan_spaces(chars, b);
    let d: usize = scan_word(chars, c);
    (a, b, c, d)
}

/// The method that the characters of `chars` from `from` up to `to` spell.
fn method_at(chars: &Vec<char>, from: usize, to: usize) -> (method: Option<Method>)
    requires
        from <= to <= chars@.len(),
    ensures
        method == method_named(chars@.subrange(from as int, to as int)),
{
    if range_is(chars, from, to, &chars_of("GET")) {
        Some(Method::Get)
    } else if range_is(chars, from, to, &chars_of("POST")) {
        Some(Method::Post)
    } else if range_is(chars, from, to, &chars_of("PUT")) {
        Some(Method::Put)
    } else if range_is(chars, from, to, &chars_of("DELETE")) {
        Some(Method::Delete)
    } else {
        None
    }
}

/// Whether `chars` begin with the name of a method.
fn starts_with_method(chars: &Vec<char>) -> (b: bool)
    ensures
        b == begins_with_method(chars@),
{
    begins_with(chars, &chars_of("GET")) || begins_with(chars, &chars_of("POST")) || begins_with(
        chars,
        &chars_of("PUT"),
    ) || begins_with(chars, &chars_of("DELETE"))
}

/// Reads `line`, whose characters are `chars`, as a request line.
fn start_line_of(line: &str, chars: &Vec<char>) -> (r: Result<(Method, String), Error>)
    requires
        chars@ == line@,
    ensures
        match request_line(line@) {
            Ok(expected) => r matches Ok(got) && got.0 == expected.0 && got.1@ == expected.1,
            Err(kind) => r matches Err(e) && e.kind() == kind,
        },
{
    let (a, b, c, d) = token_bounds(chars);
    if a >= chars.len() {
        return Err(Error::MethodWasNotReadCorrectly);
    }
    let method = match method_at(chars, a, b) {
        Some(method) => method,
        None => {
            return Err(Error::MethodNotSupported);
        },
    };
    if c >= chars.len() {
        return Err(Error::NoUrl);
    }
    Ok((method, line.substring_char(c, d).to_owned()))
}

/// Reads `line`, whose characters are `chars`, as a header line.
fn header_of(line: &str, chars: &Vec<char>) -> (r: Result<(String, String), Error>)
    requires
        chars@ == line@,
    ensures
        match header_line(line@) {
            Ok(expected) => r matches Ok(got) && got.0@ == expected.0 && got.1@ == expected.1,
            Err(kind) => r matches Err(e) && e.kind() == kind,
        },
{
    let (a, b, c, d) = token_bounds(chars);
    if a >= chars.len() {
        return Err(Error::CanNotParseHeader);
    }
    let end: usize = scan_trim_end(chars, a, b, ':');
    let name: String = line.substring_char(a, end).to_owned();
    let value: String = if c < chars.len() {
        line.substring_char(c, d).to_owned()
    } else {
        String::new()
    };
    Ok((name, value))
}

/// Reads `line` as a request line: the method and the path.
pub fn parse_start_line(line: &str) -> (r: Result<(Method, String), Error>)
    ensures
        match request_line(line@) {
            Ok(expected) => r matches Ok(got) && got.0 == expected.0 && got.1@ == expected.1,
            Err(kind) => r matches Err(e) && e.kind() == kind,
        },
{
    let chars = chars_of(line);
    start_line_of(line, &chars)
}

/// Reads `line` as a header line: the name and the value.
pub fn parse_header(line: &str) -> (r: Result<(String, String), Error>)
    ensures
        match header_line(line@) {
            Ok(expected) => r matches Ok(got) && got.0@ == expected.0 && got.1@ == expected.1,
            Err(kind) => r matches Err(e) && e.kind() == kind,
        },
{
    let chars = chars_of(line);
    header_of(line, &chars)
}

/// Whether `line` holds a colon directly followed by a space.
pub fn is_header(line: &str) -> (b: bool)
    ensures
        b == has_separator(line@),
{
    let chars = chars_of(line);
    scan_separator(&chars)
}

/// Whether `line` begins with the name of a method.
pub fn is_start_line(line: &str) -> (b: bool)
    ensures
        b == begins_with_method(line@),
{
    let chars = chars_of(line);
    starts_with_method(&chars)
}

/// Hands `line` to the parser that has come as far as `builder`: gives the
/// builder after the line and whether the request is complete with it.
pub fn parse_line(builder: RequestBuilder, line: &str) -> (r: Result<(RequestBuilder, bool), Error>)
    ensures
        match line_step(builder@, line@) {
            Ok(expected) => r matches Ok(got) && got.0@ == expected.0 && got.1 == expected.1,
            Err(kind) => r matches Err(e) && e.kind() == kind,
        },
{
    let chars = chars_of(line);
    if chars.len() == 0 {
        Ok((builder, false))
    } else if builder.path.is_none() || starts_with_method(&chars) {
        match start_line_of(line, &chars) {
            Ok((method, path)) => Ok((builder.method(method).path(path), false)),
            Err(e) => Err(e),
        }
    } else if scan_separator(&chars) {
        match header_of(line, &chars) {
            Ok(header) => Ok((builder.header(header), false)),
            Err(e) => Err(e),
        }
    } else {
        let end: usize = scan_trim_end(&chars, 0, chars.len(), '\0');
        assert(chars@.subrange(0, chars@.len() as int) =~= chars@);
        Ok((builder.body(line.substring_char(0, end).to_owned()), true))
    }
}

/// A header line holds a token.
proof fn lemma_header_line_has_token(line: Seq<char>)
    requires
        has_separator(line),
    ensures
        first_token(line) is Some,
{
    // The colon of the separator is no white space, so skipping the
    // leading white space stops at it or before it.
    let i = choose|i: int|
        0 <= i && i + 1 < line.len() && line[i] == ':' && #[trigger] line[i + 1] == ' ';
    lemma_skip_spaces_bounds(line, 0);
    assert(!is_space(line[i]));
}

/// The parser fails in four ways only: with a request line that holds no
/// token, one whose first token spells no method, one without a path or no
/// request line at all, and with a line that is not UTF-8. A line is
/// always of one of the kinds that the parser accepts, and a header line
/// always holds a name.
pub proof fn lemma_parse_failures(input: Seq<u8>, builder: BuilderView)
    ensures
        match parse_rest(input, builder) {
            Ok(_) => true,
            Err(kind) => {
                ||| kind == ErrorKind::MethodWasNotReadCorrectly
                ||| kind == ErrorKind::MethodNotSupported
                ||| kind == ErrorKind::NoUrl
                ||| kind == ErrorKind::Io
            },
        },
    decreases input.len(),
{
    if input.len() > 0 && valid_utf8(line_bytes(input)) {
        let line = decode_utf8(line_bytes(input));
        if line_kind(builder.path is Some, line) == LineKind::Header {
            lemma_header_line_has_token(line);
        }
        match line_step(builder, line) {
            Ok((next, complete)) => {
                if !complete {
                    lemma_line_len_bounds(input);
                    lemma_parse_failures(after_line(input), next);
                }
            },
            Err(_) => {},
        }
    }
}

/// No header name occurs twice in a parsed request: a name that comes
/// again overwrites its earlier value.
pub proof fn lemma_parse_names_distinct(input: Seq<u8>, builder: BuilderView)
    requires
        names_distinct(builder.headers),
    ensures
        parse_rest(input, builder) matches Ok(request) ==> names_distinct(request.headers),
    decreases input.len(),
{
    if input.len() > 0 && valid_utf8(line_bytes(input)) {
        let line = decode_utf8(line_bytes(input));
        match line_step(builder, line) {
            Ok((next, complete)) => {
                if line_kind(builder.path is Some, line) == LineKind::Header {
                    let (name, value) = header_line(line).unwrap();
                    lemma_with_field(builder.headers, name, value);
                }
                if !complete {
                    lemma_line_len_bounds(input);
                    lemma_parse_names_distinct(after_line(input), next);
                }
            },
            Err(_) => {},
        }
    }
}

impl Request {
    /// Reads a request from `buf` as `parse_from_bytes` does, and gives it
    /// in a box.
    pub fn deserialize(buf: &[u8]) -> (r: Result<Box<Request>, Error>)
        ensures
            match parse(buf@) {
                Ok(request) => r matches Ok(parsed) && parsed@ == request,
                Err(kind) => r matches Err(e) && e.kind() == kind,
            },
    {
        match Request::parse_from_bytes(buf) {
            Ok(request) => Ok(Box::new(request)),
            Err(e) => Err(e),
        }
    }

    /// Reads a request from `buf`, line by line.
    pub fn parse_from_bytes(buf: &[u8]) -> (r: Result<Request, Error>)
        ensures
            match parse(buf@) {
                Ok(request) => r matches Ok(parsed) && parsed@ == request,
                Err(kind) => r matches Err(e) && e.kind() == kind,
            },
    {
        let mut rest: &[u8] = buf;
        let mut builder = RequestBuilder::new();
        loop
            invariant
                parse_rest(rest@, builder@) == parse(buf@),
            decreases rest@.len(),
        {
            proof {
                lemma_line_len_bounds(rest@);
            }
            let (line, next) = next_line(rest);
            match line {
                Err(e) => {
                    return Err(Error::Io(e));
                },
                Ok(None) => {
                    return builder.build();
                },
                Ok(Some(text)) => match parse_line(builder, text.as_str()) {
                    Err(e) => {
                        return Err(e);
                    },
                    Ok((after, complete)) => {
                        if complete {
                            return after.build();
                        }
                        builder = after;
                        rest = next;
                    },
                },
            }
        }
    }
}

} // verus!
