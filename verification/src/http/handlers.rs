//! Routing and handlers: from a parsed request to a response, or to the file
//! operation whose outcome decides the response.
//!
//! The library does not touch the file system. Where a request needs a file
//! read or written, `handle_request` names the operation; the caller carries
//! it out and hands the outcome to `file_get_handler` or `file_post_handler`.

use crate::config::Config;
use crate::error::Error;
use crate::http::headers::value_of;
use crate::http::request::{text_of, Method, Request, RequestView};
use crate::http::response::{ContentType, Response, ResponseView};
use crate::text::{chars_of, range_is};
use vstd::prelude::*;

verus! {

/// The first index at or after `i` that holds a slash, or the length of `s`.
pub open spec fn next_slash(s: Seq<char>, i: int) -> int
    decreases s.len() - i,
{
    if 0 <= i < s.len() && s[i] != '/' {
        next_slash(s, i + 1)
    } else {
        i
    }
}

/// The first segment of `path`: what stands between its first slash and
/// its second, or its end. A path without a slash has no segment.
pub open spec fn first_segment(path: Seq<char>) -> Option<Seq<char>> {
    let begin = next_slash(path, 0) + 1;
    if begin <= path.len() {
        Some(path.subrange(begin, next_slash(path, begin)))
    } else {
        None
    }
}

/// The handlers among which the first segment of the path chooses.
#[derive(Debug, Clone, Copy, PartialEq, Eq, Structural)]
pub enum Route {
    Home,
    Echo,
    UserAgent,
    Files,
    NotFound,
}

/// The handler for a path whose first segment is `segment`.
pub open spec fn route_of(segment: Seq<char>) -> Route {
    if segment == ""@ {
        Route::Home
    } else if segment == "echo"@ {
        Route::Echo
    } else if segment == "user-agent"@ {
        Route::UserAgent
    } else if segment == "files"@ {
        Route::Files
    } else {
        Route::NotFound
    }
}

/// The handler for `path`, if `path` has a first segment.
pub open spec fn route_for(path: Seq<char>) -> Option<Route> {
    match first_segment(path) {
        Some(segment) => Some(route_of(segment)),
        None => None,
    }
}

/// `path` without its first `n` characters; empty where it has fewer.
pub open spec fn behind_prefix(path: Seq<char>, n: int) -> Seq<char> {
    if n <= path.len() {
        path.skip(n)
    } else {
        Seq::empty()
    }
}

/// What the echo handler sends back: the path behind `/echo/`.
pub open spec fn echo_text(path: Seq<char>) -> Seq<char> {
    behind_prefix(path, 6)
}

/// The name of the file that a `/files/...` path names: the path behind `/files/`.
pub open spec fn file_name(path: Seq<char>) -> Seq<char> {
    behind_prefix(path, 7)
}

/// Where the file named `name` lies: under `directory`, or under the
/// current directory where none is configured.
pub open spec fn full_path(directory: Option<Seq<char>>, name: Seq<char>) -> Seq<char> {
    match directory {
        Some(directory) => directory + "/"@ + name,
        None => "./"@ + name,
    }
}

/// What a request asks of the caller, as contracts speak of it.
pub enum ActionView {
    Respond(ResponseView),
    ReadFile { path: Seq<char> },
    WriteFile { path: Seq<char>, content: Seq<char> },
}

/// What a request asks of the caller.
#[derive(Debug)]
pub enum Action {
    /// Send this response.
    Respond(Response),
    /// Read the file at `path` and hand the outcome to `file_get_handler`.
    ReadFile { path: String },
    /// Write `content` to the file at `path`, creating or truncating it,
    /// and hand the outcome to `file_post_handler`.
    WriteFile { path: String, content: String },
}

impl View for Action {
    type V = ActionView;

    open spec fn view(&self) -> ActionView {
        match self {
            Action::Respond(response) => ActionView::Respond(response@),
            Action::ReadFile { path } => ActionView::ReadFile { path: path@ },
            Action::WriteFile { path, content } => ActionView::WriteFile {
                path: path@,
                content: content@,
            },
        }
    }
}

/// The response of the home handler.
pub open spec fn home_response() -> ResponseView {
    ResponseView::ok(Seq::empty(), ContentType::TextPlain)
}

/// The response of the echo handler.
pub open spec fn echo_response(request: RequestView) -> ResponseView {
    ResponseView::ok(echo_text(request.path), ContentType::TextPlain)
}

/// The response of the user-agent handler: the value of the header
/// `User-Agent`, or 404 where the request has no such header.
pub open spec fn user_agent_response(request: RequestView) -> ResponseView {
    match value_of(request.headers, "User-Agent"@) {
        Some(agent) => ResponseView::ok(agent, ContentType::TextPlain),
        None => ResponseView::not_found(),
    }
}

/// What the file handler asks for: GET reads the file, POST writes the
/// body of the request to it, any other method gets 404.
pub open spec fn file_action(request: RequestView, directory: Option<Seq<char>>) -> ActionView {
    let path = full_path(directory, file_name(request.path));
    match request.method {
        Method::Get => ActionView::ReadFile { path },
        Method::Post => ActionView::WriteFile { path, content: request.body },
        _ => ActionView::Respond(ResponseView::not_found()),
    }
}

/// What `request` asks for, if its path has a first segment.
pub open spec fn action_for(request: RequestView, directory: Option<Seq<char>>) -> Option<
    ActionView,
> {
    match route_for(request.path) {
        None => None,
        Some(Route::Home) => Some(ActionView::Respond(home_response())),
        Some(Route::Echo) => Some(ActionView::Respond(echo_response(request))),
        Some(Route::UserAgent) => Some(ActionView::Respond(user_agent_response(request))),
        Some(Route::Files) => Some(file_action(request, directory)),
        Some(Route::NotFound) => Some(ActionView::Respond(ResponseView::not_found())),
    }
}

/// The response to a GET of a file, given the outcome of reading it.
pub open spec fn read_response(content: Option<Seq<char>>) -> ResponseView {
    match content {
        Some(content) => ResponseView::ok(content, ContentType::OctetStream),
        None => ResponseView::not_found(),
    }
}

/// Routing goes by the first segment of the path alone: two paths with
/// the same first segment have the same handler.
pub proof fn lemma_route_by_first_segment(a: Seq<char>, b: Seq<char>)
    requires
        first_segment(a) == first_segment(b),
    ensures
        route_for(a) == route_for(b),
{
}

/// The headers count for the user-agent handler alone: two requests that
/// differ in nothing but their headers ask for the same, unless their path
/// leads to that handler.
pub proof fn lemma_headers_count_for_user_agent_only(
    a: RequestView,
    b: RequestView,
    directory: Option<Seq<char>>,
)
    requires
        a.method == b.method,
        a.path == b.path,
        a.protocol == b.protocol,
        a.body == b.body,
        route_for(a.path) != Some(Route::UserAgent),
    ensures
        action_for(a, directory) == action_for(b, directory),
{
}

/// Nothing but the path chooses the handler, and only the file handler
/// looks at the method, the body and the directory: two requests with the
/// same path and the same headers ask for the same, unless their path
/// leads to the file handler.
pub proof fn lemma_method_and_body_count_for_files_only(
    a: RequestView,
    b: RequestView,
    directory_a: Option<Seq<char>>,
    directory_b: Option<Seq<char>>,
)
    requires
        a.path == b.path,
        a.headers == b.headers,
        route_for(a.path) != Some(Route::Files),
    ensures
        action_for(a, directory_a) == action_for(b, directory_b),
{
}

/// The first index at or after `i` that holds a slash.
fn scan_slash(chars: &Vec<char>, i: usize) -> (j: usize)
    requires
        i <= chars.len(),
    ensures
        j == next_slash(chars@, i as int),
        i <= j <= chars.len(),
{
    let mut j: usize = i;
    while j < chars.len() && chars[j] != '/'
        invariant
            i <= j <= chars.len(),
            next_slash(chars@, i as int) == next_slash(chars@, j as int),
        decreases chars.len() - j,
    {
        j = j + 1;
    }
    j
}

/// `path` without its first `n` characters.
fn skip_prefix(path: &str, n: usize) -> (rest: &str)
    ensures
        rest@ == behind_prefix(path@, n as int),
{
    let len: usize = path.unicode_len();
    if n <= len {
        path.substring_char(n, len)
    } else {
        proof {
            reveal_strlit("");
        }
        ""
    }
}

/// The handler that the first segment of `path` chooses, or `None` where
/// `path` holds no slash.
pub fn route(path: &str) -> (r: Option<Route>)
    ensures
        r == route_for(path@),
{
    let chars = chars_of(path);
    let slash: usize = scan_slash(&chars, 0);
    if slash >= chars.len() {
        return None;
    }
    let begin: usize = slash + 1;
    let end: usize = scan_slash(&chars, begin);
    if range_is(&chars, begin, end, &chars_of("")) {
        Some(Route::Home)
    } else if range_is(&chars, begin, end, &chars_of("echo")) {
        Some(Route::Echo)
    } else if range_is(&chars, begin, end, &chars_of("user-agent")) {
        Some(Route::UserAgent)
    } else if range_is(&chars, begin, end, &chars_of("files")) {
        Some(Route::Files)
    } else {
        Some(Route::NotFound)
    }
}

/// 200 with an empty body.
pub fn home_handler() -> (response: Response)
    ensures
        response@ == home_response(),
{
    let response = Response::ok("", ContentType::TextPlain);
    proof {
        reveal_strlit("");
    }
    assert(""@ =~= Seq::<char>::empty());
    response
}

/// 200 with the path behind `/echo/` as the body.
pub fn echo_handler(request: Request) -> (response: Response)
    ensures
        response@ == echo_response(request@),
{
    Response::ok(skip_prefix(request.path.as_str(), 6), ContentType::TextPlain)
}

/// 200 with the value of the header `User-Agent` as the body, or 404 where
/// the request has no such header.
pub fn user_agent_handler(request: Request) -> (response: Response)
    ensures
        response@ == user_agent_response(request@),
{
    match request.get_header_value("User-Agent") {
        Some(agent) => Response::ok(agent, ContentType::TextPlain),
        None => Response::not_found(),
    }
}

/// Where the file named `name` lies.
fn resolve(directory: &Option<String>, name: &str) -> (path: String)
    ensures
        path@ == full_path(text_of(*directory), name@),
{
    match directory {
        Some(directory) => {
            let mut path: String = directory.clone();
            path.append("/");
            path.append(name);
            path
        },
        None => {
            let mut path: String = "./".to_owned();
            path.append(name);
            path
        },
    }
}

/// The file operation that a `/files/...` request asks for, or 404 for a
/// method that is neither GET nor POST.
pub fn file_path_handler(request: Request, config: &Config) -> (r: Result<Action, Error>)
    ensures
        r matches Ok(action) && action@ == file_action(request@, text_of(config.DIRECTORY)),
{
    let full_path = resolve(&config.DIRECTORY, skip_prefix(request.path.as_str(), 7));
    Ok(
        match request.method {
            Method::Get => Action::ReadFile { path: full_path },
            Method::Post => Action::WriteFile { path: full_path, content: request.body },
            _ => Action::Respond(Response::not_found()),
        },
    )
}

/// The response to a POST of a file, given the outcome of writing it: 201
/// where the write succeeded, its error where it failed.
pub fn file_post_handler(written: Result<(), Error>) -> (r: Result<Response, Error>)
    ensures
        match written {
            Ok(_) => r matches Ok(response) && response@ == ResponseView::created(
                ContentType::OctetStream,
            ),
            Err(e) => r matches Err(failure) && failure == e,
        },
{
    match written {
        Ok(_) => Ok(Response::created(ContentType::OctetStream)),
        Err(e) => Err(e),
    }
}

/// The response to a GET of a file, given the outcome of reading it: 200
/// with the content where the read succeeded, 404 where it failed.
pub fn file_get_handler(read: Result<String, Error>) -> (r: Result<Response, Error>)
    ensures
        r matches Ok(response) && response@ == read_response(
            match read {
                Ok(content) => Some(content@),
                Err(_) => None,
            },
        ),
{
    Ok(
        match read {
            Ok(content) => Response::ok(content.as_str(), ContentType::OctetStream),
            Err(_) => Response::not_found(),
        },
    )
}

/// Routes `request` by the first segment of its path. A path without a
/// slash is an invalid request.
pub fn handle_request(request: Request, config: &Config) -> (r: Result<Action, Error>)
    ensures
        match action_for(request@, text_of(config.DIRECTORY)) {
            Some(expected) => r matches Ok(action) && action@ == expected,
            None => r matches Err(Error::InvalidRequest),
        },
{
    match route(request.path.as_str()) {
        None => Err(Error::InvalidRequest),
        Some(Route::Home) => Ok(Action::Respond(home_handler())),
        Some(Route::Echo) => Ok(Action::Respond(echo_handler(request))),
        Some(Route::UserAgent) => Ok(Action::Respond(user_agent_handler(request))),
        Some(Route::Files) => file_path_handler(request, config),
        Some(Route::NotFound) => Ok(Action::Respond(Response::not_found())),
    }
}

} // verus!
