use http_server::config::Config;
use http_server::error::Error;
use http_server::http::handlers::{
    echo_handler, file_get_handler, file_path_handler, file_post_handler, handle_request,
    home_handler, route, user_agent_handler, Action, Route,
};
use http_server::http::headers::Headers;
use http_server::http::request::{Method, Request};
use http_server::http::response::{ContentType, Response, StatusCode};

fn request(method: Method, path: &str) -> Request {
    Request::new(method, path.to_string(), Headers::new(), String::new())
}

fn no_directory() -> Config {
    Config { DIRECTORY: None }
}

fn directory(path: &str) -> Config {
    Config { DIRECTORY: Some(path.to_string()) }
}

fn response_of(action: Action) -> Response {
    match action {
        Action::Respond(response) => response,
        other => panic!("expected a response, got {:?}", other),
    }
}

#[test]
fn routes_go_by_the_first_segment() {
    assert_eq!(route("/"), Some(Route::Home));
    assert_eq!(route("//x"), Some(Route::Home));
    assert_eq!(route("/echo"), Some(Route::Echo));
    assert_eq!(route("/echo/"), Some(Route::Echo));
    assert_eq!(route("/echo/abc/def"), Some(Route::Echo));
    assert_eq!(route("/user-agent"), Some(Route::UserAgent));
    assert_eq!(route("/user-agent/x"), Some(Route::UserAgent));
    assert_eq!(route("/files/a.txt"), Some(Route::Files));
    assert_eq!(route("/files"), Some(Route::Files));
    assert_eq!(route("/echoes"), Some(Route::NotFound));
    assert_eq!(route("/Echo/abc"), Some(Route::NotFound));
    assert_eq!(route("/index.html"), Some(Route::NotFound));
    assert_eq!(route("x/echo/abc"), Some(Route::Echo));
    assert_eq!(route("echo/files"), Some(Route::Files));
}

#[test]
fn a_path_without_a_slash_has_no_route() {
    assert_eq!(route(""), None);
    assert_eq!(route("echo"), None);
    assert_eq!(route("*"), None);
}

#[test]
fn a_path_without_a_slash_is_an_invalid_request() {
    for path in ["", "abc", "*"] {
        let result = handle_request(request(Method::Get, path), &no_directory());
        assert!(matches!(result, Err(Error::InvalidRequest)));
    }
}

#[test]
fn home_is_an_empty_ok() {
    let response = home_handler();
    assert_eq!(response.status, StatusCode::OK);
    assert_eq!(response.content_type, ContentType::TextPlain);
    assert_eq!(response.content_len, 0);
    assert_eq!(response.body, "");
    for method in [Method::Get, Method::Put, Method::Post, Method::Delete] {
        let response = response_of(handle_request(request(method, "/"), &no_directory()).unwrap());
        assert_eq!(response.status, StatusCode::OK);
        assert_eq!(response.body, "");
    }
}

#[test]
fn echo_sends_back_what_stands_behind_the_prefix() {
    let response = echo_handler(request(Method::Get, "/echo/abc"));
    assert_eq!(response.status, StatusCode::OK);
    assert_eq!(response.content_type, ContentType::TextPlain);
    assert_eq!(response.content_len, 3);
    assert_eq!(response.body, "abc");
    assert_eq!(echo_handler(request(Method::Get, "/echo/a/b/c")).body, "a/b/c");
    assert_eq!(echo_handler(request(Method::Get, "/echo/")).body, "");
    assert_eq!(echo_handler(request(Method::Get, "/echo")).body, "");
    let response = echo_handler(request(Method::Post, "/echo/gr\u{fc}\u{df}e"));
    assert_eq!(response.body, "gr\u{fc}\u{df}e");
    assert_eq!(response.content_len, 7);
}

#[test]
fn user_agent_sends_back_the_header() {
    let headers = Headers::new().insert("User-Agent".to_string(), "curl/8.0".to_string());
    let response =
        user_agent_handler(Request::new(Method::Get, "/user-agent".to_string(), headers, String::new()));
    assert_eq!(response.status, StatusCode::OK);
    assert_eq!(response.content_type, ContentType::TextPlain);
    assert_eq!(response.body, "curl/8.0");
    assert_eq!(response.content_len, 8);
}

#[test]
fn user_agent_without_the_header_is_not_found() {
    let headers = Headers::new().insert("user-agent".to_string(), "curl/8.0".to_string());
    let response =
        user_agent_handler(Request::new(Method::Get, "/user-agent".to_string(), headers, String::new()));
    assert_eq!(response.status, StatusCode::NotFound);
    assert_eq!(response.content_len, 0);
    assert_eq!(response.body, "");
}

#[test]
fn unknown_segments_are_not_found() {
    for method in [Method::Get, Method::Put, Method::Post, Method::Delete] {
        let response =
            response_of(handle_request(request(method, "/nothing/here"), &no_directory()).unwrap());
        assert_eq!(response.status, StatusCode::NotFound);
        assert_eq!(response.body, "");
    }
}

#[test]
fn file_get_asks_for_a_read_under_the_directory() {
    let action = handle_request(request(Method::Get, "/files/test.txt"), &directory("/tmp/d")).unwrap();
    match action {
        Action::ReadFile { path } => assert_eq!(path, "/tmp/d/test.txt"),
        other => panic!("expected a read, got {:?}", other),
    }
}

#[test]
fn file_paths_without_a_directory_are_relative() {
    let action = file_path_handler(request(Method::Get, "/files/a/b.txt"), &no_directory()).unwrap();
    match action {
        Action::ReadFile { path } => assert_eq!(path, "./a/b.txt"),
        other => panic!("expected a read, got {:?}", other),
    }
    let action = file_path_handler(request(Method::Get, "/files"), &no_directory()).unwrap();
    match action {
        Action::ReadFile { path } => assert_eq!(path, "./"),
        other => panic!("expected a read, got {:?}", other),
    }
}

#[test]
fn file_post_asks_for_a_write_of_the_body() {
    let post = Request::new(
        Method::Post,
        "/files/test.txt".to_string(),
        Headers::new(),
        "hello".to_string(),
    );
    match handle_request(post, &directory("/tmp/d")).unwrap() {
        Action::WriteFile { path, content } => {
            assert_eq!(path, "/tmp/d/test.txt");
            assert_eq!(content, "hello");
        },
        other => panic!("expected a write, got {:?}", other),
    }
}

#[test]
fn other_methods_on_files_are_not_found() {
    for method in [Method::Put, Method::Delete] {
        let response =
            response_of(handle_request(request(method, "/files/test.txt"), &directory("/tmp/d")).unwrap());
        assert_eq!(response.status, StatusCode::NotFound);
    }
}

#[test]
fn a_read_file_is_sent_as_octet_stream() {
    let response = file_get_handler(Ok("hello".to_string())).unwrap();
    assert_eq!(response.status, StatusCode::OK);
    assert_eq!(response.content_type, ContentType::OctetStream);
    assert_eq!(response.content_len, 5);
    assert_eq!(response.body, "hello");
}

#[test]
fn a_failed_read_is_not_found() {
    let failure = Error::from(std::io::Error::from(std::io::ErrorKind::NotFound));
    let response = file_get_handler(Err(failure)).unwrap();
    assert_eq!(response.status, StatusCode::NotFound);
    assert_eq!(response.body, "");
}

#[test]
fn a_written_file_is_created() {
    let response = file_post_handler(Ok(())).unwrap();
    assert_eq!(response.status, StatusCode::Created);
    assert_eq!(response.content_type, ContentType::OctetStream);
    assert_eq!(response.content_len, 0);
    assert_eq!(response.body, "");
}

#[test]
fn a_failed_write_is_handed_on() {
    let failure = Error::from(std::io::Error::from(std::io::ErrorKind::PermissionDenied));
    match file_post_handler(Err(failure)) {
        Err(Error::Io(e)) => assert_eq!(e.kind(), std::io::ErrorKind::PermissionDenied),
        other => panic!("expected the I/O error, got {:?}", other),
    }
}

#[test]
fn headers_change_nothing_outside_the_user_agent_handler() {
    let headers = Headers::new()
        .insert("User-Agent".to_string(), "curl/8.0".to_string())
        .insert("Host".to_string(), "h".to_string());
    for path in ["/", "/echo/abc", "/files/a.txt", "/other"] {
        let bare = handle_request(request(Method::Get, path), &no_directory()).unwrap();
        let with_headers = handle_request(
            Request::new(Method::Get, path.to_string(), headers.clone(), String::new()),
            &no_directory(),
        )
        .unwrap();
        assert_eq!(format!("{:?}", bare), format!("{:?}", with_headers));
    }
}

#[test]
fn crate_errors_have_their_names_as_text() {
    assert_eq!(Error::InvalidRequest.to_string(), "InvalidRequest");
    assert_eq!(Error::InvalidURL.to_string(), "InvalidURL");
    assert_eq!(Error::from(http_server::http::Error::NoUrl).to_string(), "Http(NoUrl)");
    let io = Error::from(std::io::Error::new(std::io::ErrorKind::Other, "boom"));
    let text = io.to_string();
    assert!(text.starts_with("Io(") && text.ends_with(')') && text.contains("boom"));
}
