use http_server::config::Config;
use http_server::error::Error;
use http_server::http::connection::on_read;
use http_server::http::error::ErrorKind;
use http_server::http::handlers::{file_get_handler, file_post_handler, Action};
use http_server::http::response::{ContentType, Response, StatusCode};
use std::collections::HashMap;

fn read_into_buffer(text: &[u8]) -> ([u8; 512], usize) {
    let mut buf = [0u8; 512];
    buf[..text.len()].copy_from_slice(text);
    (buf, text.len())
}

/// Runs one request through the connection step, with `files` as the storage.
fn serve(
    text: &[u8],
    config: &Config,
    files: &mut HashMap<String, String>,
) -> Result<Option<Response>, Error> {
    let (buf, bytes_read) = read_into_buffer(text);
    match on_read(&buf, bytes_read, config)? {
        None => Ok(None),
        Some(Action::Respond(response)) => Ok(Some(response)),
        Some(Action::ReadFile { path }) => {
            let read = files
                .get(&path)
                .cloned()
                .ok_or_else(|| Error::from(std::io::Error::from(std::io::ErrorKind::NotFound)));
            file_get_handler(read).map(Some)
        },
        Some(Action::WriteFile { path, content }) => {
            files.insert(path, content);
            file_post_handler(Ok(())).map(Some)
        },
    }
}

fn no_directory() -> Config {
    Config { DIRECTORY: None }
}

#[test]
fn scenario_root() {
    let mut files = HashMap::new();
    let response = serve(b"GET / HTTP/1.1\r\n\r\n", &no_directory(), &mut files).unwrap().unwrap();
    assert_eq!(
        response.to_string(),
        "HTTP/1.1 200 OK\r\nContent-Type: text/plain\r\nContent-Length: 0\r\n\r\n"
    );
}

#[test]
fn scenario_echo() {
    let mut files = HashMap::new();
    let response =
        serve(b"GET /echo/abc HTTP/1.1\r\n\r\n", &no_directory(), &mut files).unwrap().unwrap();
    assert_eq!(response.status, StatusCode::OK);
    assert_eq!(response.body, "abc");
    assert_eq!(response.content_len, 3);
    assert_eq!(response.content_type, ContentType::TextPlain);
    assert_eq!(
        response.to_string(),
        "HTTP/1.1 200 OK\r\nContent-Type: text/plain\r\nContent-Length: 3\r\n\r\nabc"
    );
}

#[test]
fn scenario_user_agent() {
    let mut files = HashMap::new();
    let response = serve(
        b"GET /user-agent HTTP/1.1\r\nHost: localhost:4221\r\nUser-Agent: curl/8.0\r\n\r\n",
        &no_directory(),
        &mut files,
    )
    .unwrap()
    .unwrap();
    assert_eq!(response.status, StatusCode::OK);
    assert_eq!(response.body, "curl/8.0");
    assert_eq!(response.content_len, 8);
}

#[test]
fn scenario_user_agent_missing() {
    let mut files = HashMap::new();
    let response = serve(
        b"GET /user-agent HTTP/1.1\r\nHost: localhost:4221\r\n\r\n",
        &no_directory(),
        &mut files,
    )
    .unwrap()
    .unwrap();
    assert_eq!(response.status, StatusCode::NotFound);
    assert_eq!(response.body, "");
    assert_eq!(
        response.to_string(),
        "HTTP/1.1 404 Not Found\r\nContent-Type: text/plain\r\nContent-Length: 0\r\n\r\n"
    );
}

#[test]
fn scenario_file_post_then_get() {
    let config = Config { DIRECTORY: Some("/tmp/d".to_string()) };
    let mut files = HashMap::new();
    let response = serve(
        b"POST /files/test.txt HTTP/1.1\r\nContent-Length: 5\r\n\r\nhello",
        &config,
        &mut files,
    )
    .unwrap()
    .unwrap();
    assert_eq!(response.status, StatusCode::Created);
    assert_eq!(response.content_type, ContentType::OctetStream);
    assert_eq!(response.body, "");
    assert_eq!(files.get("/tmp/d/test.txt").map(String::as_str), Some("hello"));
    assert_eq!(files.len(), 1);

    let response =
        serve(b"GET /files/test.txt HTTP/1.1\r\n\r\n", &config, &mut files).unwrap().unwrap();
    assert_eq!(response.status, StatusCode::OK);
    assert_eq!(response.content_type, ContentType::OctetStream);
    assert_eq!(response.body, "hello");
    assert_eq!(
        response.to_string(),
        "HTTP/1.1 200 OK\r\nContent-Type: application/octet-stream\r\nContent-Length: 5\r\n\r\nhello"
    );
}

#[test]
fn scenario_file_missing() {
    let mut files = HashMap::new();
    let response =
        serve(b"GET /files/none.txt HTTP/1.1\r\n\r\n", &no_directory(), &mut files).unwrap().unwrap();
    assert_eq!(response.status, StatusCode::NotFound);
}

#[test]
fn scenario_unsupported_method() {
    let mut files = HashMap::new();
    match serve(b"PATCH / HTTP/1.1\r\n\r\n", &no_directory(), &mut files) {
        Err(Error::Http(e)) => assert_eq!(e.kind(), ErrorKind::MethodNotSupported),
        other => panic!("expected a parse error, got {:?}", other),
    }
}

#[test]
fn a_read_of_nothing_closes_the_connection() {
    let buf = [0u8; 512];
    assert!(matches!(on_read(&buf, 0, &no_directory()), Ok(None)));
    let (buf, _) = read_into_buffer(b"GET / HTTP/1.1\r\n\r\n");
    assert!(matches!(on_read(&buf, 0, &no_directory()), Ok(None)));
}

#[test]
fn the_whole_buffer_is_parsed() {
    let (buf, _) = read_into_buffer(b"GET /echo/whole HTTP/1.1\r\n\r\n");
    match on_read(&buf, 3, &no_directory()) {
        Ok(Some(Action::Respond(response))) => assert_eq!(response.body, "whole"),
        other => panic!("expected a response, got {:?}", other),
    }
}

#[test]
fn a_path_without_a_slash_ends_the_connection() {
    let (buf, bytes_read) = read_into_buffer(b"GET nowhere HTTP/1.1\r\n\r\n");
    assert!(matches!(on_read(&buf, bytes_read, &no_directory()), Err(Error::InvalidRequest)));
}

#[test]
fn an_unreadable_buffer_ends_the_connection() {
    let (buf, bytes_read) = read_into_buffer(b"GET /\xc0 HTTP/1.1\r\n\r\n");
    match on_read(&buf, bytes_read, &no_directory()) {
        Err(Error::Http(e)) => assert_eq!(e.kind(), ErrorKind::Io),
        other => panic!("expected an I/O error, got {:?}", other),
    }
    let buf = [0u8; 512];
    match on_read(&buf, 4, &no_directory()) {
        Err(Error::Http(e)) => assert_eq!(e.kind(), ErrorKind::MethodNotSupported),
        other => panic!("expected a parse error, got {:?}", other),
    }
}
