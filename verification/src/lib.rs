//! A minimal HTTP/1.1 protocol layer: the wire model of requests and
//! responses, a line-oriented request parser, and the routing rules that
//! turn a parsed request into a response or into a file operation for the
//! caller to carry out.

pub mod config;
pub mod error;
pub mod http;
pub mod text;
