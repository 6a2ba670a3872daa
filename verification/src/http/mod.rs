//! The HTTP layer: wire model, parser and handlers.

pub use self::error::Error;
pub use self::request::Method;
pub use self::response::{ContentType, Response};

pub mod connection;
pub mod error;
pub mod framing;
pub mod handlers;
pub mod headers;
pub mod lines;
pub mod request;
pub mod response;
pub mod roundtrip;
