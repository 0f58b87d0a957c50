//! A one-shot HTTPS client's verified core: planning the request from a URL,
//! the TLS driver and the readiness-loop decisions around it, and framing
//! the spooled response.

pub mod engine;
pub mod error;
pub mod framing;
pub mod response;
pub mod status;
pub mod target;
pub mod tls;

pub use error::ErrorKind;
pub use response::Response;
pub use status::StatusCode;
pub use target::get;
