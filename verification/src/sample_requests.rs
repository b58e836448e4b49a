//! The two messages every unit of work sends.

pub mod request_headers;
pub mod response_headers;
