//! SHIORI, the protocol by which a host asks its ghost's module what to say.
pub mod request;
pub mod response;
pub mod runtime;
pub mod v3;

pub use request::{Request, RequestExt, RequestParseError};
pub use response::{Response, ResponseExt, ResponseParseError};
