//! SSTP, the protocol by which one application sends script and messages
//! to a ghost.
pub mod header;
pub mod method;
pub mod parse;
pub mod request;
pub mod response;
pub mod status;
pub mod version;

pub use crate::charset::Charset;
pub use header::{HeaderMap, HeaderName, HeaderNameError, HeaderValue, HeaderValueError};
pub use method::Method;
pub use parse::Error;
pub use request::Request;
pub use response::{AdditionalData, Response};
pub use status::StatusCode;
pub use version::Version;
