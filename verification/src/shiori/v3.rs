//! SHIORI/3.0.
pub mod error;
pub mod events;
pub mod header;
pub mod method;
pub mod parse;
pub mod request;
pub mod response;
pub mod status;
pub mod version;

pub use crate::charset::{Charset, Error as CharsetError};
pub use error::{ErrorSource, ShioriError, ShioriErrorContext};
pub use header::{HeaderMap, HeaderName, HeaderNameError, HeaderValue, HeaderValueError};
pub use method::Method;
pub use parse::Error as ParseError;
pub use request::{Error as RequestBuilderError, Request, RequestBuilder};
pub use response::{
    Builder as ResponseBuilder, Error as ResponseBuilderError, IntoResponse, Response,
};
pub use status::StatusCode;
pub use version::Version;
