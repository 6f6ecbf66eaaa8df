//! The header fields of a SHIORI/3.0 message.
pub mod map;
pub mod name;

pub use crate::header::value::{Error as HeaderValueError, HeaderValue};
pub use map::HeaderMap;
pub use name::{Error as HeaderNameError, HeaderName};
