//! The header fields of an SSTP message.
pub mod map;
pub mod name;

pub use crate::header::value::{Error as HeaderValueError, HeaderValue};
pub use map::HeaderMap;
pub use name::{Error as HeaderNameError, HeaderName};
