//! What both protocols' header fields have in common.
pub mod compose;
pub mod lines;
pub mod value;

pub use value::HeaderValue;
