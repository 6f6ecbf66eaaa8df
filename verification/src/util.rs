//! Building blocks shared by both protocols.
pub mod bag;
pub mod bytes;
pub mod cursor;
pub mod decode;
pub mod encode;
pub mod string;
pub mod text;
