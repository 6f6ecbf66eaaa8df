//! Cutting Sakura Script into tokens.
pub mod cursor;
pub mod lexer;
pub mod span;
pub mod stream;
pub mod token;

pub use cursor::Cursor;
pub use lexer::Lexer;
pub use span::Span;
pub use stream::{tokenize, TokenStream};
pub use token::{Bracket, Escape, Illegal, Kind, Percent, Separator, Text, Token};
