//! How a builder turns the texts it was given into header fields.
use crate::charset::Charset;
use crate::header::lines::{first_bad_byte, Field};
use crate::header::value::{value_bytes, Error, ErrorView, HeaderValue};
use crate::util::string::all_token;
use crate::util::text::{all_graphic, is_all_graphic};
use vstd::prelude::*;
use vstd::string::*;
use vstd::utf8::encode_utf8;

verus! {

/// The headers that a builder has been given: names and values as texts,
/// in the order in which they came.
pub type Pairs = Seq<(Seq<char>, Seq<char>)>;

/// The pairs that a vector of strings holds.
pub open spec fn pairs_of(headers: Seq<(String, String)>) -> Pairs {
    Seq::new(headers.len(), |i: int| (headers[i].0@, headers[i].1@))
}

/// Why a pair makes no header field.
pub enum FieldError {
    /// The name holds this byte, which is no token character.
    InvalidName(u8),
    /// The value cannot be encoded.
    InvalidValue(ErrorView),
}

/// The bytes of the value that a builder makes of a text. A text of
/// visible ASCII characters alone is encoded as ASCII, whatever the
/// charset of the message; any other text is encoded in that charset.
pub open spec fn built_value(text: Seq<char>, charset: Charset) -> Result<Seq<u8>, ErrorView> {
    if all_graphic(text) {
        value_bytes(text, Charset::Ascii)
    } else {
        value_bytes(text, charset)
    }
}

/// The field that a builder makes of a pair. A name that is no token is
/// reported before a value that cannot be encoded.
pub open spec fn built_field(pair: (Seq<char>, Seq<char>), charset: Charset) -> Result<
    Field,
    FieldError,
> {
    let name = encode_utf8(pair.0);
    if !all_token(name) {
        Err(FieldError::InvalidName(first_bad_byte(name)))
    } else {
        match built_value(pair.1, charset) {
            Ok(value) => Ok((name, value)),
            Err(e) => Err(FieldError::InvalidValue(e)),
        }
    }
}

/// The fields that a builder makes of its pairs, in their order. The
/// first pair that makes no field decides the error.
pub open spec fn built_fields(pairs: Pairs, charset: Charset) -> Result<Seq<Field>, FieldError>
    decreases pairs.len(),
{
    if pairs.len() == 0 {
        Ok(Seq::empty())
    } else {
        match built_fields(pairs.drop_last(), charset) {
            Err(e) => Err(e),
            Ok(fields) => match built_field(pairs.last(), charset) {
                Err(e) => Err(e),
                Ok(field) => Ok(fields.push(field)),
            },
        }
    }
}

/// Why a builder's pair makes no header field.
#[derive(Debug)]
pub enum ComposeError {
    /// The name holds this byte, which is no token character.
    InvalidName(u8),
    /// The value cannot be encoded.
    InvalidValue(Error),
}

impl View for ComposeError {
    type V = FieldError;

    open spec fn view(&self) -> FieldError {
        match self {
            ComposeError::InvalidName(b) => FieldError::InvalidName(*b),
            ComposeError::InvalidValue(e) => FieldError::InvalidValue(e@),
        }
    }
}

/// Makes the value of a text.
pub fn build_value(text: &str, charset: Charset) -> (res: Result<HeaderValue, Error>)
    ensures
        match built_value(text@, charset) {
            Ok(bytes) => res is Ok && res->Ok_0@ == bytes,
            Err(e) => res is Err && res->Err_0@ == e,
        },
{
    if is_all_graphic(text) {
        HeaderValue::from_static(text)
    } else {
        HeaderValue::from_static_with_charset(text, charset)
    }
}

} // verus!
