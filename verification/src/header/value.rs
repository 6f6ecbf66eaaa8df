//! The value of a header field: bytes, read as text only on demand.
use crate::charset::Charset;
use crate::util::{decode, encode};
use crate::util::bytes::to_vec;
use crate::util::decode::{decoded, Decoder};
use crate::util::encode::{encoded, Encoder};
use vstd::prelude::*;
use vstd::std_specs::cmp::PartialEqSpecImpl;
use vstd::std_specs::convert::FromSpecImpl;
use vstd::std_specs::iter::IteratorSpec;
use vstd::string::*;
use vstd::utf8::*;

verus! {

/// Error occurs when serializing/deserializing HeaderValue.
#[derive(Debug)]
pub enum Error {
    /// The text holds an ASCII control character.
    UnprintableCharacters(String),
    /// The text has no form in the charset.
    FailedEncode(encode::Error),
    /// The bytes are not well formed in the charset.
    FailedDecode(decode::Error),
}

/// An `Error`, with the text it holds as a sequence of characters.
pub enum ErrorView {
    UnprintableCharacters(Seq<char>),
    FailedEncode(encode::Error),
    FailedDecode(decode::Error),
}

impl View for Error {
    type V = ErrorView;

    open spec fn view(&self) -> ErrorView {
        match self {
            Error::UnprintableCharacters(text) => ErrorView::UnprintableCharacters(text@),
            Error::FailedEncode(e) => ErrorView::FailedEncode(*e),
            Error::FailedDecode(e) => ErrorView::FailedDecode(*e),
        }
    }
}

impl ErrorView {
    /// The text of the message for this error.
    pub open spec fn message_spec(self) -> Seq<char> {
        match self {
            ErrorView::UnprintableCharacters(t) =>
                "HeaderValue cannot handle strings that contain unprintable characters: "@ + t,
            ErrorView::FailedEncode(e) => e.message_spec(),
            ErrorView::FailedDecode(e) => e.message_spec(),
        }
    }
}

impl Error {
    /// The message shown for this error.
    pub fn message(&self) -> (text: String)
        ensures
            text@ == self@.message_spec(),
    {
        match self {
            Error::UnprintableCharacters(t) => {
                let text =
                    "HeaderValue cannot handle strings that contain unprintable characters: ".to_owned();
                text.concat(t.as_str())
            },
            Error::FailedEncode(e) => e.message().to_owned(),
            Error::FailedDecode(e) => e.message().to_owned(),
        }
    }
}

/// Whether a character is an ASCII control character: U+0000 to U+001F, or U+007F.
pub open spec fn is_control(c: char) -> bool {
    c <= '\u{1f}' || c == '\u{7f}'
}

/// Whether a text holds an ASCII control character.
pub open spec fn has_control(text: Seq<char>) -> bool {
    exists|i: int| 0 <= i < text.len() && is_control(#[trigger] text[i])
}

/// Decides `is_control`.
pub fn control_character(c: char) -> (r: bool)
    ensures
        r == is_control(c),
{
    c <= '\u{1f}' || c == '\u{7f}'
}

/// Decides `has_control`.
pub fn has_control_character(text: &str) -> (found: bool)
    ensures
        found == has_control(text@),
{
    broadcast use vstd::string::group_string_axioms;

    let mut found = false;
    for c in it: text.chars()
        invariant
            it.seq() == text@,
            found == has_control(text@.take(it.index())),
    {
        let ghost before = text@.take(it.index());
        let ghost upto = text@.take(it.index() + 1);
        proof {
            assert(upto.drop_last() =~= before);
            assert(upto.last() == c);
            if has_control(before) {
                let i = choose|i: int| 0 <= i < before.len() && is_control(#[trigger] before[i]);
                assert(is_control(upto[i]));
            }
            if has_control(upto) && !is_control(c) {
                let i = choose|i: int| 0 <= i < upto.len() && is_control(#[trigger] upto[i]);
                assert(is_control(before[i]));
            }
            if is_control(c) {
                assert(is_control(upto[upto.len() - 1]));
            }
        }
        if control_character(c) {
            found = true;
        }
    }
    proof {
        assert(text@.take(text@.len() as int) =~= text@);
    }
    found
}

/// Whether a byte is that of an ASCII control character: 0x00 to 0x1F, or 0x7F.
pub open spec fn is_control_byte(b: u8) -> bool {
    b <= 0x1f || b == 0x7f
}

/// Whether bytes hold the byte of an ASCII control character.
pub open spec fn has_control_byte(bytes: Seq<u8>) -> bool {
    exists|i: int| 0 <= i < bytes.len() && is_control_byte(#[trigger] bytes[i])
}

/// The encoding of a character is the character itself where it is ASCII,
/// and else is made of bytes from 0x80 on.
proof fn lemma_scalar_bytes(c: char)
    ensures
        c <= '\u{7f}' ==> encode_scalar(c as u32) == seq![c as u8],
        c > '\u{7f}' ==> forall|i: int|
            0 <= i < encode_scalar(c as u32).len() ==> #[trigger] encode_scalar(c as u32)[i] >= 0x80,
{
    let s = c as u32;
    char_is_scalar(c);
    if has_width_1_encoding(s) {
        assert((s & 0x7F) == s) by (bit_vector)
            requires
                s <= 0x7F,
        ;
        assert(encode_scalar(s) =~= seq![c as u8]);
    } else {
        assert(forall|x: u8| 0xC0u8 | x >= 0x80) by (bit_vector);
        assert(forall|x: u8| 0xE0u8 | x >= 0x80) by (bit_vector);
        assert(forall|x: u8| 0xF0u8 | x >= 0x80) by (bit_vector);
        assert(forall|x: u8| 0x80u8 | x >= 0x80) by (bit_vector);
    }
}

/// A text whose UTF-8 bytes hold the byte of a control character holds a
/// control character.
pub proof fn lemma_control_byte_is_control(text: Seq<char>)
    requires
        has_control_byte(encode_utf8(text)),
    ensures
        has_control(text),
    decreases text.len(),
{
    let bytes = encode_utf8(text);
    let i = choose|i: int| 0 <= i < bytes.len() && is_control_byte(#[trigger] bytes[i]);
    if text.len() > 0 {
        let first = encode_scalar(text[0] as u32);
        let rest = encode_utf8(text.drop_first());
        lemma_scalar_bytes(text[0]);
        if i < first.len() {
            assert(bytes[i] == first[i]);
            if text[0] > '\u{7f}' {
                assert(first[i] >= 0x80);
            }
            assert(is_control(text[0]));
        } else {
            assert(bytes[i] == rest[i - first.len()]);
            assert(is_control_byte(rest[i - first.len()]));
            lemma_control_byte_is_control(text.drop_first());
            let j = choose|j: int|
                0 <= j < text.drop_first().len() && is_control(#[trigger] text.drop_first()[j]);
            assert(is_control(text[j + 1]));
        }
    }
}

/// A text that holds a control character makes no value, in whatever
/// charset; nor does a text whose bytes hold the byte of one.
pub proof fn lemma_control_makes_no_value(text: Seq<char>, charset: Charset)
    requires
        has_control(text) || has_control_byte(encode_utf8(text)),
    ensures
        value_bytes(text, charset) == Err::<Seq<u8>, ErrorView>(
            ErrorView::UnprintableCharacters(text),
        ),
{
    if has_control_byte(encode_utf8(text)) {
        lemma_control_byte_is_control(text);
    }
}

/// Bytes that stand for a text with a control character give no text.
pub proof fn lemma_control_gives_no_text(bytes: Seq<u8>, charset: Charset)
    requires
        decoded(bytes, charset) matches Ok(text) && has_control(text),
    ensures
        value_text(bytes, charset) == Err::<Seq<char>, ErrorView>(
            ErrorView::UnprintableCharacters(decoded(bytes, charset)->Ok_0),
        ),
{
}

/// In ASCII and in UTF-8, the value made of a text gives the text back.
pub proof fn lemma_value_round_trip(text: Seq<char>, charset: Charset)
    requires
        !charset.is_legacy(),
        value_bytes(text, charset) is Ok,
    ensures
        value_text(value_bytes(text, charset)->Ok_0, charset) == Ok::<Seq<char>, ErrorView>(text),
{
    crate::util::decode::lemma_codec_round_trip(text, charset);
}

/// The text that a value's bytes stand for in `charset`: the decoded
/// bytes, unless they are malformed or the text holds a control character.
pub open spec fn value_text(bytes: Seq<u8>, charset: Charset) -> Result<Seq<char>, ErrorView> {
    match decoded(bytes, charset) {
        Err(e) => Err(ErrorView::FailedDecode(e)),
        Ok(text) => if has_control(text) {
            Err(ErrorView::UnprintableCharacters(text))
        } else {
            Ok(text)
        },
    }
}

/// The bytes of the value that stands for `text` in `charset`: the encoded
/// text, unless it holds a control character or has no form in the charset.
pub open spec fn value_bytes(text: Seq<char>, charset: Charset) -> Result<Seq<u8>, ErrorView> {
    if has_control(text) {
        Err(ErrorView::UnprintableCharacters(text))
    } else {
        match encoded(text, charset) {
            Ok(bytes) => Ok(bytes),
            Err(e) => Err(ErrorView::FailedEncode(e)),
        }
    }
}

/// A text as the text of a value: refused where it holds a control
/// character.
pub fn printable(text: String) -> (res: Result<String, Error>)
    ensures
        match res {
            Ok(t) => !has_control(text@) && t == text,
            Err(e) => has_control(text@) && e@ == ErrorView::UnprintableCharacters(text@),
        },
{
    if has_control_character(text.as_str()) {
        Err(Error::UnprintableCharacters(text))
    } else {
        Ok(text)
    }
}

/// HeaderValue is the value of a header field.
///
/// The value is held as the bytes that stood on the wire. Which charset
/// they are in is not part of the value: the reader names it when asking
/// for the text.
#[derive(Debug, Eq, Hash)]
pub struct HeaderValue {
    bytes: Vec<u8>,
}

impl View for HeaderValue {
    type V = Seq<u8>;

    /// The bytes of the value.
    closed spec fn view(&self) -> Seq<u8> {
        self.bytes@
    }
}

impl HeaderValue {
    /// Wraps bytes as they are.
    pub fn from_bytes(bytes: Vec<u8>) -> (value: Self)
        ensures
            value@ == bytes@,
    {
        Self { bytes }
    }

    /// Wraps a copy of the bytes as they are.
    pub fn from_slice(bytes: &[u8]) -> (value: Self)
        ensures
            value@ == bytes@,
    {
        Self { bytes: to_vec(bytes) }
    }

    /// Extract HeaderValue as an ASCII code string.
    pub fn text(&self) -> (res: Result<String, Error>)
        ensures
            match value_text(self@, Charset::Ascii) {
                Ok(text) => res is Ok && res->Ok_0@ == text,
                Err(e) => res is Err && res->Err_0@ == e,
            },
    {
        self.text_with_charset(Charset::Ascii)
    }

    /// Extract HeaderValue as a string with Charset.
    pub fn text_with_charset(&self, charset: Charset) -> (res: Result<String, Error>)
        ensures
            match value_text(self@, charset) {
                Ok(text) => res is Ok && res->Ok_0@ == text,
                Err(e) => res is Err && res->Err_0@ == e,
            },
    {
        match Decoder::decode(self.bytes.as_slice(), charset) {
            Err(e) => Err(Error::FailedDecode(e)),
            Ok(text) => printable(text),
        }
    }

    /// Convert string to HeaderValue with ASCII code bytes.
    pub fn from_static(s: &str) -> (res: Result<Self, Error>)
        ensures
            match value_bytes(s@, Charset::Ascii) {
                Ok(bytes) => res is Ok && res->Ok_0@ == bytes,
                Err(e) => res is Err && res->Err_0@ == e,
            },
            has_control(s@) ==> res is Err,
    {
        HeaderValue::from_static_with_charset(s, Charset::Ascii)
    }

    /// Convert string to HeaderValue with Charset.
    pub fn from_static_with_charset(s: &str, charset: Charset) -> (res: Result<Self, Error>)
        ensures
            match value_bytes(s@, charset) {
                Ok(bytes) => res is Ok && res->Ok_0@ == bytes,
                Err(e) => res is Err && res->Err_0@ == e,
            },
            has_control(s@) ==> res is Err,
    {
        if has_control_character(s) {
            return Err(Error::UnprintableCharacters(s.to_owned()));
        }
        match Encoder::encode(s, charset) {
            Ok(bytes) => Ok(Self { bytes }),
            Err(e) => Err(Error::FailedEncode(e)),
        }
    }

    /// Convert HeaderValue to bytes.
    pub fn as_bytes(&self) -> (bytes: Vec<u8>)
        ensures
            bytes@ == self@,
    {
        to_vec(self.bytes.as_slice())
    }

    /// The bytes of the value, borrowed.
    pub fn as_slice(&self) -> (bytes: &[u8])
        ensures
            bytes@ == self@,
    {
        self.bytes.as_slice()
    }
}

impl From<Vec<u8>> for HeaderValue {
    fn from(bytes: Vec<u8>) -> (value: Self)
        ensures
            value@ == bytes@,
    {
        Self { bytes }
    }
}

impl FromSpecImpl<Vec<u8>> for HeaderValue {
    open spec fn obeys_from_spec() -> bool {
        true
    }

    closed spec fn from_spec(bytes: Vec<u8>) -> Self {
        Self { bytes }
    }
}

impl<'a> From<&'a [u8]> for HeaderValue {
    fn from(bytes: &'a [u8]) -> (value: Self)
        ensures
            value@ == bytes@,
    {
        HeaderValue::from_slice(bytes)
    }
}

impl<'a> FromSpecImpl<&'a [u8]> for HeaderValue {
    open spec fn obeys_from_spec() -> bool {
        false
    }

    closed spec fn from_spec(bytes: &'a [u8]) -> Self {
        vstd::pervasive::arbitrary()
    }
}

impl Clone for HeaderValue {
    fn clone(&self) -> (r: Self)
        ensures
            r@ == self@,
    {
        Self { bytes: to_vec(self.bytes.as_slice()) }
    }
}

impl Default for HeaderValue {
    fn default() -> (value: Self)
        ensures
            value@ == Seq::<u8>::empty(),
    {
        Self { bytes: Vec::new() }
    }
}

impl PartialEq for HeaderValue {
    fn eq(&self, other: &Self) -> (r: bool) {
        crate::util::bytes::bytes_equal(self.bytes.as_slice(), other.bytes.as_slice())
    }
}

impl PartialEqSpecImpl for HeaderValue {
    open spec fn obeys_eq_spec() -> bool {
        true
    }

    open spec fn eq_spec(&self, other: &Self) -> bool {
        self@ == other@
    }
}

} // verus!
