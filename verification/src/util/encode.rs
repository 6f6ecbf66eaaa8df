//! Text to bytes, one function per charset.
use crate::charset::Charset;
use crate::util::bytes::{ascii_bytes, lemma_ascii_encoding, to_vec};
use encoding_rs::{EUC_JP, ISO_2022_JP, SHIFT_JIS};
use vstd::prelude::*;
use vstd::string::*;
use vstd::utf8::*;

verus! {

/// Error that can occur when encode to bytes.
#[derive(Debug, PartialEq, Eq, Clone, Copy, Hash, Structural)]
pub enum Error {
    /// The text holds a character outside ASCII.
    AsciiEncodeFailure,
    /// The text holds a character that Shift_JIS cannot represent.
    ShiftJisEncodeFailure,
    /// The text holds a character that ISO-2022-JP cannot represent.
    Iso2022JpEncodeFailure,
    /// The text holds a character that EUC-JP cannot represent.
    EucJpEncodeFailure,
}

impl Error {
    /// The text of the message for this error.
    pub open spec fn message_spec(self) -> Seq<char> {
        match self {
            Error::AsciiEncodeFailure => "the string contains a non-ASCII character"@,
            Error::ShiftJisEncodeFailure => "cannot encode from string to Shift_JIS"@,
            Error::Iso2022JpEncodeFailure => "cannot encode from string to ISO-2022-JP"@,
            Error::EucJpEncodeFailure => "cannot encode from string to EUC-JP"@,
        }
    }

    /// The message shown for this error.
    pub fn message(&self) -> (text: &'static str)
        ensures
            text@ == self.message_spec(),
    {
        match self {
            Error::AsciiEncodeFailure => "the string contains a non-ASCII character",
            Error::ShiftJisEncodeFailure => "cannot encode from string to Shift_JIS",
            Error::Iso2022JpEncodeFailure => "cannot encode from string to ISO-2022-JP",
            Error::EucJpEncodeFailure => "cannot encode from string to EUC-JP",
        }
    }
}

/// Whether a transcoder can take an input of `len` bytes: the legacy
/// transcoders size their buffers at three bytes and a few more for each
/// byte of input, and fail where that does not fit in a `usize`. A longer
/// input is refused before it reaches them.
pub open spec fn transcodable(len: nat) -> bool {
    len <= usize::MAX / 8
}

/// Decides whether a transcoder can take an input.
pub fn is_transcodable(input: &[u8]) -> (b: bool)
    ensures
        b == transcodable(input@.len()),
{
    input.len() <= usize::MAX / 8
}

/// `ascii::AsAsciiStrError`, the error of `ascii::AsAsciiStr::as_ascii_str`.
/// It is carried through as it is: nothing is said of what it holds.
#[verifier::external_type_specification]
#[verifier::external_body]
pub struct ExAsAsciiStrError(ascii::AsAsciiStrError);

/// What `encoding_rs::SHIFT_JIS.encode` returns for a text: the bytes, and
/// whether some character had no Shift_JIS form.
pub uninterp spec fn shift_jis_encoded(text: Seq<char>) -> (Seq<u8>, bool);

/// What `encoding_rs::ISO_2022_JP.encode` returns for a text: the bytes, and
/// whether some character had no ISO-2022-JP form.
pub uninterp spec fn iso_2022_jp_encoded(text: Seq<char>) -> (Seq<u8>, bool);

/// What `encoding_rs::EUC_JP.encode` returns for a text: the bytes, and
/// whether some character had no EUC-JP form.
pub uninterp spec fn euc_jp_encoded(text: Seq<char>) -> (Seq<u8>, bool);

/// Calls `ascii::AsAsciiStr::as_ascii_str` on the text. The call succeeds
/// exactly when every character is ASCII, and then hands back the text's
/// bytes unchanged.
#[verifier::external_body]
fn ascii_encode_raw(input: &str) -> (res: Result<Vec<u8>, ascii::AsAsciiStrError>)
    ensures
        res is Ok <==> is_ascii_chars(input@),
        res matches Ok(bytes) ==> bytes@ == input.spec_bytes(),
{
    match ascii::AsAsciiStr::as_ascii_str(input) {
        Ok(text) => Ok(text.as_bytes().to_vec()),
        Err(e) => Err(e),
    }
}

/// Calls `encoding_rs::Encoding::encode` on `SHIFT_JIS`. Nothing is claimed
/// of the outcome but that it is the transcoder's.
#[verifier::external_body]
fn shift_jis_encode_raw(input: &str) -> (res: (Vec<u8>, bool))
    requires
        transcodable(input.spec_bytes().len()),
    ensures
        (res.0@, res.1) == shift_jis_encoded(input@),
{
    let (bytes, _, had_errors) = SHIFT_JIS.encode(input);
    (bytes.into_owned(), had_errors)
}

/// Calls `encoding_rs::Encoding::encode` on `ISO_2022_JP`. Nothing is
/// claimed of the outcome but that it is the transcoder's.
#[verifier::external_body]
fn iso_2022_jp_encode_raw(input: &str) -> (res: (Vec<u8>, bool))
    requires
        transcodable(input.spec_bytes().len()),
    ensures
        (res.0@, res.1) == iso_2022_jp_encoded(input@),
{
    let (bytes, _, had_errors) = ISO_2022_JP.encode(input);
    (bytes.into_owned(), had_errors)
}

/// Calls `encoding_rs::Encoding::encode` on `EUC_JP`. Nothing is claimed of
/// the outcome but that it is the transcoder's.
#[verifier::external_body]
fn euc_jp_encode_raw(input: &str) -> (res: (Vec<u8>, bool))
    requires
        transcodable(input.spec_bytes().len()),
    ensures
        (res.0@, res.1) == euc_jp_encoded(input@),
{
    let (bytes, _, had_errors) = EUC_JP.encode(input);
    (bytes.into_owned(), had_errors)
}

/// The bytes of `text` in `charset`, or the error where `text` holds a
/// character that the charset cannot represent, or is too long for the
/// transcoder of the charset.
pub open spec fn encoded(text: Seq<char>, charset: Charset) -> Result<Seq<u8>, Error> {
    match charset {
        Charset::Ascii => if is_ascii_chars(text) {
            Ok(ascii_bytes(text))
        } else {
            Err(Error::AsciiEncodeFailure)
        },
        Charset::ShiftJis => if !transcodable(encode_utf8(text).len()) || shift_jis_encoded(text).1 {
            Err(Error::ShiftJisEncodeFailure)
        } else {
            Ok(shift_jis_encoded(text).0)
        },
        Charset::Iso2022Jp => if !transcodable(encode_utf8(text).len()) || iso_2022_jp_encoded(text).1 {
            Err(Error::Iso2022JpEncodeFailure)
        } else {
            Ok(iso_2022_jp_encoded(text).0)
        },
        Charset::EucJp => if !transcodable(encode_utf8(text).len()) || euc_jp_encoded(text).1 {
            Err(Error::EucJpEncodeFailure)
        } else {
            Ok(euc_jp_encoded(text).0)
        },
        Charset::Utf8 => Ok(encode_utf8(text)),
    }
}

/// Whether a result of bytes stands for the result that is expected.
pub open spec fn is_encoding(res: Result<Vec<u8>, Error>, expected: Result<Seq<u8>, Error>) -> bool {
    match expected {
        Ok(bytes) => res is Ok && res->Ok_0@ == bytes,
        Err(e) => res == Err::<Vec<u8>, Error>(e),
    }
}

/// What a transcoder's outcome counts for where no character may be
/// replaced: the bytes where every character had a form, and else the
/// failure.
pub fn strict_bytes(bytes: Vec<u8>, had_errors: bool, failure: Error) -> (res: Result<
    Vec<u8>,
    Error,
>)
    ensures
        res == if had_errors {
            Err::<Vec<u8>, Error>(failure)
        } else {
            Ok::<Vec<u8>, Error>(bytes)
        },
{
    if had_errors {
        Err(failure)
    } else {
        Ok(bytes)
    }
}

/// Encoder encodes string into byte units of a specific character set and encoding.
pub struct Encoder;

impl Encoder {
    /// Encode string to bytes of ascii code.
    pub fn encode_ascii(input: &str) -> (res: Result<Vec<u8>, Error>)
        ensures
            is_encoding(res, encoded(input@, Charset::Ascii)),
    {
        match ascii_encode_raw(input) {
            Ok(bytes) => {
                proof {
                    lemma_ascii_encoding(input@);
                }
                Ok(bytes)
            },
            Err(_) => Err(Error::AsciiEncodeFailure),
        }
    }

    /// Encode string to bytes of shift jis encoding.
    pub fn encode_sjis(input: &str) -> (res: Result<Vec<u8>, Error>)
        ensures
            is_encoding(res, encoded(input@, Charset::ShiftJis)),
    {
        if !is_transcodable(input.as_bytes()) {
            return Err(Error::ShiftJisEncodeFailure);
        }
        let (bytes, had_errors) = shift_jis_encode_raw(input);
        strict_bytes(bytes, had_errors, Error::ShiftJisEncodeFailure)
    }

    /// Encode string to bytes of iso-2022-jp encoding.
    pub fn encode_iso_2022_jp(input: &str) -> (res: Result<Vec<u8>, Error>)
        ensures
            is_encoding(res, encoded(input@, Charset::Iso2022Jp)),
    {
        if !is_transcodable(input.as_bytes()) {
            return Err(Error::Iso2022JpEncodeFailure);
        }
        let (bytes, had_errors) = iso_2022_jp_encode_raw(input);
        strict_bytes(bytes, had_errors, Error::Iso2022JpEncodeFailure)
    }

    /// Encode string to bytes of euc-jp encoding.
    pub fn encode_euc_jp(input: &str) -> (res: Result<Vec<u8>, Error>)
        ensures
            is_encoding(res, encoded(input@, Charset::EucJp)),
    {
        if !is_transcodable(input.as_bytes()) {
            return Err(Error::EucJpEncodeFailure);
        }
        let (bytes, had_errors) = euc_jp_encode_raw(input);
        strict_bytes(bytes, had_errors, Error::EucJpEncodeFailure)
    }

    /// Encode string to bytes of utf8 encoding.
    pub fn encode_utf8(input: &str) -> (res: Result<Vec<u8>, Error>)
        ensures
            is_encoding(res, encoded(input@, Charset::Utf8)),
    {
        Ok(to_vec(input.as_bytes()))
    }

    /// Encode string to bytes of the given charset.
    pub fn encode(input: &str, charset: Charset) -> (res: Result<Vec<u8>, Error>)
        ensures
            is_encoding(res, encoded(input@, charset)),
    {
        match charset {
            Charset::Ascii => Encoder::encode_ascii(input),
            Charset::ShiftJis => Encoder::encode_sjis(input),
            Charset::Iso2022Jp => Encoder::encode_iso_2022_jp(input),
            Charset::EucJp => Encoder::encode_euc_jp(input),
            Charset::Utf8 => Encoder::encode_utf8(input),
        }
    }
}

} // verus!
