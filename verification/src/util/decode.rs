//! Bytes to text, one function per charset.
use crate::charset::Charset;
use crate::util::bytes::{all_ascii, ascii_chars};
use crate::util::encode::{is_transcodable, transcodable};
use encoding_rs::{EUC_JP, ISO_2022_JP, SHIFT_JIS};
use vstd::prelude::*;
use vstd::string::*;
use vstd::utf8::*;

verus! {

/// Error that can occur when decode from bytes.
#[derive(Debug, PartialEq, Eq, Clone, Copy, Hash, Structural)]
pub enum Error {
    /// A byte is 0x80 or above.
    AsciiDecodeFailure,
    /// The bytes are not well-formed Shift_JIS.
    ShiftJisDecodeFailure,
    /// The bytes are not well-formed ISO-2022-JP.
    Iso2022JpDecodeFailure,
    /// The bytes are not well-formed EUC-JP.
    EucJpDecodeFailure,
    /// The bytes are not well-formed UTF-8.
    Utf8DecodeFailure,
}

impl Error {
    /// The text of the message for this error.
    pub open spec fn message_spec(self) -> Seq<char> {
        match self {
            Error::AsciiDecodeFailure => "the byte sequence contains a non-ASCII byte"@,
            Error::ShiftJisDecodeFailure => "cannot decode byte to string in Shift_JIS"@,
            Error::Iso2022JpDecodeFailure => "cannot decode byte to string in ISO-2022-JP"@,
            Error::EucJpDecodeFailure => "cannot decode byte to string in EUC-JP"@,
            Error::Utf8DecodeFailure => "invalid utf-8 sequence"@,
        }
    }

    /// The message shown for this error.
    pub fn message(&self) -> (text: &'static str)
        ensures
            text@ == self.message_spec(),
    {
        match self {
            Error::AsciiDecodeFailure => "the byte sequence contains a non-ASCII byte",
            Error::ShiftJisDecodeFailure => "cannot decode byte to string in Shift_JIS",
            Error::Iso2022JpDecodeFailure => "cannot decode byte to string in ISO-2022-JP",
            Error::EucJpDecodeFailure => "cannot decode byte to string in EUC-JP",
            Error::Utf8DecodeFailure => "invalid utf-8 sequence",
        }
    }
}

/// `ascii::FromAsciiError`, the error of `ascii::AsciiString::from_ascii`.
/// It is carried through as it is: nothing is said of what it holds.
#[verifier::external_type_specification]
#[verifier::external_body]
#[verifier::reject_recursive_types(O)]
pub struct ExFromAsciiError<O>(ascii::FromAsciiError<O>);

/// `std::string::FromUtf8Error`, the error of `String::from_utf8`. It is
/// carried through as it is: nothing is said of what it holds.
#[verifier::external_type_specification]
#[verifier::external_body]
pub struct ExFromUtf8Error(std::string::FromUtf8Error);

/// What `encoding_rs::SHIFT_JIS.decode` returns for a byte string: the
/// text, and whether some byte sequence was malformed.
pub uninterp spec fn shift_jis_decoded(bytes: Seq<u8>) -> (Seq<char>, bool);

/// What `encoding_rs::ISO_2022_JP.decode` returns for a byte string: the
/// text, and whether some byte sequence was malformed.
pub uninterp spec fn iso_2022_jp_decoded(bytes: Seq<u8>) -> (Seq<char>, bool);

/// What `encoding_rs::EUC_JP.decode` returns for a byte string: the text,
/// and whether some byte sequence was malformed.
pub uninterp spec fn euc_jp_decoded(bytes: Seq<u8>) -> (Seq<char>, bool);

/// Calls `ascii::AsciiString::from_ascii` on a copy of the bytes. The call
/// succeeds exactly when every byte is below 0x80, and the string then holds
/// one character per byte, with the byte's value.
#[verifier::external_body]
fn ascii_decode_raw(input: &[u8]) -> (res: Result<String, ascii::FromAsciiError<Vec<u8>>>)
    ensures
        res is Ok <==> all_ascii(input@),
        res matches Ok(text) ==> text@ == ascii_chars(input@),
{
    match ascii::AsciiString::from_ascii(input.to_vec()) {
        Ok(text) => Ok(text.into()),
        Err(e) => Err(e),
    }
}

/// Calls `String::from_utf8` on a copy of the bytes. The call succeeds
/// exactly when the bytes are well-formed UTF-8, and the string is then the
/// text that they encode.
#[verifier::external_body]
fn utf8_decode_raw(input: &[u8]) -> (res: Result<String, std::string::FromUtf8Error>)
    ensures
        res is Ok <==> valid_utf8(input@),
        res matches Ok(text) ==> text@ == decode_utf8(input@),
{
    String::from_utf8(input.to_vec())
}

/// Calls `encoding_rs::Encoding::decode` on `SHIFT_JIS`. Nothing is claimed
/// of the outcome but that it is the transcoder's.
#[verifier::external_body]
fn shift_jis_decode_raw(input: &[u8]) -> (res: (String, bool))
    requires
        transcodable(input@.len()),
    ensures
        (res.0@, res.1) == shift_jis_decoded(input@),
{
    let (text, _, had_errors) = SHIFT_JIS.decode(input);
    (text.into_owned(), had_errors)
}

/// Calls `encoding_rs::Encoding::decode` on `ISO_2022_JP`. Nothing is
/// claimed of the outcome but that it is the transcoder's.
#[verifier::external_body]
fn iso_2022_jp_decode_raw(input: &[u8]) -> (res: (String, bool))
    requires
        transcodable(input@.len()),
    ensures
        (res.0@, res.1) == iso_2022_jp_decoded(input@),
{
    let (text, _, had_errors) = ISO_2022_JP.decode(input);
    (text.into_owned(), had_errors)
}

/// Calls `encoding_rs::Encoding::decode` on `EUC_JP`. Nothing is claimed of
/// the outcome but that it is the transcoder's.
#[verifier::external_body]
fn euc_jp_decode_raw(input: &[u8]) -> (res: (String, bool))
    requires
        transcodable(input@.len()),
    ensures
        (res.0@, res.1) == euc_jp_decoded(input@),
{
    let (text, _, had_errors) = EUC_JP.decode(input);
    (text.into_owned(), had_errors)
}

/// The text that `bytes` stand for in `charset`, or the error where they
/// are not well formed in it, or are too many for the transcoder of the
/// charset.
pub open spec fn decoded(bytes: Seq<u8>, charset: Charset) -> Result<Seq<char>, Error> {
    match charset {
        Charset::Ascii => if all_ascii(bytes) {
            Ok(ascii_chars(bytes))
        } else {
            Err(Error::AsciiDecodeFailure)
        },
        Charset::ShiftJis => if !transcodable(bytes.len()) || shift_jis_decoded(bytes).1 {
            Err(Error::ShiftJisDecodeFailure)
        } else {
            Ok(shift_jis_decoded(bytes).0)
        },
        Charset::Iso2022Jp => if !transcodable(bytes.len()) || iso_2022_jp_decoded(bytes).1 {
            Err(Error::Iso2022JpDecodeFailure)
        } else {
            Ok(iso_2022_jp_decoded(bytes).0)
        },
        Charset::EucJp => if !transcodable(bytes.len()) || euc_jp_decoded(bytes).1 {
            Err(Error::EucJpDecodeFailure)
        } else {
            Ok(euc_jp_decoded(bytes).0)
        },
        Charset::Utf8 => if valid_utf8(bytes) {
            Ok(decode_utf8(bytes))
        } else {
            Err(Error::Utf8DecodeFailure)
        },
    }
}

/// In ASCII and in UTF-8, decoding what a text was encoded to gives the
/// text back.
pub proof fn lemma_codec_round_trip(text: Seq<char>, charset: Charset)
    requires
        !charset.is_legacy(),
        crate::util::encode::encoded(text, charset) is Ok,
    ensures
        decoded(crate::util::encode::encoded(text, charset)->Ok_0, charset) == Ok::<
            Seq<char>,
            Error,
        >(text),
{
    match charset {
        Charset::Ascii => {
            crate::util::bytes::lemma_ascii_encoding(text);
            let bytes = crate::util::bytes::ascii_bytes(text);
            assert(ascii_chars(bytes) =~= text) by {
                vstd::utf8::is_ascii_chars_nat_bound(text);
                assert forall|i: int| 0 <= i < text.len() implies ascii_chars(bytes)[i]
                    == text[i] by {
                    assert((text[i] as nat) < 128);
                }
            }
        },
        Charset::Utf8 => {
            encode_utf8_valid_utf8(text);
            encode_utf8_decode_utf8(text);
        },
        _ => {},
    }
}

/// Whether a result of text stands for the result that is expected.
pub open spec fn is_decoding(res: Result<String, Error>, expected: Result<Seq<char>, Error>) -> bool {
    match expected {
        Ok(text) => res is Ok && res->Ok_0@ == text,
        Err(e) => res == Err::<String, Error>(e),
    }
}

/// What a transcoder's outcome counts for where no byte may be replaced:
/// the text where every byte sequence was well formed, and else the
/// failure.
pub fn strict_text(text: String, had_errors: bool, failure: Error) -> (res: Result<String, Error>)
    ensures
        res == if had_errors {
            Err::<String, Error>(failure)
        } else {
            Ok::<String, Error>(text)
        },
{
    if had_errors {
        Err(failure)
    } else {
        Ok(text)
    }
}

/// Decoder decodes bytes of a specific character set and encoding into a string.
pub struct Decoder;

impl Decoder {
    /// Decode bytes of ascii code to string.
    pub fn decode_ascii(input: &[u8]) -> (res: Result<String, Error>)
        ensures
            is_decoding(res, decoded(input@, Charset::Ascii)),
    {
        match ascii_decode_raw(input) {
            Ok(text) => Ok(text),
            Err(_) => Err(Error::AsciiDecodeFailure),
        }
    }

    /// Decode bytes of shift jis encoding to string.
    pub fn decode_sjis(input: &[u8]) -> (res: Result<String, Error>)
        ensures
            is_decoding(res, decoded(input@, Charset::ShiftJis)),
    {
        if !is_transcodable(input) {
            return Err(Error::ShiftJisDecodeFailure);
        }
        let (text, had_errors) = shift_jis_decode_raw(input);
        strict_text(text, had_errors, Error::ShiftJisDecodeFailure)
    }

    /// Decode bytes of iso-2022-jp encoding to string.
    pub fn decode_iso_2022_jp(input: &[u8]) -> (res: Result<String, Error>)
        ensures
            is_decoding(res, decoded(input@, Charset::Iso2022Jp)),
    {
        if !is_transcodable(input) {
            return Err(Error::Iso2022JpDecodeFailure);
        }
        let (text, had_errors) = iso_2022_jp_decode_raw(input);
        strict_text(text, had_errors, Error::Iso2022JpDecodeFailure)
    }

    /// Decode bytes of euc-jp encoding to string.
    pub fn decode_euc_jp(input: &[u8]) -> (res: Result<String, Error>)
        ensures
            is_decoding(res, decoded(input@, Charset::EucJp)),
    {
        if !is_transcodable(input) {
            return Err(Error::EucJpDecodeFailure);
        }
        let (text, had_errors) = euc_jp_decode_raw(input);
        strict_text(text, had_errors, Error::EucJpDecodeFailure)
    }

    /// Decode bytes of utf-8 encoding to string.
    pub fn decode_utf8(input: &[u8]) -> (res: Result<String, Error>)
        ensures
            is_decoding(res, decoded(input@, Charset::Utf8)),
    {
        match utf8_decode_raw(input) {
            Ok(text) => Ok(text),
            Err(_) => Err(Error::Utf8DecodeFailure),
        }
    }

    /// Decode bytes of the given charset to string.
    pub fn decode(input: &[u8], charset: Charset) -> (res: Result<String, Error>)
        ensures
            is_decoding(res, decoded(input@, charset)),
    {
        match charset {
            Charset::Ascii => Decoder::decode_ascii(input),
            Charset::ShiftJis => Decoder::decode_sjis(input),
            Charset::Iso2022Jp => Decoder::decode_iso_2022_jp(input),
            Charset::EucJp => Decoder::decode_euc_jp(input),
            Charset::Utf8 => Decoder::decode_utf8(input),
        }
    }
}

} // verus!
