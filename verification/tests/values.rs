use uka::charset::{Charset, Error as CharsetError};
use uka::header::compose::build_value;
use uka::header::value::{
    control_character, has_control_character, printable, Error as HeaderValueError, HeaderValue,
};
use uka::shiori::v3;
use uka::sstp::{Method, StatusCode, Version};
use uka::util::bytes::{append_bytes, bytes_equal, starts_with, str_equal, to_vec};
use uka::util::decode::{strict_text, Decoder, Error as DecodeError};
use uka::util::encode::{strict_bytes, Encoder, Error as EncodeError};
use uka::util::string::{find_non_token, token_byte, Error as TokenError, Rfc7230String};
use uka::util::text::{is_all_graphic, strip_line_end, IntoText};

#[test]
fn charset_names() {
    for (charset, name) in [
        (Charset::ASCII, "ASCII"),
        (Charset::SHIFT_JIS, "Shift_JIS"),
        (Charset::ISO2022JP, "ISO-2022-JP"),
        (Charset::EUC_JP, "EUC-JP"),
        (Charset::UTF8, "UTF-8"),
    ] {
        assert_eq!(charset.to_string(), name);
        assert_eq!(charset.as_str(), name);
        assert_eq!(Charset::from_static(name).unwrap(), charset);
        assert_eq!(Charset::from_string(name.to_string()).unwrap(), charset);
        assert_eq!(charset.into_text(), name);
    }
    for name in ["", "ascii", "ASCII ", " UTF-8", "Shift-JIS", "UTF8"] {
        let CharsetError::Invalid(refused) = Charset::from_static(name).unwrap_err();
        assert_eq!(refused, name);
    }
    assert_eq!(
        CharsetError::Invalid("x".to_string()).message(),
        "invalid charset `x`, the charset must be ASCII, Shift_JIS, ISO-2022-JP, EUC-JP or UTF-8"
    );
}

#[test]
fn keywords() {
    assert_eq!(Method::COMMUNICATE.to_string(), "COMMUNICATE");
    assert_eq!(Version::default(), Version::SSTP_14);
    assert_eq!(Version::SSTP_10.as_str(), "SSTP/1.0");
    assert_eq!(StatusCode::IN_BLACK_LIST.to_string(), "511 In Black List");
    assert_eq!(StatusCode::from_index(0), StatusCode::OK);
    assert_eq!(StatusCode::from_index(11), StatusCode::INVISIBLE);
    assert_eq!(Method::from_index(1), Method::SEND);
    assert_eq!(v3::Method::GET.to_string(), "GET");
    assert_eq!(v3::Version::default().to_string(), "SHIORI/3.0");
    assert_eq!(v3::StatusCode::INTERNAL_SERVER_ERROR.to_string(), "500 Internal Server Error");
    assert_eq!(v3::StatusCode::COMMUNICATE.as_str(), "310 Communicate");
}

#[test]
fn encoders_give_the_bytes_of_each_charset() {
    assert_eq!(Encoder::encode_ascii("a~").unwrap(), [0x61, 0x7e]);
    assert_eq!(Encoder::encode_ascii("é"), Err(EncodeError::AsciiEncodeFailure));
    assert_eq!(Encoder::encode_sjis("ｶ").unwrap(), [0xb6]);
    assert_eq!(Encoder::encode_iso_2022_jp("あ").unwrap(), [27, 36, 66, 36, 34, 27, 40, 66]);
    assert_eq!(Encoder::encode_euc_jp("あ").unwrap(), [0xa4, 0xa2]);
    assert_eq!(Encoder::encode_utf8("あ").unwrap(), [0xe3, 0x81, 0x82]);
    assert_eq!(Encoder::encode_iso_2022_jp("🐇"), Err(EncodeError::Iso2022JpEncodeFailure));
    assert_eq!(Encoder::encode("", Charset::EUC_JP).unwrap(), b"");
    assert_eq!(strict_bytes(vec![1], false, EncodeError::EucJpEncodeFailure), Ok(vec![1]));
    assert_eq!(
        strict_bytes(vec![1], true, EncodeError::EucJpEncodeFailure),
        Err(EncodeError::EucJpEncodeFailure)
    );
    assert_eq!(EncodeError::ShiftJisEncodeFailure.message(), "cannot encode from string to Shift_JIS");
}

#[test]
fn decoders_give_the_text_of_each_charset() {
    assert_eq!(Decoder::decode_ascii(&[0x61, 0x7e]).unwrap(), "a~");
    assert_eq!(Decoder::decode_ascii(&[0x80]), Err(DecodeError::AsciiDecodeFailure));
    assert_eq!(Decoder::decode_sjis(&[0xb6]).unwrap(), "ｶ");
    assert_eq!(Decoder::decode_sjis(&[0x82]), Err(DecodeError::ShiftJisDecodeFailure));
    assert_eq!(Decoder::decode_iso_2022_jp(&[27, 36, 66, 36, 34, 27, 40, 66]).unwrap(), "あ");
    assert_eq!(Decoder::decode_iso_2022_jp(&[0x80]), Err(DecodeError::Iso2022JpDecodeFailure));
    assert_eq!(Decoder::decode_euc_jp(&[0xa4, 0xa2]).unwrap(), "あ");
    assert_eq!(Decoder::decode_euc_jp(&[0xa4]), Err(DecodeError::EucJpDecodeFailure));
    assert_eq!(Decoder::decode_utf8(&[0xe3, 0x81, 0x82]).unwrap(), "あ");
    assert_eq!(Decoder::decode_utf8(&[0xe3, 0x81]), Err(DecodeError::Utf8DecodeFailure));
    assert_eq!(Decoder::decode(&[], Charset::ISO2022JP).unwrap(), "");
    assert_eq!(strict_text("a".to_string(), false, DecodeError::EucJpDecodeFailure).unwrap(), "a");
    assert_eq!(
        strict_text("a".to_string(), true, DecodeError::EucJpDecodeFailure),
        Err(DecodeError::EucJpDecodeFailure)
    );
    assert_eq!(DecodeError::EucJpDecodeFailure.message(), "cannot decode byte to string in EUC-JP");
}

#[test]
fn a_text_of_visible_ascii_is_encoded_as_ascii_in_any_charset() {
    for charset in [Charset::ISO2022JP, Charset::SHIFT_JIS, Charset::UTF8] {
        assert_eq!(build_value("nodescript,notranslate", charset).unwrap().as_bytes(), b"nodescript,notranslate");
        assert_eq!(build_value("", charset).unwrap().as_bytes(), b"");
    }
    assert_eq!(build_value("a b", Charset::ASCII).unwrap().as_bytes(), b"a b");
    assert_eq!(build_value("あ", Charset::EUC_JP).unwrap().as_bytes(), [0xa4, 0xa2]);
    assert!(build_value("あ", Charset::ASCII).is_err());
    assert!(is_all_graphic("!~") && is_all_graphic(""));
    assert!(!is_all_graphic("a b") && !is_all_graphic("\x7f") && !is_all_graphic("あ"));
}

#[test]
fn header_value_wraps_bytes_as_they_are() {
    let value = HeaderValue::from_bytes(vec![0xff, 0x00]);
    assert_eq!(value.as_bytes(), [0xff, 0x00]);
    assert_eq!(value.as_slice(), [0xff, 0x00]);
    assert_eq!(value.clone(), value);
    assert_eq!(HeaderValue::from_slice(&[1, 2]), HeaderValue::from(vec![1, 2]));
    assert_ne!(HeaderValue::from_slice(&[1, 2]), HeaderValue::from(vec![1]));
    assert_eq!(HeaderValue::default().as_bytes(), b"");
    assert!(matches!(
        value.text(),
        Err(HeaderValueError::FailedDecode(DecodeError::AsciiDecodeFailure))
    ));
    assert!(matches!(
        HeaderValue::from_static("é"),
        Err(HeaderValueError::FailedEncode(EncodeError::AsciiEncodeFailure))
    ));
    assert!(control_character('\0') && control_character('\x1f') && control_character('\x7f'));
    assert!(!control_character(' ') && !control_character('~') && !control_character('\u{80}'));
    assert!(has_control_character("a\tb") && !has_control_character("a b") && !has_control_character(""));
    assert_eq!(printable("a b".to_string()).unwrap(), "a b");
    assert!(matches!(
        printable("a\rb".to_string()),
        Err(HeaderValueError::UnprintableCharacters(s)) if s == "a\rb"
    ));
    assert_eq!(
        HeaderValueError::UnprintableCharacters("x".to_string()).message(),
        "HeaderValue cannot handle strings that contain unprintable characters: x"
    );
}

#[test]
fn tokens() {
    assert!(token_byte(b'a') && token_byte(b'~') && token_byte(b'!') && token_byte(b'`'));
    assert!(!token_byte(b' ') && !token_byte(b':') && !token_byte(0x7f) && !token_byte(0x80));
    assert_eq!(find_non_token(b"abc"), None);
    assert_eq!(find_non_token(b"ab c:"), Some(2));
    assert_eq!(Rfc7230String::new().to_string(), "");
    assert_eq!(
        Rfc7230String::from_utf8(b"a(b)".to_vec()).unwrap_err(),
        TokenError::InvalidCharacter(b'(')
    );
    assert_eq!(
        Rfc7230String::from_string("é".to_string()).unwrap_err(),
        TokenError::InvalidCharacter(0xc3)
    );
    let token = Rfc7230String::from_string("X-Token".to_string()).unwrap();
    assert_eq!(token.as_str(), "X-Token");
    assert_eq!(token.as_bytes(), b"X-Token");
    assert_eq!(token.clone(), token);
    assert_eq!(Rfc7230String::from_slice(b"X-Token").unwrap(), token);
    assert_eq!(Rfc7230String::from_tokens(b"X-Token"), token);
}

#[test]
fn bytes() {
    assert!(bytes_equal(b"", b"") && bytes_equal(b"ab", b"ab"));
    assert!(!bytes_equal(b"ab", b"ac") && !bytes_equal(b"ab", b"a"));
    assert!(str_equal("あ", "あ") && !str_equal("あ", "い") && !str_equal("a", "ab"));
    assert!(starts_with(b"abc", b"ab") && starts_with(b"abc", b"") && starts_with(b"abc", b"abc"));
    assert!(!starts_with(b"abc", b"b") && !starts_with(b"ab", b"abc"));
    let mut buf = b"ab".to_vec();
    append_bytes(&mut buf, b"cd");
    append_bytes(&mut buf, b"");
    assert_eq!(buf, b"abcd");
    assert_eq!(to_vec(b"xy"), b"xy");
    assert_eq!(strip_line_end("a\r\n"), "a");
    assert_eq!(strip_line_end("あ\r\n\r\n"), "あ\r\n");
    assert_eq!(strip_line_end("\r\n"), "");
    assert_eq!(strip_line_end("a\n"), "a\n");
    assert_eq!(strip_line_end("\n"), "\n");
    assert_eq!(strip_line_end(""), "");
}
