use std::str::FromStr;
use uka::charset::{Charset, Error as CharsetError};
use uka::header::value::Error as HeaderValueError;
use uka::shiori::runtime::{accept, answer, receive};
use uka::shiori::v3;
use uka::shiori::{RequestParseError, ResponseParseError};
use uka::sstp::parse::Error as ParseError;
use uka::sstp::request::Error as RequestError;
use uka::sstp::response::{AdditionalData, Error as ResponseError};
use uka::sstp::{HeaderMap, HeaderName, HeaderNameError, HeaderValue, Method, StatusCode, Version};
use uka::util::cursor::ReadError;
use uka::util::decode::Error as DecodeError;
use uka::util::encode::Error as EncodeError;
use uka::util::string::Error as TokenError;
use uka::util::text::{decimal, digit};

#[test]
fn bytes_are_written_in_decimal() {
    assert_eq!(digit(0), "0");
    assert_eq!(digit(9), "9");
    for (n, text) in [(0u8, "0"), (7, "7"), (10, "10"), (42, "42"), (99, "99"), (100, "100"), (109, "109"), (255, "255")] {
        assert_eq!(decimal(n), text);
    }
    for n in 0..=255u8 {
        assert_eq!(decimal(n), n.to_string());
    }
}

#[test]
fn errors_say_what_is_amiss() {
    assert_eq!(TokenError::InvalidCharacter(40).message(), "invalid character: `40`");
    assert_eq!(
        HeaderNameError::InvalidHeaderName(TokenError::InvalidCharacter(32)).message(),
        "invalid header name: invalid character: `32`"
    );
    assert_eq!(ReadError::UnexpectedEof.message(), "failed to fill whole buffer");
    assert_eq!(ReadError::UnexpectedBytes.message(), "it is not the expected bytes");
    assert_eq!(EncodeError::AsciiEncodeFailure.message(), "the string contains a non-ASCII character");
    assert_eq!(DecodeError::Utf8DecodeFailure.message(), "invalid utf-8 sequence");
    assert_eq!(
        ParseError::Io(ReadError::UnexpectedEof).message(),
        "read error: failed to fill whole buffer"
    );
    assert!(ParseError::InvalidMethod.message().starts_with("invalid method: "));
    assert!(ParseError::InvalidVersion.message().starts_with("invalid version: "));
    assert!(ParseError::InvalidStatusCode.message().starts_with("invalid status code: "));
    assert_eq!(
        ParseError::InvalidHeaderName(HeaderNameError::InvalidHeaderName(
            TokenError::InvalidCharacter(0)
        ))
        .message(),
        "invalid header name: invalid character: `0`"
    );
    assert_eq!(
        ParseError::MissingHeader(HeaderName::CHARSET).message(),
        "`Charset` header not found"
    );
    assert_eq!(
        ParseError::FailedDecode(
            HeaderName::from_static("X-Y").unwrap(),
            HeaderValueError::FailedDecode(DecodeError::AsciiDecodeFailure)
        )
        .message(),
        "the byte sequence contains a non-ASCII byte in `X-Y` header"
    );
    assert_eq!(
        ParseError::UnsupportedCharset(CharsetError::Invalid("x".to_string())).message(),
        "invalid charset `x`, the charset must be ASCII, Shift_JIS, ISO-2022-JP, EUC-JP or UTF-8"
    );
    assert_eq!(ParseError::UnexpectedEof.message(), "unexpected eof");
    assert_eq!(RequestError::MissingMethod.message(), "method is required");
    assert_eq!(RequestError::MissingVersion.message(), "version is required");
    assert_eq!(RequestError::MissingCharset.message(), "charset is required");
    assert_eq!(ResponseError::MissingStatusCode.message(), "status_code is required");
    assert_eq!(
        ResponseError::FailedEncodeAdditionalData(EncodeError::EucJpEncodeFailure).message(),
        "cannot encode from string to EUC-JP"
    );
    assert_eq!(
        RequestError::FailedEncodeHeaderValue(HeaderValueError::FailedEncode(
            EncodeError::Iso2022JpEncodeFailure
        ))
        .message(),
        "cannot encode from string to ISO-2022-JP"
    );
    assert_eq!(
        v3::ParseError::InvalidMethod.message(),
        "invalid method: please use `GET` or `NOTIFY` for the method"
    );
    assert_eq!(
        v3::ParseError::InvalidVersion.message(),
        "invalid version: please use `SHIORI/3.0` for the version"
    );
    assert_eq!(v3::RequestBuilderError::MissingMethod.message(), "method is required");
    assert_eq!(v3::ResponseBuilderError::MissingVersion.message(), "version is required");
    assert_eq!(RequestParseError::InvalidRequest.message(), "failed parse: invalid request");
    assert_eq!(
        RequestParseError::V3(v3::ParseError::UnexpectedEof).message(),
        "unexpected eof"
    );
    assert_eq!(ResponseParseError::InvalidResponse.message(), "failed parse: invalid response");
    assert_eq!(v3::events::Error::UndefinedId.message(), "Undefined ID");
    assert_eq!(v3::events::Error::UndefinedReference.message(), "Undefined reference");
    assert_eq!(
        v3::events::Error::InvalidEvent("OnBoot".to_string()).message(),
        "Invalid event: OnBoot"
    );
    assert_eq!(
        v3::events::Error::FailedDecode(HeaderValueError::FailedDecode(
            DecodeError::AsciiDecodeFailure
        ))
        .message(),
        "Failed to decode header value"
    );
}

#[test]
fn keywords_are_read_back() {
    for method in [Method::NOTIFY, Method::SEND, Method::EXECUTE, Method::GIVE, Method::COMMUNICATE] {
        assert_eq!(Method::from_name(method.as_str()), Some(method));
    }
    assert_eq!(Method::from_name("notify"), None);
    assert_eq!(Version::from_name("SSTP/1.3"), Some(Version::SSTP_13));
    assert_eq!(Version::from_name("SSTP/1.5"), None);
    assert_eq!(StatusCode::from_name("409 Conflict"), Some(StatusCode::CONFLICT));
    assert_eq!(StatusCode::from_name("409"), None);
    assert_eq!(v3::Version::from_str("SHIORI/3.0"), Ok(v3::Version::SHIORI_30));
    assert_eq!(v3::Version::from_str("SHIORI/2.6"), Err(()));
    assert_eq!(v3::StatusCode::from_name("312 Advice"), Some(v3::StatusCode::ADVICE));
    assert_eq!(v3::Method::from_name("GET"), Some(v3::Method::GET));
    assert_eq!(Charset::from_static("EUC-JP").unwrap(), Charset::EUC_JP);
}

#[test]
fn a_map_hands_out_its_fields_in_order() {
    let mut map = HeaderMap::with_capacity(2);
    map.insert(HeaderName::EVENT, HeaderValue::from_slice(b"e"));
    map.insert(HeaderName::SENDER, HeaderValue::from_slice(b"s"));
    assert_eq!(map.as_slice().len(), 2);
    let names: Vec<String> = map.into_iter().map(|(name, _)| name.to_string()).collect();
    assert_eq!(names, ["Event", "Sender"]);
    let mut map = HeaderMap::new();
    map.insert(HeaderName::PORT, HeaderValue::from_slice(b"9801"));
    let fields = map.into_vec();
    assert_eq!(fields.len(), 1);
    assert_eq!(fields[0].0, HeaderName::PORT);
    assert!(matches!(AdditionalData::from(Vec::new()), AdditionalData::Empty));
    assert!(matches!(AdditionalData::from(vec![1u8]), AdditionalData::Text(b) if b == [1]));
}

#[test]
fn the_boundary_answers_whatever_comes() {
    let request = receive(b"GET SHIORI/3.0\r\nID: version\r\n\r\n").unwrap();
    assert_eq!(request.id().unwrap().as_bytes(), b"version");
    let refused = receive(b"GET SHIORI/2.6\r\n\r\n").unwrap_err();
    assert_eq!(refused.as_bytes(), b"SHIORI/3.0 400 Bad Request\r\n\r\n");
    assert_eq!(
        receive(b"").unwrap_err().as_bytes(),
        b"SHIORI/3.0 400 Bad Request\r\n\r\n"
    );
    let response = accept(b"SHIORI/3.0 200 OK\r\nValue: hoge\r\n\r\n");
    assert_eq!(response.value().unwrap().as_bytes(), b"hoge");
    assert_eq!(
        accept(b"nonsense").as_bytes(),
        b"SHIORI/3.0 500 Internal Server Error\r\n\r\n"
    );
    let ok = v3::Response::builder()
        .version(v3::Version::SHIORI_30)
        .status_code(v3::StatusCode::NO_CONTENT)
        .build()
        .unwrap();
    assert_eq!(answer(Ok(ok)).status_code(), v3::StatusCode::NO_CONTENT);
    let failed = v3::ShioriError::new("no").with_status_code(v3::StatusCode::ADVICE);
    assert_eq!(answer(Err(failed)).status_code(), v3::StatusCode::ADVICE);
}
