use uka::charset::{Charset, Error as CharsetError};
use uka::header::value::Error as HeaderValueError;
use uka::shiori::v3;
use uka::sstp::parse::{
    eof, parse_additional_data, parse_charset, parse_headers, parse_method, parse_request,
    parse_request_line, parse_response, parse_section, parse_status_code, parse_status_line,
    parse_tail, parse_version, skip_newline, skip_spaces, Error,
};
use uka::sstp::response::AdditionalData;
use uka::sstp::{HeaderName, HeaderNameError, Method, StatusCode, Version};
use uka::util::cursor::{ByteCursor, MatchError, ReadError};
use uka::util::decode::Error as DecodeError;
use uka::util::string::Error as TokenError;

#[test]
fn cursor_reads() {
    let mut cursor = ByteCursor::new(b"hello:world\r\n  x");
    assert_eq!(cursor.position(), 0);
    assert_eq!(cursor.lookahead(2).unwrap(), b"he");
    assert_eq!(cursor.position(), 0);
    assert_eq!(cursor.read(2).unwrap(), b"he");
    assert_eq!(cursor.read_until(b":").unwrap(), b"llo");
    assert_eq!(cursor.position(), 6);
    assert_eq!(cursor.read_repeat(b' '), 0);
    assert_eq!(cursor.read_until(b"\r\n").unwrap(), b"world");
    assert_eq!(cursor.read_repeat(b' '), 2);
    assert!(!cursor.is_eof());
    assert_eq!(cursor.lookahead(2), Err(ReadError::UnexpectedEof));
    assert_eq!(cursor.read_expect(b"y"), Err(ReadError::UnexpectedBytes));
    assert!(cursor.is_eof());
    assert_eq!(cursor.read(1), Err(ReadError::UnexpectedEof));
    assert_eq!(cursor.read(0).unwrap(), b"");
    assert_eq!(cursor.read_until(b"\r\n"), Err(ReadError::UnexpectedEof));
}

#[test]
fn cursor_stands_at_the_end_after_a_read_that_found_too_little() {
    let mut cursor = ByteCursor::new(b"abc");
    assert_eq!(cursor.read(4), Err(ReadError::UnexpectedEof));
    assert_eq!(cursor.position(), 3);
    let mut cursor = ByteCursor::new(b"abc");
    assert_eq!(cursor.read_until(b"\r\n"), Err(ReadError::UnexpectedEof));
    assert_eq!(cursor.position(), 3);
    let mut cursor = ByteCursor::new(b"a\rb\r\n");
    assert_eq!(cursor.read_until(b"\r\n").unwrap(), b"a\rb");
    assert!(cursor.is_eof());
}

#[test]
fn cursor_matches_keywords() {
    let keys = ["apple", "avocado", "banana"];
    let mut cursor = ByteCursor::new(b"banana split");
    assert_eq!(cursor.read_match(&keys, 1), Ok(2));
    assert_eq!(cursor.position(), 6);
    // the first key that begins like the input decides
    let mut cursor = ByteCursor::new(b"avocado");
    assert_eq!(cursor.read_match(&keys, 1), Err(MatchError::Unknown));
    let mut cursor = ByteCursor::new(b"avocado");
    assert_eq!(cursor.read_match(&keys, 2), Ok(1));
    let mut cursor = ByteCursor::new(b"app");
    assert_eq!(cursor.read_match(&keys, 1), Err(MatchError::Eof));
    let mut cursor = ByteCursor::new(b"cherry");
    assert_eq!(cursor.read_match(&keys, 1), Err(MatchError::Unknown));
    let mut cursor = ByteCursor::new(b"");
    assert_eq!(cursor.read_match(&keys, 1), Err(MatchError::Eof));
}

#[test]
fn method_errors() {
    let mut cursor = ByteCursor::new(b"");
    assert!(matches!(parse_method(&mut cursor), Err(Error::Io(ReadError::UnexpectedEof))));
    let mut cursor = ByteCursor::new(b"NOT");
    assert!(matches!(parse_method(&mut cursor), Err(Error::Io(ReadError::UnexpectedEof))));
    let mut cursor = ByteCursor::new(b"NOTICE ");
    assert!(matches!(parse_method(&mut cursor), Err(Error::InvalidMethod)));
    let mut cursor = ByteCursor::new(b"FOO ");
    assert!(matches!(parse_method(&mut cursor), Err(Error::InvalidMethod)));
    let mut cursor = ByteCursor::new(b"GIVE me");
    assert_eq!(parse_method(&mut cursor).unwrap(), Method::GIVE);
    assert_eq!(cursor.position(), 4);
}

#[test]
fn version_and_status_code_errors() {
    let mut cursor = ByteCursor::new(b"SSTP/1.");
    assert!(matches!(parse_version(&mut cursor), Err(Error::Io(ReadError::UnexpectedEof))));
    let mut cursor = ByteCursor::new(b"SSTP/1.5\r\n");
    assert!(matches!(parse_version(&mut cursor), Err(Error::InvalidVersion)));
    let mut cursor = ByteCursor::new(b"20");
    assert!(matches!(parse_status_code(&mut cursor), Err(Error::Io(ReadError::UnexpectedEof))));
    let mut cursor = ByteCursor::new(b"200 O");
    assert!(matches!(parse_status_code(&mut cursor), Err(Error::Io(ReadError::UnexpectedEof))));
    let mut cursor = ByteCursor::new(b"200 No\r\n");
    assert!(matches!(parse_status_code(&mut cursor), Err(Error::InvalidStatusCode)));
    let mut cursor = ByteCursor::new(b"201 Created\r\n");
    assert!(matches!(parse_status_code(&mut cursor), Err(Error::InvalidStatusCode)));
    let mut cursor = ByteCursor::new(b"503 Service Unavailable\r\n");
    assert_eq!(parse_status_code(&mut cursor).unwrap(), StatusCode::SERVICE_UNAVAILABLE);
    assert_eq!(cursor.position(), 23);
}

#[test]
fn lines_and_sections() {
    let mut cursor = ByteCursor::new(b"SEND   SSTP/1.3\r\nrest");
    assert_eq!(parse_request_line(&mut cursor).unwrap(), (Method::SEND, Version::SSTP_13));
    assert_eq!(cursor.position(), 17);
    let mut cursor = ByteCursor::new(b"SSTP/1.0 512 Invisible\r\n");
    assert_eq!(
        parse_status_line(&mut cursor).unwrap(),
        (Version::SSTP_10, StatusCode::INVISIBLE)
    );
    let mut cursor = ByteCursor::new(b"A: 1\r\nCharset: EUC-JP\r\nA: 2\r\n\r\nleft");
    let (headers, charset) = parse_section(&mut cursor).unwrap();
    assert_eq!(charset, Charset::EUC_JP);
    assert_eq!(headers.len(), 3);
    assert_eq!(parse_charset(&headers).unwrap(), Charset::EUC_JP);
    assert_eq!(cursor.lookahead(4).unwrap(), b"left");
    let mut cursor = ByteCursor::new(b"   x");
    assert_eq!(skip_spaces(&mut cursor), 3);
    assert_eq!(skip_spaces(&mut cursor), 0);
    assert!(matches!(skip_newline(&mut cursor), Err(Error::Io(ReadError::UnexpectedEof))));
    let mut cursor = ByteCursor::new(b"\n\r");
    assert!(matches!(skip_newline(&mut cursor), Err(Error::Io(ReadError::UnexpectedBytes))));
    let mut cursor = ByteCursor::new(b"\r\n");
    assert!(matches!(eof(&mut cursor), Err(Error::UnexpectedEof)));
    assert!(skip_newline(&mut cursor).is_ok());
    assert!(eof(&mut cursor).is_ok());
}

#[test]
fn a_space_must_follow_the_method_and_the_version() {
    assert!(matches!(
        parse_request(b"NOTIFYSSTP/1.1\r\nCharset: ASCII\r\n\r\n"),
        Err(Error::InvalidMethod)
    ));
    assert!(matches!(
        parse_response(b"SSTP/1.1200 OK\r\nCharset: ASCII\r\n\r\n"),
        Err(Error::InvalidVersion)
    ));
    assert!(parse_request(b"NOTIFY    SSTP/1.1\r\nCharset: ASCII\r\n\r\n").is_ok());
    assert!(parse_response(b"SSTP/1.1   200 OK\r\nCharset: ASCII\r\n\r\n").is_ok());
}

#[test]
fn header_block_errors() {
    let mut cursor = ByteCursor::new(b"Sender: foo\r\n");
    assert!(matches!(parse_headers(&mut cursor), Err(Error::Io(ReadError::UnexpectedEof))));
    let mut cursor = ByteCursor::new(b"Sender: foo");
    assert!(matches!(parse_headers(&mut cursor), Err(Error::Io(ReadError::UnexpectedEof))));
    let mut cursor = ByteCursor::new(b"Sender foo\r\n\r\n");
    assert!(matches!(parse_headers(&mut cursor), Err(Error::Io(ReadError::UnexpectedEof))));
    let mut cursor = ByteCursor::new(b"Sen der: foo\r\n\r\n");
    assert!(matches!(
        parse_headers(&mut cursor),
        Err(Error::InvalidHeaderName(HeaderNameError::InvalidHeaderName(
            TokenError::InvalidCharacter(b' ')
        )))
    ));
    // the name of a line is held against the grammar once the line has been read whole
    let mut cursor = ByteCursor::new(b"Sen(der: foo");
    assert!(matches!(parse_headers(&mut cursor), Err(Error::Io(ReadError::UnexpectedEof))));
    let mut cursor = ByteCursor::new(b"\r\nSender: foo\r\n\r\n");
    let headers = parse_headers(&mut cursor).unwrap();
    assert!(headers.is_empty());
    assert_eq!(cursor.position(), 0);
    let mut cursor = ByteCursor::new(b": empty name\r\n\r\n");
    let headers = parse_headers(&mut cursor).unwrap();
    assert_eq!(
        headers
            .get(&HeaderName::from_static("").unwrap())
            .unwrap()
            .as_bytes(),
        b"empty name"
    );
}

#[test]
fn charset_errors() {
    assert!(matches!(
        parse_request(b"NOTIFY SSTP/1.1\r\nSender: foo\r\n\r\n"),
        Err(Error::MissingHeader(HeaderName::Charset))
    ));
    assert!(matches!(
        parse_request(b"NOTIFY SSTP/1.1\r\nCharset: ISO-8859-16\r\n\r\n"),
        Err(Error::UnsupportedCharset(CharsetError::Invalid(ref name))) if name == "ISO-8859-16"
    ));
    assert!(matches!(
        parse_request(b"NOTIFY SSTP/1.1\r\nCharset: utf-8\r\n\r\n"),
        Err(Error::UnsupportedCharset(_))
    ));
    assert!(matches!(
        parse_request(b"NOTIFY SSTP/1.1\r\nCharset: \xe3\x81\x82\r\n\r\n"),
        Err(Error::FailedDecode(
            HeaderName::Charset,
            HeaderValueError::FailedDecode(DecodeError::AsciiDecodeFailure)
        ))
    ));
    assert!(matches!(
        parse_request(b"NOTIFY SSTP/1.1\r\nCharset: UTF\t8\r\n\r\n"),
        Err(Error::FailedDecode(
            HeaderName::Charset,
            HeaderValueError::UnprintableCharacters(_)
        ))
    ));
    // of two charsets the first counts, whatever the second says
    let request =
        parse_request(b"NOTIFY SSTP/1.1\r\nCharset: UTF-8\r\nCharset: nonsense\r\n\r\n").unwrap();
    assert_eq!(request.charset(), Charset::UTF8);
    // the charset is looked at before what follows the headers
    assert!(matches!(
        parse_request(b"NOTIFY SSTP/1.1\r\nSender: foo\r\n\r\ntrailing"),
        Err(Error::MissingHeader(_))
    ));
}

#[test]
fn what_follows_the_message_is_an_error() {
    assert!(matches!(
        parse_request(b"NOTIFY SSTP/1.1\r\nCharset: ASCII\r\n\r\n\r\n"),
        Err(Error::UnexpectedEof)
    ));
    assert!(matches!(
        parse_request(b"NOTIFY SSTP/1.1\r\nCharset: ASCII\r\n\r\nx"),
        Err(Error::UnexpectedEof)
    ));
    assert!(matches!(
        parse_request(b"NOTIFY SSTP/1.1 \r\nCharset: ASCII\r\n\r\n"),
        Err(Error::Io(ReadError::UnexpectedBytes))
    ));
    assert!(matches!(
        parse_request(b"NOTIFY SSTP/1.1\r"),
        Err(Error::Io(ReadError::UnexpectedEof))
    ));
    assert!(matches!(parse_request(b""), Err(Error::Io(ReadError::UnexpectedEof))));
    assert!(matches!(
        parse_response(b"SSTP/1.1 200 OK\r\nCharset: ASCII\r\n\r\nline\r\n\r\nmore"),
        Err(Error::UnexpectedEof)
    ));
    assert!(matches!(
        parse_response(b"SSTP/1.1 200 OK\r\nCharset: ASCII\r\n\r\nline\r\n"),
        Err(Error::Io(ReadError::UnexpectedEof))
    ));
    assert!(matches!(
        parse_response(b"SSTP/1.1 200 OK\r\nCharset: ASCII\r\n\r\nline"),
        Err(Error::Io(ReadError::UnexpectedEof))
    ));
}

#[test]
fn additional_data_lines() {
    let mut cursor = ByteCursor::new(b"");
    assert!(matches!(parse_additional_data(&mut cursor), Ok(AdditionalData::Empty)));
    let mut cursor = ByteCursor::new(b"line1\r\nline2\r\n\r\n");
    let data = parse_additional_data(&mut cursor).unwrap();
    assert!(matches!(data, AdditionalData::Text(ref b) if b == b"line1\r\nline2\r\n"));
    assert_eq!(cursor.lookahead(2).unwrap(), b"\r\n");
    let mut cursor = ByteCursor::new(b"\r\n");
    let data = parse_additional_data(&mut cursor).unwrap();
    assert!(matches!(data, AdditionalData::Text(ref b) if b.is_empty()));
    let mut cursor = ByteCursor::new(b"line1\r\n\r\n");
    let data = parse_tail(&mut cursor).unwrap();
    assert!(matches!(data, AdditionalData::Text(ref b) if b == b"line1\r\n"));
    assert!(cursor.is_eof());
    let mut cursor = ByteCursor::new(b"x");
    assert!(matches!(
        parse_additional_data(&mut cursor),
        Err(Error::Io(ReadError::UnexpectedEof))
    ));
}

#[test]
fn shiori_charset_is_ascii_unless_declared() {
    let request = v3::Request::parse(b"GET SHIORI/3.0\r\nID: hoge\r\n\r\n").unwrap();
    assert_eq!(request.charset(), Charset::ASCII);
    let request = v3::Request::parse(b"GET SHIORI/3.0\r\nCharset: Shift_JIS\r\n\r\n").unwrap();
    assert_eq!(request.charset(), Charset::SHIFT_JIS);
    assert!(matches!(
        v3::Request::parse(b"GET SHIORI/3.0\r\nCharset: ISO-8859-16\r\n\r\n"),
        Err(v3::ParseError::UnsupportedCharset(_))
    ));
    assert!(matches!(
        v3::Response::parse(b"SHIORI/3.0 200 OK\r\nCharset: \xff\r\n\r\n"),
        Err(v3::ParseError::FailedDecode(v3::HeaderName::Charset, _))
    ));
    assert!(matches!(
        v3::Request::parse(b"TEACH SHIORI/3.0\r\n\r\n"),
        Err(v3::ParseError::InvalidMethod)
    ));
    assert!(matches!(
        v3::Request::parse(b"GET SHIORI/2.6\r\n\r\n"),
        Err(v3::ParseError::InvalidVersion)
    ));
    assert!(matches!(
        v3::Response::parse(b"SHIORI/3.0 404 Not Found\r\n\r\n"),
        Err(v3::ParseError::InvalidStatusCode)
    ));
    assert!(matches!(
        v3::Response::parse(b"SHIORI/3.0 200 OK\r\nVa lue: x\r\n\r\n"),
        Err(v3::ParseError::InvalidHeaderName(_))
    ));
    assert!(matches!(
        v3::Response::parse(b"SHIORI/3.0 200 OK\r\n\r\nx"),
        Err(v3::ParseError::UnexpectedEof)
    ));
    assert!(matches!(
        v3::Response::parse(b"SHIORI/3.0 200 OK\r\n"),
        Err(v3::ParseError::Io(ReadError::UnexpectedEof))
    ));
}
