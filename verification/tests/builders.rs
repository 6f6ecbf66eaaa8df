use uka::charset::Charset;
use uka::header::value::Error as HeaderValueError;
use uka::shiori::v3;
use uka::shiori::{
    Request as AnyRequest, RequestExt, RequestParseError, Response as AnyResponse, ResponseExt,
    ResponseParseError,
};
use uka::sstp::request::{Error as RequestError, Request};
use uka::sstp::response::{AdditionalData, Error as ResponseError, Response};
use uka::sstp::{HeaderName, Method, StatusCode, Version};
use uka::util::encode::Error as EncodeError;

#[test]
fn request_builder_writes_the_fields_in_the_order_given() {
    let request = Request::builder()
        .method(Method::EXECUTE)
        .version(Version::SSTP_10)
        .header(HeaderName::SENDER, "sample")
        .charset(Charset::ASCII)
        .header(HeaderName::COMMAND, "GetName")
        .build()
        .unwrap();
    assert_eq!(
        request.as_bytes(),
        b"EXECUTE SSTP/1.0\r\nSender: sample\r\nCharset: ASCII\r\nCommand: GetName\r\n\r\n"
    );
}

#[test]
fn request_builder_shortcuts_set_method_and_version() {
    let build = |b: uka::sstp::request::Builder| b.charset(Charset::ASCII).build().unwrap();
    assert_eq!(build(Request::builder().notify(Version::SSTP_11)).method(), Method::NOTIFY);
    assert_eq!(build(Request::builder().send(Version::SSTP_11)).method(), Method::SEND);
    assert_eq!(build(Request::builder().execute(Version::SSTP_11)).method(), Method::EXECUTE);
    assert_eq!(build(Request::builder().give(Version::SSTP_11)).method(), Method::GIVE);
    let request = build(Request::builder().communicate(Version::SSTP_12));
    assert_eq!(request.method(), Method::COMMUNICATE);
    assert_eq!(request.version(), Version::SSTP_12);
}

#[test]
fn request_builder_says_what_is_missing() {
    assert!(matches!(
        Request::builder().build(),
        Err(RequestError::MissingCharset)
    ));
    assert!(matches!(
        Request::builder().charset(Charset::ASCII).build(),
        Err(RequestError::MissingMethod)
    ));
    assert!(matches!(
        Request::builder()
            .charset(Charset::ASCII)
            .method(Method::SEND)
            .build(),
        Err(RequestError::MissingVersion)
    ));
    assert!(matches!(
        Request::builder()
            .version(Version::SSTP_11)
            .header("not a token", "x")
            .build(),
        Err(RequestError::MissingCharset)
    ));
}

#[test]
fn request_builder_reports_the_first_header_that_is_amiss() {
    let base = || Request::builder().send(Version::SSTP_11).charset(Charset::ASCII);
    assert!(matches!(
        base().header("not a token", "さくら").build(),
        Err(RequestError::InvalidHeaderName(_))
    ));
    assert!(matches!(
        base().header(HeaderName::SENDER, "さくら").build(),
        Err(RequestError::FailedEncodeHeaderValue(HeaderValueError::FailedEncode(
            EncodeError::AsciiEncodeFailure
        )))
    ));
    assert!(matches!(
        base().header(HeaderName::SENDER, "foo\0bar").build(),
        Err(RequestError::FailedEncodeHeaderValue(
            HeaderValueError::UnprintableCharacters(_)
        ))
    ));
    assert!(matches!(
        base()
            .header(HeaderName::SENDER, "foo\0bar")
            .header("not a token", "x")
            .build(),
        Err(RequestError::FailedEncodeHeaderValue(_))
    ));
    assert!(matches!(
        Request::builder()
            .send(Version::SSTP_11)
            .charset(Charset::SHIFT_JIS)
            .header(HeaderName::SENDER, "🐇")
            .build(),
        Err(RequestError::FailedEncodeHeaderValue(HeaderValueError::FailedEncode(
            EncodeError::ShiftJisEncodeFailure
        )))
    ));
}

#[test]
fn a_name_given_as_text_becomes_the_defined_name() {
    let request = Request::builder()
        .send(Version::SSTP_11)
        .charset(Charset::ASCII)
        .header("Sender", "foo")
        .header(String::from("X-Other"), String::from("bar"))
        .build()
        .unwrap();
    assert_eq!(request.sender().unwrap().as_bytes(), b"foo");
    assert_eq!(
        request
            .headers()
            .get(&HeaderName::from_static("X-Other").unwrap())
            .unwrap()
            .as_bytes(),
        b"bar"
    );
    assert_eq!(HeaderName::from_static("Sender").unwrap(), HeaderName::SENDER);
    assert_ne!(HeaderName::from_static("sender").unwrap(), HeaderName::SENDER);
}

#[test]
fn only_the_first_charset_counts_and_every_one_is_written() {
    let request = Request::builder()
        .send(Version::SSTP_11)
        .charset(Charset::UTF8)
        .charset(Charset::SHIFT_JIS)
        .header(HeaderName::SENDER, "さくら")
        .build()
        .unwrap();
    assert_eq!(request.charset(), Charset::UTF8);
    assert_eq!(
        request.as_bytes(),
        "SEND SSTP/1.1\r\nCharset: UTF-8\r\nCharset: Shift_JIS\r\nSender: さくら\r\n\r\n".as_bytes()
    );
}

#[test]
fn two_scripts_come_back_in_their_order() {
    let request = Request::builder()
        .send(Version::SSTP_14)
        .charset(Charset::UTF8)
        .header(HeaderName::SCRIPT, "first")
        .header(HeaderName::SCRIPT, "second")
        .build()
        .unwrap();
    let parsed = Request::parse(&request.as_bytes()).unwrap();
    let scripts = parsed.script();
    assert_eq!(scripts.len(), 2);
    assert_eq!(scripts[0].text().unwrap(), "first");
    assert_eq!(scripts[1].text().unwrap(), "second");
    assert!(parsed.entry().is_empty() && parsed.if_ghost().is_empty());
}

#[test]
fn response_builder_says_what_is_missing() {
    assert!(matches!(
        Response::builder().build(),
        Err(ResponseError::MissingCharset)
    ));
    assert!(matches!(
        Response::builder().charset(Charset::ASCII).build(),
        Err(ResponseError::MissingVersion)
    ));
    assert!(matches!(
        Response::builder()
            .charset(Charset::ASCII)
            .version(Version::SSTP_11)
            .build(),
        Err(ResponseError::MissingStatusCode)
    ));
    assert!(matches!(
        Response::builder()
            .charset(Charset::ASCII)
            .version(Version::SSTP_11)
            .status_code(StatusCode::OK)
            .header("a b", "x")
            .build(),
        Err(ResponseError::InvalidHeaderName(_))
    ));
    assert!(matches!(
        Response::builder()
            .charset(Charset::ASCII)
            .version(Version::SSTP_11)
            .status_code(StatusCode::OK)
            .header(HeaderName::SCRIPT, "テスト")
            .additional("テスト")
            .build(),
        Err(ResponseError::FailedEncodeHeaderValue(_))
    ));
    assert!(matches!(
        Response::builder()
            .charset(Charset::ASCII)
            .version(Version::SSTP_11)
            .status_code(StatusCode::OK)
            .additional("テスト")
            .build(),
        Err(ResponseError::FailedEncodeAdditionalData(EncodeError::AsciiEncodeFailure))
    ));
}

#[test]
fn response_bytes_are_exact() {
    let response = Response::builder()
        .version(Version::SSTP_11)
        .status_code(StatusCode::NO_CONTENT)
        .charset(Charset::ASCII)
        .build()
        .unwrap();
    assert_eq!(response.as_bytes(), b"SSTP/1.1 204 No Content\r\nCharset: ASCII\r\n\r\n");
    assert!(matches!(response.additional(), AdditionalData::Empty));
    let response = Response::builder()
        .version(Version::SSTP_11)
        .status_code(StatusCode::OK)
        .charset(Charset::ASCII)
        .additional("one\ntwo")
        .build()
        .unwrap();
    assert_eq!(
        response.as_bytes(),
        b"SSTP/1.1 200 OK\r\nCharset: ASCII\r\n\r\none\r\ntwo\r\n\r\n"
    );
}

#[test]
fn additional_data_ends_with_one_line_terminator() {
    assert!(matches!(AdditionalData::from_static("").unwrap(), AdditionalData::Empty));
    assert!(
        matches!(AdditionalData::from_static("sakura").unwrap(), AdditionalData::Text(b) if b == b"sakura\r\n")
    );
    assert!(
        matches!(AdditionalData::from_static("a\nb\n").unwrap(), AdditionalData::Text(b) if b == b"a\r\nb\r\n")
    );
    assert!(
        matches!(AdditionalData::from_static("a\r").unwrap(), AdditionalData::Text(b) if b == b"a\r\r\n")
    );
    assert!(
        matches!(AdditionalData::from_lines(b"x\n".to_vec()), AdditionalData::Text(b) if b == b"x\n\r\n")
    );
    assert!(
        matches!(AdditionalData::from_lines(b"x\r\n".to_vec()), AdditionalData::Text(b) if b == b"x\r\n")
    );
    assert!(matches!(AdditionalData::from_lines(Vec::new()), AdditionalData::Text(b) if b == b"\r\n"));
    assert!(matches!(AdditionalData::from_bytes(Vec::new()), AdditionalData::Empty));
    assert!(matches!(AdditionalData::from_bytes(vec![b'x']), AdditionalData::Text(b) if b == b"x"));
    assert!(matches!(AdditionalData::default(), AdditionalData::Empty));
    assert!(matches!(
        AdditionalData::from_static("さくら"),
        Err(EncodeError::AsciiEncodeFailure)
    ));
    let data = AdditionalData::from_static_with_charset("さくら", Charset::SHIFT_JIS).unwrap();
    assert!(
        matches!(&data, AdditionalData::Text(b) if b == &[130, 179, 130, 173, 130, 231, 13, 10])
    );
    assert_eq!(data.text_with_charset(Charset::SHIFT_JIS).unwrap(), "さくら");
    assert!(data.text().is_err());
}

#[test]
fn additional_data_text_loses_one_line_terminator_and_nothing_else() {
    assert_eq!(AdditionalData::Empty.text().unwrap(), "");
    let text = |b: &[u8]| AdditionalData::Text(b.to_vec()).text().unwrap();
    assert_eq!(text(b"a\r\n"), "a");
    assert_eq!(text(b"a\r\n\r\n"), "a\r\n");
    assert_eq!(text(b" a \r\n"), " a ");
    assert_eq!(text(b"a\n"), "a\n");
    assert_eq!(text(b"a"), "a");
    assert_eq!(text(b"\r\n"), "");
    assert_eq!(text(b"\n"), "\n");
    assert_eq!(text(b""), "");
}

#[test]
fn shiori_builders() {
    let request = v3::RequestBuilder::get(v3::Version::SHIORI_30)
        .header(v3::HeaderName::ID, "version")
        .build()
        .unwrap();
    assert_eq!(request.as_bytes(), b"GET SHIORI/3.0\r\nID: version\r\n\r\n");
    let request = v3::RequestBuilder::notify(v3::Version::SHIORI_30)
        .charset(Charset::UTF8)
        .header(v3::HeaderName::SECURITY_LEVEL, "local")
        .build()
        .unwrap();
    assert_eq!(request.method(), v3::Method::NOTIFY);
    assert_eq!(request.charset(), Charset::UTF8);
    assert_eq!(request.security_level().unwrap().as_bytes(), b"local");
    assert!(matches!(
        v3::Request::builder().build(),
        Err(v3::RequestBuilderError::MissingMethod)
    ));
    assert!(matches!(
        v3::Request::builder().method(v3::Method::GET).build(),
        Err(v3::RequestBuilderError::MissingVersion)
    ));
    assert!(matches!(
        v3::Response::builder().build(),
        Err(v3::ResponseBuilderError::MissingVersion)
    ));
    assert!(matches!(
        v3::Response::builder().version(v3::Version::SHIORI_30).build(),
        Err(v3::ResponseBuilderError::MissingStatusCode)
    ));
    assert!(matches!(
        v3::Response::builder()
            .version(v3::Version::SHIORI_30)
            .status_code(v3::StatusCode::OK)
            .header(v3::HeaderName::VALUE, "さくら")
            .build(),
        Err(v3::ResponseBuilderError::FailedEncodeHeaderValue(_))
    ));
    assert!(matches!(
        v3::Response::builder()
            .version(v3::Version::SHIORI_30)
            .status_code(v3::StatusCode::OK)
            .header("Va lue", "x")
            .build(),
        Err(v3::ResponseBuilderError::InvalidHeaderName(_))
    ));
}

#[test]
fn shiori_of_whatever_version() {
    let request = <AnyRequest as RequestExt<_, _>>::builder(v3::Version::SHIORI_30)
        .method(v3::Method::GET)
        .header(v3::HeaderName::ID, "version")
        .build()
        .unwrap();
    let request = AnyRequest::from(request);
    let bytes = request.as_bytes();
    assert_eq!(bytes, b"GET SHIORI/3.0\r\nID: version\r\n\r\n");
    assert!(matches!(AnyRequest::parse(&bytes), Ok(AnyRequest::V3(_))));
    assert!(matches!(
        AnyRequest::parse(b"GET Version SHIORI/2.6\r\n\r\n"),
        Err(RequestParseError::InvalidRequest)
    ));
    assert!(matches!(AnyRequest::parse(b""), Err(RequestParseError::InvalidRequest)));
    assert!(matches!(
        AnyRequest::parse(b"GET SHIORI/3.0"),
        Err(RequestParseError::V3(_))
    ));
    let response = <AnyResponse as ResponseExt<_, _>>::builder(v3::Version::SHIORI_30)
        .status_code(v3::StatusCode::ADVICE)
        .build()
        .unwrap();
    let bytes = AnyResponse::from(response).as_bytes();
    assert_eq!(bytes, b"SHIORI/3.0 312 Advice\r\n\r\n");
    assert!(matches!(AnyResponse::parse(&bytes), Ok(AnyResponse::V3(_))));
    assert!(matches!(
        AnyResponse::parse(b"SHIORI/2.6 200 OK\r\n\r\n"),
        Err(ResponseParseError::InvalidResponse)
    ));
    assert!(matches!(AnyResponse::parse(b"SHI"), Err(ResponseParseError::InvalidResponse)));
    assert!(matches!(
        AnyResponse::parse(b"SHIORI/3.1 200 OK\r\n\r\n"),
        Err(ResponseParseError::V3(v3::ParseError::InvalidVersion))
    ));
}
