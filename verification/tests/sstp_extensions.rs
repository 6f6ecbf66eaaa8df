use encoding_rs::SHIFT_JIS;
use uka::sstp::request::Request;
use uka::sstp::response::Response;
use uka::sstp::{Charset, HeaderName, StatusCode, Version};

#[test]
fn spec_duplicate_single_headers_can_get_the_first_header() {
    let request = Request::builder()
        .send(Version::SSTP_11)
        .header(HeaderName::SENDER, "カードキャプター")
        .header(HeaderName::SCRIPT, "\\h\\s0汝のあるべき姿に戻れ。\\e")
        .header(HeaderName::OPTION, "nodescript,notranslate")
        .charset(Charset::UTF8)
        .charset(Charset::SHIFT_JIS)
        .build().unwrap();
    let input = request.as_bytes();

    assert_eq!(
        String::from_utf8(input.clone()).unwrap()
            .match_indices("Charset")
            .count(),
        2
    );

    let request = Request::parse(&input).unwrap();
    assert_eq!(request.charset(), Charset::UTF8);
}

#[test]
fn spec_allow_zero_spaces_after_the_header_delimiter() {
    let input = [
        b"SEND SSTP/1.1\r\n".to_vec(),
        b"Sender:".to_vec(),
        SHIFT_JIS.encode("カードキャプター").0.to_vec(),
        b"\r\n".to_vec(),
        b"Script:".to_vec(),
        SHIFT_JIS
            .encode("\\h\\s0汝のあるべき姿に戻れ。\\e")
            .0
            .to_vec(),
        b"\r\n".to_vec(),
        b"Option:nodescript,notranslate\r\n".to_vec(),
        b"Charset:Shift_JIS\r\n".to_vec(),
        b"\r\n".to_vec(),
    ]
    .concat();

    let request = Request::parse(&input).unwrap();
    assert_eq!(
        request
            .sender()
            .and_then(|v| v.text_with_charset(request.charset()).ok()),
        Some("カードキャプター".to_string())
    );
    assert_eq!(
        request
            .script()
            .iter()
            .map(|v| v.text_with_charset(request.charset()).unwrap())
            .collect::<Vec<String>>(),
        vec!["\\h\\s0汝のあるべき姿に戻れ。\\e"]
    );
    assert_eq!(
        request.option().and_then(|v| v.text().ok()),
        Some("nodescript,notranslate".to_string())
    );
    assert_eq!(request.charset(), Charset::SHIFT_JIS);
}

#[test]
fn spec_allow_one_or_more_spaces_after_the_header_delimiter() {
    let input = [
        b"SEND SSTP/1.1\r\n".to_vec(),
        b"Sender: ".to_vec(),
        SHIFT_JIS.encode("カードキャプター").0.to_vec(),
        b"\r\n".to_vec(),
        b"Script:  ".to_vec(),
        SHIFT_JIS
            .encode("\\h\\s0汝のあるべき姿に戻れ。\\e")
            .0
            .to_vec(),
        b"\r\n".to_vec(),
        b"Option:   nodescript,notranslate\r\n".to_vec(),
        b"Charset:    Shift_JIS\r\n".to_vec(),
        b"\r\n".to_vec(),
    ]
    .concat();

    let request = Request::parse(&input).unwrap();
    assert_eq!(
        request
            .sender()
            .and_then(|v| v.text_with_charset(request.charset()).ok()),
        Some("カードキャプター".to_string())
    );
    assert_eq!(
        request
            .script()
            .iter()
            .map(|v| v.text_with_charset(request.charset()).unwrap())
            .collect::<Vec<String>>(),
        vec!["\\h\\s0汝のあるべき姿に戻れ。\\e"]
    );
    assert_eq!(
        request.option().and_then(|v| v.text().ok()),
        Some("nodescript,notranslate".to_string())
    );
    assert_eq!(request.charset(), Charset::SHIFT_JIS);
}

#[test]
fn spec_character_set_for_request_header_names_is_based_on_rfc_7230() {
    let name = "abcdefghijklmnopqrstuvwxyzABCDEFGHIJKLMNOPQRSTUVWXYZ0123456789!#$%&'*+-.^_`|~";

    let request = Request::builder()
        .send(Version::SSTP_11)
        .header(HeaderName::from_static(name).unwrap(), "foo")
        .charset(Charset::SHIFT_JIS)
        .build().unwrap();
    let input = request.as_bytes();

    let request = Request::parse(&input).unwrap();
    assert_eq!(
        request
            .headers()
            .get(&HeaderName::from_static(name).unwrap())
            .unwrap()
            .text().unwrap(),
        "foo"
    );
}

#[test]
fn spec_character_set_for_response_header_names_is_based_on_rfc_7230() {
    let name = "abcdefghijklmnopqrstuvwxyzABCDEFGHIJKLMNOPQRSTUVWXYZ0123456789!#$%&'*+-.^_`|~";

    let request = Request::builder()
        .send(Version::SSTP_11)
        .header(HeaderName::from_static(name).unwrap(), "foo")
        .charset(Charset::SHIFT_JIS)
        .build().unwrap();
    let input = request.as_bytes();

    let request = Request::parse(&input).unwrap();
    assert_eq!(
        request
            .headers()
            .get(&HeaderName::from_static(name).unwrap())
            .unwrap()
            .text().unwrap(),
        "foo"
    );
}

#[test]
fn spec_request_header_value_cannot_contain_control_characters() {
    let request = Request::builder()
        .send(Version::SSTP_11)
        .header(HeaderName::SENDER, "foo\0bar")
        .charset(Charset::SHIFT_JIS)
        .build();
    assert!(request.is_err());
}

#[test]
fn spec_response_header_value_cannot_contain_control_characters() {
    let response = Response::builder()
        .status_code(StatusCode::OK)
        .header(HeaderName::SENDER, "foo\0bar")
        .charset(Charset::SHIFT_JIS)
        .build();
    assert!(response.is_err());
}
