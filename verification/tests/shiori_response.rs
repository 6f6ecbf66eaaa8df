use uka::shiori::v3::{HeaderName, Response, StatusCode, Version};

#[test]
fn test_response_parse_and_builder_will_be_same() {
    let input = [
        b"SHIORI/3.0 204 No Content\r\n".to_vec(),
        b"Sender: F.I.R.S.T\r\n".to_vec(),
        b"Value: hoge\r\n".to_vec(),
        b"\r\n".to_vec(),
    ]
    .concat();
    let response1 = Response::parse(&input).unwrap();
    let response2 = Response::builder()
        .version(Version::SHIORI_30)
        .status_code(StatusCode::NO_CONTENT)
        .header(HeaderName::SENDER, "F.I.R.S.T")
        .header(HeaderName::VALUE, "hoge")
        .build().unwrap();

    assert_eq!(response1.version(), response2.version());
    assert_eq!(response1.charset(), response2.charset());
    assert_eq!(response1.sender(), response2.sender());
    assert_eq!(response1.value(), response2.value());
    assert_eq!(
        response1.as_bytes(),
        response2.as_bytes(),
        "\nassertion failed: `(left == right)\n  left: `{:?}`,\n right: `{:?}`",
        String::from_utf8_lossy(&response1.as_bytes()),
        String::from_utf8_lossy(&response2.as_bytes())
    );
}
