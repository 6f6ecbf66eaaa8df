use uka::shiori::v3::{HeaderName, Method, Request, Version};

#[test]
fn test_request_parse_and_builder_will_be_same() {
    let input = [
        b"GET SHIORI/3.0\r\n".to_vec(),
        b"Sender: Materia\r\n".to_vec(),
        b"ID: hoge\r\n".to_vec(),
        b"Reference0: uge\r\n".to_vec(),
        b"\r\n".to_vec(),
    ]
    .concat();
    let request1 = Request::parse(&input).unwrap();
    let request2 = Request::builder()
        .version(Version::SHIORI_30)
        .method(Method::GET)
        .header(HeaderName::SENDER, "Materia")
        .header(HeaderName::ID, "hoge")
        .header(HeaderName::REFERENCE0, "uge")
        .build().unwrap();

    assert_eq!(request1.method(), request2.method());
    assert_eq!(request1.version(), request2.version());
    assert_eq!(request1.charset(), request2.charset());
    assert_eq!(request1.sender(), request2.sender());
    assert_eq!(request1.id(), request2.id());
    assert_eq!(request1.reference0(), request2.reference0());
    assert_eq!(request1.reference1(), request2.reference1());
    assert_eq!(request1.reference2(), request2.reference2());
    assert_eq!(request1.reference3(), request2.reference3());
    assert_eq!(request1.reference4(), request2.reference4());
    assert_eq!(request1.reference5(), request2.reference5());
    assert_eq!(request1.reference6(), request2.reference6());
    assert_eq!(request1.reference7(), request2.reference7());
    assert_eq!(request1.security_level(), request2.security_level());

    assert_eq!(
        request1.as_bytes(),
        request2.as_bytes(),
        "\nassertion failed: `(left == right)\n  left: `{:?}`,\n right: `{:?}`",
        String::from_utf8_lossy(&request1.as_bytes()),
        String::from_utf8_lossy(&request2.as_bytes())
    );
}
