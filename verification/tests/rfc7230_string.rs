use uka::util::string::{Error, Rfc7230String};

#[test]
fn test_from_utf8_pass_alpha() {
    let name = Rfc7230String::from_utf8(
        b"abcdefghijklmnopqrstuvwxyzABCDEFGHIJKLMNOPQRSTUVWXYZ".to_vec(),
    ).unwrap();
    assert_eq!(
        name.as_str(),
        "abcdefghijklmnopqrstuvwxyzABCDEFGHIJKLMNOPQRSTUVWXYZ"
    );
}

#[test]
fn test_from_utf8_pass_digit() {
    let name = Rfc7230String::from_utf8(b"1234567890".to_vec()).unwrap();
    assert_eq!(name.as_str(), "1234567890");
}

#[test]
fn test_from_utf8_pass_acceptable_symbol() {
    let name = Rfc7230String::from_utf8(b"!#$%&'*+-.^_`|~".to_vec()).unwrap();
    assert_eq!(name.as_str(), "!#$%&'*+-.^_`|~");
}

#[test]
fn test_from_utf8_failed_out_of_ascii_range() {
    let res = Rfc7230String::from_utf8(b"\x80".to_vec());
    assert!(res.is_err());
    matches!(res, Err(Error::InvalidCharacter(_)));
}
