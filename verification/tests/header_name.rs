use uka::sstp::HeaderName;

#[test]
fn test_from_static_pass_alpha() {
    let name = HeaderName::from_static("abcdefghijklmnopqrstuvwxyzABCDEFGHIJKLMNOPQRSTUVWXYZ").unwrap();
    assert_eq!(
        name.to_string(),
        "abcdefghijklmnopqrstuvwxyzABCDEFGHIJKLMNOPQRSTUVWXYZ"
    );
}

#[test]
fn test_from_static_pass_digit() {
    let name = HeaderName::from_static("1234567890").unwrap();
    assert_eq!(name.to_string(), "1234567890");
}

#[test]
fn test_from_static_pass_acceptable_symbol() {
    let name = HeaderName::from_static("!#$%&'*+-.^_`|~").unwrap();
    assert_eq!(name.to_string(), "!#$%&'*+-.^_`|~");
}
