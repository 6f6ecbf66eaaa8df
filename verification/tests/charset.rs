use uka::charset::{Charset, Error};

#[test]
fn test_from_static_invalid_charset() {
    let result = Charset::from_static("Unsupported Charset");
    assert!(result.is_err());
    matches!(result.unwrap_err(), Error::Invalid(_));
}

#[test]
fn test_from_string_invalid_charset() {
    let result = Charset::from_string("Unsupported Charset".to_string());
    assert!(result.is_err());
    matches!(result.unwrap_err(), Error::Invalid(_));
}
