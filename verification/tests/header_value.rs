use uka::charset::Charset;
use uka::header::value::HeaderValue;

#[test]
fn test_from_static_with_charset_pass_ascii() {
    let header_value = HeaderValue::from_static_with_charset("sakura", Charset::ASCII).unwrap();
    assert_eq!(header_value.as_bytes(), b"sakura");
}

#[test]
fn test_from_static_with_charset_pass_sjis() {
    let header_value = HeaderValue::from_static_with_charset("さくら", Charset::SHIFT_JIS).unwrap();
    assert_eq!(header_value.as_bytes(), [130, 179, 130, 173, 130, 231]);
}

#[test]
fn test_from_static_with_charset_pass_iso2022jp() {
    let header_value = HeaderValue::from_static_with_charset("さくら", Charset::ISO2022JP).unwrap();
    assert_eq!(
        header_value.as_bytes(),
        [27, 36, 66, 36, 53, 36, 47, 36, 105, 27, 40, 66]
    );
}

#[test]
fn test_from_static_with_charset_pass_eucjp() {
    let header_value = HeaderValue::from_static_with_charset("さくら", Charset::EUC_JP).unwrap();
    assert_eq!(header_value.as_bytes(), [164, 181, 164, 175, 164, 233]);
}

#[test]
fn test_from_static_with_charset_pass_utf8() {
    let header_value = HeaderValue::from_static_with_charset("さくら", Charset::UTF8).unwrap();
    assert_eq!(
        header_value.as_bytes(),
        [227, 129, 149, 227, 129, 143, 227, 130, 137]
    );
}

#[test]
fn test_text_with_charset_pass_ascii() {
    let value = HeaderValue::from(b"sakura".to_vec());
    assert_eq!(value.text_with_charset(Charset::ASCII).unwrap(), "sakura");
}

#[test]
fn test_text_with_charset_pass_sjis() {
    let value = HeaderValue::from([130, 179, 130, 173, 130, 231].to_vec());
    assert_eq!(value.text_with_charset(Charset::SHIFT_JIS).unwrap(), "さくら");
}

#[test]
fn test_text_with_charset_pass_iso2022jp() {
    let value = HeaderValue::from([27, 36, 66, 36, 53, 36, 47, 36, 105, 27, 40, 66].to_vec());
    assert_eq!(value.text_with_charset(Charset::ISO2022JP).unwrap(), "さくら");
}

#[test]
fn test_text_with_charset_pass_eucjp() {
    let value = HeaderValue::from([164, 181, 164, 175, 164, 233].to_vec());
    assert_eq!(value.text_with_charset(Charset::EUC_JP).unwrap(), "さくら");
}

#[test]
fn test_text_with_charset_pass_utf8() {
    let value = HeaderValue::from([227, 129, 149, 227, 129, 143, 227, 130, 137].to_vec());
    assert_eq!(value.text_with_charset(Charset::UTF8).unwrap(), "さくら");
}
