use uka::util::encode::{Encoder, Error};

const SHIFT_JIS_BYTES: [u8; 6] = [130, 179, 130, 173, 130, 231];
const ISO_2022_JP_BYTES: [u8; 12] = [27, 36, 66, 36, 53, 36, 47, 36, 105, 27, 40, 66];
const EUC_JP_BYTES: [u8; 6] = [164, 181, 164, 175, 164, 233];
const UTF8_BYTES: [u8; 9] = [227, 129, 149, 227, 129, 143, 227, 130, 137];

#[test]
fn test_encode_ascii() {
    let input = "sakura";
    let bytes = Encoder::encode_ascii(input).unwrap();

    assert_eq!(bytes, b"sakura");
}

#[test]
fn test_encode_ascii_failed_pass_not_represented_ascii() {
    let input = "さくら";
    let result = Encoder::encode_ascii(input);

    assert!(result.is_err());
    matches!(result.unwrap_err(), Error::AsciiEncodeFailure { .. });
}

#[test]
fn test_encode_sjis() {
    let input = "さくら";
    let bytes = Encoder::encode_sjis(input).unwrap();

    assert_eq!(bytes, SHIFT_JIS_BYTES);
}

#[test]
fn test_encode_sjis_failed_pass_not_represented_sjis() {
    let input = "🐇";
    let result = Encoder::encode_sjis(input);

    assert!(result.is_err());
    matches!(result.unwrap_err(), Error::ShiftJisEncodeFailure);
}

#[test]
fn test_encode_iso_2022_jp() {
    let input = "さくら";
    let bytes = Encoder::encode_iso_2022_jp(input).unwrap();

    assert_eq!(bytes, ISO_2022_JP_BYTES);
}

#[test]
fn test_encode_iso_2022_jp_failed_pass_not_represented_iso2022jp() {
    let input = "🐇";
    let result = Encoder::encode_iso_2022_jp(input);

    assert!(result.is_err());
    matches!(result.unwrap_err(), Error::Iso2022JpEncodeFailure);
}

#[test]
fn test_encode_euc_jp() {
    let input = "さくら";
    let bytes = Encoder::encode_euc_jp(input).unwrap();

    assert_eq!(bytes, EUC_JP_BYTES);
}

#[test]
fn test_encode_euc_jp_failed_pass_not_represented_eucjp() {
    let input = "🐇";
    let result = Encoder::encode_euc_jp(input);

    assert!(result.is_err());
    matches!(result.unwrap_err(), Error::EucJpEncodeFailure);
}

#[test]
fn test_encode_utf8() {
    let input = "さくら";
    let bytes = Encoder::encode_utf8(input).unwrap();

    assert_eq!(bytes, UTF8_BYTES);
}
