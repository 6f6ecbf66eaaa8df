use uka::util::decode::{Decoder, Error};

const SHIFT_JIS_BYTES: [u8; 6] = [130, 179, 130, 173, 130, 231];
const ISO_2022_JP_BYTES: [u8; 12] = [27, 36, 66, 36, 53, 36, 47, 36, 105, 27, 40, 66];
const EUC_JP_BYTES: [u8; 6] = [164, 181, 164, 175, 164, 233];
const UTF8_BYTES: [u8; 9] = [227, 129, 149, 227, 129, 143, 227, 130, 137];

#[test]
fn test_decode_ascii() {
    let input = b"sakura";
    let str = Decoder::decode_ascii(input).unwrap();

    assert_eq!(str, "sakura");
}

#[test]
fn test_decode_ascii_failed_pass_non_ascii() {
    let input = UTF8_BYTES;
    let result = Decoder::decode_ascii(&input);

    assert!(result.is_err());
    matches!(result.unwrap_err(), Error::AsciiDecodeFailure { .. });
}

#[test]
fn test_decode_sjis() {
    let input = SHIFT_JIS_BYTES;
    let str = Decoder::decode_sjis(&input).unwrap();

    assert_eq!(str, "さくら");
}

#[test]
fn test_decode_sjis_failed_pass_non_sjis() {
    let input = UTF8_BYTES;
    let result = Decoder::decode_sjis(&input);

    assert!(result.is_err());
    matches!(result.unwrap_err(), Error::ShiftJisDecodeFailure);
}

#[test]
fn test_decode_iso_2022_jp() {
    let input = ISO_2022_JP_BYTES;
    let str = Decoder::decode_iso_2022_jp(&input).unwrap();

    assert_eq!(str, "さくら");
}

#[test]
fn test_decode_iso_2022_jp_failed_pass_non_iso2022jp() {
    let input = UTF8_BYTES;
    let result = Decoder::decode_iso_2022_jp(&input);

    assert!(result.is_err());
    matches!(result.unwrap_err(), Error::Iso2022JpDecodeFailure);
}

#[test]
fn test_decode_euc_jp() {
    let input = EUC_JP_BYTES;
    let str = Decoder::decode_euc_jp(&input).unwrap();

    assert_eq!(str, "さくら");
}

#[test]
fn test_decode_euc_jp_failed_pass_non_eucjp() {
    let input = UTF8_BYTES;
    let result = Decoder::decode_euc_jp(&input);

    assert!(result.is_err());
    matches!(result.unwrap_err(), Error::EucJpDecodeFailure);
}

#[test]
fn test_decode_utf8() {
    let input = UTF8_BYTES;
    let str = Decoder::decode_utf8(&input).unwrap();

    assert_eq!(str, "さくら");
}

#[test]
fn test_decode_utf8_failed_pass_non_utf8() {
    let input = SHIFT_JIS_BYTES;
    let result = Decoder::decode_utf8(&input);

    assert!(result.is_err());
    matches!(result.unwrap_err(), Error::Utf8DecodeFailure { .. });
}
