use uka::sstp::parse::parse_additional_data;
use uka::sstp::response::AdditionalData;
use uka::util::cursor::ByteCursor as Cursor;

#[test]
fn test_parse_additional_data_empty() {
    let input = b"";
    let mut cursor = Cursor::new(input.as_slice());
    let additional = parse_additional_data(&mut cursor).unwrap();

    matches!(additional, AdditionalData::Empty);
}
