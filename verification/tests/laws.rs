use uka::charset::Charset;
use uka::header::value::{Error as HeaderValueError, HeaderValue};
use uka::shiori::v3;
use uka::sstp::request::Request;
use uka::sstp::response::{AdditionalData, Response};
use uka::sstp::{HeaderMap, HeaderName, Method, StatusCode, Version};
use uka::util::bag::OrderedBag;
use uka::util::decode::Decoder;
use uka::util::encode::Encoder;

const CHARSETS: [Charset; 5] = [
    Charset::ASCII,
    Charset::SHIFT_JIS,
    Charset::ISO2022JP,
    Charset::EUC_JP,
    Charset::UTF8,
];

fn control_characters() -> Vec<char> {
    let mut chars: Vec<char> = (0u8..=0x1f).map(char::from).collect();
    chars.push('\x7f');
    chars
}

#[test]
fn round_trip_of_a_parsed_sstp_request_is_exact() {
    let input = b"NOTIFY SSTP/1.1\r\nSender: foo\r\nCharset: ASCII\r\n\r\n".to_vec();
    let request = Request::parse(&input).unwrap();
    assert_eq!(request.method(), Method::NOTIFY);
    assert_eq!(request.version(), Version::SSTP_11);
    assert_eq!(request.sender().unwrap().text().unwrap(), "foo");
    assert_eq!(request.charset(), Charset::ASCII);
    assert_eq!(request.as_bytes(), input);
}

#[test]
fn round_trip_of_a_built_sstp_request_gives_the_same_request() {
    let built = Request::builder()
        .send(Version::SSTP_14)
        .charset(Charset::UTF8)
        .header(HeaderName::SENDER, "さくら")
        .header(HeaderName::IF_GHOST, "a,b")
        .header(HeaderName::SCRIPT, "\\h\\s0one\\e")
        .header(HeaderName::IF_GHOST, "c,d")
        .header(HeaderName::SCRIPT, "\\h\\s0two\\e")
        .header(HeaderName::from_static("X-Extension").unwrap(), "")
        .build()
        .unwrap();
    let bytes = built.as_bytes();
    let parsed = Request::parse(&bytes).unwrap();
    assert_eq!(parsed.method(), built.method());
    assert_eq!(parsed.version(), built.version());
    assert_eq!(parsed.charset(), built.charset());
    assert_eq!(parsed.headers().len(), built.headers().len());
    for (a, b) in parsed.headers().iter().zip(built.headers().iter()) {
        assert_eq!(a, b);
    }
    assert_eq!(parsed.as_bytes(), bytes);
}

#[test]
fn round_trip_of_sstp_responses_with_and_without_additional_data() {
    for additional in ["", "one line", "two\nlines"] {
        let built = Response::builder()
            .version(Version::SSTP_12)
            .status_code(StatusCode::BREAK)
            .charset(Charset::SHIFT_JIS)
            .header(HeaderName::SCRIPT, "\\h\\s0テスト\\e")
            .additional(additional)
            .build()
            .unwrap();
        let bytes = built.as_bytes();
        let parsed = Response::parse(&bytes).unwrap();
        assert_eq!(parsed.version(), Version::SSTP_12);
        assert_eq!(parsed.status_code(), StatusCode::BREAK);
        assert_eq!(parsed.charset(), Charset::SHIFT_JIS);
        assert_eq!(
            parsed
                .additional()
                .text_with_charset(Charset::SHIFT_JIS)
                .unwrap(),
            additional.replace('\n', "\r\n")
        );
        assert_eq!(parsed.as_bytes(), bytes);
    }
}

#[test]
fn round_trip_of_shiori_messages() {
    let request = v3::Request::builder()
        .method(v3::Method::NOTIFY)
        .version(v3::Version::SHIORI_30)
        .charset(Charset::EUC_JP)
        .header(v3::HeaderName::ID, "OnBoot")
        .header(v3::HeaderName::REFERENCE0, "マスター")
        .build()
        .unwrap();
    let bytes = request.as_bytes();
    let parsed = v3::Request::parse(&bytes).unwrap();
    assert_eq!(parsed.method(), v3::Method::NOTIFY);
    assert_eq!(parsed.charset(), Charset::EUC_JP);
    assert_eq!(parsed.as_bytes(), bytes);

    let response = v3::Response::builder()
        .version(v3::Version::SHIORI_30)
        .status_code(v3::StatusCode::NOT_ENOUGH)
        .header(v3::HeaderName::VALUE, "hoge")
        .build()
        .unwrap();
    let bytes = response.as_bytes();
    assert_eq!(bytes, b"SHIORI/3.0 311 Not Enough\r\nValue: hoge\r\n\r\n");
    let parsed = v3::Response::parse(&bytes).unwrap();
    assert_eq!(parsed.status_code(), v3::StatusCode::NOT_ENOUGH);
    assert_eq!(parsed.charset(), Charset::ASCII);
    assert_eq!(parsed.as_bytes(), bytes);
}

#[test]
fn a_value_that_begins_with_a_space_does_not_come_back_as_it_went() {
    let built = Request::builder()
        .notify(Version::SSTP_11)
        .charset(Charset::ASCII)
        .header(HeaderName::SENDER, " foo")
        .build()
        .unwrap();
    assert_eq!(built.sender().unwrap().as_bytes(), b" foo");
    let parsed = Request::parse(&built.as_bytes()).unwrap();
    assert_eq!(parsed.sender().unwrap().as_bytes(), b"foo");
}

#[test]
fn charset_symmetry_holds_for_text_that_every_charset_has() {
    for charset in CHARSETS {
        let text = if charset == Charset::ASCII { "sakura unyuu" } else { "さくら と うにゅう" };
        let value = HeaderValue::from_static_with_charset(text, charset).unwrap();
        assert_eq!(value.text_with_charset(charset).unwrap(), text);
        let bytes = Encoder::encode(text, charset).unwrap();
        assert_eq!(Decoder::decode(&bytes, charset).unwrap(), text);
    }
}

#[test]
fn charset_symmetry_fails_for_the_yen_sign_in_shift_jis() {
    let bytes = Encoder::encode_sjis("\u{a5}").unwrap();
    assert_eq!(bytes, [0x5c]);
    assert_eq!(Decoder::decode_sjis(&bytes).unwrap(), "\\");
}

#[test]
fn first_wins_for_duplicate_names() {
    let mut map = HeaderMap::new();
    map.insert(HeaderName::SENDER, HeaderValue::from_static("a").unwrap());
    map.insert(HeaderName::EVENT, HeaderValue::from_static("x").unwrap());
    map.insert(HeaderName::SENDER, HeaderValue::from_static("b").unwrap());
    assert_eq!(map.get(&HeaderName::SENDER).unwrap().as_bytes(), b"a");
    let all: Vec<Vec<u8>> = map
        .get_all(&HeaderName::SENDER)
        .iter()
        .map(|v| v.as_bytes())
        .collect();
    assert_eq!(all, vec![b"a".to_vec(), b"b".to_vec()]);
    assert!(map.get(&HeaderName::SCRIPT).is_none());
    assert!(map.get_all(&HeaderName::SCRIPT).is_empty());
    assert_eq!(map.len(), 3);
    assert!(!map.is_empty());
    let order: Vec<String> = map.iter().map(|(name, _)| name.to_string()).collect();
    assert_eq!(order, ["Sender", "Event", "Sender"]);

    let mut bag = OrderedBag::new();
    bag.insert(7u8, "a");
    bag.insert(7u8, "b");
    assert_eq!(bag.get(&7), Some(&"a"));
    assert_eq!(bag.get_all(&7), vec![&"a", &"b"]);
    assert_eq!(bag.len(), 2);
    assert!(!bag.is_empty());
    assert!(OrderedBag::<u8, u8>::with_capacity(4).is_empty());
}

#[test]
fn control_characters_are_refused_when_a_value_is_made() {
    for c in control_characters() {
        let text = format!("foo{c}bar");
        for charset in CHARSETS {
            let res = HeaderValue::from_static_with_charset(&text, charset);
            assert!(
                matches!(res, Err(HeaderValueError::UnprintableCharacters(ref s)) if *s == text)
            );
        }
        assert!(HeaderValue::from_static(&text).is_err());
    }
}

#[test]
fn control_characters_are_refused_when_a_value_is_read() {
    for c in control_characters() {
        let value = HeaderValue::from(vec![b'a', c as u8, b'b']);
        assert!(matches!(
            value.text(),
            Err(HeaderValueError::UnprintableCharacters(_))
        ));
        assert!(matches!(
            value.text_with_charset(Charset::UTF8),
            Err(HeaderValueError::UnprintableCharacters(_))
        ));
    }
    let value = HeaderValue::from(vec![b'a', b' ', b'~']);
    assert_eq!(value.text().unwrap(), "a ~");
}

#[test]
fn header_names_are_tokens() {
    let allowed = "abcdefghijklmnopqrstuvwxyzABCDEFGHIJKLMNOPQRSTUVWXYZ0123456789!#$%&'*+-.^_`|~";
    for c in allowed.chars() {
        let name = HeaderName::from_static(&c.to_string()).unwrap();
        assert_eq!(name.to_string(), c.to_string());
        assert!(v3::HeaderName::from_static(&c.to_string()).is_ok());
    }
    for c in "()<>@,;:\\\"/[]?={} ".chars().chain(control_characters()) {
        assert!(HeaderName::from_static(&c.to_string()).is_err());
        assert!(HeaderName::from_static(&format!("X{c}")).is_err());
        assert!(v3::HeaderName::from_bytes(&[b'X', c as u8]).is_err());
    }
    assert!(HeaderName::from_static("さくら").is_err());
    assert!(HeaderName::from_bytes(&[0x80]).is_err());
    assert!(HeaderName::from_bytes(&[0xff, 0xfe]).is_err());
}

#[test]
fn spaces_after_the_colon_do_not_count() {
    for line in ["Sender:foo\r\n", "Sender: foo\r\n", "Sender:   foo\r\n"] {
        let input = format!("NOTIFY SSTP/1.1\r\n{line}Charset: ASCII\r\n\r\n");
        let request = Request::parse(input.as_bytes()).unwrap();
        assert_eq!(request.sender().unwrap().text().unwrap(), "foo");
    }
    let input = b"GET SHIORI/3.0\r\nSender:      \r\nID:x y \r\n\r\n";
    let request = v3::Request::parse(input).unwrap();
    assert_eq!(request.sender().unwrap().as_bytes(), b"");
    assert_eq!(request.id().unwrap().as_bytes(), b"x y ");
}

#[test]
fn additional_data_of_a_parsed_response() {
    let input = b"SSTP/1.1 200 OK\r\nCharset: UTF-8\r\nScript: \\h\\s0\\e\r\n\r\nMy Additional\r\n\r\n";
    let response = Response::parse(input).unwrap();
    assert_eq!(response.status_code(), StatusCode::OK);
    assert_eq!(response.additional().text().unwrap(), "My Additional");
    assert!(matches!(response.additional(), AdditionalData::Text(bytes) if bytes == b"My Additional\r\n"));
    assert_eq!(response.as_bytes(), input);
}
