use uka::shiori::v3::HeaderValue;
use uka::shiori::{v3, Request, Response};

#[test]
fn spec_shiori_request() {
    let input = [
        b"GET SHIORI/3.0\r\n".to_vec(),
        b"Sender: Materia\r\n".to_vec(),
        b"ID: hoge\r\n".to_vec(),
        b"Reference0: uge\r\n".to_vec(),
        b"\r\n".to_vec(),
    ]
    .concat();
    match Request::parse(&input).unwrap() {
        Request::V3(request) => {
            assert_eq!(request.method(), v3::Method::GET);
            assert_eq!(request.version(), v3::Version::SHIORI_30);
            assert_eq!(
                request.sender(),
                Some(&HeaderValue::from(b"Materia".as_slice()))
            );
            assert_eq!(request.id(), Some(&HeaderValue::from(b"hoge".as_slice())));
            assert_eq!(
                request.reference0(),
                Some(&HeaderValue::from(b"uge".as_slice()))
            );

            assert_eq!(
                request.as_bytes(),
                input,
                "\nassertion failed: `(left == right)\n  left: `{:?}`,\n right: `{:?}`",
                String::from_utf8_lossy(&request.as_bytes()),
                String::from_utf8_lossy(&input)
            );
        }
    };
}

#[test]
fn spec_shiori_response() {
    let input = [
        b"SHIORI/3.0 200 OK\r\n".to_vec(),
        b"Sender: F.I.R.S.T\r\n".to_vec(),
        b"Value: hoge\r\n".to_vec(),
        b"\r\n".to_vec(),
    ]
    .concat();

    match Response::parse(&input).unwrap() {
        Response::V3(response) => {
            assert_eq!(response.version(), v3::Version::SHIORI_30);
            assert_eq!(response.status_code(), v3::StatusCode::OK);
            assert_eq!(
                response.sender(),
                Some(&HeaderValue::from(b"F.I.R.S.T".as_slice()))
            );
            assert_eq!(
                response.value(),
                Some(&HeaderValue::from(b"hoge".as_slice()))
            );

            assert_eq!(
                response.as_bytes(),
                input,
                "\nassertion failed: `(left == right)\n  left: `{:?}`,\n right: `{:?}`",
                String::from_utf8_lossy(&response.as_bytes()),
                String::from_utf8_lossy(&input)
            );
        }
    };
}

#[test]
fn spec_shiori_response_with_name_of_person_to_talk_to() {
    let input = [
        b"SHIORI/3.0 200 OK\r\n".to_vec(),
        b"Sender: F.I.R.S.T\r\n".to_vec(),
        b"Value: hoge\r\n".to_vec(),
        b"Reference0: Sakura\r\n".to_vec(),
        b"\r\n".to_vec(),
    ]
    .concat();

    match Response::parse(&input).unwrap() {
        Response::V3(response) => {
            assert_eq!(response.version(), v3::Version::SHIORI_30);
            assert_eq!(response.status_code(), v3::StatusCode::OK);
            assert_eq!(
                response.sender(),
                Some(&HeaderValue::from(b"F.I.R.S.T".as_slice()))
            );
            assert_eq!(
                response.value(),
                Some(&HeaderValue::from(b"hoge".as_slice()))
            );
            assert_eq!(
                response.reference0(),
                Some(&HeaderValue::from(b"Sakura".as_slice()))
            );

            assert_eq!(
                response.as_bytes(),
                input,
                "\nassertion failed: `(left == right)\n  left: `{:?}`,\n right: `{:?}`",
                String::from_utf8_lossy(&response.as_bytes()),
                String::from_utf8_lossy(&input)
            );
        }
    };
}
