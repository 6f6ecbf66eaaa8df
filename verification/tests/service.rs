use uka::charset::Charset;
use uka::shiori::runtime::Lifecycle::{Loaded, Unloaded};
use uka::shiori::runtime::{advance, decide, Action, Call, Refusal};
use uka::shiori::v3::events::{Error as EventError, Event, OnAnchorSelect, UndefinedEvent};
use uka::shiori::v3::{
    HeaderName, IntoResponse, Method, Request, Response, ShioriError, ShioriErrorContext,
    StatusCode, Version,
};

fn request(fields: &[(&str, &str)]) -> Request {
    let mut builder = Request::builder().method(Method::GET).version(Version::SHIORI_30);
    for (name, value) in fields {
        builder = builder.header(*name, *value);
    }
    builder.build().unwrap()
}

#[test]
fn an_error_becomes_a_response() {
    let response = ShioriError::new("boom").into_response();
    assert_eq!(response.as_bytes(), b"SHIORI/3.0 500 Internal Server Error\r\n\r\n");
    assert_eq!(response.charset(), Charset::ASCII);
    let response = ShioriError::new("boom")
        .context("while booting")
        .with_version(Version::SHIORI_30)
        .with_status_code(StatusCode::BAD_REQUEST)
        .into_response();
    assert_eq!(response.as_bytes(), b"SHIORI/3.0 400 Bad Request\r\n\r\n");
    let response = Response::parse(b"SHIORI/3.0 204 No Content\r\n\r\n").unwrap();
    assert_eq!(response.into_response().status_code(), StatusCode::NO_CONTENT);
}

#[test]
fn a_success_takes_no_context() {
    let ok: Result<u8, ShioriError> = Ok(1);
    assert_eq!(ok.context("unused").unwrap(), 1);
    let ok: Result<u8, ShioriError> = Ok(2);
    assert_eq!(ok.with_context(|| -> String { unreachable!() }).unwrap(), 2);
    let e = ShioriError::source(String::from("inner")).context(String::from("outer"));
    assert_eq!(e.to_string(), "outer: inner");
    assert_eq!(e.to_debug_string(), "outer: inner");
}

#[test]
fn the_lifecycle_of_a_module() {
    assert_eq!(decide(Unloaded, Call::Load), Action::CreateContext);
    assert_eq!(decide(Loaded, Call::Load), Action::Refuse(Refusal::AlreadyLoaded));
    assert_eq!(decide(Loaded, Call::Unload), Action::DropContext);
    assert_eq!(decide(Unloaded, Call::Unload), Action::Refuse(Refusal::NotLoaded));
    assert_eq!(decide(Loaded, Call::Request), Action::CallService);
    assert_eq!(decide(Unloaded, Call::Request), Action::Refuse(Refusal::NotLoaded));
    assert_eq!(advance(Unloaded, Call::Load, true), Loaded);
    assert_eq!(advance(Unloaded, Call::Load, false), Unloaded);
    assert_eq!(advance(Loaded, Call::Load, true), Loaded);
    assert_eq!(advance(Loaded, Call::Unload, true), Unloaded);
    assert_eq!(advance(Loaded, Call::Unload, false), Unloaded);
    assert_eq!(advance(Unloaded, Call::Unload, true), Unloaded);
    assert_eq!(advance(Loaded, Call::Request, false), Loaded);
    assert_eq!(advance(Unloaded, Call::Request, true), Unloaded);
    assert_eq!(Refusal::AlreadyLoaded.message(), "context already loaded");
    assert_eq!(Refusal::NotLoaded.into_error().to_string(), "context not loaded");
}

#[test]
fn events_of_requests() {
    let event = Event::try_from(request(&[("ID", "OnAnchorSelect"), ("Reference0", "home")]));
    assert!(matches!(event, Ok(Event::OnAnchorSelect(ref e)) if e.r0() == "home"));
    let event = Event::try_from(request(&[("ID", "OnAnchorSelect")]));
    assert!(matches!(event, Err(EventError::UndefinedReference)));
    let event = Event::try_from(request(&[("Reference0", "home")]));
    assert!(matches!(event, Err(EventError::UndefinedId)));
    let event = Event::try_from(request(&[
        ("ID", "OnBoot"),
        ("Reference0", "a"),
        ("Reference7", "h"),
        ("Reference0", "b"),
    ]));
    match event {
        Ok(Event::UndefinedEvent(e)) => {
            assert_eq!(e.id(), "OnBoot");
            assert_eq!(e.reference0().unwrap().as_bytes(), b"a");
            assert!(e.reference1().is_none() && e.reference2().is_none());
            assert!(e.reference3().is_none() && e.reference4().is_none());
            assert!(e.reference5().is_none() && e.reference6().is_none());
            assert_eq!(e.reference7().unwrap().as_bytes(), b"h");
        }
        other => panic!("{other:?}"),
    }
    let bad = || Request::parse(b"GET SHIORI/3.0\r\nID: \xff\r\n\r\n").unwrap();
    assert!(matches!(Event::try_from(bad()), Err(EventError::FailedDecode(_))));
    assert!(matches!(UndefinedEvent::try_from(bad()), Err(EventError::FailedDecode(_))));
    let other = request(&[("ID", "OnBoot"), ("Reference0", "x")]);
    assert!(
        matches!(OnAnchorSelect::try_from(other), Err(EventError::InvalidEvent(id)) if id == "OnBoot")
    );
    assert!(matches!(
        OnAnchorSelect::try_from(request(&[])),
        Err(EventError::UndefinedId)
    ));
    assert!(matches!(
        UndefinedEvent::try_from(request(&[])),
        Err(EventError::UndefinedId)
    ));
    assert_eq!(HeaderName::ID.to_string(), "ID");
}
