//! The events that a SHIORI/3.0 request can report.
use crate::charset::Charset;
use crate::header::lines::{first_field, Field};
use crate::header::value::{
    value_text, Error as HeaderValueError, ErrorView as HeaderValueErrorView,
};
use crate::shiori::v3::header::HeaderName;
use crate::shiori::v3::request::Request;
use crate::util::bytes::str_equal;
use vstd::prelude::*;
use vstd::string::*;

pub mod on_anchor_select;
pub mod undefined;

pub use on_anchor_select::OnAnchorSelect;
pub use undefined::UndefinedEvent;

verus! {

/// Why a request reports no event.
#[derive(Debug)]
pub enum Error {
    /// A header value cannot be read as text.
    FailedDecode(HeaderValueError),
    /// The request has no `ID` header.
    UndefinedId,
    /// The request lacks a reference that the event needs.
    UndefinedReference,
    /// The request reports another event than the one asked for.
    InvalidEvent(String),
}

/// An `Error`, with texts as sequences of characters.
pub enum ErrorView {
    FailedDecode(HeaderValueErrorView),
    UndefinedId,
    UndefinedReference,
    InvalidEvent(Seq<char>),
}

impl View for Error {
    type V = ErrorView;

    open spec fn view(&self) -> ErrorView {
        match self {
            Error::FailedDecode(e) => ErrorView::FailedDecode(e@),
            Error::UndefinedId => ErrorView::UndefinedId,
            Error::UndefinedReference => ErrorView::UndefinedReference,
            Error::InvalidEvent(id) => ErrorView::InvalidEvent(id@),
        }
    }
}

impl ErrorView {
    /// The text of the message for this error.
    pub open spec fn message_spec(self) -> Seq<char> {
        match self {
            ErrorView::FailedDecode(_) => "Failed to decode header value"@,
            ErrorView::UndefinedId => "Undefined ID"@,
            ErrorView::UndefinedReference => "Undefined reference"@,
            ErrorView::InvalidEvent(id) => "Invalid event: "@ + id,
        }
    }
}

impl Error {
    /// The message shown for this error.
    pub fn message(&self) -> (text: String)
        ensures
            text@ == self@.message_spec(),
    {
        match self {
            Error::FailedDecode(_) => "Failed to decode header value".to_owned(),
            Error::UndefinedId => "Undefined ID".to_owned(),
            Error::UndefinedReference => "Undefined reference".to_owned(),
            Error::InvalidEvent(id) => "Invalid event: ".to_owned().concat(id.as_str()),
        }
    }
}

/// The text of the first field of a name, read as ASCII: none where
/// there is no such field, and an error where its value is no text.
pub open spec fn field_text(fields: Seq<Field>, name: Seq<u8>) -> Result<Option<Seq<char>>, ErrorView> {
    match first_field(fields, name) {
        None => Ok(None),
        Some(bytes) => match value_text(bytes, Charset::Ascii) {
            Ok(text) => Ok(Some(text)),
            Err(e) => Err(ErrorView::FailedDecode(e)),
        },
    }
}

/// Reads the text of the first field of a name.
pub fn text_of(request: &Request, name: &HeaderName) -> (res: Result<Option<String>, Error>)
    ensures
        match field_text(request@.headers, name@) {
            Ok(Some(text)) => res matches Ok(Some(t)) && t@ == text,
            Ok(None) => res matches Ok(None),
            Err(e) => res matches Err(err) && err@ == e,
        },
{
    match request.headers().get(name) {
        None => Ok(None),
        Some(value) => match value.text() {
            Ok(text) => Ok(Some(text)),
            Err(e) => Err(Error::FailedDecode(e)),
        },
    }
}

/// An event that a request reports.
#[derive(Debug)]
pub enum Event {
    /// The user chose an anchor.
    OnAnchorSelect(OnAnchorSelect),
    /// An event that has no type of its own.
    UndefinedEvent(UndefinedEvent),
}

impl Event {
    /// The event that a request reports, going by its `ID` header: the
    /// event of that name where it has a type of its own, else an
    /// undefined event.
    pub fn try_from(value: Request) -> (res: Result<Event, Error>)
        ensures
            match field_text(value@.headers, HeaderName::Id@) {
                Err(e) => res matches Err(err) && err@ == e,
                Ok(None) => res matches Err(Error::UndefinedId),
                Ok(Some(id)) => if id == on_anchor_select::name() {
                    match on_anchor_select::event_of(value@.headers) {
                        Ok(r0) => res matches Ok(Event::OnAnchorSelect(event)) && event.reference()
                            == r0,
                        Err(e) => res matches Err(err) && err@ == e,
                    }
                } else {
                    res matches Ok(Event::UndefinedEvent(event)) && event@
                        == undefined::event_of(id, value@.headers)
                },
            },
    {
        match text_of(&value, &HeaderName::ID) {
            Err(e) => Err(e),
            Ok(None) => Err(Error::UndefinedId),
            Ok(Some(id)) => {
                if str_equal(id.as_str(), "OnAnchorSelect") {
                    match OnAnchorSelect::try_from(value) {
                        Ok(event) => Ok(Event::OnAnchorSelect(event)),
                        Err(e) => Err(e),
                    }
                } else {
                    match UndefinedEvent::try_from(value) {
                        Ok(event) => Ok(Event::UndefinedEvent(event)),
                        Err(e) => Err(e),
                    }
                }
            },
        }
    }
}

} // verus!
