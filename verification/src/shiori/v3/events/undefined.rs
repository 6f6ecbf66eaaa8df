//! Events that have no type of their own.
use crate::header::lines::{first_field, Field};
use crate::header::value::HeaderValue;
use crate::shiori::v3::events::{field_text, text_of, Error};
use crate::shiori::v3::header::HeaderName;
use crate::shiori::v3::request::Request;
use vstd::prelude::*;
use vstd::string::*;

verus! {

/// An event that has no type of its own: its `ID`, and the references
/// that came with it.
#[derive(Debug)]
pub struct UndefinedEvent {
    id: String,
    reference0: Option<HeaderValue>,
    reference1: Option<HeaderValue>,
    reference2: Option<HeaderValue>,
    reference3: Option<HeaderValue>,
    reference4: Option<HeaderValue>,
    reference5: Option<HeaderValue>,
    reference6: Option<HeaderValue>,
    reference7: Option<HeaderValue>,
}

/// What an `UndefinedEvent` holds: its `ID`, and the bytes of its eight
/// references.
pub struct UndefinedEventView {
    pub id: Seq<char>,
    pub references: Seq<Option<Seq<u8>>>,
}

/// The bytes of a value that may be there.
pub open spec fn bytes_of(value: Option<HeaderValue>) -> Option<Seq<u8>> {
    match value {
        Some(v) => Some(v@),
        None => None,
    }
}

/// The undefined event of an `ID` that a request's fields report: with each
/// reference, the first value that the fields have for it.
pub open spec fn event_of(id: Seq<char>, fields: Seq<Field>) -> UndefinedEventView {
    UndefinedEventView {
        id,
        references: seq![
            first_field(fields, HeaderName::Reference0@),
            first_field(fields, HeaderName::Reference1@),
            first_field(fields, HeaderName::Reference2@),
            first_field(fields, HeaderName::Reference3@),
            first_field(fields, HeaderName::Reference4@),
            first_field(fields, HeaderName::Reference5@),
            first_field(fields, HeaderName::Reference6@),
            first_field(fields, HeaderName::Reference7@),
        ],
    }
}

impl View for UndefinedEvent {
    type V = UndefinedEventView;

    closed spec fn view(&self) -> UndefinedEventView {
        UndefinedEventView {
            id: self.id@,
            references: seq![
                bytes_of(self.reference0),
                bytes_of(self.reference1),
                bytes_of(self.reference2),
                bytes_of(self.reference3),
                bytes_of(self.reference4),
                bytes_of(self.reference5),
                bytes_of(self.reference6),
                bytes_of(self.reference7),
            ],
        }
    }
}

/// A copy of the first value that a request has for a name.
fn copy_of(request: &Request, name: &HeaderName) -> (res: Option<HeaderValue>)
    ensures
        bytes_of(res) == first_field(request@.headers, name@),
{
    match request.headers().get(name) {
        Some(value) => Some(value.clone()),
        None => None,
    }
}

impl UndefinedEvent {
    /// The event that a request reports, whatever its `ID`.
    pub fn try_from(value: Request) -> (res: Result<Self, Error>)
        ensures
            match field_text(value@.headers, HeaderName::Id@) {
                Err(e) => res matches Err(err) && err@ == e,
                Ok(None) => res matches Err(Error::UndefinedId),
                Ok(Some(id)) => res matches Ok(event) && event@ == event_of(id, value@.headers),
            },
    {
        let request = &value;
        let id = match text_of(request, &HeaderName::ID) {
            Err(e) => {
                return Err(e);
            },
            Ok(None) => {
                return Err(Error::UndefinedId);
            },
            Ok(Some(id)) => id,
        };
        let event = Self {
            id,
            reference0: copy_of(request, &HeaderName::REFERENCE0),
            reference1: copy_of(request, &HeaderName::REFERENCE1),
            reference2: copy_of(request, &HeaderName::REFERENCE2),
            reference3: copy_of(request, &HeaderName::REFERENCE3),
            reference4: copy_of(request, &HeaderName::REFERENCE4),
            reference5: copy_of(request, &HeaderName::REFERENCE5),
            reference6: copy_of(request, &HeaderName::REFERENCE6),
            reference7: copy_of(request, &HeaderName::REFERENCE7),
        };
        assert(event@.references =~= event_of(event.id@, request@.headers).references);
        Ok(event)
    }

    /// The `ID` of the event.
    pub fn id(&self) -> (id: &str)
        ensures
            id@ == self@.id,
    {
        self.id.as_str()
    }

    /// The value of `Reference0`, where the request had one.
    pub fn reference0(&self) -> (value: Option<&HeaderValue>)
        ensures
            match self@.references[0] {
                Some(bytes) => value matches Some(v) && v@ == bytes,
                None => value is None,
            },
    {
        self.reference0.as_ref()
    }

    /// The value of `Reference1`, where the request had one.
    pub fn reference1(&self) -> (value: Option<&HeaderValue>)
        ensures
            match self@.references[1] {
                Some(bytes) => value matches Some(v) && v@ == bytes,
                None => value is None,
            },
    {
        self.reference1.as_ref()
    }

    /// The value of `Reference2`, where the request had one.
    pub fn reference2(&self) -> (value: Option<&HeaderValue>)
        ensures
            match self@.references[2] {
                Some(bytes) => value matches Some(v) && v@ == bytes,
                None => value is None,
            },
    {
        self.reference2.as_ref()
    }

    /// The value of `Reference3`, where the request had one.
    pub fn reference3(&self) -> (value: Option<&HeaderValue>)
        ensures
            match self@.references[3] {
                Some(bytes) => value matches Some(v) && v@ == bytes,
                None => value is None,
            },
    {
        self.reference3.as_ref()
    }

    /// The value of `Reference4`, where the request had one.
    pub fn reference4(&self) -> (value: Option<&HeaderValue>)
        ensures
            match self@.references[4] {
                Some(bytes) => value matches Some(v) && v@ == bytes,
                None => value is None,
            },
    {
        self.reference4.as_ref()
    }

    /// The value of `Reference5`, where the request had one.
    pub fn reference5(&self) -> (value: Option<&HeaderValue>)
        ensures
            match self@.references[5] {
                Some(bytes) => value matches Some(v) && v@ == bytes,
                None => value is None,
            },
    {
        self.reference5.as_ref()
    }

    /// The value of `Reference6`, where the request had one.
    pub fn reference6(&self) -> (value: Option<&HeaderValue>)
        ensures
            match self@.references[6] {
                Some(bytes) => value matches Some(v) && v@ == bytes,
                None => value is None,
            },
    {
        self.reference6.as_ref()
    }

    /// The value of `Reference7`, where the request had one.
    pub fn reference7(&self) -> (value: Option<&HeaderValue>)
        ensures
            match self@.references[7] {
                Some(bytes) => value matches Some(v) && v@ == bytes,
                None => value is None,
            },
    {
        self.reference7.as_ref()
    }
}

} // verus!
