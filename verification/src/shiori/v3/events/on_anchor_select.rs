//! The event that the user chose an anchor.
use crate::header::lines::Field;
use crate::shiori::v3::events::{field_text, text_of, Error, ErrorView};
use crate::shiori::v3::header::HeaderName;
use crate::shiori::v3::request::Request;
use crate::util::bytes::str_equal;
use vstd::prelude::*;
use vstd::string::*;

verus! {

/// The `ID` of the event.
pub open spec fn name() -> Seq<char> {
    "OnAnchorSelect"@
}

/// What a request's fields say of an anchor having been chosen: the text
/// of `Reference0`, where the `ID` is that of the event and the reference
/// is there.
pub open spec fn event_of(fields: Seq<Field>) -> Result<Seq<char>, ErrorView> {
    match field_text(fields, HeaderName::Id@) {
        Err(e) => Err(e),
        Ok(id) => match field_text(fields, HeaderName::Reference0@) {
            Err(e) => Err(e),
            Ok(r0) => match (id, r0) {
                (Some(id), Some(r0)) => if id == name() {
                    Ok(r0)
                } else {
                    Err(ErrorView::InvalidEvent(id))
                },
                (Some(_), None) => Err(ErrorView::UndefinedReference),
                (None, _) => Err(ErrorView::UndefinedId),
            },
        },
    }
}

/// The user chose an anchor.
#[derive(Debug)]
pub struct OnAnchorSelect {
    r0: String,
}

impl OnAnchorSelect {
    /// What the anchor refers to.
    pub closed spec fn reference(&self) -> Seq<char> {
        self.r0@
    }

    /// What the anchor refers to: the text of `Reference0`.
    pub fn r0(&self) -> (r0: &str)
        ensures
            r0@ == self.reference(),
    {
        self.r0.as_str()
    }

    /// The event that a request reports, where it is this one.
    pub fn try_from(value: Request) -> (res: Result<Self, Error>)
        ensures
            match event_of(value@.headers) {
                Ok(r0) => res matches Ok(event) && event.reference() == r0,
                Err(e) => res matches Err(err) && err@ == e,
            },
    {
        let request = &value;
        let id = match text_of(request, &HeaderName::ID) {
            Ok(id) => id,
            Err(e) => {
                return Err(e);
            },
        };
        let r0 = match text_of(request, &HeaderName::REFERENCE0) {
            Ok(r0) => r0,
            Err(e) => {
                return Err(e);
            },
        };
        match (id, r0) {
            (Some(id), Some(r0)) => {
                if str_equal(id.as_str(), "OnAnchorSelect") {
                    Ok(Self { r0 })
                } else {
                    Err(Error::InvalidEvent(id))
                }
            },
            (Some(_), None) => Err(Error::UndefinedReference),
            (None, _) => Err(Error::UndefinedId),
        }
    }
}

} // verus!
