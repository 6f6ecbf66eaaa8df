//! SHIORI responses of whatever version.
use crate::shiori::v3;
use crate::util::bytes::{has_prefix, starts_with};
use vstd::prelude::*;
use vstd::std_specs::convert::FromSpecImpl;
use vstd::string::*;

verus! {

/// Why bytes are no SHIORI response.
#[derive(Debug)]
pub enum ResponseParseError {
    /// The status line is that of no version that is spoken here.
    InvalidResponse,
    /// The response is no SHIORI/3.0 response.
    V3(v3::ParseError),
}

impl ResponseParseError {
    /// The message shown for this error.
    pub fn message(&self) -> (text: String)
        ensures
            text@ == match self {
                ResponseParseError::InvalidResponse => "failed parse: invalid response"@,
                ResponseParseError::V3(e) => e@.message_spec(),
            },
    {
        match self {
            ResponseParseError::InvalidResponse => "failed parse: invalid response".to_owned(),
            ResponseParseError::V3(e) => e.message(),
        }
    }
}

/// `Response` is a type that represents a SHIORI response.
///
/// This type supports multiple versions of SHIORI.
/// If you want to support only a specific version, use `v3::Response` and a specific version explicitly.
#[derive(Debug)]
pub enum Response {
    V3(v3::Response),
}

/// Whether bytes begin like a SHIORI/3.x response: with `SHIORI/3`.
pub open spec fn looks_like_v3(bytes: Seq<u8>) -> bool {
    has_prefix(bytes, "SHIORI/3".spec_bytes())
}

impl Response {
    /// Parse a bytes into a Response.
    ///
    /// Bytes that begin like a SHIORI/3.x response are read as a
    /// SHIORI/3.0 response; any others are refused.
    pub fn parse(buf: &[u8]) -> (res: Result<Self, ResponseParseError>)
        ensures
            !looks_like_v3(buf@) ==> res matches Err(ResponseParseError::InvalidResponse),
            looks_like_v3(buf@) ==> match v3::parse::response_of(buf@) {
                Ok(response) => res matches Ok(Response::V3(r)) && r@ == response && r.wf(),
                Err(e) => res matches Err(ResponseParseError::V3(err)) && err@ == e,
            },
    {
        if starts_with(buf, "SHIORI/3".as_bytes()) {
            match v3::Response::parse(buf) {
                Ok(response) => Ok(Response::V3(response)),
                Err(e) => Err(ResponseParseError::V3(e)),
            }
        } else {
            Err(ResponseParseError::InvalidResponse)
        }
    }

    /// Convert response to bytes.
    pub fn as_bytes(&self) -> (bytes: Vec<u8>)
        ensures
            match self {
                Response::V3(response) => bytes@ == v3::response::response_bytes(response@),
            },
    {
        match self {
            Response::V3(response) => response.as_bytes(),
        }
    }
}

impl From<v3::Response> for Response {
    fn from(value: v3::Response) -> (response: Self) {
        Response::V3(value)
    }
}

impl FromSpecImpl<v3::Response> for Response {
    open spec fn obeys_from_spec() -> bool {
        true
    }

    open spec fn from_spec(value: v3::Response) -> Self {
        Response::V3(value)
    }
}

/// `ResponseExt` is a trait that extends the `Response` type.
pub trait ResponseExt<V, R> {
    /// Returns a concrete response builder by specifying a version.
    fn builder(version: V) -> R;
}

impl ResponseExt<v3::Version, v3::ResponseBuilder> for Response {
    /// Returns a concrete response builder by specifying a version.
    fn builder(version: v3::Version) -> (builder: v3::ResponseBuilder)
        ensures
            builder@ == (v3::response::BuilderView {
                version: Some(version),
                status_code: None,
                headers: Seq::empty(),
                charset: None,
            }),
    {
        v3::ResponseBuilder::new().version(version)
    }
}

} // verus!
