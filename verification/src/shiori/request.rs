//! SHIORI requests of whatever version.
use crate::shiori::v3;
use crate::util::bytes::{has_prefix, starts_with};
use vstd::prelude::*;
use vstd::std_specs::convert::FromSpecImpl;
use vstd::string::*;

verus! {

/// Why bytes are no SHIORI request.
#[derive(Debug)]
pub enum RequestParseError {
    /// The request line is that of no version that is spoken here.
    InvalidRequest,
    /// The request is no SHIORI/3.0 request.
    V3(v3::ParseError),
}

impl RequestParseError {
    /// The message shown for this error.
    pub fn message(&self) -> (text: String)
        ensures
            text@ == match self {
                RequestParseError::InvalidRequest => "failed parse: invalid request"@,
                RequestParseError::V3(e) => e@.message_spec(),
            },
    {
        match self {
            RequestParseError::InvalidRequest => "failed parse: invalid request".to_owned(),
            RequestParseError::V3(e) => e.message(),
        }
    }
}

/// `Request` is a type that represents a SHIORI request.
///
/// This type supports multiple versions of SHIORI.
/// If you want to support only a specific version, use `v3::Request` and a specific version explicitly.
#[derive(Debug)]
pub enum Request {
    V3(v3::Request),
}

/// Whether bytes begin like a SHIORI/3.0 request: with a method of
/// SHIORI/3.0, a space and the version.
pub open spec fn looks_like_v3(bytes: Seq<u8>) -> bool {
    has_prefix(bytes, "GET SHIORI/3.0".spec_bytes()) || has_prefix(
        bytes,
        "NOTIFY SHIORI/3.0".spec_bytes(),
    )
}

impl Request {
    /// Parse a bytes into a Request.
    ///
    /// Bytes that begin like a SHIORI/3.0 request are read as one; any
    /// others are refused.
    pub fn parse(buf: &[u8]) -> (res: Result<Self, RequestParseError>)
        ensures
            !looks_like_v3(buf@) ==> res matches Err(RequestParseError::InvalidRequest),
            looks_like_v3(buf@) ==> match v3::parse::request_of(buf@) {
                Ok(request) => res matches Ok(Request::V3(r)) && r@ == request && r.wf(),
                Err(e) => res matches Err(RequestParseError::V3(err)) && err@ == e,
            },
    {
        if starts_with(buf, "GET SHIORI/3.0".as_bytes()) || starts_with(
            buf,
            "NOTIFY SHIORI/3.0".as_bytes(),
        ) {
            match v3::Request::parse(buf) {
                Ok(request) => Ok(Request::V3(request)),
                Err(e) => Err(RequestParseError::V3(e)),
            }
        } else {
            Err(RequestParseError::InvalidRequest)
        }
    }

    /// Convert request to bytes.
    pub fn as_bytes(&self) -> (bytes: Vec<u8>)
        ensures
            match self {
                Request::V3(request) => bytes@ == v3::request::request_bytes(request@),
            },
    {
        match self {
            Request::V3(request) => request.as_bytes(),
        }
    }
}

impl From<v3::Request> for Request {
    fn from(value: v3::Request) -> (request: Self) {
        Request::V3(value)
    }
}

impl FromSpecImpl<v3::Request> for Request {
    open spec fn obeys_from_spec() -> bool {
        true
    }

    open spec fn from_spec(value: v3::Request) -> Self {
        Request::V3(value)
    }
}

/// `RequestExt` is a trait that extends the `Request` type.
pub trait RequestExt<V, R> {
    /// Returns a concrete request builder by specifying a version.
    fn builder(version: V) -> R;
}

impl RequestExt<v3::Version, v3::RequestBuilder> for Request {
    /// Returns a concrete request builder by specifying a version.
    fn builder(version: v3::Version) -> (builder: v3::RequestBuilder)
        ensures
            builder@ == (v3::request::RequestBuilderView {
                method: None,
                version: Some(version),
                headers: Seq::empty(),
                charset: None,
            }),
    {
        v3::RequestBuilder::new().version(version)
    }
}

} // verus!
