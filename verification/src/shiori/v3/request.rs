//! SHIORI/3.0 requests.
use crate::charset::Charset;
use crate::header::compose::{built_fields, pairs_of, ComposeError, FieldError, Pairs};
use crate::header::lines::{
    are_wire_fields, fields_bytes, first_field, is_wire_value, write_crlf, Field,
};
use crate::header::value::ErrorView as HeaderValueErrorView;
use crate::shiori::v3::header::{HeaderMap, HeaderName, HeaderValue};
use crate::shiori::v3::header::{HeaderNameError, HeaderValueError};
use crate::shiori::v3::method::Method;
use crate::shiori::v3::parse;
use crate::shiori::v3::parse::{
    charset_of, lemma_request_line, lemma_section, lemma_section_wire, parse_request,
    request_line_of, request_of,
};
use crate::shiori::v3::version::Version;
use crate::util::bytes::append_bytes;
use crate::util::cursor::{crlf, SPACE};
use crate::util::string::Error as Rfc7230StringConvertError;
use crate::util::text::IntoText;
use vstd::prelude::*;
use vstd::string::*;

verus! {

/// Request is a type that represents an SHIORI v3 request.
///
/// Request provides a builder to generate types, a parser to generate types from bytes,
/// and accessors to the headers that the protocol defines.
#[derive(Debug)]
pub struct Request {
    pub(crate) method: Method,
    pub(crate) version: Version,
    pub(crate) headers: HeaderMap,
    pub(crate) charset: Charset,
}

/// What a request says: its method, its version, its header fields as
/// they stand on the wire, and the charset of its values.
pub struct RequestView {
    pub method: Method,
    pub version: Version,
    pub headers: Seq<Field>,
    pub charset: Charset,
}

impl View for Request {
    type V = RequestView;

    closed spec fn view(&self) -> RequestView {
        RequestView {
            method: self.method,
            version: self.version,
            headers: self.headers.fields(),
            charset: self.charset,
        }
    }
}

/// The bytes of a request: the method, a space, the version, a line
/// terminator, the field lines in their order, and a blank line.
pub open spec fn request_bytes(request: RequestView) -> Seq<u8> {
    request.method.name_bytes() + seq![SPACE] + request.version.name_bytes() + crlf()
        + fields_bytes(request.headers) + crlf()
}

impl Request {
    /// Every header name of the request is well formed.
    pub closed spec fn wf(&self) -> bool {
        self.headers.wf()
    }

    /// Puts a request together from its parts.
    pub(crate) fn from_parts(
        method: Method,
        version: Version,
        headers: HeaderMap,
        charset: Charset,
    ) -> (request: Self)
        requires
            headers.wf(),
        ensures
            request@ == (RequestView { method, version, headers: headers.fields(), charset }),
            request.wf(),
    {
        Self { method, version, headers, charset }
    }

    /// Returns a builder that generates a type for the Request.
    pub fn builder() -> (builder: RequestBuilder)
        ensures
            builder@ == (RequestBuilderView {
                method: None,
                version: None,
                headers: Seq::empty(),
                charset: None,
            }),
    {
        RequestBuilder::new()
    }

    /// Parse a bytes into a Request.
    pub fn parse(buf: &[u8]) -> (res: Result<Self, parse::Error>)
        ensures
            match request_of(buf@) {
                Ok(request) => res is Ok && res->Ok_0@ == request && res->Ok_0.wf(),
                Err(e) => res is Err && res->Err_0@ == e,
            },
    {
        parse_request(buf)
    }

    /// Returns SHIORI method.
    pub fn method(&self) -> (method: Method)
        ensures
            method == self@.method,
    {
        self.method
    }

    /// Returns SHIORI version.
    pub fn version(&self) -> (version: Version)
        ensures
            version == self@.version,
    {
        self.version
    }

    /// Returns SHIORI header fields.
    pub fn headers(&self) -> (headers: &HeaderMap)
        ensures
            headers.fields() == self@.headers,
            self.wf() ==> headers.wf(),
    {
        &self.headers
    }

    /// Returns SHIORI charset.
    pub fn charset(&self) -> (charset: Charset)
        ensures
            charset == self@.charset,
    {
        self.charset
    }

    /// Returns sender in SHIORI header fields.
    pub fn sender(&self) -> (r: Option<&HeaderValue>)
        ensures
            match first_field(self@.headers, HeaderName::Sender@) {
                Some(bytes) => r is Some && r->Some_0@ == bytes,
                None => r is None,
            },
    {
        self.headers.get(&HeaderName::Sender)
    }

    /// Returns ID in SHIORI header fields.
    pub fn id(&self) -> (r: Option<&HeaderValue>)
        ensures
            match first_field(self@.headers, HeaderName::Id@) {
                Some(bytes) => r is Some && r->Some_0@ == bytes,
                None => r is None,
            },
    {
        self.headers.get(&HeaderName::Id)
    }

    /// Returns reference0 in SHIORI header fields.
    pub fn reference0(&self) -> (r: Option<&HeaderValue>)
        ensures
            match first_field(self@.headers, HeaderName::Reference0@) {
                Some(bytes) => r is Some && r->Some_0@ == bytes,
                None => r is None,
            },
    {
        self.headers.get(&HeaderName::Reference0)
    }

    /// Returns reference1 in SHIORI header fields.
    pub fn reference1(&self) -> (r: Option<&HeaderValue>)
        ensures
            match first_field(self@.headers, HeaderName::Reference1@) {
                Some(bytes) => r is Some && r->Some_0@ == bytes,
                None => r is None,
            },
    {
        self.headers.get(&HeaderName::Reference1)
    }

    /// Returns reference2 in SHIORI header fields.
    pub fn reference2(&self) -> (r: Option<&HeaderValue>)
        ensures
            match first_field(self@.headers, HeaderName::Reference2@) {
                Some(bytes) => r is Some && r->Some_0@ == bytes,
                None => r is None,
            },
    {
        self.headers.get(&HeaderName::Reference2)
    }

    /// Returns reference3 in SHIORI header fields.
    pub fn reference3(&self) -> (r: Option<&HeaderValue>)
        ensures
            match first_field(self@.headers, HeaderName::Reference3@) {
                Some(bytes) => r is Some && r->Some_0@ == bytes,
                None => r is None,
            },
    {
        self.headers.get(&HeaderName::Reference3)
    }

    /// Returns reference4 in SHIORI header fields.
    pub fn reference4(&self) -> (r: Option<&HeaderValue>)
        ensures
            match first_field(self@.headers, HeaderName::Reference4@) {
                Some(bytes) => r is Some && r->Some_0@ == bytes,
                None => r is None,
            },
    {
        self.headers.get(&HeaderName::Reference4)
    }

    /// Returns reference5 in SHIORI header fields.
    pub fn reference5(&self) -> (r: Option<&HeaderValue>)
        ensures
            match first_field(self@.headers, HeaderName::Reference5@) {
                Some(bytes) => r is Some && r->Some_0@ == bytes,
                None => r is None,
            },
    {
        self.headers.get(&HeaderName::Reference5)
    }

    /// Returns reference6 in SHIORI header fields.
    pub fn reference6(&self) -> (r: Option<&HeaderValue>)
        ensures
            match first_field(self@.headers, HeaderName::Reference6@) {
                Some(bytes) => r is Some && r->Some_0@ == bytes,
                None => r is None,
            },
    {
        self.headers.get(&HeaderName::Reference6)
    }

    /// Returns reference7 in SHIORI header fields.
    pub fn reference7(&self) -> (r: Option<&HeaderValue>)
        ensures
            match first_field(self@.headers, HeaderName::Reference7@) {
                Some(bytes) => r is Some && r->Some_0@ == bytes,
                None => r is None,
            },
    {
        self.headers.get(&HeaderName::Reference7)
    }

    /// Returns SecurityLevel in SHIORI header fields.
    pub fn security_level(&self) -> (r: Option<&HeaderValue>)
        ensures
            match first_field(self@.headers, HeaderName::SecurityLevel@) {
                Some(bytes) => r is Some && r->Some_0@ == bytes,
                None => r is None,
            },
    {
        self.headers.get(&HeaderName::SecurityLevel)
    }

    /// Convert request to bytes.
    pub fn as_bytes(&self) -> (bytes: Vec<u8>)
        ensures
            bytes@ == request_bytes(self@),
    {
        let mut buf: Vec<u8> = Vec::new();
        append_bytes(&mut buf, self.method.as_str().as_bytes());
        buf.push(SPACE);
        append_bytes(&mut buf, self.version.as_str().as_bytes());
        write_crlf(&mut buf);
        self.headers.write_to(&mut buf);
        write_crlf(&mut buf);
        assert(buf@ =~= request_bytes(self@));
        buf
    }
}

/// Whether a request comes back from the wire as it went: its fields are
/// wire fields, and its charset is the one that its fields declare.
pub open spec fn is_wire_request(request: RequestView) -> bool {
    are_wire_fields(request.headers) && charset_of(request.headers) == Ok::<
        Charset,
        parse::ErrorView,
    >(request.charset)
}

/// Parsing the bytes of a request gives the request back.
pub proof fn lemma_request_round_trip(request: RequestView)
    requires
        is_wire_request(request),
    ensures
        request_of(request_bytes(request)) == Ok::<RequestView, parse::ErrorView>(request),
{
    let section = fields_bytes(request.headers) + crlf();
    assert(request_bytes(request) =~= request.method.name_bytes() + seq![SPACE]
        + request.version.name_bytes() + crlf() + section);
    lemma_request_line(request.method, request.version, section);
    assert(section =~= fields_bytes(request.headers) + crlf() + Seq::<u8>::empty());
    lemma_section(request.headers, request.charset, Seq::<u8>::empty());
}

/// A request that was parsed is a wire request: its bytes are parsed to
/// the same request again.
pub proof fn lemma_parsed_request_is_wire(s: Seq<u8>)
    ensures
        request_of(s) matches Ok(request) ==> is_wire_request(request) && request_of(
            request_bytes(request),
        ) == Ok::<RequestView, parse::ErrorView>(request),
{
    if let Ok(request) = request_of(s) {
        let after_line = request_line_of(s)->Ok_0.2;
        lemma_section_wire(after_line);
        lemma_request_round_trip(request);
    }
}

impl Request {
    /// A well-formed request is a wire request where its values are wire
    /// values and its charset is the one that its fields declare.
    /// Its bytes are then parsed to the same request.
    pub proof fn lemma_round_trip(&self)
        requires
            self.wf(),
            forall|i: int|
                0 <= i < self@.headers.len() ==> is_wire_value((#[trigger] self@.headers[i]).1),
            charset_of(self@.headers) == Ok::<Charset, parse::ErrorView>(self@.charset),
        ensures
            is_wire_request(self@),
            request_of(request_bytes(self@)) == Ok::<RequestView, parse::ErrorView>(self@),
    {
        self.headers.lemma_names_are_tokens();
        lemma_request_round_trip(self@);
    }
}

/// Error that can occur when build SHIORI request.
#[derive(Debug)]
pub enum Error {
    /// No method was given.
    MissingMethod,
    /// No version was given.
    MissingVersion,
    /// No charset was given.
    MissingCharset,
    /// A header name is no token.
    InvalidHeaderName(HeaderNameError),
    /// A header value cannot be encoded.
    FailedEncodeHeaderValue(HeaderValueError),
}

/// An `Error`, with texts as sequences of characters.
pub enum ErrorView {
    MissingMethod,
    MissingVersion,
    MissingCharset,
    InvalidHeaderName(HeaderNameError),
    FailedEncodeHeaderValue(HeaderValueErrorView),
}

impl View for Error {
    type V = ErrorView;

    open spec fn view(&self) -> ErrorView {
        match self {
            Error::MissingMethod => ErrorView::MissingMethod,
            Error::MissingVersion => ErrorView::MissingVersion,
            Error::MissingCharset => ErrorView::MissingCharset,
            Error::InvalidHeaderName(e) => ErrorView::InvalidHeaderName(*e),
            Error::FailedEncodeHeaderValue(e) => ErrorView::FailedEncodeHeaderValue(e@),
        }
    }
}

impl ErrorView {
    /// The text of the message for this error.
    pub open spec fn message_spec(self) -> Seq<char> {
        match self {
            ErrorView::MissingMethod => "method is required"@,
            ErrorView::MissingVersion => "version is required"@,
            ErrorView::MissingCharset => "charset is required"@,
            ErrorView::InvalidHeaderName(e) => e.message_spec(),
            ErrorView::FailedEncodeHeaderValue(e) => e.message_spec(),
        }
    }
}

impl Error {
    /// The message shown for this error.
    pub fn message(&self) -> (text: String)
        ensures
            text@ == self@.message_spec(),
    {
        match self {
            Error::MissingMethod => "method is required".to_owned(),
            Error::MissingVersion => "version is required".to_owned(),
            Error::MissingCharset => "charset is required".to_owned(),
            Error::InvalidHeaderName(e) => e.message(),
            Error::FailedEncodeHeaderValue(e) => e.message(),
        }
    }
}

/// Builder for SHIORI request.
///
/// The builder keeps what it is given and checks nothing until `build`:
/// the headers as pairs of texts in the order in which they came, and of
/// the charsets only the first.
#[derive(Debug)]
pub struct RequestBuilder {
    method: Option<Method>,
    version: Option<Version>,
    headers: Vec<(String, String)>,
    charset: Option<Charset>,
}

/// What a builder has been given so far.
pub struct RequestBuilderView {
    pub method: Option<Method>,
    pub version: Option<Version>,
    pub headers: Pairs,
    pub charset: Option<Charset>,
}

impl View for RequestBuilder {
    type V = RequestBuilderView;

    closed spec fn view(&self) -> RequestBuilderView {
        RequestBuilderView {
            method: self.method,
            version: self.version,
            headers: pairs_of(self.headers@),
            charset: self.charset,
        }
    }
}

/// The charset in which a builder encodes.
pub open spec fn resolved_charset(builder: RequestBuilderView) -> Option<Charset> {
    match builder.charset {
        Some(charset) => Some(charset),
        None => Some(Charset::Ascii),
    }
}

/// The request that a builder makes of what it has been given, or the
/// first thing that is amiss: the method, the version, the headers in their order.
pub open spec fn built(builder: RequestBuilderView) -> Result<RequestView, ErrorView> {
    match resolved_charset(builder) {
        None => Err(ErrorView::MissingCharset),
        Some(charset) => match builder.method {
            None => Err(ErrorView::MissingMethod),
            Some(method) => match builder.version {
                None => Err(ErrorView::MissingVersion),
                Some(version) => match built_fields(builder.headers, charset) {
                    Err(FieldError::InvalidName(b)) => Err(
                        ErrorView::InvalidHeaderName(
                            HeaderNameError::InvalidHeaderName(Rfc7230StringConvertError::InvalidCharacter(b)),
                        ),
                    ),
                    Err(FieldError::InvalidValue(e)) => Err(ErrorView::FailedEncodeHeaderValue(e)),
                    Ok(headers) => Ok(RequestView { method, version, headers, charset }),
                },
            },
        },
    }
}

impl RequestBuilder {
    /// A builder that has been given nothing yet.
    pub fn new() -> (builder: Self)
        ensures
            builder@ == (RequestBuilderView {
                method: None,
                version: None,
                headers: Seq::empty(),
                charset: None,
            }),
    {
        let builder = RequestBuilder {
            method: None,
            version: None,
            headers: Vec::new(),
            charset: None,
        };
        assert(pairs_of(builder.headers@) =~= Seq::<(Seq<char>, Seq<char>)>::empty());
        builder
    }

    /// Build NOTIFY request.
    pub fn notify(version: Version) -> (builder: Self)
        ensures
            builder@ == (RequestBuilderView {
                method: Some(Method::Notify),
                version: Some(version),
                headers: Seq::empty(),
                charset: None,
            }),
    {
        RequestBuilder::new().version(version).method(Method::Notify)
    }

    /// Build GET request.
    pub fn get(version: Version) -> (builder: Self)
        ensures
            builder@ == (RequestBuilderView {
                method: Some(Method::Get),
                version: Some(version),
                headers: Seq::empty(),
                charset: None,
            }),
    {
        RequestBuilder::new().version(version).method(Method::Get)
    }

    /// Set SHIORI method.
    pub fn method(self, method: Method) -> (builder: Self)
        ensures
            builder@ == (RequestBuilderView { method: Some(method), ..self@ }),
    {
        RequestBuilder { method: Some(method), ..self }
    }

    /// Set SHIORI version.
    pub fn version(self, version: Version) -> (builder: Self)
        ensures
            builder@ == (RequestBuilderView { version: Some(version), ..self@ }),
    {
        RequestBuilder { version: Some(version), ..self }
    }

    /// Set SHIORI header field. A name may be given many times: every
    /// field is kept, in the order in which it was given.
    pub fn header<K: IntoText, V: IntoText>(self, name: K, value: V) -> (builder: Self)
        ensures
            builder@ == (RequestBuilderView {
                headers: self@.headers.push((name.text(), value.text())),
                ..self@
            }),
    {
        let mut builder = self;
        let ghost before = pairs_of(builder.headers@);
        builder.headers.push((name.into_text(), value.into_text()));
        assert(pairs_of(builder.headers@) =~= before.push((name.text(), value.text())));
        builder
    }

    /// Set SHIORI charset. Every call adds a `Charset` header; the charset
    /// of the request is the one of the first call.
    pub fn charset(self, charset: Charset) -> (builder: Self)
        ensures
            builder@ == (RequestBuilderView {
                headers: self@.headers.push(("Charset"@, charset.name())),
                charset: match self@.charset {
                    Some(first) => Some(first),
                    None => Some(charset),
                },
                ..self@
            }),
    {
        let mut builder = self;
        let ghost before = pairs_of(builder.headers@);
        builder.headers.push((HeaderName::CHARSET.to_string(), charset.to_string()));
        assert(pairs_of(builder.headers@) =~= before.push(("Charset"@, charset.name())));
        if builder.charset.is_none() {
            builder.charset = Some(charset);
        }
        builder
    }

    /// Build SHIORI request.
    pub fn build(self) -> (res: Result<Request, Error>)
        ensures
            match built(self@) {
                Ok(request) => res is Ok && res->Ok_0@ == request && res->Ok_0.wf(),
                Err(e) => res is Err && res->Err_0@ == e,
            },
    {
        let charset = match self.charset {
            Some(charset) => charset,
            None => Charset::Ascii,
        };
        let method = match self.method {
            Some(method) => method,
            None => {
                return Err(Error::MissingMethod);
            },
        };
        let version = match self.version {
            Some(version) => version,
            None => {
                return Err(Error::MissingVersion);
            },
        };
        let headers = match HeaderMap::from_pairs(self.headers.as_slice(), charset) {
            Ok(headers) => headers,
            Err(ComposeError::InvalidName(b)) => {
                return Err(
                    Error::InvalidHeaderName(
                        HeaderNameError::InvalidHeaderName(
                            Rfc7230StringConvertError::InvalidCharacter(b),
                        ),
                    ),
                );
            },
            Err(ComposeError::InvalidValue(e)) => {
                return Err(Error::FailedEncodeHeaderValue(e));
            },
        };
        Ok(Request::from_parts(method, version, headers, charset))
    }
}

} // verus!
