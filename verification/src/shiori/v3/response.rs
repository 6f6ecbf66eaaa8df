//! SHIORI/3.0 responses.
use crate::charset::Charset;
use crate::header::compose::{built_fields, pairs_of, ComposeError, FieldError, Pairs};
use crate::header::lines::{
    are_wire_fields, fields_bytes, first_field, is_wire_value, write_crlf, Field,
};
use crate::header::value::ErrorView as HeaderValueErrorView;
use crate::shiori::v3::header::{HeaderMap, HeaderName, HeaderValue};
use crate::shiori::v3::header::{HeaderNameError, HeaderValueError};
use crate::shiori::v3::parse;
use crate::shiori::v3::parse::{
    charset_of, lemma_section, lemma_section_wire, lemma_status_line, parse_response, response_of,
    status_line_of,
};
use crate::shiori::v3::status::StatusCode;
use crate::shiori::v3::version::Version;
use crate::util::bytes::append_bytes;
use crate::util::cursor::{crlf, SPACE};
use crate::util::string::Error as Rfc7230StringConvertError;
use crate::util::text::IntoText;
use vstd::prelude::*;
use vstd::string::*;

verus! {

/// `Response` is a type that represents an SHIORI v3 response.
///
/// `Response` provides a builder to generate types, a parser to generate types from bytes,
/// and accessors to the headers that the protocol defines.
#[derive(Debug)]
pub struct Response {
    pub(crate) version: Version,
    pub(crate) status_code: StatusCode,
    pub(crate) headers: HeaderMap,
    pub(crate) charset: Charset,
}

/// What a response says: its version, its status code, its header fields
/// as they stand on the wire, and the charset of its values.
pub struct ResponseView {
    pub version: Version,
    pub status_code: StatusCode,
    pub headers: Seq<Field>,
    pub charset: Charset,
}

impl View for Response {
    type V = ResponseView;

    closed spec fn view(&self) -> ResponseView {
        ResponseView {
            version: self.version,
            status_code: self.status_code,
            headers: self.headers.fields(),
            charset: self.charset,
        }
    }
}

/// The bytes of a response: the version, a space, the status code with
/// its reason, a line terminator, the field lines in their order, and a
/// blank line.
pub open spec fn response_bytes(response: ResponseView) -> Seq<u8> {
    response.version.name_bytes() + seq![SPACE] + response.status_code.name_bytes() + crlf()
        + fields_bytes(response.headers) + crlf()
}

impl Response {
    /// Every header name of the response is well formed.
    pub closed spec fn wf(&self) -> bool {
        self.headers.wf()
    }

    /// Puts a response together from its parts.
    pub(crate) fn from_parts(
        version: Version,
        status_code: StatusCode,
        headers: HeaderMap,
        charset: Charset,
    ) -> (response: Self)
        requires
            headers.wf(),
        ensures
            response@ == (ResponseView {
                version,
                status_code,
                headers: headers.fields(),
                charset,
            }),
            response.wf(),
    {
        Self { version, status_code, headers, charset }
    }

    /// Returns a builder that generates a type for the Response.
    pub fn builder() -> (builder: Builder)
        ensures
            builder@ == (BuilderView {
                version: None,
                status_code: None,
                headers: Seq::empty(),
                charset: None,
            }),
    {
        Builder::new()
    }

    /// Parse a bytes into a Response.
    pub fn parse(buf: &[u8]) -> (res: Result<Self, parse::Error>)
        ensures
            match response_of(buf@) {
                Ok(response) => res is Ok && res->Ok_0@ == response && res->Ok_0.wf(),
                Err(e) => res is Err && res->Err_0@ == e,
            },
    {
        parse_response(buf)
    }

    /// Returns SHIORI version.
    pub fn version(&self) -> (version: Version)
        ensures
            version == self@.version,
    {
        self.version
    }

    /// Returns SHIORI status code.
    pub fn status_code(&self) -> (status_code: StatusCode)
        ensures
            status_code == self@.status_code,
    {
        self.status_code
    }

    /// Returns SHIORI header fields.
    pub fn headers(&self) -> (headers: &HeaderMap)
        ensures
            headers.fields() == self@.headers,
            self.wf() ==> headers.wf(),
    {
        &self.headers
    }

    /// Returns SHIORI charset.
    pub fn charset(&self) -> (charset: Charset)
        ensures
            charset == self@.charset,
    {
        self.charset
    }

    /// Returns sender in SHIORI header fields.
    pub fn sender(&self) -> (r: Option<&HeaderValue>)
        ensures
            match first_field(self@.headers, HeaderName::Sender@) {
                Some(bytes) => r is Some && r->Some_0@ == bytes,
                None => r is None,
            },
    {
        self.headers.get(&HeaderName::Sender)
    }

    /// Returns ID in SHIORI header fields.
    pub fn id(&self) -> (r: Option<&HeaderValue>)
        ensures
            match first_field(self@.headers, HeaderName::Id@) {
                Some(bytes) => r is Some && r->Some_0@ == bytes,
                None => r is None,
            },
    {
        self.headers.get(&HeaderName::Id)
    }

    /// Returns reference0 in SHIORI header fields.
    pub fn reference0(&self) -> (r: Option<&HeaderValue>)
        ensures
            match first_field(self@.headers, HeaderName::Reference0@) {
                Some(bytes) => r is Some && r->Some_0@ == bytes,
                None => r is None,
            },
    {
        self.headers.get(&HeaderName::Reference0)
    }

    /// Returns reference1 in SHIORI header fields.
    pub fn reference1(&self) -> (r: Option<&HeaderValue>)
        ensures
            match first_field(self@.headers, HeaderName::Reference1@) {
                Some(bytes) => r is Some && r->Some_0@ == bytes,
                None => r is None,
            },
    {
        self.headers.get(&HeaderName::Reference1)
    }

    /// Returns reference2 in SHIORI header fields.
    pub fn reference2(&self) -> (r: Option<&HeaderValue>)
        ensures
            match first_field(self@.headers, HeaderName::Reference2@) {
                Some(bytes) => r is Some && r->Some_0@ == bytes,
                None => r is None,
            },
    {
        self.headers.get(&HeaderName::Reference2)
    }

    /// Returns reference3 in SHIORI header fields.
    pub fn reference3(&self) -> (r: Option<&HeaderValue>)
        ensures
            match first_field(self@.headers, HeaderName::Reference3@) {
                Some(bytes) => r is Some && r->Some_0@ == bytes,
                None => r is None,
            },
    {
        self.headers.get(&HeaderName::Reference3)
    }

    /// Returns reference4 in SHIORI header fields.
    pub fn reference4(&self) -> (r: Option<&HeaderValue>)
        ensures
            match first_field(self@.headers, HeaderName::Reference4@) {
                Some(bytes) => r is Some && r->Some_0@ == bytes,
                None => r is None,
            },
    {
        self.headers.get(&HeaderName::Reference4)
    }

    /// Returns reference5 in SHIORI header fields.
    pub fn reference5(&self) -> (r: Option<&HeaderValue>)
        ensures
            match first_field(self@.headers, HeaderName::Reference5@) {
                Some(bytes) => r is Some && r->Some_0@ == bytes,
                None => r is None,
            },
    {
        self.headers.get(&HeaderName::Reference5)
    }

    /// Returns reference6 in SHIORI header fields.
    pub fn reference6(&self) -> (r: Option<&HeaderValue>)
        ensures
            match first_field(self@.headers, HeaderName::Reference6@) {
                Some(bytes) => r is Some && r->Some_0@ == bytes,
                None => r is None,
            },
    {
        self.headers.get(&HeaderName::Reference6)
    }

    /// Returns reference7 in SHIORI header fields.
    pub fn reference7(&self) -> (r: Option<&HeaderValue>)
        ensures
            match first_field(self@.headers, HeaderName::Reference7@) {
                Some(bytes) => r is Some && r->Some_0@ == bytes,
                None => r is None,
            },
    {
        self.headers.get(&HeaderName::Reference7)
    }

    /// Returns SecurityLevel in SHIORI header fields.
    pub fn security_level(&self) -> (r: Option<&HeaderValue>)
        ensures
            match first_field(self@.headers, HeaderName::SecurityLevel@) {
                Some(bytes) => r is Some && r->Some_0@ == bytes,
                None => r is None,
            },
    {
        self.headers.get(&HeaderName::SecurityLevel)
    }

    /// Returns Value in SHIORI header fields.
    pub fn value(&self) -> (r: Option<&HeaderValue>)
        ensures
            match first_field(self@.headers, HeaderName::Value@) {
                Some(bytes) => r is Some && r->Some_0@ == bytes,
                None => r is None,
            },
    {
        self.headers.get(&HeaderName::Value)
    }

    /// Convert response to bytes.
    pub fn as_bytes(&self) -> (bytes: Vec<u8>)
        ensures
            bytes@ == response_bytes(self@),
    {
        let mut buf: Vec<u8> = Vec::new();
        append_bytes(&mut buf, self.version.as_str().as_bytes());
        buf.push(SPACE);
        append_bytes(&mut buf, self.status_code.as_str().as_bytes());
        write_crlf(&mut buf);
        self.headers.write_to(&mut buf);
        write_crlf(&mut buf);
        assert(buf@ =~= response_bytes(self@));
        buf
    }
}

/// What can be made a response.
pub trait IntoResponse {
    /// What the response says.
    spec fn response(&self) -> ResponseView;

    /// The response that the value stands for.
    fn into_response(self) -> (response: Response)
        ensures
            response@ == self.response(),
    ;
}

impl IntoResponse for Response {
    open spec fn response(&self) -> ResponseView {
        self@
    }

    fn into_response(self) -> (response: Response) {
        self
    }
}

/// Whether a response comes back from the wire as it went: its fields are
/// wire fields, and its charset is the one that its fields declare.
pub open spec fn is_wire_response(response: ResponseView) -> bool {
    are_wire_fields(response.headers) && charset_of(response.headers) == Ok::<
        Charset,
        parse::ErrorView,
    >(response.charset)
}

/// Parsing the bytes of a response gives the response back.
pub proof fn lemma_response_round_trip(response: ResponseView)
    requires
        is_wire_response(response),
    ensures
        response_of(response_bytes(response)) == Ok::<ResponseView, parse::ErrorView>(response),
{
    let section = fields_bytes(response.headers) + crlf();
    assert(response_bytes(response) =~= response.version.name_bytes() + seq![SPACE]
        + response.status_code.name_bytes() + crlf() + section);
    lemma_status_line(response.version, response.status_code, section);
    assert(section =~= fields_bytes(response.headers) + crlf() + Seq::<u8>::empty());
    lemma_section(response.headers, response.charset, Seq::<u8>::empty());
}

/// A response that was parsed is a wire response: its bytes are parsed to
/// the same response again.
pub proof fn lemma_parsed_response_is_wire(s: Seq<u8>)
    ensures
        response_of(s) matches Ok(response) ==> is_wire_response(response) && response_of(
            response_bytes(response),
        ) == Ok::<ResponseView, parse::ErrorView>(response),
{
    if let Ok(response) = response_of(s) {
        let after_line = status_line_of(s)->Ok_0.2;
        lemma_section_wire(after_line);
        lemma_response_round_trip(response);
    }
}

impl Response {
    /// A well-formed response is a wire response where its values are wire
    /// values and its charset is the one that its fields declare. Its bytes
    /// are then parsed to the same response.
    pub proof fn lemma_round_trip(&self)
        requires
            self.wf(),
            forall|i: int|
                0 <= i < self@.headers.len() ==> is_wire_value((#[trigger] self@.headers[i]).1),
            charset_of(self@.headers) == Ok::<Charset, parse::ErrorView>(self@.charset),
        ensures
            is_wire_response(self@),
            response_of(response_bytes(self@)) == Ok::<ResponseView, parse::ErrorView>(self@),
    {
        self.headers.lemma_names_are_tokens();
        lemma_response_round_trip(self@);
    }
}

/// Error that can occur when build SHIORI response.
#[derive(Debug)]
pub enum Error {
    /// No version was given.
    MissingVersion,
    /// No status code was given.
    MissingStatusCode,
    /// No charset was given.
    MissingCharset,
    /// A header name is no token.
    InvalidHeaderName(HeaderNameError),
    /// A header value cannot be encoded.
    FailedEncodeHeaderValue(HeaderValueError),
}

/// An `Error`, with texts as sequences of characters.
pub enum ErrorView {
    MissingVersion,
    MissingStatusCode,
    MissingCharset,
    InvalidHeaderName(HeaderNameError),
    FailedEncodeHeaderValue(HeaderValueErrorView),
}

impl View for Error {
    type V = ErrorView;

    open spec fn view(&self) -> ErrorView {
        match self {
            Error::MissingVersion => ErrorView::MissingVersion,
            Error::MissingStatusCode => ErrorView::MissingStatusCode,
            Error::MissingCharset => ErrorView::MissingCharset,
            Error::InvalidHeaderName(e) => ErrorView::InvalidHeaderName(*e),
            Error::FailedEncodeHeaderValue(e) => ErrorView::FailedEncodeHeaderValue(e@),
        }
    }
}

impl ErrorView {
    /// The text of the message for this error.
    pub open spec fn message_spec(self) -> Seq<char> {
        match self {
            ErrorView::MissingVersion => "version is required"@,
            ErrorView::MissingStatusCode => "status_code is required"@,
            ErrorView::MissingCharset => "charset is required"@,
            ErrorView::InvalidHeaderName(e) => e.message_spec(),
            ErrorView::FailedEncodeHeaderValue(e) => e.message_spec(),
        }
    }
}

impl Error {
    /// The message shown for this error.
    pub fn message(&self) -> (text: String)
        ensures
            text@ == self@.message_spec(),
    {
        match self {
            Error::MissingVersion => "version is required".to_owned(),
            Error::MissingStatusCode => "status_code is required".to_owned(),
            Error::MissingCharset => "charset is required".to_owned(),
            Error::InvalidHeaderName(e) => e.message(),
            Error::FailedEncodeHeaderValue(e) => e.message(),
        }
    }
}

/// Builder for SHIORI response.
///
/// The builder keeps what it is given and checks nothing until `build`:
/// the headers as pairs of texts in the order in which they came, and of
/// the charsets only the first.
#[derive(Debug)]
pub struct Builder {
    version: Option<Version>,
    status_code: Option<StatusCode>,
    headers: Vec<(String, String)>,
    charset: Option<Charset>,
}

/// What a builder has been given so far.
pub struct BuilderView {
    pub version: Option<Version>,
    pub status_code: Option<StatusCode>,
    pub headers: Pairs,
    pub charset: Option<Charset>,
}

impl View for Builder {
    type V = BuilderView;

    closed spec fn view(&self) -> BuilderView {
        BuilderView {
            version: self.version,
            status_code: self.status_code,
            headers: pairs_of(self.headers@),
            charset: self.charset,
        }
    }
}

/// The charset in which a builder encodes.
pub open spec fn resolved_charset(builder: BuilderView) -> Option<Charset> {
    match builder.charset {
        Some(charset) => Some(charset),
        None => Some(Charset::Ascii),
    }
}

/// The response that a builder makes of what it has been given, or the
/// first thing that is amiss: the version, the status code, the headers in their order.
pub open spec fn built(builder: BuilderView) -> Result<ResponseView, ErrorView> {
    match resolved_charset(builder) {
        None => Err(ErrorView::MissingCharset),
        Some(charset) => match builder.version {
            None => Err(ErrorView::MissingVersion),
            Some(version) => match builder.status_code {
                None => Err(ErrorView::MissingStatusCode),
                Some(status_code) => match built_fields(builder.headers, charset) {
                    Err(FieldError::InvalidName(b)) => Err(
                        ErrorView::InvalidHeaderName(
                            HeaderNameError::InvalidHeaderName(Rfc7230StringConvertError::InvalidCharacter(b)),
                        ),
                    ),
                    Err(FieldError::InvalidValue(e)) => Err(ErrorView::FailedEncodeHeaderValue(e)),
                    Ok(headers) => Ok(ResponseView { version, status_code, headers, charset }),
                },
            },
        },
    }
}

impl Builder {
    /// A builder that has been given nothing yet.
    pub fn new() -> (builder: Self)
        ensures
            builder@ == (BuilderView {
                version: None,
                status_code: None,
                headers: Seq::empty(),
                charset: None,
            }),
    {
        let builder = Builder {
            version: None,
            status_code: None,
            headers: Vec::new(),
            charset: None,
        };
        assert(pairs_of(builder.headers@) =~= Seq::<(Seq<char>, Seq<char>)>::empty());
        builder
    }

    /// Set SHIORI version.
    pub fn version(self, version: Version) -> (builder: Self)
        ensures
            builder@ == (BuilderView { version: Some(version), ..self@ }),
    {
        Builder { version: Some(version), ..self }
    }

    /// Set SHIORI status code.
    pub fn status_code(self, status_code: StatusCode) -> (builder: Self)
        ensures
            builder@ == (BuilderView { status_code: Some(status_code), ..self@ }),
    {
        Builder { status_code: Some(status_code), ..self }
    }

    /// Set SHIORI header field. A name may be given many times: every
    /// field is kept, in the order in which it was given.
    pub fn header<K: IntoText, V: IntoText>(self, name: K, value: V) -> (builder: Self)
        ensures
            builder@ == (BuilderView {
                headers: self@.headers.push((name.text(), value.text())),
                ..self@
            }),
    {
        let mut builder = self;
        let ghost before = pairs_of(builder.headers@);
        builder.headers.push((name.into_text(), value.into_text()));
        assert(pairs_of(builder.headers@) =~= before.push((name.text(), value.text())));
        builder
    }

    /// Set SHIORI charset. Every call adds a `Charset` header; the charset
    /// of the response is the one of the first call.
    pub fn charset(self, charset: Charset) -> (builder: Self)
        ensures
            builder@ == (BuilderView {
                headers: self@.headers.push(("Charset"@, charset.name())),
                charset: match self@.charset {
                    Some(first) => Some(first),
                    None => Some(charset),
                },
                ..self@
            }),
    {
        let mut builder = self;
        let ghost before = pairs_of(builder.headers@);
        builder.headers.push((HeaderName::CHARSET.to_string(), charset.to_string()));
        assert(pairs_of(builder.headers@) =~= before.push(("Charset"@, charset.name())));
        if builder.charset.is_none() {
            builder.charset = Some(charset);
        }
        builder
    }

    /// Build SHIORI response.
    pub fn build(self) -> (res: Result<Response, Error>)
        ensures
            match built(self@) {
                Ok(response) => res is Ok && res->Ok_0@ == response && res->Ok_0.wf(),
                Err(e) => res is Err && res->Err_0@ == e,
            },
    {
        let charset = match self.charset {
            Some(charset) => charset,
            None => Charset::Ascii,
        };
        let version = match self.version {
            Some(version) => version,
            None => {
                return Err(Error::MissingVersion);
            },
        };
        let status_code = match self.status_code {
            Some(status_code) => status_code,
            None => {
                return Err(Error::MissingStatusCode);
            },
        };
        let headers = match HeaderMap::from_pairs(self.headers.as_slice(), charset) {
            Ok(headers) => headers,
            Err(ComposeError::InvalidName(b)) => {
                return Err(
                    Error::InvalidHeaderName(
                        HeaderNameError::InvalidHeaderName(
                            Rfc7230StringConvertError::InvalidCharacter(b),
                        ),
                    ),
                );
            },
            Err(ComposeError::InvalidValue(e)) => {
                return Err(Error::FailedEncodeHeaderValue(e));
            },
        };
        Ok(Response::from_parts(version, status_code, headers, charset))
    }
}

} // verus!
