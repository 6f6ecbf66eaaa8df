//! SSTP responses.
use crate::charset::Charset;
use crate::header::compose::{built_fields, pairs_of, ComposeError, FieldError, Pairs};
use crate::header::lines::{are_wire_fields, fields_bytes, is_wire_value, write_crlf, Field};
use crate::header::value::ErrorView as HeaderValueErrorView;
use crate::sstp::header::{HeaderNameError, HeaderValueError};
use crate::sstp::header::{HeaderMap, HeaderName};
use crate::sstp::parse;
use crate::sstp::parse::{
    charset_of, is_wire_additional, lemma_section, lemma_section_wire, lemma_status_line,
    lemma_tail, lemma_tail_wire, parse_response, response_of, section_of, status_line_of,
};
use crate::sstp::status::StatusCode;
use crate::sstp::version::Version;
use crate::util::bytes::append_bytes;
use crate::util::cursor::{crlf, CR, LF, SPACE};
use crate::util::decode::{decoded, Decoder, Error as DecodeError};
use crate::util::encode::{encoded, Encoder, Error as EncodeError};
use crate::util::string::Error as Rfc7230StringConvertError;
use crate::util::text::{lf_to_crlf, strip_line_end, with_crlf, without_line_end};
use crate::util::text::IntoText;
use vstd::prelude::*;
use vstd::std_specs::convert::FromSpecImpl;
use vstd::string::*;

verus! {

/// AdditionalData is data that will be added in the SSTP response if needed.
///
/// This data is preserved in the character set and encoding specified by Charset.
/// To retrieve the data as a string, decode it according to the Charset.
#[derive(Debug)]
pub enum AdditionalData {
    /// No additional data.
    Empty,
    /// Lines of text, each with its line terminator.
    Text(Vec<u8>),
}

/// An `AdditionalData`, with its bytes as a sequence.
pub enum AdditionalView {
    Empty,
    Text(Seq<u8>),
}

impl View for AdditionalData {
    type V = AdditionalView;

    open spec fn view(&self) -> AdditionalView {
        match self {
            AdditionalData::Empty => AdditionalView::Empty,
            AdditionalData::Text(bytes) => AdditionalView::Text(bytes@),
        }
    }
}

/// Whether bytes end with a line terminator.
pub open spec fn ends_with_crlf(bytes: Seq<u8>) -> bool {
    bytes.len() >= 2 && bytes[bytes.len() - 2] == CR && bytes[bytes.len() - 1] == LF
}

/// Bytes, with a line terminator at their end: added where they do not end
/// with one.
pub open spec fn terminated(bytes: Seq<u8>) -> Seq<u8> {
    if ends_with_crlf(bytes) {
        bytes
    } else {
        bytes + crlf()
    }
}

/// The additional data that stands for a text in a charset: none for the
/// empty text; else the text with every line feed made a line terminator,
/// encoded, and ended with a line terminator.
pub open spec fn additional_for(text: Seq<char>, charset: Charset) -> Result<
    AdditionalView,
    EncodeError,
> {
    if text.len() == 0 {
        Ok(AdditionalView::Empty)
    } else {
        match encoded(with_crlf(text), charset) {
            Ok(bytes) => Ok(AdditionalView::Text(terminated(bytes))),
            Err(e) => Err(e),
        }
    }
}

/// The text that additional data stands for in a charset: the empty text
/// for none; else the decoded bytes without the line terminator at their
/// end.
pub open spec fn additional_text_of(additional: AdditionalView, charset: Charset) -> Result<
    Seq<char>,
    DecodeError,
> {
    match additional {
        AdditionalView::Empty => Ok(Seq::empty()),
        AdditionalView::Text(bytes) => match decoded(bytes, charset) {
            Ok(text) => Ok(without_line_end(text)),
            Err(e) => Err(e),
        },
    }
}

impl AdditionalData {
    /// The bytes of the additional data; none where there is none.
    pub open spec fn bytes(&self) -> Seq<u8> {
        match self {
            AdditionalData::Empty => Seq::empty(),
            AdditionalData::Text(bytes) => bytes@,
        }
    }

    /// Extract AdditionalData as an ASCII code string.
    pub fn text(&self) -> (res: Result<String, DecodeError>)
        ensures
            match additional_text_of(self@, Charset::Ascii) {
                Ok(text) => res is Ok && res->Ok_0@ == text,
                Err(e) => res == Err::<String, DecodeError>(e),
            },
    {
        self.text_with_charset(Charset::Ascii)
    }

    /// Extract AdditionalData as a string with Charset.
    pub fn text_with_charset(&self, charset: Charset) -> (res: Result<String, DecodeError>)
        ensures
            match additional_text_of(self@, charset) {
                Ok(text) => res is Ok && res->Ok_0@ == text,
                Err(e) => res == Err::<String, DecodeError>(e),
            },
    {
        match self {
            AdditionalData::Empty => Ok(String::new()),
            AdditionalData::Text(bytes) => match Decoder::decode(bytes.as_slice(), charset) {
                Ok(text) => Ok(strip_line_end(text.as_str()).to_owned()),
                Err(e) => Err(e),
            },
        }
    }

    /// Convert string to AdditionalData with ASCII code bytes.
    pub fn from_static(s: &str) -> (res: Result<Self, EncodeError>)
        ensures
            match additional_for(s@, Charset::Ascii) {
                Ok(additional) => res is Ok && res->Ok_0@ == additional,
                Err(e) => res is Err && res->Err_0 == e,
            },
    {
        AdditionalData::from_static_with_charset(s, Charset::Ascii)
    }

    /// Convert string to AdditionalData with Charset.
    pub fn from_static_with_charset(s: &str, charset: Charset) -> (res: Result<Self, EncodeError>)
        ensures
            match additional_for(s@, charset) {
                Ok(additional) => res is Ok && res->Ok_0@ == additional,
                Err(e) => res is Err && res->Err_0 == e,
            },
    {
        if s.is_empty() {
            return Ok(AdditionalData::Empty);
        }
        let text = lf_to_crlf(s);
        let bytes = match Encoder::encode(text.as_str(), charset) {
            Ok(bytes) => bytes,
            Err(e) => {
                return Err(e);
            },
        };
        Ok(AdditionalData::from_lines(bytes))
    }

    /// Wraps encoded text as additional data: a line terminator is put at
    /// its end where it does not end with one.
    pub fn from_lines(bytes: Vec<u8>) -> (additional: Self)
        ensures
            additional@ == AdditionalView::Text(terminated(bytes@)),
    {
        let mut bytes = bytes;
        let n = bytes.len();
        if !(n >= 2 && bytes[n - 2] == CR && bytes[n - 1] == LF) {
            let ghost before = bytes@;
            bytes.push(CR);
            bytes.push(LF);
            assert(bytes@ =~= before + crlf());
        }
        AdditionalData::Text(bytes)
    }

    /// Wraps bytes as additional data: none where there are no bytes.
    pub fn from_bytes(bytes: Vec<u8>) -> (additional: Self)
        ensures
            additional@ == if bytes@.len() == 0 {
                AdditionalView::Empty
            } else {
                AdditionalView::Text(bytes@)
            },
    {
        if bytes.len() == 0 {
            AdditionalData::Empty
        } else {
            AdditionalData::Text(bytes)
        }
    }
}

impl From<Vec<u8>> for AdditionalData {
    fn from(bytes: Vec<u8>) -> (additional: Self)
        ensures
            additional@ == if bytes@.len() == 0 {
                AdditionalView::Empty
            } else {
                AdditionalView::Text(bytes@)
            },
    {
        if bytes.len() == 0 {
            AdditionalData::Empty
        } else {
            AdditionalData::Text(bytes)
        }
    }
}

impl FromSpecImpl<Vec<u8>> for AdditionalData {
    open spec fn obeys_from_spec() -> bool {
        true
    }

    open spec fn from_spec(bytes: Vec<u8>) -> Self {
        if bytes@.len() == 0 {
            AdditionalData::Empty
        } else {
            AdditionalData::Text(bytes)
        }
    }
}

impl Default for AdditionalData {
    fn default() -> (additional: Self)
        ensures
            additional@ == AdditionalView::Empty,
    {
        AdditionalData::Empty
    }
}

/// Response is a type that represents an SSTP response.
///
/// Response provides a builder to generate types, a parser to generate types from bytes.
#[derive(Debug)]
pub struct Response {
    pub(crate) version: Version,
    pub(crate) status_code: StatusCode,
    pub(crate) headers: HeaderMap,
    pub(crate) charset: Charset,
    pub(crate) additional: AdditionalData,
}

/// What a response says: its version, its status code, its header fields
/// as they stand on the wire, the charset of its values, and its
/// additional data.
pub struct ResponseView {
    pub version: Version,
    pub status_code: StatusCode,
    pub headers: Seq<Field>,
    pub charset: Charset,
    pub additional: AdditionalView,
}

impl View for Response {
    type V = ResponseView;

    closed spec fn view(&self) -> ResponseView {
        ResponseView {
            version: self.version,
            status_code: self.status_code,
            headers: self.headers.fields(),
            charset: self.charset,
            additional: self.additional@,
        }
    }
}

/// The bytes of additional data on the wire: nothing where there is none,
/// else its lines and a blank line.
pub open spec fn additional_bytes(additional: AdditionalView) -> Seq<u8> {
    match additional {
        AdditionalView::Empty => Seq::empty(),
        AdditionalView::Text(bytes) => bytes + crlf(),
    }
}

/// The bytes of a response: the version, a space, the status code with
/// its reason, a line terminator, the field lines in their order, a blank
/// line, and the additional data.
pub open spec fn response_bytes(response: ResponseView) -> Seq<u8> {
    response.version.name_bytes() + seq![SPACE] + response.status_code.name_bytes() + crlf()
        + fields_bytes(response.headers) + crlf() + additional_bytes(response.additional)
}

impl Response {
    /// Every header name of the response is well formed.
    pub closed spec fn wf(&self) -> bool {
        self.headers.wf()
    }

    /// Puts a response together from its parts.
    pub(crate) fn from_parts(
        version: Version,
        status_code: StatusCode,
        headers: HeaderMap,
        charset: Charset,
        additional: AdditionalData,
    ) -> (response: Self)
        requires
            headers.wf(),
        ensures
            response@ == (ResponseView {
                version,
                status_code,
                headers: headers.fields(),
                charset,
                additional: additional@,
            }),
            response.wf(),
    {
        Self { version, status_code, headers, charset, additional }
    }

    /// Returns a builder that generates a type for the Response.
    pub fn builder() -> (builder: Builder)
        ensures
            builder@ == (BuilderView {
                version: None,
                status_code: None,
                headers: Seq::empty(),
                charset: None,
                additional: None,
            }),
    {
        Builder::new()
    }

    /// Parse a bytes into a Response.
    pub fn parse(input: &[u8]) -> (res: Result<Self, parse::Error>)
        ensures
            match response_of(input@) {
                Ok(response) => res is Ok && res->Ok_0@ == response && res->Ok_0.wf(),
                Err(e) => res is Err && res->Err_0@ == e,
            },
    {
        parse_response(input)
    }

    /// Returns SSTP version.
    pub fn version(&self) -> (version: Version)
        ensures
            version == self@.version,
    {
        self.version
    }

    /// Returns SSTP status code.
    pub fn status_code(&self) -> (status_code: StatusCode)
        ensures
            status_code == self@.status_code,
    {
        self.status_code
    }

    /// Returns SSTP header fields.
    pub fn headers(&self) -> (headers: &HeaderMap)
        ensures
            headers.fields() == self@.headers,
            self.wf() ==> headers.wf(),
    {
        &self.headers
    }

    /// Returns SSTP charset.
    pub fn charset(&self) -> (charset: Charset)
        ensures
            charset == self@.charset,
    {
        self.charset
    }

    /// Returns additional data.
    pub fn additional(&self) -> (additional: &AdditionalData)
        ensures
            additional@ == self@.additional,
    {
        &self.additional
    }

    /// Convert response to bytes.
    pub fn as_bytes(&self) -> (bytes: Vec<u8>)
        ensures
            bytes@ == response_bytes(self@),
    {
        let mut buf: Vec<u8> = Vec::new();
        append_bytes(&mut buf, self.version.as_str().as_bytes());
        buf.push(SPACE);
        append_bytes(&mut buf, self.status_code.as_str().as_bytes());
        write_crlf(&mut buf);
        self.headers.write_to(&mut buf);
        write_crlf(&mut buf);
        match &self.additional {
            AdditionalData::Text(bytes) => {
                append_bytes(&mut buf, bytes.as_slice());
                write_crlf(&mut buf);
            },
            AdditionalData::Empty => {},
        }
        assert(buf@ =~= response_bytes(self@));
        buf
    }
}

/// Whether a response comes back from the wire as it went: its fields are
/// wire fields, its charset is the one that its fields declare, and its
/// additional data, where it has any, is made of lines.
pub open spec fn is_wire_response(response: ResponseView) -> bool {
    &&& are_wire_fields(response.headers)
    &&& charset_of(response.headers) == Ok::<Charset, parse::ErrorView>(response.charset)
    &&& is_wire_additional(response.additional)
}

/// Parsing the bytes of a response gives the response back.
pub proof fn lemma_response_round_trip(response: ResponseView)
    requires
        is_wire_response(response),
    ensures
        response_of(response_bytes(response)) == Ok::<ResponseView, parse::ErrorView>(response),
{
    let tail = additional_bytes(response.additional);
    let section = fields_bytes(response.headers) + crlf() + tail;
    assert(response_bytes(response) =~= response.version.name_bytes() + seq![SPACE]
        + response.status_code.name_bytes() + crlf() + section);
    lemma_status_line(response.version, response.status_code, section);
    lemma_section(response.headers, response.charset, tail);
    lemma_tail(response.additional);
}

/// A response that was parsed is a wire response: its bytes are parsed to
/// the same response again.
pub proof fn lemma_parsed_response_is_wire(s: Seq<u8>)
    ensures
        response_of(s) matches Ok(response) ==> is_wire_response(response) && response_of(
            response_bytes(response),
        ) == Ok::<ResponseView, parse::ErrorView>(response),
{
    if let Ok(response) = response_of(s) {
        let after_line = status_line_of(s)->Ok_0.2;
        lemma_section_wire(after_line);
        let after_section = section_of(after_line)->Ok_0.2;
        lemma_tail_wire(after_section);
        lemma_response_round_trip(response);
    }
}

impl Response {
    /// A well-formed response is a wire response where its values are wire
    /// values and its charset is the one that its fields declare, and its
    /// additional data is wire data.
    /// Its bytes are then parsed to the same response.
    pub proof fn lemma_round_trip(&self)
        requires
            self.wf(),
            forall|i: int|
                0 <= i < self@.headers.len() ==> is_wire_value((#[trigger] self@.headers[i]).1),
            charset_of(self@.headers) == Ok::<Charset, parse::ErrorView>(self@.charset),
            is_wire_additional(self@.additional),
        ensures
            is_wire_response(self@),
            response_of(response_bytes(self@)) == Ok::<ResponseView, parse::ErrorView>(self@),
    {
        self.headers.lemma_names_are_tokens();
        lemma_response_round_trip(self@);
    }
}

/// Error that can occur when build SSTP response.
#[derive(Debug)]
pub enum Error {
    /// No version was given.
    MissingVersion,
    /// No status code was given.
    MissingStatusCode,
    /// No charset was given.
    MissingCharset,
    /// A header name is no token.
    InvalidHeaderName(HeaderNameError),
    /// A header value cannot be encoded.
    FailedEncodeHeaderValue(HeaderValueError),
    /// The additional data cannot be encoded.
    FailedEncodeAdditionalData(EncodeError),
}

/// An `Error`, with texts as sequences of characters.
pub enum ErrorView {
    MissingVersion,
    MissingStatusCode,
    MissingCharset,
    InvalidHeaderName(HeaderNameError),
    FailedEncodeHeaderValue(HeaderValueErrorView),
    FailedEncodeAdditionalData(EncodeError),
}

impl View for Error {
    type V = ErrorView;

    open spec fn view(&self) -> ErrorView {
        match self {
            Error::MissingVersion => ErrorView::MissingVersion,
            Error::MissingStatusCode => ErrorView::MissingStatusCode,
            Error::MissingCharset => ErrorView::MissingCharset,
            Error::InvalidHeaderName(e) => ErrorView::InvalidHeaderName(*e),
            Error::FailedEncodeHeaderValue(e) => ErrorView::FailedEncodeHeaderValue(e@),
            Error::FailedEncodeAdditionalData(e) => ErrorView::FailedEncodeAdditionalData(*e),
        }
    }
}

impl ErrorView {
    /// The text of the message for this error.
    pub open spec fn message_spec(self) -> Seq<char> {
        match self {
            ErrorView::MissingVersion => "version is required"@,
            ErrorView::MissingStatusCode => "status_code is required"@,
            ErrorView::MissingCharset => "charset is required"@,
            ErrorView::InvalidHeaderName(e) => e.message_spec(),
            ErrorView::FailedEncodeHeaderValue(e) => e.message_spec(),
            ErrorView::FailedEncodeAdditionalData(e) => e.message_spec(),
        }
    }
}

impl Error {
    /// The message shown for this error.
    pub fn message(&self) -> (text: String)
        ensures
            text@ == self@.message_spec(),
    {
        match self {
            Error::MissingVersion => "version is required".to_owned(),
            Error::MissingStatusCode => "status_code is required".to_owned(),
            Error::MissingCharset => "charset is required".to_owned(),
            Error::InvalidHeaderName(e) => e.message(),
            Error::FailedEncodeHeaderValue(e) => e.message(),
            Error::FailedEncodeAdditionalData(e) => e.message().to_owned(),
        }
    }
}

/// Builder for SSTP response.
///
/// The builder keeps what it is given and checks nothing until `build`:
/// the headers as pairs of texts in the order in which they came, and of
/// the charsets only the first.
#[derive(Debug)]
pub struct Builder {
    version: Option<Version>,
    status_code: Option<StatusCode>,
    headers: Vec<(String, String)>,
    charset: Option<Charset>,
    additional: Option<String>,
}

/// What a builder has been given so far.
pub struct BuilderView {
    pub version: Option<Version>,
    pub status_code: Option<StatusCode>,
    pub headers: Pairs,
    pub charset: Option<Charset>,
    pub additional: Option<Seq<char>>,
}

impl View for Builder {
    type V = BuilderView;

    closed spec fn view(&self) -> BuilderView {
        BuilderView {
            version: self.version,
            status_code: self.status_code,
            headers: pairs_of(self.headers@),
            charset: self.charset,
            additional: match self.additional {
                Some(text) => Some(text@),
                None => None,
            },
        }
    }
}

/// The charset in which a builder encodes.
pub open spec fn resolved_charset(builder: BuilderView) -> Option<Charset> {
    builder.charset
}

/// The response that a builder makes of what it has been given, or the
/// first thing that is amiss: the charset, the version, the status code, the headers in their order, the additional data.
pub open spec fn built(builder: BuilderView) -> Result<ResponseView, ErrorView> {
    match resolved_charset(builder) {
        None => Err(ErrorView::MissingCharset),
        Some(charset) => match builder.version {
            None => Err(ErrorView::MissingVersion),
            Some(version) => match builder.status_code {
                None => Err(ErrorView::MissingStatusCode),
                Some(status_code) => match built_fields(builder.headers, charset) {
                    Err(FieldError::InvalidName(b)) => Err(
                        ErrorView::InvalidHeaderName(
                            HeaderNameError::InvalidHeaderName(Rfc7230StringConvertError::InvalidCharacter(b)),
                        ),
                    ),
                    Err(FieldError::InvalidValue(e)) => Err(ErrorView::FailedEncodeHeaderValue(e)),
                    Ok(headers) => match additional_for(additional_text(builder.additional), charset) {
                        Err(e) => Err(ErrorView::FailedEncodeAdditionalData(e)),
                        Ok(additional) => Ok(ResponseView { version, status_code, headers, charset, additional }),
                    },
                },
            },
        },
    }
}

/// The text of the additional data that a builder has been given: the
/// empty text where it has been given none.
pub open spec fn additional_text(additional: Option<Seq<char>>) -> Seq<char> {
    match additional {
        Some(text) => text,
        None => Seq::empty(),
    }
}

impl Builder {
    /// A builder that has been given nothing yet.
    pub fn new() -> (builder: Self)
        ensures
            builder@ == (BuilderView {
                version: None,
                status_code: None,
                headers: Seq::empty(),
                charset: None,
                additional: None,
            }),
    {
        let builder = Builder {
            version: None,
            status_code: None,
            headers: Vec::new(),
            charset: None,
            additional: None,
        };
        assert(pairs_of(builder.headers@) =~= Seq::<(Seq<char>, Seq<char>)>::empty());
        builder
    }

    /// Set SSTP version.
    pub fn version(self, version: Version) -> (builder: Self)
        ensures
            builder@ == (BuilderView { version: Some(version), ..self@ }),
    {
        Builder { version: Some(version), ..self }
    }

    /// Set SSTP status code.
    pub fn status_code(self, status_code: StatusCode) -> (builder: Self)
        ensures
            builder@ == (BuilderView { status_code: Some(status_code), ..self@ }),
    {
        Builder { status_code: Some(status_code), ..self }
    }

    /// Set SSTP header field. A name may be given many times: every
    /// field is kept, in the order in which it was given.
    pub fn header<K: IntoText, V: IntoText>(self, name: K, value: V) -> (builder: Self)
        ensures
            builder@ == (BuilderView {
                headers: self@.headers.push((name.text(), value.text())),
                ..self@
            }),
    {
        let mut builder = self;
        let ghost before = pairs_of(builder.headers@);
        builder.headers.push((name.into_text(), value.into_text()));
        assert(pairs_of(builder.headers@) =~= before.push((name.text(), value.text())));
        builder
    }

    /// Set SSTP charset. Every call adds a `Charset` header; the charset
    /// of the response is the one of the first call.
    pub fn charset(self, charset: Charset) -> (builder: Self)
        ensures
            builder@ == (BuilderView {
                headers: self@.headers.push(("Charset"@, charset.name())),
                charset: match self@.charset {
                    Some(first) => Some(first),
                    None => Some(charset),
                },
                ..self@
            }),
    {
        let mut builder = self;
        let ghost before = pairs_of(builder.headers@);
        builder.headers.push((HeaderName::CHARSET.to_string(), charset.to_string()));
        assert(pairs_of(builder.headers@) =~= before.push(("Charset"@, charset.name())));
        if builder.charset.is_none() {
            builder.charset = Some(charset);
        }
        builder
    }

    /// Set additional data.
    pub fn additional<T: IntoText>(self, additional: T) -> (builder: Self)
        ensures
            builder@ == (BuilderView { additional: Some(additional.text()), ..self@ }),
    {
        Builder { additional: Some(additional.into_text()), ..self }
    }

    /// Build SSTP response.
    pub fn build(self) -> (res: Result<Response, Error>)
        ensures
            match built(self@) {
                Ok(response) => res is Ok && res->Ok_0@ == response && res->Ok_0.wf(),
                Err(e) => res is Err && res->Err_0@ == e,
            },
    {
        let charset = match self.charset {
            Some(charset) => charset,
            None => {
                return Err(Error::MissingCharset);
            },
        };
        let version = match self.version {
            Some(version) => version,
            None => {
                return Err(Error::MissingVersion);
            },
        };
        let status_code = match self.status_code {
            Some(status_code) => status_code,
            None => {
                return Err(Error::MissingStatusCode);
            },
        };
        let headers = match HeaderMap::from_pairs(self.headers.as_slice(), charset) {
            Ok(headers) => headers,
            Err(ComposeError::InvalidName(b)) => {
                return Err(
                    Error::InvalidHeaderName(
                        HeaderNameError::InvalidHeaderName(
                            Rfc7230StringConvertError::InvalidCharacter(b),
                        ),
                    ),
                );
            },
            Err(ComposeError::InvalidValue(e)) => {
                return Err(Error::FailedEncodeHeaderValue(e));
            },
        };
        let additional = match &self.additional {
            Some(text) => AdditionalData::from_static_with_charset(text.as_str(), charset),
            None => Ok(AdditionalData::Empty),
        };
        match additional {
            Ok(additional) => Ok(Response::from_parts(version, status_code, headers, charset, additional)),
            Err(e) => Err(Error::FailedEncodeAdditionalData(e)),
        }
    }
}

} // verus!
