//! Reading SSTP messages from bytes.
//!
//! The grammar is written down twice: as specification functions from a
//! byte sequence to what it stands for, and as executable readers on a
//! cursor. Each reader's contract says that it computes the specification
//! function of the same name.
use crate::charset;
use crate::charset::{charset_named, invalid_message, Charset};
use crate::header::lines::{
    after_fields, are_wire_fields, fields_bytes, first_field, header_block, lemma_crlf_at,
    lemma_field_line_shrinks, lemma_first_bad_byte, lemma_header_block, lemma_header_block_wire,
    read_field_line, BlockError, Field,
};
use crate::header::value::{value_text, ErrorView as HeaderValueErrorView};
use crate::sstp::header::{HeaderMap, HeaderName, HeaderNameError, HeaderValue, HeaderValueError};
use crate::sstp::method::Method;
use crate::sstp::request::{Request, RequestView};
use crate::sstp::response::{
    additional_bytes, AdditionalData, AdditionalView, Response, ResponseView,
};
use crate::sstp::status::StatusCode;
use crate::sstp::version::Version;
use crate::util::bytes::has_prefix;
use crate::util::cursor::{
    crlf, find, key_bytes, keyword_match, lemma_find, lemma_find_some, lemma_run_length_of,
    run_length, ByteCursor, KeywordMatch, MatchError, ReadError, CR, LF, SPACE,
};
use crate::util::string::Error as Rfc7230StringConvertError;
use vstd::prelude::*;
use vstd::string::*;
use vstd::utf8::{decode_utf8, encode_utf8_decode_utf8};

verus! {

/// Error that can occur when parse from bytes.
#[derive(Debug)]
pub enum Error {
    /// The input ended too early, or other bytes stood where a line
    /// terminator had to stand.
    Io(ReadError),
    /// The request line does not begin with a method and a space.
    InvalidMethod,
    /// The version is none of `SSTP/1.0` to `SSTP/1.4`.
    InvalidVersion,
    /// The status line names no status code of the protocol.
    InvalidStatusCode,
    /// A header name holds a byte that is no token character.
    InvalidHeaderName(HeaderNameError),
    /// The message lacks this header.
    MissingHeader(HeaderName),
    /// The value of this header cannot be read as text.
    FailedDecode(HeaderName, HeaderValueError),
    /// The `Charset` header names no charset that is supported.
    UnsupportedCharset(charset::Error),
    /// Bytes follow the end of the message.
    UnexpectedEof,
}

/// An `Error`, with names as bytes and texts as sequences of characters.
pub enum ErrorView {
    Io(ReadError),
    InvalidMethod,
    InvalidVersion,
    InvalidStatusCode,
    InvalidHeaderName(HeaderNameError),
    MissingHeader(Seq<u8>),
    FailedDecode(Seq<u8>, HeaderValueErrorView),
    UnsupportedCharset(Seq<char>),
    UnexpectedEof,
}

impl View for Error {
    type V = ErrorView;

    open spec fn view(&self) -> ErrorView {
        match self {
            Error::Io(e) => ErrorView::Io(*e),
            Error::InvalidMethod => ErrorView::InvalidMethod,
            Error::InvalidVersion => ErrorView::InvalidVersion,
            Error::InvalidStatusCode => ErrorView::InvalidStatusCode,
            Error::InvalidHeaderName(e) => ErrorView::InvalidHeaderName(*e),
            Error::MissingHeader(name) => ErrorView::MissingHeader(name@),
            Error::FailedDecode(name, e) => ErrorView::FailedDecode(name@, e@),
            Error::UnsupportedCharset(e) => ErrorView::UnsupportedCharset(e@),
            Error::UnexpectedEof => ErrorView::UnexpectedEof,
        }
    }
}

impl ErrorView {
    /// The text of the message for this error.
    pub open spec fn message_spec(self) -> Seq<char> {
        match self {
            ErrorView::Io(e) => "read error: "@ + e.message_spec(),
            ErrorView::InvalidMethod => invalid_method_message()@,
            ErrorView::InvalidVersion => invalid_version_message()@,
            ErrorView::InvalidStatusCode =>
                "invalid status code: please use a status code of the protocol"@,
            ErrorView::InvalidHeaderName(e) => e.message_spec(),
            ErrorView::MissingHeader(name) => "`"@ + decode_utf8(name) + "` header not found"@,
            ErrorView::FailedDecode(name, e) => e.message_spec() + " in `"@ + decode_utf8(name)
                + "` header"@,
            ErrorView::UnsupportedCharset(name) => invalid_message(name),
            ErrorView::UnexpectedEof => "unexpected eof"@,
        }
    }
}

/// The message for a method that is none of the protocol's.
pub open spec fn invalid_method_message() -> &'static str {
    "invalid method: please use `NOTIFY`, `SEND`, `EXECUTE`, `GIVE` or `COMMUNICATE` for the method"
}

/// The message for a version that is none of the protocol's.
pub open spec fn invalid_version_message() -> &'static str {
    "invalid version: please use `SSTP/1.0`, `SSTP/1.1`, `SSTP/1.2`, `SSTP/1.3` or `SSTP/1.4` for the version"
}

impl Error {
    /// The message shown for this error.
    pub fn message(&self) -> (text: String)
        ensures
            text@ == self@.message_spec(),
    {
        match self {
            Error::Io(e) => "read error: ".to_owned().concat(e.message()),
            Error::InvalidMethod =>
                "invalid method: please use `NOTIFY`, `SEND`, `EXECUTE`, `GIVE` or `COMMUNICATE` for the method".to_owned(),
            Error::InvalidVersion =>
                "invalid version: please use `SSTP/1.0`, `SSTP/1.1`, `SSTP/1.2`, `SSTP/1.3` or `SSTP/1.4` for the version".to_owned(),
            Error::InvalidStatusCode =>
                "invalid status code: please use a status code of the protocol".to_owned(),
            Error::InvalidHeaderName(e) => e.message(),
            Error::MissingHeader(name) => {
                proof {
                    name.lemma_name_bytes();
                    encode_utf8_decode_utf8(name.name());
                }
                "`".to_owned().concat(name.as_str()).concat("` header not found")
            },
            Error::FailedDecode(name, e) => {
                proof {
                    name.lemma_name_bytes();
                    encode_utf8_decode_utf8(name.name());
                }
                e.message().concat(" in `").concat(name.as_str()).concat("` header")
            },
            Error::UnsupportedCharset(e) => e.message(),
            Error::UnexpectedEof => "unexpected eof".to_owned(),
        }
    }
}

/// Whether a reader's result and what it left unread are what the
/// grammar says of what it was given.
pub open spec fn reads<T>(
    res: Result<T, Error>,
    left: Seq<u8>,
    expected: Result<(T, Seq<u8>), ErrorView>,
) -> bool {
    match expected {
        Ok((value, rest)) => res == Ok::<T, Error>(value) && left == rest,
        Err(e) => res is Err && res->Err_0@ == e,
    }
}

/// The method at the head of `s`, and what follows it.
pub open spec fn method_of(s: Seq<u8>) -> Result<(Method, Seq<u8>), ErrorView> {
    match keyword_match(s, key_bytes(Method::keywords()), 1) {
        KeywordMatch::Found(i) => Ok(
            (Method::at(i), s.skip(key_bytes(Method::keywords())[i].len() as int)),
        ),
        KeywordMatch::Unknown => Err(ErrorView::InvalidMethod),
        KeywordMatch::Eof => Err(ErrorView::Io(ReadError::UnexpectedEof)),
    }
}

/// The version at the head of `s`, and what follows it.
pub open spec fn version_of(s: Seq<u8>) -> Result<(Version, Seq<u8>), ErrorView> {
    match keyword_match(s, key_bytes(Version::keywords()), 8) {
        KeywordMatch::Found(i) => Ok(
            (Version::at(i), s.skip(key_bytes(Version::keywords())[i].len() as int)),
        ),
        KeywordMatch::Unknown => Err(ErrorView::InvalidVersion),
        KeywordMatch::Eof => Err(ErrorView::Io(ReadError::UnexpectedEof)),
    }
}

/// The status code and reason at the head of `s`, and what follows them.
pub open spec fn status_code_of(s: Seq<u8>) -> Result<(StatusCode, Seq<u8>), ErrorView> {
    match keyword_match(s, key_bytes(StatusCode::keywords()), 3) {
        KeywordMatch::Found(i) => Ok(
            (StatusCode::at(i), s.skip(key_bytes(StatusCode::keywords())[i].len() as int)),
        ),
        KeywordMatch::Unknown => Err(ErrorView::InvalidStatusCode),
        KeywordMatch::Eof => Err(ErrorView::Io(ReadError::UnexpectedEof)),
    }
}

/// What follows the spaces at the head of `s`.
pub open spec fn spaces_of(s: Seq<u8>) -> Seq<u8> {
    s.skip(run_length(s, SPACE) as int)
}

/// What follows the line terminator at the head of `s`.
pub open spec fn newline_of(s: Seq<u8>) -> Result<Seq<u8>, ErrorView> {
    if s.len() < 2 {
        Err(ErrorView::Io(ReadError::UnexpectedEof))
    } else if has_prefix(s, crlf()) {
        Ok(s.skip(2))
    } else {
        Err(ErrorView::Io(ReadError::UnexpectedBytes))
    }
}

/// Nothing may stand in `s`.
pub open spec fn end_of(s: Seq<u8>) -> Result<(), ErrorView> {
    if s.len() == 0 {
        Ok(())
    } else {
        Err(ErrorView::UnexpectedEof)
    }
}

/// The header fields at the head of `s`, and the bytes from the blank
/// line on.
pub open spec fn headers_of(s: Seq<u8>) -> Result<(Seq<Field>, Seq<u8>), ErrorView> {
    match header_block(s) {
        Ok((fields, rest)) => Ok((fields, rest)),
        Err(BlockError::Truncated) => Err(ErrorView::Io(ReadError::UnexpectedEof)),
        Err(BlockError::InvalidName(b)) => Err(
            ErrorView::InvalidHeaderName(
                HeaderNameError::InvalidHeaderName(Rfc7230StringConvertError::InvalidCharacter(b)),
            ),
        ),
    }
}

/// The charset that the fields declare. SSTP demands the `Charset` header;
/// of several, the first counts.
pub open spec fn charset_of(fields: Seq<Field>) -> Result<Charset, ErrorView> {
    match first_field(fields, HeaderName::Charset@) {
        None => Err(ErrorView::MissingHeader(HeaderName::Charset@)),
        Some(bytes) => match value_text(bytes, Charset::Ascii) {
            Err(e) => Err(ErrorView::FailedDecode(HeaderName::Charset@, e)),
            Ok(text) => match charset_named(text) {
                Some(charset) => Ok(charset),
                None => Err(ErrorView::UnsupportedCharset(text)),
            },
        },
    }
}

/// The lines of additional data at the head of `s`, each with its line
/// terminator, up to a blank line, which is left standing.
pub open spec fn text_lines(s: Seq<u8>) -> Result<(Seq<u8>, Seq<u8>), ErrorView>
    decreases s.len(),
{
    if s.len() < 2 {
        Err(ErrorView::Io(ReadError::UnexpectedEof))
    } else if s[0] == CR && s[1] == LF {
        Ok((Seq::empty(), s))
    } else {
        match find(s, crlf()) {
            None => Err(ErrorView::Io(ReadError::UnexpectedEof)),
            Some(e) => {
                proof {
                    lemma_find(s, crlf());
                }
                match text_lines(s.skip(e + 2)) {
                    Ok((lines, rest)) => Ok((s.take(e) + crlf() + lines, rest)),
                    Err(err) => Err(err),
                }
            },
        }
    }
}

/// The outcome of reading lines of which `done` has been read already and
/// the rest comes to `outcome`.
pub open spec fn after_lines(
    done: Seq<u8>,
    outcome: Result<(Seq<u8>, Seq<u8>), ErrorView>,
) -> Result<(Seq<u8>, Seq<u8>), ErrorView> {
    match outcome {
        Ok((lines, rest)) => Ok((done + lines, rest)),
        Err(e) => Err(e),
    }
}

/// The additional data at the head of `s`: none where nothing is left,
/// else the lines up to a blank line.
pub open spec fn additional_of(s: Seq<u8>) -> Result<(AdditionalView, Seq<u8>), ErrorView> {
    if s.len() == 0 {
        Ok((AdditionalView::Empty, s))
    } else {
        match text_lines(s) {
            Ok((lines, rest)) => Ok((AdditionalView::Text(lines), rest)),
            Err(e) => Err(e),
        }
    }
}

/// The request line at the head of `s`: a method, one space or more, a
/// version and a line terminator.
pub open spec fn request_line_of(s: Seq<u8>) -> Result<(Method, Version, Seq<u8>), ErrorView> {
    match method_of(s) {
        Err(e) => Err(e),
        Ok((method, s1)) => if run_length(s1, SPACE) == 0 {
            Err(ErrorView::InvalidMethod)
        } else {
            match version_of(spaces_of(s1)) {
                Err(e) => Err(e),
                Ok((version, s2)) => match newline_of(s2) {
                    Err(e) => Err(e),
                    Ok(s3) => Ok((method, version, s3)),
                },
            }
        },
    }
}

/// The status line at the head of `s`: a version, one space or more, a
/// status code with its reason and a line terminator.
pub open spec fn status_line_of(s: Seq<u8>) -> Result<(Version, StatusCode, Seq<u8>), ErrorView> {
    match version_of(s) {
        Err(e) => Err(e),
        Ok((version, s1)) => if run_length(s1, SPACE) == 0 {
            Err(ErrorView::InvalidVersion)
        } else {
            match status_code_of(spaces_of(s1)) {
                Err(e) => Err(e),
                Ok((status_code, s2)) => match newline_of(s2) {
                    Err(e) => Err(e),
                    Ok(s3) => Ok((version, status_code, s3)),
                },
            }
        },
    }
}

/// The header section at the head of `s`: the header fields, the charset
/// that they declare, and the blank line.
pub open spec fn section_of(s: Seq<u8>) -> Result<(Seq<Field>, Charset, Seq<u8>), ErrorView> {
    match headers_of(s) {
        Err(e) => Err(e),
        Ok((headers, s1)) => match charset_of(headers) {
            Err(e) => Err(e),
            Ok(charset) => match newline_of(s1) {
                Err(e) => Err(e),
                Ok(s2) => Ok((headers, charset, s2)),
            },
        },
    }
}

/// The request that `s` stands for: a request line, the header section,
/// and then nothing.
pub open spec fn request_of(s: Seq<u8>) -> Result<RequestView, ErrorView> {
    match request_line_of(s) {
        Err(e) => Err(e),
        Ok((method, version, s1)) => match section_of(s1) {
            Err(e) => Err(e),
            Ok((headers, charset, s2)) => match end_of(s2) {
                Err(e) => Err(e),
                Ok(_) => Ok(RequestView { method, version, headers, charset }),
            },
        },
    }
}

/// What must follow the additional data of a response: a blank line
/// where there is any, and then nothing.
pub open spec fn trailer_of(additional: AdditionalView, s: Seq<u8>) -> Result<(), ErrorView> {
    match additional {
        AdditionalView::Empty => end_of(s),
        AdditionalView::Text(_) => match newline_of(s) {
            Err(e) => Err(e),
            Ok(rest) => end_of(rest),
        },
    }
}

/// The additional data that ends a response, with the blank line that
/// must follow it where there is any.
pub open spec fn tail_of(s: Seq<u8>) -> Result<AdditionalView, ErrorView> {
    match additional_of(s) {
        Err(e) => Err(e),
        Ok((additional, rest)) => match trailer_of(additional, rest) {
            Err(e) => Err(e),
            Ok(_) => Ok(additional),
        },
    }
}

/// The response that `s` stands for: a status line, the header section,
/// and then either nothing or lines of additional data and a blank line.
pub open spec fn response_of(s: Seq<u8>) -> Result<ResponseView, ErrorView> {
    match status_line_of(s) {
        Err(e) => Err(e),
        Ok((version, status_code, s1)) => match section_of(s1) {
            Err(e) => Err(e),
            Ok((headers, charset, s2)) => match tail_of(s2) {
                Err(e) => Err(e),
                Ok(additional) => Ok(
                    ResponseView { version, status_code, headers, charset, additional },
                ),
            },
        },
    }
}

/// A request line that was written is read back as it was, and what
/// follows it is left.
pub proof fn lemma_request_line(method: Method, version: Version, rest: Seq<u8>)
    ensures
        request_line_of(
            method.name_bytes() + seq![SPACE] + version.name_bytes() + crlf() + rest,
        ) == Ok::<(Method, Version, Seq<u8>), ErrorView>((method, version, rest)),
{
    let s = method.name_bytes() + seq![SPACE] + version.name_bytes() + crlf() + rest;
    let after_version = crlf() + rest;
    let after_space = version.name_bytes() + after_version;
    let after_method = seq![SPACE] + after_space;
    assert(s =~= method.name_bytes() + after_method);
    method.lemma_found(after_method);
    version.lemma_found(after_version);
    assert(after_space[0] == version.name_bytes()[0]);
    assert(seq![SPACE] =~= Seq::new(1, |i: int| SPACE));
    lemma_run_length_of(1, SPACE, after_space);
    assert(spaces_of(after_method) == after_space);
    assert(after_version.take(2) =~= crlf());
    assert(after_version.skip(2) =~= rest);
}

/// A status line that was written is read back as it was, and what
/// follows it is left.
pub proof fn lemma_status_line(version: Version, status_code: StatusCode, rest: Seq<u8>)
    ensures
        status_line_of(
            version.name_bytes() + seq![SPACE] + status_code.name_bytes() + crlf() + rest,
        ) == Ok::<(Version, StatusCode, Seq<u8>), ErrorView>((version, status_code, rest)),
{
    let s = version.name_bytes() + seq![SPACE] + status_code.name_bytes() + crlf() + rest;
    let after_status = crlf() + rest;
    let after_space = status_code.name_bytes() + after_status;
    let after_version = seq![SPACE] + after_space;
    assert(s =~= version.name_bytes() + after_version);
    version.lemma_found(after_version);
    status_code.lemma_found(after_status);
    assert(after_space[0] == status_code.name_bytes()[0]);
    assert(seq![SPACE] =~= Seq::new(1, |i: int| SPACE));
    lemma_run_length_of(1, SPACE, after_space);
    assert(spaces_of(after_version) == after_space);
    assert(after_status.take(2) =~= crlf());
    assert(after_status.skip(2) =~= rest);
}

/// A header section that was written is read back as it was, and what
/// follows it is left.
pub proof fn lemma_section(fields: Seq<Field>, charset: Charset, rest: Seq<u8>)
    requires
        are_wire_fields(fields),
        charset_of(fields) == Ok::<Charset, ErrorView>(charset),
    ensures
        section_of(fields_bytes(fields) + crlf() + rest) == Ok::<
            (Seq<Field>, Charset, Seq<u8>),
            ErrorView,
        >((fields, charset, rest)),
{
    let tail = crlf() + rest;
    assert(fields_bytes(fields) + crlf() + rest =~= fields_bytes(fields) + tail);
    assert(tail.take(2) =~= crlf());
    lemma_header_block(fields, tail);
    assert(tail.skip(2) =~= rest);
}

/// The fields and the charset that are read from a header section are
/// those of a wire message: the fields are wire fields, and the charset is
/// the one that they declare.
pub proof fn lemma_section_wire(s: Seq<u8>)
    ensures
        section_of(s) matches Ok((fields, charset, rest)) ==> are_wire_fields(fields) && charset_of(
            fields,
        ) == Ok::<Charset, ErrorView>(charset),
{
    lemma_header_block_wire(s);
}

/// Whether bytes are lines, each with its line terminator and none of them
/// empty.
pub open spec fn are_lines(bytes: Seq<u8>) -> bool
    decreases bytes.len(),
{
    bytes.len() == 0 || match find(bytes, crlf()) {
        Some(e) => {
            proof {
                lemma_find(bytes, crlf());
            }
            e > 0 && are_lines(bytes.skip(e + 2))
        },
        None => false,
    }
}

/// Lines that are followed by a blank line are read back as they are, and
/// the blank line is left standing.
pub proof fn lemma_text_lines(bytes: Seq<u8>)
    requires
        are_lines(bytes),
    ensures
        text_lines(bytes + crlf()) == Ok::<(Seq<u8>, Seq<u8>), ErrorView>((bytes, crlf())),
    decreases bytes.len(),
{
    let s = bytes + crlf();
    if bytes.len() == 0 {
        assert(s =~= crlf());
        assert(Seq::<u8>::empty() =~= bytes);
    } else {
        lemma_find(bytes, crlf());
        let e = find(bytes, crlf())->Some_0;
        lemma_crlf_at(bytes, e);
        lemma_crlf_at(s, 0);
        lemma_crlf_at(bytes, 0);
        assert(s[0] == bytes[0] && s[1] == bytes[1]);
        assert(!has_prefix(bytes.skip(0), crlf()));
        assert(s.skip(0) =~= s);
        lemma_crlf_at(s, e);
        assert(s[e] == bytes[e] && s[e + 1] == bytes[e + 1]);
        assert forall|j: int| 0 <= j < e implies !has_prefix(#[trigger] s.skip(j), crlf()) by {
            lemma_crlf_at(s, j);
            lemma_crlf_at(bytes, j);
            assert(s[j] == bytes[j] && s[j + 1] == bytes[j + 1]);
            assert(!has_prefix(bytes.skip(j), crlf()));
        }
        lemma_find_some(s, crlf(), e);
        let rest = bytes.skip(e + 2);
        assert(s.skip(e + 2) =~= rest + crlf());
        lemma_text_lines(rest);
        assert(s.take(e) + crlf() + rest =~= bytes);
    }
}

/// Whether additional data comes back from the wire as it went: where
/// there is any, it is made of lines.
pub open spec fn is_wire_additional(additional: AdditionalView) -> bool {
    additional matches AdditionalView::Text(bytes) ==> are_lines(bytes)
}

/// The lines that are read are lines.
pub proof fn lemma_text_lines_wire(s: Seq<u8>)
    ensures
        text_lines(s) matches Ok((lines, rest)) ==> are_lines(lines),
    decreases s.len(),
{
    if s.len() >= 2 && !(s[0] == CR && s[1] == LF) {
        if let Some(e) = find(s, crlf()) {
            lemma_find(s, crlf());
            lemma_text_lines_wire(s.skip(e + 2));
            if let Ok((lines, rest)) = text_lines(s.skip(e + 2)) {
                let all = s.take(e) + crlf() + lines;
                lemma_crlf_at(s, e);
                lemma_crlf_at(all, e);
                assert(all[e] == CR && all[e + 1] == LF);
                assert forall|j: int| 0 <= j < e implies !has_prefix(
                    #[trigger] all.skip(j),
                    crlf(),
                ) by {
                    lemma_crlf_at(all, j);
                    lemma_crlf_at(s, j);
                    assert(all[j] == s[j]);
                    if j + 1 < e {
                        assert(all[j + 1] == s[j + 1]);
                    } else {
                        assert(all[j + 1] == CR);
                    }
                    assert(!has_prefix(s.skip(j), crlf()));
                }
                lemma_find_some(all, crlf(), e);
                assert(all.skip(e + 2) =~= lines);
                lemma_crlf_at(s, 0);
                assert(s.skip(0) =~= s);
                assert(e > 0);
            }
        }
    }
}

/// The additional data that is read from the end of a response is wire
/// data.
pub proof fn lemma_tail_wire(s: Seq<u8>)
    ensures
        tail_of(s) matches Ok(additional) ==> is_wire_additional(additional),
{
    if s.len() > 0 {
        lemma_text_lines_wire(s);
    }
}

/// Additional data that was written is read back as it was.
pub proof fn lemma_tail(additional: AdditionalView)
    requires
        is_wire_additional(additional),
    ensures
        tail_of(additional_bytes(additional)) == Ok::<AdditionalView, ErrorView>(additional),
{
    match additional {
        AdditionalView::Empty => {},
        AdditionalView::Text(bytes) => {
            lemma_text_lines(bytes);
            assert(crlf().take(2) =~= crlf());
            assert(crlf().skip(2) =~= Seq::<u8>::empty());
        },
    }
}

/// Parses a request.
pub fn parse_request(input: &[u8]) -> (res: Result<Request, Error>)
    ensures
        match request_of(input@) {
            Ok(request) => res is Ok && res->Ok_0@ == request && res->Ok_0.wf(),
            Err(e) => res is Err && res->Err_0@ == e,
        },
{
    let mut cursor = ByteCursor::new(input);
    let (method, version) = match parse_request_line(&mut cursor) {
        Ok(line) => line,
        Err(e) => {
            return Err(e);
        },
    };
    let (headers, charset) = match parse_section(&mut cursor) {
        Ok(section) => section,
        Err(e) => {
            return Err(e);
        },
    };
    match eof(&mut cursor) {
        Ok(_) => Ok(Request::from_parts(method, version, headers, charset)),
        Err(e) => Err(e),
    }
}

/// Parses a response.
pub fn parse_response(input: &[u8]) -> (res: Result<Response, Error>)
    ensures
        match response_of(input@) {
            Ok(response) => res is Ok && res->Ok_0@ == response && res->Ok_0.wf(),
            Err(e) => res is Err && res->Err_0@ == e,
        },
{
    let mut cursor = ByteCursor::new(input);
    let (version, status_code) = match parse_status_line(&mut cursor) {
        Ok(line) => line,
        Err(e) => {
            return Err(e);
        },
    };
    let (headers, charset) = match parse_section(&mut cursor) {
        Ok(section) => section,
        Err(e) => {
            return Err(e);
        },
    };
    match parse_tail(&mut cursor) {
        Ok(additional) => Ok(
            Response::from_parts(version, status_code, headers, charset, additional),
        ),
        Err(e) => Err(e),
    }
}

/// Reads a request line.
pub fn parse_request_line(cursor: &mut ByteCursor) -> (res: Result<(Method, Version), Error>)
    ensures
        final(cursor).wf(),
        final(cursor).input() == old(cursor).input(),
        match request_line_of(old(cursor).remaining()) {
            Ok((method, version, rest)) => res == Ok::<(Method, Version), Error>((method, version))
                && final(cursor).remaining() == rest,
            Err(e) => res is Err && res->Err_0@ == e,
        },
{
    let method = match parse_method(cursor) {
        Ok(method) => method,
        Err(e) => {
            return Err(e);
        },
    };
    if skip_spaces(cursor) == 0 {
        return Err(Error::InvalidMethod);
    }
    let version = match parse_version(cursor) {
        Ok(version) => version,
        Err(e) => {
            return Err(e);
        },
    };
    match skip_newline(cursor) {
        Ok(_) => Ok((method, version)),
        Err(e) => Err(e),
    }
}

/// Reads a status line.
pub fn parse_status_line(cursor: &mut ByteCursor) -> (res: Result<(Version, StatusCode), Error>)
    ensures
        final(cursor).wf(),
        final(cursor).input() == old(cursor).input(),
        match status_line_of(old(cursor).remaining()) {
            Ok((version, status_code, rest)) => res == Ok::<(Version, StatusCode), Error>(
                (version, status_code),
            ) && final(cursor).remaining() == rest,
            Err(e) => res is Err && res->Err_0@ == e,
        },
{
    let version = match parse_version(cursor) {
        Ok(version) => version,
        Err(e) => {
            return Err(e);
        },
    };
    if skip_spaces(cursor) == 0 {
        return Err(Error::InvalidVersion);
    }
    let status_code = match parse_status_code(cursor) {
        Ok(status_code) => status_code,
        Err(e) => {
            return Err(e);
        },
    };
    match skip_newline(cursor) {
        Ok(_) => Ok((version, status_code)),
        Err(e) => Err(e),
    }
}

/// Reads the header section: the fields, the charset that they declare,
/// and the blank line.
pub fn parse_section(cursor: &mut ByteCursor) -> (res: Result<(HeaderMap, Charset), Error>)
    ensures
        final(cursor).wf(),
        final(cursor).input() == old(cursor).input(),
        match section_of(old(cursor).remaining()) {
            Ok((headers, charset, rest)) => {
                &&& res is Ok
                &&& res->Ok_0.0.fields() == headers
                &&& res->Ok_0.0.wf()
                &&& res->Ok_0.1 == charset
                &&& final(cursor).remaining() == rest
            },
            Err(e) => res is Err && res->Err_0@ == e,
        },
{
    let headers = match parse_headers(cursor) {
        Ok(headers) => headers,
        Err(e) => {
            return Err(e);
        },
    };
    let charset = match parse_charset(&headers) {
        Ok(charset) => charset,
        Err(e) => {
            return Err(e);
        },
    };
    match skip_newline(cursor) {
        Ok(_) => Ok((headers, charset)),
        Err(e) => Err(e),
    }
}

/// Reads what ends a response: the additional data, the blank line that
/// follows it where there is any, and the end of the input.
pub fn parse_tail(cursor: &mut ByteCursor) -> (res: Result<AdditionalData, Error>)
    ensures
        final(cursor).wf(),
        final(cursor).input() == old(cursor).input(),
        match tail_of(old(cursor).remaining()) {
            Ok(additional) => res is Ok && res->Ok_0@ == additional,
            Err(e) => res is Err && res->Err_0@ == e,
        },
{
    let additional = match parse_additional_data(cursor) {
        Ok(additional) => additional,
        Err(e) => {
            return Err(e);
        },
    };
    match additional {
        AdditionalData::Text(_) => {
            match skip_newline(cursor) {
                Ok(_) => {},
                Err(e) => {
                    return Err(e);
                },
            }
        },
        AdditionalData::Empty => {},
    }
    match eof(cursor) {
        Ok(_) => Ok(additional),
        Err(e) => Err(e),
    }
}

/// Reads a method.
pub fn parse_method(cursor: &mut ByteCursor) -> (res: Result<Method, Error>)
    ensures
        final(cursor).wf(),
        final(cursor).input() == old(cursor).input(),
        reads(res, final(cursor).remaining(), method_of(old(cursor).remaining())),
{
    let keys: [&'static str; 5] = ["NOTIFY", "SEND", "EXECUTE", "GIVE", "COMMUNICATE"];
    proof {
        Method::lemma_keyword_bytes();
        assert(keys@ =~= Method::keywords());
    }
    match cursor.read_match(keys.as_slice(), 1) {
        Ok(i) => Ok(Method::from_index(i)),
        Err(MatchError::Unknown) => Err(Error::InvalidMethod),
        Err(MatchError::Eof) => Err(Error::Io(ReadError::UnexpectedEof)),
    }
}

/// Reads a version.
pub fn parse_version(cursor: &mut ByteCursor) -> (res: Result<Version, Error>)
    ensures
        final(cursor).wf(),
        final(cursor).input() == old(cursor).input(),
        reads(res, final(cursor).remaining(), version_of(old(cursor).remaining())),
{
    let keys: [&'static str; 5] = ["SSTP/1.0", "SSTP/1.1", "SSTP/1.2", "SSTP/1.3", "SSTP/1.4"];
    proof {
        Version::lemma_keyword_bytes();
        assert(keys@ =~= Version::keywords());
    }
    match cursor.read_match(keys.as_slice(), 8) {
        Ok(i) => Ok(Version::from_index(i)),
        Err(MatchError::Unknown) => Err(Error::InvalidVersion),
        Err(MatchError::Eof) => Err(Error::Io(ReadError::UnexpectedEof)),
    }
}

/// Reads a status code and its reason.
pub fn parse_status_code(cursor: &mut ByteCursor) -> (res: Result<StatusCode, Error>)
    ensures
        final(cursor).wf(),
        final(cursor).input() == old(cursor).input(),
        reads(res, final(cursor).remaining(), status_code_of(old(cursor).remaining())),
{
    let keys: [&'static str; 12] = [
        "200 OK",
        "204 No Content",
        "210 Break",
        "400 Bad Request",
        "408 Request Timeout",
        "409 Conflict",
        "420 Refuse",
        "501 Not Implemented",
        "503 Service Unavailable",
        "510 Not Local IP",
        "511 In Black List",
        "512 Invisible",
    ];
    proof {
        StatusCode::lemma_keyword_bytes();
        assert(keys@ =~= StatusCode::keywords());
    }
    match cursor.read_match(keys.as_slice(), 3) {
        Ok(i) => Ok(StatusCode::from_index(i)),
        Err(MatchError::Unknown) => Err(Error::InvalidStatusCode),
        Err(MatchError::Eof) => Err(Error::Io(ReadError::UnexpectedEof)),
    }
}

/// Reads header fields up to the blank line, which is left standing.
pub fn parse_headers(cursor: &mut ByteCursor) -> (res: Result<HeaderMap, Error>)
    ensures
        final(cursor).wf(),
        final(cursor).input() == old(cursor).input(),
        match headers_of(old(cursor).remaining()) {
            Ok((fields, rest)) => {
                &&& res is Ok
                &&& res->Ok_0.fields() == fields
                &&& res->Ok_0.wf()
                &&& final(cursor).remaining() == rest
            },
            Err(e) => res is Err && res->Err_0@ == e,
        },
{
    proof {
        use_type_invariant(&*cursor);
    }
    let mut map = HeaderMap::new();
    let ghost start = cursor.remaining();
    assert(after_fields(map.fields(), header_block(start)) == header_block(start)) by {
        if let Ok((fields, tail)) = header_block(start) {
            assert(map.fields() + fields =~= fields);
        }
    }
    loop
        invariant
            cursor.wf(),
            cursor.input() == old(cursor).input(),
            start == old(cursor).remaining(),
            map.wf(),
            header_block(start) == after_fields(map.fields(), header_block(cursor.remaining())),
        decreases cursor.remaining().len(),
    {
        let ghost s = cursor.remaining();
        let ghost done = map.fields();
        proof {
            lemma_field_line_shrinks(s);
        }
        match read_field_line(cursor) {
            Err(e) => {
                return Err(Error::Io(e));
            },
            Ok(None) => {
                proof {
                    assert(done + Seq::<Field>::empty() =~= done);
                }
                return Ok(map);
            },
            Ok(Some(field)) => {
                let (name, value) = field;
                match HeaderName::from_bytes(name.as_slice()) {
                    Err(e) => {
                        proof {
                            lemma_first_bad_byte(name@);
                        }
                        return Err(Error::InvalidHeaderName(e));
                    },
                    Ok(n) => {
                        map.insert(n, HeaderValue::from_bytes(value));
                        proof {
                            let rest = cursor.remaining();
                            if let Ok((fields, tail)) = header_block(rest) {
                                assert(done.push((name@, value@)) + fields =~= done + (seq![
                                    (name@, value@),
                                ] + fields));
                            }
                        }
                    },
                }
            },
        }
    }
}

/// Reads the charset that the headers declare.
pub fn parse_charset(headers: &HeaderMap) -> (res: Result<Charset, Error>)
    ensures
        match charset_of(headers.fields()) {
            Ok(charset) => res == Ok::<Charset, Error>(charset),
            Err(e) => res is Err && res->Err_0@ == e,
        },
{
    match headers.get(&HeaderName::CHARSET) {
        None => Err(Error::MissingHeader(HeaderName::CHARSET)),
        Some(value) => match value.text() {
            Err(e) => Err(Error::FailedDecode(HeaderName::CHARSET, e)),
            Ok(text) => match Charset::from_string(text) {
                Ok(charset) => Ok(charset),
                Err(e) => Err(Error::UnsupportedCharset(e)),
            },
        },
    }
}

/// Reads the additional data of a response: nothing where the input has
/// ended, else lines up to a blank line, which is left standing.
pub fn parse_additional_data(cursor: &mut ByteCursor) -> (res: Result<AdditionalData, Error>)
    ensures
        final(cursor).wf(),
        final(cursor).input() == old(cursor).input(),
        match additional_of(old(cursor).remaining()) {
            Ok((additional, rest)) => {
                &&& res is Ok
                &&& res->Ok_0@ == additional
                &&& final(cursor).remaining() == rest
            },
            Err(e) => res is Err && res->Err_0@ == e,
        },
{
    if cursor.is_eof() {
        return Ok(AdditionalData::Empty);
    }
    proof {
        use_type_invariant(&*cursor);
    }
    let mut bytes: Vec<u8> = Vec::new();
    let ghost start = cursor.remaining();
    assert(after_lines(bytes@, text_lines(start)) == text_lines(start)) by {
        if let Ok((lines, rest)) = text_lines(start) {
            assert(bytes@ + lines =~= lines);
        }
    }
    loop
        invariant
            cursor.wf(),
            cursor.input() == old(cursor).input(),
            start == old(cursor).remaining(),
            start.len() > 0,
            text_lines(start) == after_lines(bytes@, text_lines(cursor.remaining())),
        decreases cursor.remaining().len(),
    {
        let ghost s = cursor.remaining();
        let ghost done = bytes@;
        let head = match cursor.lookahead(2) {
            Ok(head) => head,
            Err(e) => {
                return Err(Error::Io(e));
            },
        };
        if head[0] == CR && head[1] == LF {
            proof {
                assert(done + Seq::<u8>::empty() =~= done);
            }
            return Ok(AdditionalData::Text(bytes));
        }
        let line_end: [u8; 2] = [CR, LF];
        assert(line_end@ =~= crlf());
        proof {
            lemma_find(s, crlf());
        }
        let line = match cursor.read_until(line_end.as_slice()) {
            Ok(line) => line,
            Err(e) => {
                return Err(Error::Io(e));
            },
        };
        crate::util::bytes::append_bytes(&mut bytes, line.as_slice());
        bytes.push(CR);
        bytes.push(LF);
        proof {
            assert(bytes@ =~= done + (line@ + crlf()));
            if let Ok((lines, rest)) = text_lines(cursor.remaining()) {
                assert(bytes@ + lines =~= done + (line@ + crlf() + lines));
            }
        }
    }
}

/// Reads the spaces that stand next, and says how many there were.
pub fn skip_spaces(cursor: &mut ByteCursor) -> (n: usize)
    ensures
        final(cursor).wf(),
        final(cursor).input() == old(cursor).input(),
        n == run_length(old(cursor).remaining(), SPACE),
        final(cursor).remaining() == spaces_of(old(cursor).remaining()),
{
    cursor.read_repeat(SPACE)
}

/// Reads a line terminator.
pub fn skip_newline(cursor: &mut ByteCursor) -> (res: Result<(), Error>)
    ensures
        final(cursor).wf(),
        final(cursor).input() == old(cursor).input(),
        match newline_of(old(cursor).remaining()) {
            Ok(rest) => res is Ok && final(cursor).remaining() == rest,
            Err(e) => res is Err && res->Err_0@ == e,
        },
{
    let line_end: [u8; 2] = [CR, LF];
    assert(line_end@ =~= crlf());
    match cursor.read_expect(line_end.as_slice()) {
        Ok(_) => Ok(()),
        Err(e) => Err(Error::Io(e)),
    }
}

/// Succeeds where nothing is left to read.
pub fn eof(cursor: &mut ByteCursor) -> (res: Result<(), Error>)
    ensures
        final(cursor).wf(),
        *final(cursor) == *old(cursor),
        match end_of(old(cursor).remaining()) {
            Ok(_) => res is Ok,
            Err(e) => res is Err && res->Err_0@ == e,
        },
{
    if cursor.is_eof() {
        Ok(())
    } else {
        Err(Error::UnexpectedEof)
    }
}

} // verus!
