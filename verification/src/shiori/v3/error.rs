//! The error that a SHIORI service hands back.
use crate::charset::Charset;
use crate::shiori::v3::response::{IntoResponse, Response, ResponseView};
use crate::shiori::v3::status::StatusCode;
use crate::shiori::v3::version::Version;
use crate::util::text::IntoText;
use vstd::pervasive::unreached;
use vstd::prelude::*;
use vstd::string::*;

verus! {

/// What `ShioriError` wants of the error that it wraps: the message that
/// the error shows, and the text that it shows to a developer.
pub trait ErrorSource {
    /// The message of the error.
    fn to_message(&self) -> String;

    /// The text of the error for a developer.
    fn to_detail(&self) -> String;
}

impl<'a> ErrorSource for &'a str {
    fn to_message(&self) -> (s: String)
        ensures
            s@ == self@,
    {
        (*self).to_owned()
    }

    fn to_detail(&self) -> (s: String)
        ensures
            s@ == self@,
    {
        (*self).to_owned()
    }
}

impl ErrorSource for String {
    fn to_message(&self) -> (s: String)
        ensures
            s@ == self@,
    {
        self.clone()
    }

    fn to_detail(&self) -> (s: String)
        ensures
            s@ == self@,
    {
        self.clone()
    }
}

/// Whether an error holds what the source `e` shows and nothing else.
pub open spec fn wraps<E: ErrorSource>(error: ShioriErrorView, e: E) -> bool {
    exists|message: String, detail: String|
        {
            &&& call_ensures(E::to_message, (&e,), message)
            &&& call_ensures(E::to_detail, (&e,), detail)
            &&& error == (ShioriErrorView {
                message: message@,
                detail: detail@,
                context: None,
                version: None,
                status_code: None,
            })
        }
}

/// `ShioriError` is a custom error type used across the SHIORI service.
///
/// It holds what the error that it wraps shows, a context that grows as
/// the error travels up, and the version and status code of the response
/// that is to report it.
#[derive(Debug)]
pub struct ShioriError {
    message: String,
    detail: String,
    context: Option<String>,
    version: Option<Version>,
    status_code: Option<StatusCode>,
}

/// What a `ShioriError` holds.
pub struct ShioriErrorView {
    pub message: Seq<char>,
    pub detail: Seq<char>,
    pub context: Option<Seq<char>>,
    pub version: Option<Version>,
    pub status_code: Option<StatusCode>,
}

/// A context with one more message attached: after the context that is
/// there already, with a colon and a space between them.
pub open spec fn attached(context: Option<Seq<char>>, more: Seq<char>) -> Option<Seq<char>> {
    match context {
        Some(c) => Some(c + ": "@ + more),
        None => Some(more),
    }
}

/// A text after the context, where there is one, with a colon and a space
/// between them.
pub open spec fn in_context(context: Option<Seq<char>>, text: Seq<char>) -> Seq<char> {
    match context {
        Some(c) => c + ": "@ + text,
        None => text,
    }
}

impl View for ShioriError {
    type V = ShioriErrorView;

    closed spec fn view(&self) -> ShioriErrorView {
        ShioriErrorView {
            message: self.message@,
            detail: self.detail@,
            context: match self.context {
                Some(c) => Some(c@),
                None => None,
            },
            version: self.version,
            status_code: self.status_code,
        }
    }
}

impl ShioriError {
    /// Constructs a new `ShioriError` by wrapping an error object.
    pub fn new<E: ErrorSource>(e: E) -> (error: Self)
        ensures
            wraps(error@, e),
    {
        let message = e.to_message();
        let detail = e.to_detail();
        Self { message, detail, context: None, version: None, status_code: None }
    }

    /// Creates a new `ShioriError` from a specific source error.
    pub fn source<E: ErrorSource>(error: E) -> (e: Self)
        ensures
            wraps(e@, error),
    {
        ShioriError::new(error)
    }

    /// Sets the version of the response that is to report the error.
    pub fn with_version(self, version: Version) -> (error: Self)
        ensures
            error@ == (ShioriErrorView { version: Some(version), ..self@ }),
    {
        Self { version: Some(version), ..self }
    }

    /// Sets the status code of the response that is to report the error.
    pub fn with_status_code(self, status_code: StatusCode) -> (error: Self)
        ensures
            error@ == (ShioriErrorView { status_code: Some(status_code), ..self@ }),
    {
        Self { status_code: Some(status_code), ..self }
    }

    /// Attaches a context message to the `ShioriError`.
    ///
    /// If there is an existing context, the new context will be appended to it.
    pub fn context<C: IntoText>(self, context: C) -> (error: Self)
        ensures
            error@ == (ShioriErrorView { context: attached(self@.context, context.text()), ..self@ }),
    {
        let Self { message, detail, context: current, version, status_code } = self;
        let context = match current {
            Some(c) => c.concat(": ").concat(context.into_text().as_str()),
            None => context.into_text(),
        };
        Self { message, detail, context: Some(context), version, status_code }
    }

    /// The message of the error, after its context.
    pub fn to_string(&self) -> (s: String)
        ensures
            s@ == in_context(self@.context, self@.message),
    {
        match &self.context {
            Some(c) => c.clone().concat(": ").concat(self.message.as_str()),
            None => self.message.clone(),
        }
    }

    /// The text of the error for a developer, after its context.
    pub fn to_debug_string(&self) -> (s: String)
        ensures
            s@ == in_context(self@.context, self@.detail),
    {
        match &self.context {
            Some(c) => c.clone().concat(": ").concat(self.detail.as_str()),
            None => self.detail.clone(),
        }
    }
}

impl IntoResponse for ShioriError {
    open spec fn response(&self) -> ResponseView {
        ResponseView {
            version: match self@.version {
                Some(version) => version,
                None => Version::Shiori30,
            },
            status_code: match self@.status_code {
                Some(status_code) => status_code,
                None => StatusCode::InternalServerError,
            },
            headers: Seq::empty(),
            charset: Charset::Ascii,
        }
    }

    /// The response that reports the error: with the version and the
    /// status code that the error was given, or SHIORI/3.0 and `500
    /// Internal Server Error`, and without headers.
    fn into_response(self) -> (response: Response) {
        let version = match self.version {
            Some(version) => version,
            None => Version::Shiori30,
        };
        let status_code = match self.status_code {
            Some(status_code) => status_code,
            None => StatusCode::InternalServerError,
        };
        match Response::builder().version(version).status_code(status_code).build() {
            Ok(response) => response,
            Err(_) => unreached(),
        }
    }
}

/// `ShioriErrorContext` provides extension methods to attach additional context information
/// to the `ShioriError`.
pub trait ShioriErrorContext: Sized {
    /// What the value is with a context message attached.
    spec fn with(self, context: Seq<char>, result: Self) -> bool;

    /// Whether the value needs no context, and `result` is the value as it was.
    spec fn untouched(self, result: Self) -> bool;

    /// Attaches a context message to the `ShioriError`.
    fn context<C: IntoText>(self, context: C) -> (res: Self)
        ensures
            self.with(context.text(), res),
    ;

    /// Attaches a context message to the `ShioriError`, where the context is produced by a function.
    ///
    /// The function is only called if there is an error.
    fn with_context<F: FnOnce() -> I, I: IntoText>(self, f: F) -> (res: Self)
        requires
            f.requires(()),
        ensures
            self.untouched(res) || exists|context: I|
                f.ensures((), context) && self.with(context.text(), res),
    ;
}

impl<T> ShioriErrorContext for Result<T, ShioriError> {
    /// A success stays what it is; an error has the message attached to
    /// its context.
    open spec fn with(self, context: Seq<char>, result: Self) -> bool {
        match self {
            Ok(value) => result == Ok::<T, ShioriError>(value),
            Err(e) => result is Err && result->Err_0@ == (ShioriErrorView {
                context: attached(e@.context, context),
                ..e@
            }),
        }
    }

    /// A success needs no context.
    open spec fn untouched(self, result: Self) -> bool {
        match self {
            Ok(value) => result == Ok::<T, ShioriError>(value),
            Err(_) => false,
        }
    }

    fn context<C: IntoText>(self, context: C) -> (res: Self) {
        match self {
            Ok(value) => Ok(value),
            Err(e) => Err(e.context(context)),
        }
    }

    fn with_context<F: FnOnce() -> I, I: IntoText>(self, f: F) -> (res: Self) {
        match self {
            Ok(value) => Ok(value),
            Err(e) => {
                let context = f();
                let ghost text = context.text();
                let res = Err(e.context(context));
                assert(f.ensures((), context) && self.with(text, res));
                res
            },
        }
    }
}

} // verus!
