//! The tokens of Sakura Script.
use crate::sakura_script::tokenizer::span::Span;
use vstd::prelude::*;
use vstd::string::*;

verus! {

/// The kinds of token.
#[derive(Debug, Clone, Copy, PartialEq, Eq, Hash, Structural)]
pub enum Kind {
    Text,
    Escape,
    Percent,
    Bracket,
    Separator,
    Illegal,
}

/// A token representing a syntactic element in Sakura Script.
///
/// Each token holds its content, a slice of the text it was cut from, and
/// the span at which it stands.
#[derive(Debug, Clone, PartialEq, Eq)]
pub enum Token<'a> {
    Text(Text<'a>),
    Escape(Escape<'a>),
    Percent(Percent<'a>),
    Bracket(Bracket<'a>),
    Separator(Separator<'a>),
    Illegal(Illegal<'a>),
}

impl<'a> Token<'a> {
    /// The kind of the token.
    pub open spec fn kind(&self) -> Kind {
        match self {
            Token::Text(_) => Kind::Text,
            Token::Escape(_) => Kind::Escape,
            Token::Percent(_) => Kind::Percent,
            Token::Bracket(_) => Kind::Bracket,
            Token::Separator(_) => Kind::Separator,
            Token::Illegal(_) => Kind::Illegal,
        }
    }

    /// The content of the token.
    pub open spec fn content(&self) -> Seq<char> {
        match self {
            Token::Text(t) => t.content(),
            Token::Escape(t) => t.content(),
            Token::Percent(t) => t.content(),
            Token::Bracket(t) => t.content(),
            Token::Separator(t) => t.content(),
            Token::Illegal(t) => t.content(),
        }
    }

    /// The span of the token.
    pub open spec fn place(&self) -> Span {
        match self {
            Token::Text(t) => t.place(),
            Token::Escape(t) => t.place(),
            Token::Percent(t) => t.place(),
            Token::Bracket(t) => t.place(),
            Token::Separator(t) => t.place(),
            Token::Illegal(t) => t.place(),
        }
    }

    /// The token as it was written: its content, after the character that
    /// introduces it where its kind has one.
    pub open spec fn written(&self) -> Seq<char> {
        match self {
            Token::Text(t) => t.written(),
            Token::Escape(t) => t.written(),
            Token::Percent(t) => t.written(),
            Token::Bracket(t) => t.written(),
            Token::Separator(t) => t.written(),
            Token::Illegal(t) => t.written(),
        }
    }

    /// Returns the span (position information) of this token.
    pub fn span(&self) -> (span: Span)
        ensures
            span == self.place(),
    {
        match self {
            Token::Text(t) => t.span(),
            Token::Escape(t) => t.span(),
            Token::Percent(t) => t.span(),
            Token::Bracket(t) => t.span(),
            Token::Separator(t) => t.span(),
            Token::Illegal(t) => t.span(),
        }
    }

    /// The token as it was written.
    pub fn to_string(&self) -> (s: String)
        ensures
            s@ == self.written(),
    {
        match self {
            Token::Text(t) => t.to_string(),
            Token::Escape(t) => t.to_string(),
            Token::Percent(t) => t.to_string(),
            Token::Bracket(t) => t.to_string(),
            Token::Separator(t) => t.to_string(),
            Token::Illegal(t) => t.to_string(),
        }
    }
}

/// Regular text: content that is no special syntax.
#[derive(Debug, Clone, PartialEq, Eq)]
pub struct Text<'a> {
    str: &'a str,
    span: Span,
}

impl<'a> Text<'a> {
    /// The content of the token.
    pub closed spec fn content(&self) -> Seq<char> {
        self.str@
    }

    /// The span of the token.
    pub closed spec fn place(&self) -> Span {
        self.span
    }

    /// The token as it was written.
    pub open spec fn written(&self) -> Seq<char> {
        self.content()
    }

    /// A token with this content at this span.
    pub fn new(str: &'a str, span: Span) -> (token: Self)
        ensures
            token.content() == str@,
            token.place() == span,
    {
        Self { str, span }
    }

    /// Returns the span (position information) of this token.
    pub fn span(&self) -> (span: Span)
        ensures
            span == self.place(),
    {
        self.span
    }

    /// The content of the token.
    pub fn as_str(&self) -> (s: &'a str)
        ensures
            s@ == self.content(),
    {
        self.str
    }

    /// The token as it was written.
    pub fn to_string(&self) -> (s: String)
        ensures
            s@ == self.written(),
    {
        self.str.to_owned()
    }
}

/// An escape sequence: a backslash and what follows it. The content is what follows the backslash.
#[derive(Debug, Clone, PartialEq, Eq)]
pub struct Escape<'a> {
    str: &'a str,
    span: Span,
}

impl<'a> Escape<'a> {
    /// The content of the token.
    pub closed spec fn content(&self) -> Seq<char> {
        self.str@
    }

    /// The span of the token.
    pub closed spec fn place(&self) -> Span {
        self.span
    }

    /// The token as it was written.
    pub open spec fn written(&self) -> Seq<char> {
        "\\"@ + self.content()
    }

    /// A token with this content at this span.
    pub fn new(str: &'a str, span: Span) -> (token: Self)
        requires
            str@.len() > 0,
        ensures
            token.content() == str@,
            token.place() == span,
    {
        Self { str, span }
    }

    /// Returns the span (position information) of this token.
    pub fn span(&self) -> (span: Span)
        ensures
            span == self.place(),
    {
        self.span
    }

    /// The content of the token.
    pub fn as_str(&self) -> (s: &'a str)
        ensures
            s@ == self.content(),
    {
        self.str
    }

    /// The token as it was written.
    pub fn to_string(&self) -> (s: String)
        ensures
            s@ == self.written(),
    {
        let s = "\\".to_owned();
        s.concat(self.str)
    }
}

/// A variable reference: a percent sign and a name. The content is the name.
#[derive(Debug, Clone, PartialEq, Eq)]
pub struct Percent<'a> {
    str: &'a str,
    span: Span,
}

impl<'a> Percent<'a> {
    /// The content of the token.
    pub closed spec fn content(&self) -> Seq<char> {
        self.str@
    }

    /// The span of the token.
    pub closed spec fn place(&self) -> Span {
        self.span
    }

    /// The token as it was written.
    pub open spec fn written(&self) -> Seq<char> {
        "%"@ + self.content()
    }

    /// A token with this content at this span.
    pub fn new(str: &'a str, span: Span) -> (token: Self)
        requires
            str@.len() > 0,
        ensures
            token.content() == str@,
            token.place() == span,
    {
        Self { str, span }
    }

    /// Returns the span (position information) of this token.
    pub fn span(&self) -> (span: Span)
        ensures
            span == self.place(),
    {
        self.span
    }

    /// The content of the token.
    pub fn as_str(&self) -> (s: &'a str)
        ensures
            s@ == self.content(),
    {
        self.str
    }

    /// The token as it was written.
    pub fn to_string(&self) -> (s: String)
        ensures
            s@ == self.written(),
    {
        let s = "%".to_owned();
        s.concat(self.str)
    }
}

/// A square bracket, `[` or `]`.
#[derive(Debug, Clone, PartialEq, Eq)]
pub struct Bracket<'a> {
    str: &'a str,
    span: Span,
}

impl<'a> Bracket<'a> {
    /// The content of the token.
    pub closed spec fn content(&self) -> Seq<char> {
        self.str@
    }

    /// The span of the token.
    pub closed spec fn place(&self) -> Span {
        self.span
    }

    /// The token as it was written.
    pub open spec fn written(&self) -> Seq<char> {
        self.content()
    }

    /// A token with this content at this span.
    pub fn new(str: &'a str, span: Span) -> (token: Self)
        requires
            str@ == "["@ || str@ == "]"@,
        ensures
            token.content() == str@,
            token.place() == span,
    {
        Self { str, span }
    }

    /// Returns the span (position information) of this token.
    pub fn span(&self) -> (span: Span)
        ensures
            span == self.place(),
    {
        self.span
    }

    /// The content of the token.
    pub fn as_str(&self) -> (s: &'a str)
        ensures
            s@ == self.content(),
    {
        self.str
    }

    /// The token as it was written.
    pub fn to_string(&self) -> (s: String)
        ensures
            s@ == self.written(),
    {
        self.str.to_owned()
    }
}

/// A comma.
#[derive(Debug, Clone, PartialEq, Eq)]
pub struct Separator<'a> {
    str: &'a str,
    span: Span,
}

impl<'a> Separator<'a> {
    /// The content of the token.
    pub closed spec fn content(&self) -> Seq<char> {
        self.str@
    }

    /// The span of the token.
    pub closed spec fn place(&self) -> Span {
        self.span
    }

    /// The token as it was written.
    pub open spec fn written(&self) -> Seq<char> {
        self.content()
    }

    /// A token with this content at this span.
    pub fn new(str: &'a str, span: Span) -> (token: Self)
        requires
            str@ == ","@,
        ensures
            token.content() == str@,
            token.place() == span,
    {
        Self { str, span }
    }

    /// Returns the span (position information) of this token.
    pub fn span(&self) -> (span: Span)
        ensures
            span == self.place(),
    {
        self.span
    }

    /// The content of the token.
    pub fn as_str(&self) -> (s: &'a str)
        ensures
            s@ == self.content(),
    {
        self.str
    }

    /// The token as it was written.
    pub fn to_string(&self) -> (s: String)
        ensures
            s@ == self.written(),
    {
        self.str.to_owned()
    }
}

/// A backslash or a percent sign with nothing that it could introduce.
#[derive(Debug, Clone, PartialEq, Eq)]
pub struct Illegal<'a> {
    str: &'a str,
    span: Span,
}

impl<'a> Illegal<'a> {
    /// The content of the token.
    pub closed spec fn content(&self) -> Seq<char> {
        self.str@
    }

    /// The span of the token.
    pub closed spec fn place(&self) -> Span {
        self.span
    }

    /// The token as it was written.
    pub open spec fn written(&self) -> Seq<char> {
        self.content()
    }

    /// A token with this content at this span.
    pub fn new(str: &'a str, span: Span) -> (token: Self)
        requires
            str@ == "\\"@ || str@ == "%"@,
        ensures
            token.content() == str@,
            token.place() == span,
    {
        Self { str, span }
    }

    /// Returns the span (position information) of this token.
    pub fn span(&self) -> (span: Span)
        ensures
            span == self.place(),
    {
        self.span
    }

    /// The content of the token.
    pub fn as_str(&self) -> (s: &'a str)
        ensures
            s@ == self.content(),
    {
        self.str
    }

    /// The token as it was written.
    pub fn to_string(&self) -> (s: String)
        ensures
            s@ == self.written(),
    {
        self.str.to_owned()
    }
}

} // verus!
