//! The lexical analyzer of Sakura Script.
//!
//! `lex` says what token stands at the head of a text; `Lexer::next_token`
//! computes it.
use crate::sakura_script::tokenizer::cursor::{least, Cursor};
use crate::sakura_script::tokenizer::span::Span;
use crate::sakura_script::tokenizer::token::{
    Bracket, Escape, Illegal, Kind, Percent, Separator, Text, Token,
};
use crate::util::bytes::str_equal;
use vstd::prelude::*;
use vstd::string::*;

verus! {

/// Whether a character begins a token of its own: a backslash, a percent
/// sign, a square bracket or a comma.
pub open spec fn is_special(c: char) -> bool {
    c == '\\' || c == '%' || c == '[' || c == ']' || c == ','
}

/// Whether a character may stand in the name of a variable: an ASCII
/// letter, an ASCII digit or a question mark.
pub open spec fn is_name_char(c: char) -> bool {
    ('a' <= c <= 'z') || ('A' <= c <= 'Z') || ('0' <= c <= '9') || c == '?'
}

/// How many characters at the head of `s` are no special characters.
pub open spec fn text_run(s: Seq<char>) -> nat
    decreases s.len(),
{
    if s.len() > 0 && !is_special(s[0]) {
        1 + text_run(s.drop_first())
    } else {
        0
    }
}

/// How many characters at the head of `s` are name characters.
pub open spec fn name_run(s: Seq<char>) -> nat
    decreases s.len(),
{
    if s.len() > 0 && is_name_char(s[0]) {
        1 + name_run(s.drop_first())
    } else {
        0
    }
}

/// A run of `n` characters that are no special characters, ended by one
/// that is or by the end, is the text run.
pub proof fn lemma_text_run(s: Seq<char>, n: int)
    requires
        0 <= n <= s.len(),
        forall|i: int| 0 <= i < n ==> !is_special(#[trigger] s[i]),
        n < s.len() ==> is_special(s[n]),
    ensures
        text_run(s) == n,
    decreases n,
{
    if n > 0 {
        assert(!is_special(s[0]));
        assert forall|i: int| 0 <= i < n - 1 implies !is_special(#[trigger] s.drop_first()[i]) by {
            assert(s.drop_first()[i] == s[i + 1]);
        }
        lemma_text_run(s.drop_first(), n - 1);
    }
}

/// A run of `n` name characters, ended by another character or by the end,
/// is the name run.
pub proof fn lemma_name_run(s: Seq<char>, n: int)
    requires
        0 <= n <= s.len(),
        forall|i: int| 0 <= i < n ==> is_name_char(#[trigger] s[i]),
        n < s.len() ==> !is_name_char(s[n]),
    ensures
        name_run(s) == n,
    decreases n,
{
    if n > 0 {
        assert(is_name_char(s[0]));
        assert forall|i: int| 0 <= i < n - 1 implies is_name_char(#[trigger] s.drop_first()[i]) by {
            assert(s.drop_first()[i] == s[i + 1]);
        }
        lemma_name_run(s.drop_first(), n - 1);
    }
}

/// The first `n` characters of `s`, or all of them where it has fewer.
pub open spec fn head(s: Seq<char>, n: int) -> Seq<char> {
    s.take(least(n, s.len() as int))
}

/// How many characters the name of a built-in variable takes, going by
/// the characters that `r` begins with. The count is that of the longest
/// variable with this beginning, and is taken whatever follows the
/// beginning.
pub open spec fn builtin_length(r: Seq<char>) -> Option<int> {
    let two = head(r, 2);
    if two == "mo"@ {
        Some(6)
    } else if two == "da"@ {
        Some(4)
    } else if two == "ho"@ {
        Some(5)
    } else if two == "mi"@ {
        Some(7)
    } else if two == "us"@ {
        Some(9)
    } else if two == "se"@ {
        if head(r, 6) == "second"@ {
            Some(6)
        } else if head(r, 6) == "selfna"@ {
            if head(r, 9) == "selfname2"@ {
                Some(9)
            } else {
                Some(8)
            }
        } else {
            None
        }
    } else if two == "ke"@ {
        Some(10)
    } else if two == "sc"@ {
        if head(r, 7) == "screenw"@ {
            Some(11)
        } else if head(r, 7) == "screenh"@ {
            Some(12)
        } else {
            None
        }
    } else if two == "ex"@ {
        Some(4)
    } else if two == "so"@ {
        Some(8)
    } else if two == "ms"@ || two == "mz"@ || two == "ml"@ || two == "mc"@ || two == "mh"@ || two
        == "mt"@ || two == "me"@ || two == "mp"@ || two == "m?"@ {
        Some(3)
    } else if two == "dm"@ {
        Some(4)
    } else if two == "j["@ {
        Some(2)
    } else {
        None
    }
}

/// What stands at the head of a text: the kind of the token, its content,
/// and how many characters the token takes up.
pub struct Lexeme {
    pub kind: Kind,
    pub content: Seq<char>,
    pub consumed: int,
}

/// The token after a backslash, where `r` follows the backslash: the
/// character after it, or two where that character is an underscore. A
/// backslash that nothing follows is illegal.
pub open spec fn lex_escape(r: Seq<char>) -> Lexeme {
    if r.len() == 0 {
        Lexeme { kind: Kind::Illegal, content: "\\"@, consumed: 1 }
    } else if r[0] == '_' {
        Lexeme { kind: Kind::Escape, content: head(r, 2), consumed: 1 + head(r, 2).len() as int }
    } else {
        Lexeme { kind: Kind::Escape, content: head(r, 1), consumed: 1 + head(r, 1).len() as int }
    }
}

/// The token after a percent sign, where `r` follows the sign: a built-in
/// variable where `r` begins like one, else the name characters that stand
/// there. A percent sign that no name follows is illegal.
pub open spec fn lex_percent(r: Seq<char>) -> Lexeme {
    match builtin_length(r) {
        Some(n) => Lexeme { kind: Kind::Percent, content: head(r, n), consumed: 1 + head(r, n).len() as int },
        None => if name_run(r) == 0 {
            Lexeme { kind: Kind::Illegal, content: "%"@, consumed: 1 }
        } else {
            Lexeme {
                kind: Kind::Percent,
                content: r.take(name_run(r) as int),
                consumed: 1 + name_run(r) as int,
            }
        },
    }
}

/// The token at the head of `rest`, or none where nothing is left.
pub open spec fn lex(rest: Seq<char>) -> Option<Lexeme> {
    if rest.len() == 0 {
        None
    } else if rest[0] == '\\' {
        Some(lex_escape(rest.skip(1)))
    } else if rest[0] == '%' {
        Some(lex_percent(rest.skip(1)))
    } else if rest[0] == '[' || rest[0] == ']' {
        Some(Lexeme { kind: Kind::Bracket, content: rest.take(1), consumed: 1 })
    } else if rest[0] == ',' {
        Some(Lexeme { kind: Kind::Separator, content: rest.take(1), consumed: 1 })
    } else {
        Some(
            Lexeme {
                kind: Kind::Text,
                content: rest.take(text_run(rest) as int),
                consumed: text_run(rest) as int,
            },
        )
    }
}

/// A lexeme as it was written: its content, after the character that
/// introduces it where its kind has one.
pub open spec fn written(lexeme: Lexeme) -> Seq<char> {
    match lexeme.kind {
        Kind::Escape => "\\"@ + lexeme.content,
        Kind::Percent => "%"@ + lexeme.content,
        _ => lexeme.content,
    }
}

/// A token is written as the characters that it was cut from: cutting a
/// text into tokens loses nothing of it.
pub proof fn lemma_lex_written(rest: Seq<char>)
    ensures
        lex(rest) matches Some(lexeme) ==> written(lexeme) == rest.take(lexeme.consumed),
{
    reveal_strlit("\\");
    reveal_strlit("%");
    if rest.len() > 0 {
        let r = rest.skip(1);
        lemma_text_run_bound(rest);
        lemma_name_run_bound(r);
        let lexeme = lex(rest)->Some_0;
        if rest[0] == '\\' || rest[0] == '%' {
            let n = lexeme.consumed - 1;
            assert(0 <= n <= r.len());
            assert(rest.take(lexeme.consumed) =~= seq![rest[0]] + r.take(n));
            if lexeme.kind == Kind::Illegal {
                assert(r.take(0) =~= Seq::<char>::empty());
                assert(written(lexeme) =~= seq![rest[0]]);
            } else {
                assert(lexeme.content =~= r.take(n));
                assert(written(lexeme) =~= seq![rest[0]] + r.take(n));
            }
        }
    }
}

/// Every token takes up a character at least, and no more than there are.
pub proof fn lemma_lex_consumes(rest: Seq<char>)
    ensures
        lex(rest) matches Some(lexeme) ==> 1 <= lexeme.consumed <= rest.len(),
{
    if rest.len() > 0 {
        lemma_text_run_bound(rest);
        lemma_name_run_bound(rest.skip(1));
    }
}

/// The text run lies within the text, and is not empty where the text
/// begins with a character that is not special.
pub proof fn lemma_text_run_bound(s: Seq<char>)
    ensures
        text_run(s) <= s.len(),
        s.len() > 0 && !is_special(s[0]) ==> text_run(s) >= 1,
    decreases s.len(),
{
    if s.len() > 0 && !is_special(s[0]) {
        lemma_text_run_bound(s.drop_first());
    }
}

/// The name run lies within the text.
pub proof fn lemma_name_run_bound(s: Seq<char>)
    ensures
        name_run(s) <= s.len(),
    decreases s.len(),
{
    if s.len() > 0 && is_name_char(s[0]) {
        lemma_name_run_bound(s.drop_first());
    }
}

/// Whether a token is the one that the lexeme describes, standing at `pos`.
pub open spec fn is_token(token: Token, lexeme: Lexeme, pos: int) -> bool {
    &&& token.kind() == lexeme.kind
    &&& token.content() == lexeme.content
    &&& token.place().lo() == pos
    &&& token.place().hi() == pos + lexeme.consumed
}

/// A lexical analyzer for tokenizing Sakura Script syntax.
///
/// The lexer recognizes several token types:
/// - **Text**: Regular text content that doesn't match special syntax
/// - **Escape**: Backslash-prefixed sequences like `\n`, `\t`, `\_w`
/// - **Percent**: Variable references like `%month`, `%selfname`, `%screenwidth`
/// - **Bracket**: Square brackets `[` and `]` used for grouping
/// - **Separator**: Commas `,` used for delimiting elements
/// - **Illegal**: Invalid or incomplete syntax that couldn't be parsed
#[derive(Debug)]
pub struct Lexer<'a> {
    cursor: Cursor<'a>,
}

impl<'a> Lexer<'a> {
    /// The whole text.
    pub closed spec fn text(&self) -> Seq<char> {
        self.cursor.text()
    }

    /// How many characters have been cut into tokens.
    pub closed spec fn offset(&self) -> int {
        self.cursor.offset()
    }

    /// The characters that have not been cut into tokens yet.
    pub closed spec fn remaining(&self) -> Seq<char> {
        self.cursor.remaining()
    }

    /// A lexer at the start of `input`.
    pub fn new(input: &'a str) -> (lexer: Self)
        ensures
            lexer.text() == input@,
            lexer.offset() == 0,
            lexer.remaining() == input@,
    {
        Self { cursor: Cursor::new(input) }
    }

    /// Reads and returns the next token from the input stream.
    pub fn next_token(&mut self) -> (res: Option<Token<'a>>)
        ensures
            final(self).text() == old(self).text(),
            match lex(old(self).remaining()) {
                None => res is None && final(self).remaining() == old(self).remaining()
                    && final(self).offset() == old(self).offset(),
                Some(lexeme) => {
                    &&& res matches Some(token)
                    &&& is_token(token, lexeme, old(self).offset())
                    &&& 1 <= lexeme.consumed <= old(self).remaining().len()
                    &&& final(self).remaining() == old(self).remaining().skip(lexeme.consumed)
                    &&& final(self).offset() == old(self).offset() + lexeme.consumed
                },
            },
    {
        proof {
            lemma_lex_consumes(self.remaining());
        }
        match self.cursor.peek() {
            None => None,
            Some(c) => {
                if c == '\\' {
                    Some(self.next_token_escape())
                } else if c == '%' {
                    Some(self.next_token_percent())
                } else if c == '[' || c == ']' {
                    let start = self.cursor.position();
                    let s = self.cursor.read(1);
                    proof {
                        reveal_strlit("[");
                        reveal_strlit("]");
                        assert(s@ =~= seq![c]);
                        assert("["@ =~= seq!['[']);
                        assert("]"@ =~= seq![']']);
                    }
                    Some(Token::Bracket(Bracket::new(s, Span::new(start, self.cursor.position()))))
                } else if c == ',' {
                    let start = self.cursor.position();
                    let s = self.cursor.read(1);
                    proof {
                        reveal_strlit(",");
                        assert(s@ =~= seq![c]);
                        assert(","@ =~= seq![',']);
                    }
                    Some(
                        Token::Separator(Separator::new(s, Span::new(start, self.cursor.position()))),
                    )
                } else {
                    Some(self.next_token_text())
                }
            },
        }
    }

    /// Reads a text token: the characters up to the next special one.
    fn next_token_text(&mut self) -> (token: Token<'a>)
        requires
            old(self).remaining().len() > 0,
            !is_special(old(self).remaining()[0]),
        ensures
            final(self).text() == old(self).text(),
            is_token(
                token,
                Lexeme {
                    kind: Kind::Text,
                    content: old(self).remaining().take(text_run(old(self).remaining()) as int),
                    consumed: text_run(old(self).remaining()) as int,
                },
                old(self).offset(),
            ),
            final(self).remaining() == old(self).remaining().skip(
                text_run(old(self).remaining()) as int,
            ),
            final(self).offset() == old(self).offset() + text_run(old(self).remaining()),
    {
        let start = self.cursor.position();
        let ghost rest = self.cursor.remaining();
        let plain = |c: char| -> (b: bool)
            ensures
                b == !is_special(c),
            { !(c == '\\' || c == '%' || c == '[' || c == ']' || c == ',') };
        let s = self.cursor.read_while(plain);
        proof {
            assert forall|i: int| 0 <= i < s@.len() implies !is_special(#[trigger] rest[i]) by {
                assert(s@[i] == rest[i]);
            }
            lemma_text_run(rest, s@.len() as int);
        }
        Token::Text(Text::new(s, Span::new(start, self.cursor.position())))
    }

    /// Reads an escape sequence token starting with backslash.
    ///
    /// The character after the backslash is the content; where it is an
    /// underscore, the character after the underscore belongs to it too. A
    /// backslash at the end of the input makes an illegal token.
    fn next_token_escape(&mut self) -> (token: Token<'a>)
        requires
            old(self).remaining().len() > 0,
            old(self).remaining()[0] == '\\',
        ensures
            final(self).text() == old(self).text(),
            is_token(token, lex_escape(old(self).remaining().skip(1)), old(self).offset()),
            final(self).remaining() == old(self).remaining().skip(
                lex_escape(old(self).remaining().skip(1)).consumed,
            ),
            final(self).offset() == old(self).offset() + lex_escape(
                old(self).remaining().skip(1),
            ).consumed,
    {
        let start = self.cursor.position();
        let ghost rest = self.cursor.remaining();
        let _ = self.cursor.next();
        let ghost r = self.cursor.remaining();
        match self.cursor.peek() {
            Some(c) => {
                let content = if c == '_' {
                    self.cursor.read(2)
                } else {
                    self.cursor.read(1)
                };
                assert(rest.skip(1).skip(content@.len() as int) =~= rest.skip(1 + content@.len() as int));
                Token::Escape(Escape::new(content, Span::new(start, self.cursor.position())))
            },
            None => {
                proof {
                    reveal_strlit("\\");
                }
                Token::Illegal(Illegal::new("\\", Span::new(start, self.cursor.position())))
            },
        }
    }

    /// How many characters the name of a built-in variable takes, going by
    /// what stands next.
    fn builtin(&self) -> (n: Option<usize>)
        ensures
            match builtin_length(self.remaining()) {
                Some(len) => n == Some(len as usize) && 2 <= len <= 12,
                None => n is None,
            },
    {
        let two = self.cursor.peek_nth(2);
        if str_equal(two, "mo") {
            Some(6)
        } else if str_equal(two, "da") {
            Some(4)
        } else if str_equal(two, "ho") {
            Some(5)
        } else if str_equal(two, "mi") {
            Some(7)
        } else if str_equal(two, "us") {
            Some(9)
        } else if str_equal(two, "se") {
            let six = self.cursor.peek_nth(6);
            if str_equal(six, "second") {
                Some(6)
            } else if str_equal(six, "selfna") {
                if str_equal(self.cursor.peek_nth(9), "selfname2") {
                    Some(9)
                } else {
                    Some(8)
                }
            } else {
                None
            }
        } else if str_equal(two, "ke") {
            Some(10)
        } else if str_equal(two, "sc") {
            let seven = self.cursor.peek_nth(7);
            if str_equal(seven, "screenw") {
                Some(11)
            } else if str_equal(seven, "screenh") {
                Some(12)
            } else {
                None
            }
        } else if str_equal(two, "ex") {
            Some(4)
        } else if str_equal(two, "so") {
            Some(8)
        } else if str_equal(two, "ms") || str_equal(two, "mz") || str_equal(two, "ml") || str_equal(
            two,
            "mc",
        ) || str_equal(two, "mh") || str_equal(two, "mt") || str_equal(two, "me") || str_equal(
            two,
            "mp",
        ) || str_equal(two, "m?") {
            Some(3)
        } else if str_equal(two, "dm") {
            Some(4)
        } else if str_equal(two, "j[") {
            Some(2)
        } else {
            None
        }
    }

    /// Reads a percent variable token.
    ///
    /// Where the name begins like a built-in variable, as many characters
    /// are read as the longest such variable has; else the name characters
    /// that stand there. A percent sign that no name follows makes an
    /// illegal token.
    fn next_token_percent(&mut self) -> (token: Token<'a>)
        requires
            old(self).remaining().len() > 0,
            old(self).remaining()[0] == '%',
        ensures
            final(self).text() == old(self).text(),
            is_token(token, lex_percent(old(self).remaining().skip(1)), old(self).offset()),
            final(self).remaining() == old(self).remaining().skip(
                lex_percent(old(self).remaining().skip(1)).consumed,
            ),
            final(self).offset() == old(self).offset() + lex_percent(
                old(self).remaining().skip(1),
            ).consumed,
    {
        let start = self.cursor.position();
        let ghost rest = self.cursor.remaining();
        let _ = self.cursor.next();
        let ghost r = self.cursor.remaining();
        match self.builtin() {
            Some(n) => {
                proof {
                    lemma_builtin_not_empty(r);
                }
                let s = self.cursor.read(n);
                assert(rest.skip(1).skip(s@.len() as int) =~= rest.skip(1 + s@.len() as int));
                Token::Percent(Percent::new(s, Span::new(start, self.cursor.position())))
            },
            None => {
                let name = |c: char| -> (b: bool)
                    ensures
                        b == is_name_char(c),
                    {
                        ('a' <= c && c <= 'z') || ('A' <= c && c <= 'Z') || ('0' <= c && c <= '9') || c
                            == '?'
                    };
                let s = self.cursor.read_while(name);
                proof {
                    assert forall|i: int| 0 <= i < s@.len() implies is_name_char(#[trigger] r[i]) by {
                        assert(s@[i] == r[i]);
                    }
                    lemma_name_run(r, s@.len() as int);
                    assert(rest.skip(1).skip(s@.len() as int) =~= rest.skip(1 + s@.len() as int));
                }
                if s.is_empty() {
                    proof {
                        reveal_strlit("%");
                    }
                    Token::Illegal(Illegal::new("%", Span::new(start, self.cursor.position())))
                } else {
                    Token::Percent(Percent::new(s, Span::new(start, self.cursor.position())))
                }
            },
        }
    }
}

/// Where the text begins like a built-in variable, it holds two characters
/// at least.
pub proof fn lemma_builtin_not_empty(r: Seq<char>)
    ensures
        builtin_length(r) is Some ==> r.len() >= 2,
{
    reveal_strlit("mo");
    reveal_strlit("da");
    reveal_strlit("ho");
    reveal_strlit("mi");
    reveal_strlit("us");
    reveal_strlit("se");
    reveal_strlit("ke");
    reveal_strlit("sc");
    reveal_strlit("ex");
    reveal_strlit("so");
    reveal_strlit("ms");
    reveal_strlit("mz");
    reveal_strlit("ml");
    reveal_strlit("mc");
    reveal_strlit("mh");
    reveal_strlit("mt");
    reveal_strlit("me");
    reveal_strlit("mp");
    reveal_strlit("m?");
    reveal_strlit("dm");
    reveal_strlit("j[");
    if r.len() < 2 {
        assert(head(r, 2).len() < 2);
    }
}

} // verus!
