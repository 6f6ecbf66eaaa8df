//! A stream of tokens.
use crate::sakura_script::tokenizer::lexer::{is_token, lex, Lexer};
use crate::sakura_script::tokenizer::token::Token;
use vstd::prelude::*;
use vstd::string::*;

verus! {

/// A token stream for Sakura Script syntax.
///
/// `TokenStream` hands out the tokens of a text one by one, from the first
/// to the last.
#[derive(Debug)]
pub struct TokenStream<'a> {
    inner: Lexer<'a>,
}

impl<'a> TokenStream<'a> {
    /// The whole text.
    pub closed spec fn text(&self) -> Seq<char> {
        self.inner.text()
    }

    /// How many characters have been cut into tokens.
    pub closed spec fn offset(&self) -> int {
        self.inner.offset()
    }

    /// The characters that have not been cut into tokens yet.
    pub closed spec fn remaining(&self) -> Seq<char> {
        self.inner.remaining()
    }

    /// A stream of the tokens of `input`.
    pub fn new(input: &'a str) -> (stream: Self)
        ensures
            stream.text() == input@,
            stream.offset() == 0,
            stream.remaining() == input@,
    {
        Self { inner: Lexer::new(input) }
    }

    /// The next token, or none where the text has been used up.
    pub fn next(&mut self) -> (res: Option<Token<'a>>)
        ensures
            final(self).text() == old(self).text(),
            match lex(old(self).remaining()) {
                None => res is None && final(self).remaining() == old(self).remaining()
                    && final(self).offset() == old(self).offset(),
                Some(lexeme) => {
                    &&& res matches Some(token)
                    &&& is_token(token, lexeme, old(self).offset())
                    &&& 1 <= lexeme.consumed <= old(self).remaining().len()
                    &&& final(self).remaining() == old(self).remaining().skip(lexeme.consumed)
                    &&& final(self).offset() == old(self).offset() + lexeme.consumed
                },
            },
    {
        self.inner.next_token()
    }

    /// All the tokens that are left, in their order.
    pub fn collect(self) -> (tokens: Vec<Token<'a>>)
        ensures
            tokens@.len() == token_count(self.remaining()),
            forall|i: int|
                0 <= i < tokens@.len() ==> is_token(
                    #[trigger] tokens@[i],
                    lexeme_at(self.remaining(), i),
                    self.offset() + consumed_before(self.remaining(), i),
                ),
    {
        let mut stream = self;
        let mut tokens: Vec<Token<'a>> = Vec::new();
        let ghost start = stream.remaining();
        let ghost base = stream.offset();
        assert(start.skip(0) =~= start);
        loop
            invariant
                stream.text() == self.text(),
                start == self.remaining(),
                base == self.offset(),
                tokens@.len() <= token_count(start),
                0 <= consumed_before(start, tokens@.len() as int) <= start.len(),
                stream.remaining() == start.skip(consumed_before(start, tokens@.len() as int)),
                stream.offset() == base + consumed_before(start, tokens@.len() as int),
                token_count(start) == tokens@.len() + token_count(stream.remaining()),
                forall|i: int|
                    0 <= i < tokens@.len() ==> is_token(
                        #[trigger] tokens@[i],
                        lexeme_at(start, i),
                        base + consumed_before(start, i),
                    ),
            decreases stream.remaining().len(),
        {
            let ghost n = tokens@.len() as int;
            let ghost rest = stream.remaining();
            proof {
                lemma_consumed_before(start, n);
            }
            match stream.next() {
                None => {
                    return tokens;
                },
                Some(token) => {
                    proof {
                        let lexeme = lex(rest)->Some_0;
                        assert(rest.skip(lexeme.consumed) =~= start.skip(
                            consumed_before(start, n) + lexeme.consumed,
                        ));
                        lemma_consumed_before(start, n + 1);
                    }
                    tokens.push(token);
                },
            }
        }
    }
}

/// How many tokens a text holds.
pub open spec fn token_count(rest: Seq<char>) -> nat
    decreases rest.len(),
{
    match lex(rest) {
        None => 0,
        Some(lexeme) => if 1 <= lexeme.consumed <= rest.len() {
            1 + token_count(rest.skip(lexeme.consumed))
        } else {
            0
        },
    }
}

/// How many characters the first `i` tokens of a text take up.
pub open spec fn consumed_before(rest: Seq<char>, i: int) -> int
    decreases i,
{
    if i <= 0 {
        0
    } else {
        let before = consumed_before(rest, i - 1);
        match lex(rest.skip(before)) {
            Some(lexeme) => before + lexeme.consumed,
            None => before,
        }
    }
}

/// The `i`-th token of a text.
pub open spec fn lexeme_at(rest: Seq<char>, i: int) -> crate::sakura_script::tokenizer::lexer::Lexeme {
    lex(rest.skip(consumed_before(rest, i)))->Some_0
}

/// Unfolds `consumed_before` by one token.
pub proof fn lemma_consumed_before(rest: Seq<char>, i: int)
    requires
        i >= 0,
    ensures
        consumed_before(rest, i + 1) == match lex(rest.skip(consumed_before(rest, i))) {
            Some(lexeme) => consumed_before(rest, i) + lexeme.consumed,
            None => consumed_before(rest, i),
        },
{
}

/// Creates a token stream from an input string for Sakura Script tokenization.
pub fn tokenize(input: &str) -> (stream: TokenStream<'_>)
    ensures
        stream.text() == input@,
        stream.offset() == 0,
        stream.remaining() == input@,
{
    TokenStream::new(input)
}

} // verus!
