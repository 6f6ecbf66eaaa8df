//! Texts, and what can be handed over as one.
use crate::charset::Charset;
use crate::util::bytes::lemma_chars_le_bytes;
use vstd::prelude::*;
use vstd::std_specs::iter::IteratorSpec;
use vstd::string::*;

verus! {

/// What a builder takes where it wants a text: a string, or a value that
/// has a spelling.
pub trait IntoText: Sized {
    /// The text that the value stands for.
    spec fn text(&self) -> Seq<char>;

    /// Hands the text over as an owned string.
    fn into_text(self) -> (s: String)
        ensures
            s@ == self.text(),
    ;
}

impl<'a> IntoText for &'a str {
    open spec fn text(&self) -> Seq<char> {
        self@
    }

    fn into_text(self) -> (s: String) {
        self.to_owned()
    }
}

impl IntoText for String {
    open spec fn text(&self) -> Seq<char> {
        self@
    }

    fn into_text(self) -> (s: String) {
        self
    }
}

impl IntoText for Charset {
    open spec fn text(&self) -> Seq<char> {
        self.name()
    }

    fn into_text(self) -> (s: String) {
        self.to_string()
    }
}

/// The digit that stands for a number below ten.
pub open spec fn digit_of(d: int) -> Seq<char> {
    if d == 0 {
        "0"@
    } else if d == 1 {
        "1"@
    } else if d == 2 {
        "2"@
    } else if d == 3 {
        "3"@
    } else if d == 4 {
        "4"@
    } else if d == 5 {
        "5"@
    } else if d == 6 {
        "6"@
    } else if d == 7 {
        "7"@
    } else if d == 8 {
        "8"@
    } else {
        "9"@
    }
}

/// A byte written in decimal, without leading zeros.
pub open spec fn decimal_of(n: u8) -> Seq<char> {
    if n >= 100 {
        digit_of(n as int / 100) + digit_of(n as int / 10 % 10) + digit_of(n as int % 10)
    } else if n >= 10 {
        digit_of(n as int / 10) + digit_of(n as int % 10)
    } else {
        digit_of(n as int)
    }
}

/// The digit that stands for a number below ten.
pub fn digit(d: u8) -> (s: &'static str)
    requires
        d < 10,
    ensures
        s@ == digit_of(d as int),
{
    if d == 0 {
        "0"
    } else if d == 1 {
        "1"
    } else if d == 2 {
        "2"
    } else if d == 3 {
        "3"
    } else if d == 4 {
        "4"
    } else if d == 5 {
        "5"
    } else if d == 6 {
        "6"
    } else if d == 7 {
        "7"
    } else if d == 8 {
        "8"
    } else {
        "9"
    }
}

/// Writes a byte in decimal.
pub fn decimal(n: u8) -> (s: String)
    ensures
        s@ == decimal_of(n),
{
    if n >= 100 {
        digit(n / 100).to_owned().concat(digit(n / 10 % 10)).concat(digit(n % 10))
    } else if n >= 10 {
        digit(n / 10).to_owned().concat(digit(n % 10))
    } else {
        digit(n).to_owned()
    }
}

/// Whether a character is a visible ASCII character, `!` to `~`.
pub open spec fn is_graphic(c: char) -> bool {
    '!' <= c <= '~'
}

/// Whether every character of a text is a visible ASCII character.
pub open spec fn all_graphic(text: Seq<char>) -> bool {
    forall|i: int| 0 <= i < text.len() ==> is_graphic(#[trigger] text[i])
}

/// Decides `all_graphic`.
pub fn is_all_graphic(text: &str) -> (r: bool)
    ensures
        r == all_graphic(text@),
{
    broadcast use vstd::string::group_string_axioms;

    let mut r = true;
    for c in it: text.chars()
        invariant
            it.seq() == text@,
            r == all_graphic(text@.take(it.index())),
    {
        let ghost before = text@.take(it.index());
        let ghost upto = text@.take(it.index() + 1);
        proof {
            assert(upto.last() == c);
            if all_graphic(before) && is_graphic(c) {
                assert forall|i: int| 0 <= i < upto.len() implies is_graphic(
                    #[trigger] upto[i],
                ) by {
                    if i < before.len() {
                        assert(before[i] == upto[i]);
                    }
                }
            }
            if all_graphic(upto) {
                assert forall|i: int| 0 <= i < before.len() implies is_graphic(
                    #[trigger] before[i],
                ) by {
                    assert(before[i] == upto[i]);
                }
                assert(is_graphic(upto[upto.len() - 1]));
            }
        }
        if !('!' <= c && c <= '~') {
            r = false;
        }
    }
    proof {
        assert(text@.take(text@.len() as int) =~= text@);
    }
    r
}

/// A text with a carriage return put before every line feed.
pub open spec fn with_crlf(text: Seq<char>) -> Seq<char>
    decreases text.len(),
{
    if text.len() == 0 {
        Seq::empty()
    } else if text[0] == '\n' {
        seq!['\r', '\n'] + with_crlf(text.drop_first())
    } else {
        seq![text[0]] + with_crlf(text.drop_first())
    }
}

/// Calls `str::replace` with a line feed as the pattern and a carriage
/// return and a line feed as the replacement: every line feed of the text
/// is replaced, and nothing else is touched.
#[verifier::external_body]
pub(crate) fn lf_to_crlf(text: &str) -> (r: String)
    ensures
        r@ == with_crlf(text@),
{
    text.replace('\n', "\r\n")
}

/// A text without the line terminator at its end, if it ends with one.
pub open spec fn without_line_end(text: Seq<char>) -> Seq<char> {
    if text.len() >= 2 && text[text.len() - 2] == '\r' && text[text.len() - 1] == '\n' {
        text.take(text.len() - 2)
    } else {
        text
    }
}

/// Takes the line terminator off the end of a text, if it ends with one.
pub fn strip_line_end(text: &str) -> (r: &str)
    ensures
        r@ == without_line_end(text@),
{
    broadcast use vstd::string::group_string_axioms;

    let limit = text.as_bytes().len();
    proof {
        lemma_chars_le_bytes(text@);
    }
    let mut n: usize = 0;
    let mut last = 'x';
    let mut before_last = 'x';
    for c in it: text.chars()
        invariant
            it.seq() == text@,
            n == it.index(),
            text@.len() <= limit,
            n >= 1 ==> last == text@[n - 1],
            n >= 2 ==> before_last == text@[n - 2],
    {
        before_last = last;
        last = c;
        n = n + 1;
    }
    if n >= 2 && before_last == '\r' && last == '\n' {
        let r = text.substring_char(0, n - 2);
        assert(r@ =~= text@.take(n - 2));
        r
    } else {
        text
    }
}

} // verus!
