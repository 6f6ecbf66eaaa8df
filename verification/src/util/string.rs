//! Strings made only of the characters that RFC 7230 allows in a token.
use crate::util::bytes::{
    all_ascii, ascii_bytes, ascii_chars, bytes_equal, lemma_ascii_encoding, lemma_utf8_injective,
};
use crate::util::decode::Decoder;
use crate::util::text::{decimal, decimal_of};
use vstd::pervasive::unreached;
use vstd::prelude::*;
use vstd::std_specs::cmp::PartialEqSpecImpl;
use vstd::string::*;
use vstd::utf8::*;

verus! {

/// Errors that may occur during conversion.
#[derive(Debug, PartialEq, Eq, Clone, Copy, Hash, Structural)]
pub enum Error {
    /// The first byte that is no token character.
    InvalidCharacter(u8),
}

impl Error {
    /// The text of the message for this error.
    pub open spec fn message_spec(self) -> Seq<char> {
        match self {
            Error::InvalidCharacter(b) => "invalid character: `"@ + decimal_of(b) + "`"@,
        }
    }

    /// The message shown for this error.
    pub fn message(&self) -> (text: String)
        ensures
            text@ == self.message_spec(),
    {
        match self {
            Error::InvalidCharacter(b) => "invalid character: `".to_owned().concat(
                decimal(*b).as_str(),
            ).concat("`"),
        }
    }
}

/// Whether a byte is a token character: a letter, a digit, or one of
/// ``!#$%&'*+-.^_`|~``.
pub open spec fn is_token_byte(b: u8) -> bool {
    ||| 0x30 <= b <= 0x39
    ||| b == 0x21
    ||| 0x23 <= b <= 0x27
    ||| 0x2a <= b <= 0x2b
    ||| 0x2d <= b <= 0x2e
    ||| 0x5e <= b <= 0x60
    ||| 0x41 <= b <= 0x5a
    ||| 0x61 <= b <= 0x7a
    ||| b == 0x7c
    ||| b == 0x7e
}

/// Whether every byte is a token character.
pub open spec fn all_token(bytes: Seq<u8>) -> bool {
    forall|i: int| 0 <= i < bytes.len() ==> is_token_byte(#[trigger] bytes[i])
}

/// Whether `i` is the place of the first byte that is no token character.
pub open spec fn first_non_token(bytes: Seq<u8>, i: int) -> bool {
    &&& 0 <= i < bytes.len()
    &&& !is_token_byte(bytes[i])
    &&& all_token(bytes.take(i))
}

/// The token characters are the ASCII letters, the ASCII digits and the
/// fifteen signs ``!#$%&'*+-.^_`|~``. No control character is one, nor a
/// space, nor one of the delimiters `"(),/:;<=>?@[\]{}`, nor a byte from
/// 0x80 on.
pub proof fn lemma_token_alphabet(b: u8)
    ensures
        (0x41 <= b <= 0x5a || 0x61 <= b <= 0x7a || 0x30 <= b <= 0x39) ==> is_token_byte(b),
        (b == 0x21 || b == 0x23 || b == 0x24 || b == 0x25 || b == 0x26 || b == 0x27 || b == 0x2a
            || b == 0x2b || b == 0x2d || b == 0x2e || b == 0x5e || b == 0x5f || b == 0x60 || b
            == 0x7c || b == 0x7e) ==> is_token_byte(b),
        (b <= 0x20 || b == 0x7f || b >= 0x80) ==> !is_token_byte(b),
        (b == 0x22 || b == 0x28 || b == 0x29 || b == 0x2c || b == 0x2f || b == 0x3a || b == 0x3b
            || b == 0x3c || b == 0x3d || b == 0x3e || b == 0x3f || b == 0x40 || b == 0x5b || b
            == 0x5c || b == 0x5d || b == 0x7b || b == 0x7d) ==> !is_token_byte(b),
{
}

/// Decides `is_token_byte`.
pub fn token_byte(b: u8) -> (r: bool)
    ensures
        r == is_token_byte(b),
{
    (0x30 <= b && b <= 0x39) || b == 0x21 || (0x23 <= b && b <= 0x27) || (0x2a <= b && b <= 0x2b)
        || (0x2d <= b && b <= 0x2e) || (0x5e <= b && b <= 0x60) || (0x41 <= b && b <= 0x5a) || (
    0x61 <= b && b <= 0x7a) || b == 0x7c || b == 0x7e
}

/// The place of the first byte that is no token character, if there is one.
pub fn find_non_token(bytes: &[u8]) -> (r: Option<usize>)
    ensures
        match r {
            Some(i) => first_non_token(bytes@, i as int),
            None => all_token(bytes@),
        },
{
    let mut i: usize = 0;
    while i < bytes.len()
        invariant
            i <= bytes@.len(),
            all_token(bytes@.take(i as int)),
        decreases bytes@.len() - i,
    {
        if !token_byte(bytes[i]) {
            return Some(i);
        }
        i += 1;
        assert forall|j: int| 0 <= j < i implies is_token_byte(#[trigger] bytes@.take(i as int)[j]) by {
            if j < i - 1 {
                assert(bytes@.take(i - 1)[j] == bytes@[j]);
            }
        }
    }
    assert(bytes@.take(bytes@.len() as int) =~= bytes@);
    None
}

/// Token characters are ASCII.
pub proof fn lemma_token_is_ascii(bytes: Seq<u8>)
    requires
        all_token(bytes),
    ensures
        all_ascii(bytes),
        is_ascii_chars(ascii_chars(bytes)),
        encode_utf8(ascii_chars(bytes)) == bytes,
{
    assert forall|i: int| 0 <= i < bytes.len() implies #[trigger] bytes[i] < 0x80 by {
        assert(is_token_byte(bytes[i]));
    }
    let chars = ascii_chars(bytes);
    assert forall|i: int| 0 <= i < chars.len() implies '\0' <= #[trigger] chars[i] <= '\u{7f}' by {
        assert(bytes[i] < 0x80);
    }
    lemma_ascii_encoding(chars);
    assert(ascii_bytes(chars) =~= bytes) by {
        assert forall|i: int| 0 <= i < bytes.len() implies ascii_bytes(chars)[i] == bytes[i] by {
            assert(bytes[i] < 0x80);
        }
    }
}

/// Rfc7230String is a string that conforms to the character set defined in RFC 7230.
/// Alpha-numeric characters and some symbols are allowed.
#[derive(Debug, Eq, Hash)]
pub struct Rfc7230String {
    inner: String,
}

impl View for Rfc7230String {
    type V = Seq<u8>;

    /// The bytes of the string.
    closed spec fn view(&self) -> Seq<u8> {
        encode_utf8(self.inner@)
    }
}

impl Rfc7230String {
    /// The characters of the string.
    pub closed spec fn text(&self) -> Seq<char> {
        self.inner@
    }

    /// Every byte of the string is a token character.
    pub open spec fn wf(&self) -> bool {
        all_token(self@)
    }

    #[verifier::type_invariant]
    pub open spec fn inv(&self) -> bool {
        self.wf()
    }

    /// The string's bytes are the encoding of its characters, and for a
    /// well-formed string they correspond one to one.
    pub proof fn lemma_text(&self)
        ensures
            self@ == encode_utf8(self.text()),
            self.wf() ==> self.text() == ascii_chars(self@) && all_ascii(self@),
    {
        if self.wf() {
            lemma_token_is_ascii(self@);
            lemma_utf8_injective(self.text(), ascii_chars(self@));
        }
    }

    /// Create a new, empty Rfc7230String.
    pub fn new() -> (r: Self)
        ensures
            r@ == Seq::<u8>::empty(),
            r.wf(),
    {
        let inner = String::new();
        assert(encode_utf8(inner@) =~= Seq::<u8>::empty());
        Self { inner }
    }

    /// Create a new Rfc7230String from bytes.
    ///
    /// If the bytes contain a character that is no token character, the
    /// first such byte is returned in the error.
    pub fn from_utf8(bytes: Vec<u8>) -> (res: Result<Self, Error>)
        ensures
            match res {
                Ok(s) => all_token(bytes@) && s@ == bytes@ && s.wf(),
                Err(Error::InvalidCharacter(b)) => exists|i: int|
                    first_non_token(bytes@, i) && bytes@[i] == b,
            },
    {
        Rfc7230String::from_slice(bytes.as_slice())
    }

    /// Create a new Rfc7230String from a slice of bytes.
    pub fn from_slice(bytes: &[u8]) -> (res: Result<Self, Error>)
        ensures
            match res {
                Ok(s) => all_token(bytes@) && s@ == bytes@ && s.wf(),
                Err(Error::InvalidCharacter(b)) => exists|i: int|
                    first_non_token(bytes@, i) && bytes@[i] == b,
            },
    {
        match find_non_token(bytes) {
            Some(i) => Err(Error::InvalidCharacter(bytes[i])),
            None => {
                proof {
                    lemma_token_is_ascii(bytes@);
                }
                match Decoder::decode_ascii(bytes) {
                    Ok(inner) => Ok(Self { inner }),
                    Err(_) => unreached(),
                }
            },
        }
    }

    /// Create a new Rfc7230String from bytes that are known to be token
    /// characters.
    pub fn from_tokens(bytes: &[u8]) -> (r: Self)
        requires
            all_token(bytes@),
        ensures
            r@ == bytes@,
            r.wf(),
    {
        proof {
            lemma_token_is_ascii(bytes@);
        }
        match Decoder::decode_ascii(bytes) {
            Ok(inner) => Self { inner },
            Err(_) => unreached(),
        }
    }

    /// Create a new Rfc7230String from a string.
    /// This function is equivalent to `Rfc7230String::from_utf8(s.into_bytes())`.
    pub fn from_string(s: String) -> (res: Result<Self, Error>)
        ensures
            match res {
                Ok(r) => all_token(encode_utf8(s@)) && r@ == encode_utf8(s@) && r.wf(),
                Err(Error::InvalidCharacter(b)) => exists|i: int|
                    first_non_token(encode_utf8(s@), i) && encode_utf8(s@)[i] == b,
            },
    {
        Rfc7230String::from_slice(s.as_str().as_bytes())
    }

    /// The string as a string slice.
    pub fn as_str(&self) -> (s: &str)
        ensures
            s@ == self.text(),
            s.spec_bytes() == self@,
    {
        self.inner.as_str()
    }

    /// The bytes of the string.
    pub fn as_bytes(&self) -> (bytes: &[u8])
        ensures
            bytes@ == self@,
    {
        self.inner.as_str().as_bytes()
    }

    /// A copy of the string as a `String`.
    pub fn to_string(&self) -> (s: String)
        ensures
            s@ == self.text(),
    {
        self.inner.clone()
    }
}

impl Clone for Rfc7230String {
    fn clone(&self) -> (r: Self)
        ensures
            r == *self,
    {
        proof {
            use_type_invariant(self);
        }
        Self { inner: self.inner.clone() }
    }
}

impl PartialEq for Rfc7230String {
    fn eq(&self, other: &Self) -> (r: bool) {
        let r = bytes_equal(self.as_bytes(), other.as_bytes());
        r
    }
}

impl PartialEqSpecImpl for Rfc7230String {
    open spec fn obeys_eq_spec() -> bool {
        true
    }

    open spec fn eq_spec(&self, other: &Self) -> bool {
        self@ == other@
    }
}

} // verus!
