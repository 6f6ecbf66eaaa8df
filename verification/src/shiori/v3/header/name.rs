//! The names of SHIORI header fields.
use crate::util::bytes::{bytes_equal, to_vec};
use crate::util::string::{
    all_token, find_non_token, first_non_token, is_token_byte, Error as Rfc7230StringConvertError,
    Rfc7230String,
};
use crate::util::text::IntoText;
use vstd::prelude::*;
use vstd::std_specs::cmp::PartialEqSpecImpl;
use vstd::string::*;
use vstd::utf8::encode_utf8;

verus! {

/// Error that can occur when convert from string.
#[derive(Debug, PartialEq, Eq, Clone, Copy, Hash, Structural)]
pub enum Error {
    /// The name holds a byte that is no token character.
    InvalidHeaderName(Rfc7230StringConvertError),
}

impl Error {
    /// The text of the message for this error.
    pub open spec fn message_spec(self) -> Seq<char> {
        match self {
            Error::InvalidHeaderName(e) => "invalid header name: "@ + e.message_spec(),
        }
    }

    /// The message shown for this error.
    pub fn message(&self) -> (text: String)
        ensures
            text@ == self.message_spec(),
    {
        match self {
            Error::InvalidHeaderName(e) => "invalid header name: ".to_owned().concat(
                e.message().as_str(),
            ),
        }
    }
}

/// HeaderName is the name of the SHIORI header field.
///
/// The names that SHIORI defines have a variant each;
/// any other name that is a token is held by `Other`. A name whose
/// spelling is that of a defined name is always the defined name's variant,
/// never `Other`: see `wf`.
#[derive(Debug, Eq, Hash)]
pub enum HeaderName {
    /// Charset
    Charset,
    /// Sender
    Sender,
    /// ID
    Id,
    /// Reference0
    Reference0,
    /// Reference1
    Reference1,
    /// Reference2
    Reference2,
    /// Reference3
    Reference3,
    /// Reference4
    Reference4,
    /// Reference5
    Reference5,
    /// Reference6
    Reference6,
    /// Reference7
    Reference7,
    /// SecurityLevel
    SecurityLevel,
    /// Value
    Value,
    /// A name that the protocol does not define.
    Other(Rfc7230String),
}

/// The defined name with this spelling, if there is one.
pub open spec fn known(bytes: Seq<u8>) -> Option<HeaderName> {
    if bytes == "Charset".spec_bytes() {
        Some(HeaderName::Charset)
    } else if bytes == "Sender".spec_bytes() {
        Some(HeaderName::Sender)
    } else if bytes == "ID".spec_bytes() {
        Some(HeaderName::Id)
    } else if bytes == "Reference0".spec_bytes() {
        Some(HeaderName::Reference0)
    } else if bytes == "Reference1".spec_bytes() {
        Some(HeaderName::Reference1)
    } else if bytes == "Reference2".spec_bytes() {
        Some(HeaderName::Reference2)
    } else if bytes == "Reference3".spec_bytes() {
        Some(HeaderName::Reference3)
    } else if bytes == "Reference4".spec_bytes() {
        Some(HeaderName::Reference4)
    } else if bytes == "Reference5".spec_bytes() {
        Some(HeaderName::Reference5)
    } else if bytes == "Reference6".spec_bytes() {
        Some(HeaderName::Reference6)
    } else if bytes == "Reference7".spec_bytes() {
        Some(HeaderName::Reference7)
    } else if bytes == "SecurityLevel".spec_bytes() {
        Some(HeaderName::SecurityLevel)
    } else if bytes == "Value".spec_bytes() {
        Some(HeaderName::Value)
    } else {
        None
    }
}

impl View for HeaderName {
    type V = Seq<u8>;

    /// The bytes of the name's spelling.
    open spec fn view(&self) -> Seq<u8> {
        match self {
            HeaderName::Charset => "Charset".spec_bytes(),
            HeaderName::Sender => "Sender".spec_bytes(),
            HeaderName::Id => "ID".spec_bytes(),
            HeaderName::Reference0 => "Reference0".spec_bytes(),
            HeaderName::Reference1 => "Reference1".spec_bytes(),
            HeaderName::Reference2 => "Reference2".spec_bytes(),
            HeaderName::Reference3 => "Reference3".spec_bytes(),
            HeaderName::Reference4 => "Reference4".spec_bytes(),
            HeaderName::Reference5 => "Reference5".spec_bytes(),
            HeaderName::Reference6 => "Reference6".spec_bytes(),
            HeaderName::Reference7 => "Reference7".spec_bytes(),
            HeaderName::SecurityLevel => "SecurityLevel".spec_bytes(),
            HeaderName::Value => "Value".spec_bytes(),
            HeaderName::Other(s) => s@,
        }
    }
}

/// Whether `res` is what reading a name from `bytes` must give: the name
/// spelled `bytes` where they are all token characters, and else the
/// error that holds the first byte that is none.
pub open spec fn is_name_of(res: Result<HeaderName, Error>, bytes: Seq<u8>) -> bool {
    match res {
        Ok(name) => all_token(bytes) && name@ == bytes && name.wf(),
        Err(Error::InvalidHeaderName(Rfc7230StringConvertError::InvalidCharacter(b))) => exists|
            i: int,
        | first_non_token(bytes, i) && bytes[i] == b,
    }
}

/// A text of ASCII letters and digits alone is a token.
proof fn lemma_letters_are_token(text: &str)
    requires
        forall|i: int|
            0 <= i < text@.len() ==> ('a' <= #[trigger] text@[i] <= 'z') || ('A' <= text@[i] <= 'Z')
                || ('0' <= text@[i] <= '9'),
    ensures
        all_token(text.spec_bytes()),
{
    assert(is_ascii(text)) by {
        assert forall|i: int| 0 <= i < text@.len() implies '\0' <= #[trigger] text@[i] <= '\u{7f}' by {}
    }
    let bytes = text.spec_bytes();
    assert forall|i: int| 0 <= i < bytes.len() implies is_token_byte(#[trigger] bytes[i]) by {
        assert(bytes[i] == text@[i] as u8);
    }
}

/// `Charset` is a token.
proof fn lemma_token_charset()
    ensures
        all_token("Charset".spec_bytes()),
{
    reveal_strlit("Charset");
    lemma_letters_are_token("Charset");
}

/// `Sender` is a token.
proof fn lemma_token_sender()
    ensures
        all_token("Sender".spec_bytes()),
{
    reveal_strlit("Sender");
    lemma_letters_are_token("Sender");
}

/// `ID` is a token.
proof fn lemma_token_id()
    ensures
        all_token("ID".spec_bytes()),
{
    reveal_strlit("ID");
    lemma_letters_are_token("ID");
}

/// `Reference0` is a token.
proof fn lemma_token_reference0()
    ensures
        all_token("Reference0".spec_bytes()),
{
    reveal_strlit("Reference0");
    lemma_letters_are_token("Reference0");
}

/// `Reference1` is a token.
proof fn lemma_token_reference1()
    ensures
        all_token("Reference1".spec_bytes()),
{
    reveal_strlit("Reference1");
    lemma_letters_are_token("Reference1");
}

/// `Reference2` is a token.
proof fn lemma_token_reference2()
    ensures
        all_token("Reference2".spec_bytes()),
{
    reveal_strlit("Reference2");
    lemma_letters_are_token("Reference2");
}

/// `Reference3` is a token.
proof fn lemma_token_reference3()
    ensures
        all_token("Reference3".spec_bytes()),
{
    reveal_strlit("Reference3");
    lemma_letters_are_token("Reference3");
}

/// `Reference4` is a token.
proof fn lemma_token_reference4()
    ensures
        all_token("Reference4".spec_bytes()),
{
    reveal_strlit("Reference4");
    lemma_letters_are_token("Reference4");
}

/// `Reference5` is a token.
proof fn lemma_token_reference5()
    ensures
        all_token("Reference5".spec_bytes()),
{
    reveal_strlit("Reference5");
    lemma_letters_are_token("Reference5");
}

/// `Reference6` is a token.
proof fn lemma_token_reference6()
    ensures
        all_token("Reference6".spec_bytes()),
{
    reveal_strlit("Reference6");
    lemma_letters_are_token("Reference6");
}

/// `Reference7` is a token.
proof fn lemma_token_reference7()
    ensures
        all_token("Reference7".spec_bytes()),
{
    reveal_strlit("Reference7");
    lemma_letters_are_token("Reference7");
}

/// `SecurityLevel` is a token.
proof fn lemma_token_securitylevel()
    ensures
        all_token("SecurityLevel".spec_bytes()),
{
    reveal_strlit("SecurityLevel");
    lemma_letters_are_token("SecurityLevel");
}

/// `Value` is a token.
proof fn lemma_token_value()
    ensures
        all_token("Value".spec_bytes()),
{
    reveal_strlit("Value");
    lemma_letters_are_token("Value");
}

/// The bytes of `Charset`, and that no defined name before it is spelled so.
proof fn lemma_spelling_charset()
    ensures
        "Charset".spec_bytes() == seq![67u8, 104, 97, 114, 115, 101, 116],
{
    reveal_strlit("Charset");
    assert(is_ascii("Charset"));
    assert("Charset".spec_bytes() =~= seq![67u8, 104, 97, 114, 115, 101, 116]);
}

/// The bytes of `Sender`, and that no defined name before it is spelled so.
proof fn lemma_spelling_sender()
    ensures
        "Sender".spec_bytes() == seq![83u8, 101, 110, 100, 101, 114],
        "Charset".spec_bytes() != "Sender".spec_bytes(),
{
    reveal_strlit("Sender");
    assert(is_ascii("Sender"));
    assert("Sender".spec_bytes() =~= seq![83u8, 101, 110, 100, 101, 114]);
    lemma_spelling_charset();
    assert("Charset".spec_bytes().len() != "Sender".spec_bytes().len());
}

/// The bytes of `ID`, and that no defined name before it is spelled so.
proof fn lemma_spelling_id()
    ensures
        "ID".spec_bytes() == seq![73u8, 68],
        "Charset".spec_bytes() != "ID".spec_bytes(),
        "Sender".spec_bytes() != "ID".spec_bytes(),
{
    reveal_strlit("ID");
    assert(is_ascii("ID"));
    assert("ID".spec_bytes() =~= seq![73u8, 68]);
    lemma_spelling_charset();
    assert("Charset".spec_bytes().len() != "ID".spec_bytes().len());
    lemma_spelling_sender();
    assert("Sender".spec_bytes().len() != "ID".spec_bytes().len());
}

/// The bytes of `Reference0`, and that no defined name before it is spelled so.
proof fn lemma_spelling_reference0()
    ensures
        "Reference0".spec_bytes() == seq![82u8, 101, 102, 101, 114, 101, 110, 99, 101, 48],
        "Charset".spec_bytes() != "Reference0".spec_bytes(),
        "Sender".spec_bytes() != "Reference0".spec_bytes(),
        "ID".spec_bytes() != "Reference0".spec_bytes(),
{
    reveal_strlit("Reference0");
    assert(is_ascii("Reference0"));
    assert("Reference0".spec_bytes() =~= seq![82u8, 101, 102, 101, 114, 101, 110, 99, 101, 48]);
    lemma_spelling_charset();
    assert("Charset".spec_bytes().len() != "Reference0".spec_bytes().len());
    lemma_spelling_sender();
    assert("Sender".spec_bytes().len() != "Reference0".spec_bytes().len());
    lemma_spelling_id();
    assert("ID".spec_bytes().len() != "Reference0".spec_bytes().len());
}

/// The bytes of `Reference1`, and that no defined name before it is spelled so.
proof fn lemma_spelling_reference1()
    ensures
        "Reference1".spec_bytes() == seq![82u8, 101, 102, 101, 114, 101, 110, 99, 101, 49],
        "Charset".spec_bytes() != "Reference1".spec_bytes(),
        "Sender".spec_bytes() != "Reference1".spec_bytes(),
        "ID".spec_bytes() != "Reference1".spec_bytes(),
        "Reference0".spec_bytes() != "Reference1".spec_bytes(),
{
    reveal_strlit("Reference1");
    assert(is_ascii("Reference1"));
    assert("Reference1".spec_bytes() =~= seq![82u8, 101, 102, 101, 114, 101, 110, 99, 101, 49]);
    lemma_spelling_charset();
    assert("Charset".spec_bytes().len() != "Reference1".spec_bytes().len());
    lemma_spelling_sender();
    assert("Sender".spec_bytes().len() != "Reference1".spec_bytes().len());
    lemma_spelling_id();
    assert("ID".spec_bytes().len() != "Reference1".spec_bytes().len());
    lemma_spelling_reference0();
    assert("Reference0".spec_bytes()[9] != "Reference1".spec_bytes()[9]);
}

/// The bytes of `Reference2`, and that no defined name before it is spelled so.
proof fn lemma_spelling_reference2()
    ensures
        "Reference2".spec_bytes() == seq![82u8, 101, 102, 101, 114, 101, 110, 99, 101, 50],
        "Charset".spec_bytes() != "Reference2".spec_bytes(),
        "Sender".spec_bytes() != "Reference2".spec_bytes(),
        "ID".spec_bytes() != "Reference2".spec_bytes(),
        "Reference0".spec_bytes() != "Reference2".spec_bytes(),
        "Reference1".spec_bytes() != "Reference2".spec_bytes(),
{
    reveal_strlit("Reference2");
    assert(is_ascii("Reference2"));
    assert("Reference2".spec_bytes() =~= seq![82u8, 101, 102, 101, 114, 101, 110, 99, 101, 50]);
    lemma_spelling_charset();
    assert("Charset".spec_bytes().len() != "Reference2".spec_bytes().len());
    lemma_spelling_sender();
    assert("Sender".spec_bytes().len() != "Reference2".spec_bytes().len());
    lemma_spelling_id();
    assert("ID".spec_bytes().len() != "Reference2".spec_bytes().len());
    lemma_spelling_reference0();
    assert("Reference0".spec_bytes()[9] != "Reference2".spec_bytes()[9]);
    lemma_spelling_reference1();
    assert("Reference1".spec_bytes()[9] != "Reference2".spec_bytes()[9]);
}

/// The bytes of `Reference3`, and that no defined name before it is spelled so.
proof fn lemma_spelling_reference3()
    ensures
        "Reference3".spec_bytes() == seq![82u8, 101, 102, 101, 114, 101, 110, 99, 101, 51],
        "Charset".spec_bytes() != "Reference3".spec_bytes(),
        "Sender".spec_bytes() != "Reference3".spec_bytes(),
        "ID".spec_bytes() != "Reference3".spec_bytes(),
        "Reference0".spec_bytes() != "Reference3".spec_bytes(),
        "Reference1".spec_bytes() != "Reference3".spec_bytes(),
        "Reference2".spec_bytes() != "Reference3".spec_bytes(),
{
    reveal_strlit("Reference3");
    assert(is_ascii("Reference3"));
    assert("Reference3".spec_bytes() =~= seq![82u8, 101, 102, 101, 114, 101, 110, 99, 101, 51]);
    lemma_spelling_charset();
    assert("Charset".spec_bytes().len() != "Reference3".spec_bytes().len());
    lemma_spelling_sender();
    assert("Sender".spec_bytes().len() != "Reference3".spec_bytes().len());
    lemma_spelling_id();
    assert("ID".spec_bytes().len() != "Reference3".spec_bytes().len());
    lemma_spelling_reference0();
    assert("Reference0".spec_bytes()[9] != "Reference3".spec_bytes()[9]);
    lemma_spelling_reference1();
    assert("Reference1".spec_bytes()[9] != "Reference3".spec_bytes()[9]);
    lemma_spelling_reference2();
    assert("Reference2".spec_bytes()[9] != "Reference3".spec_bytes()[9]);
}

/// The bytes of `Reference4`, and that no defined name before it is spelled so.
proof fn lemma_spelling_reference4()
    ensures
        "Reference4".spec_bytes() == seq![82u8, 101, 102, 101, 114, 101, 110, 99, 101, 52],
        "Charset".spec_bytes() != "Reference4".spec_bytes(),
        "Sender".spec_bytes() != "Reference4".spec_bytes(),
        "ID".spec_bytes() != "Reference4".spec_bytes(),
        "Reference0".spec_bytes() != "Reference4".spec_bytes(),
        "Reference1".spec_bytes() != "Reference4".spec_bytes(),
        "Reference2".spec_bytes() != "Reference4".spec_bytes(),
        "Reference3".spec_bytes() != "Reference4".spec_bytes(),
{
    reveal_strlit("Reference4");
    assert(is_ascii("Reference4"));
    assert("Reference4".spec_bytes() =~= seq![82u8, 101, 102, 101, 114, 101, 110, 99, 101, 52]);
    lemma_spelling_charset();
    assert("Charset".spec_bytes().len() != "Reference4".spec_bytes().len());
    lemma_spelling_sender();
    assert("Sender".spec_bytes().len() != "Reference4".spec_bytes().len());
    lemma_spelling_id();
    assert("ID".spec_bytes().len() != "Reference4".spec_bytes().len());
    lemma_spelling_reference0();
    assert("Reference0".spec_bytes()[9] != "Reference4".spec_bytes()[9]);
    lemma_spelling_reference1();
    assert("Reference1".spec_bytes()[9] != "Reference4".spec_bytes()[9]);
    lemma_spelling_reference2();
    assert("Reference2".spec_bytes()[9] != "Reference4".spec_bytes()[9]);
    lemma_spelling_reference3();
    assert("Reference3".spec_bytes()[9] != "Reference4".spec_bytes()[9]);
}

/// The bytes of `Reference5`, and that no defined name before it is spelled so.
proof fn lemma_spelling_reference5()
    ensures
        "Reference5".spec_bytes() == seq![82u8, 101, 102, 101, 114, 101, 110, 99, 101, 53],
        "Charset".spec_bytes() != "Reference5".spec_bytes(),
        "Sender".spec_bytes() != "Reference5".spec_bytes(),
        "ID".spec_bytes() != "Reference5".spec_bytes(),
        "Reference0".spec_bytes() != "Reference5".spec_bytes(),
        "Reference1".spec_bytes() != "Reference5".spec_bytes(),
        "Reference2".spec_bytes() != "Reference5".spec_bytes(),
        "Reference3".spec_bytes() != "Reference5".spec_bytes(),
        "Reference4".spec_bytes() != "Reference5".spec_bytes(),
{
    reveal_strlit("Reference5");
    assert(is_ascii("Reference5"));
    assert("Reference5".spec_bytes() =~= seq![82u8, 101, 102, 101, 114, 101, 110, 99, 101, 53]);
    lemma_spelling_charset();
    assert("Charset".spec_bytes().len() != "Reference5".spec_bytes().len());
    lemma_spelling_sender();
    assert("Sender".spec_bytes().len() != "Reference5".spec_bytes().len());
    lemma_spelling_id();
    assert("ID".spec_bytes().len() != "Reference5".spec_bytes().len());
    lemma_spelling_reference0();
    assert("Reference0".spec_bytes()[9] != "Reference5".spec_bytes()[9]);
    lemma_spelling_reference1();
    assert("Reference1".spec_bytes()[9] != "Reference5".spec_bytes()[9]);
    lemma_spelling_reference2();
    assert("Reference2".spec_bytes()[9] != "Reference5".spec_bytes()[9]);
    lemma_spelling_reference3();
    assert("Reference3".spec_bytes()[9] != "Reference5".spec_bytes()[9]);
    lemma_spelling_reference4();
    assert("Reference4".spec_bytes()[9] != "Reference5".spec_bytes()[9]);
}

/// The bytes of `Reference6`, and that no defined name before it is spelled so.
proof fn lemma_spelling_reference6()
    ensures
        "Reference6".spec_bytes() == seq![82u8, 101, 102, 101, 114, 101, 110, 99, 101, 54],
        "Charset".spec_bytes() != "Reference6".spec_bytes(),
        "Sender".spec_bytes() != "Reference6".spec_bytes(),
        "ID".spec_bytes() != "Reference6".spec_bytes(),
        "Reference0".spec_bytes() != "Reference6".spec_bytes(),
        "Reference1".spec_bytes() != "Reference6".spec_bytes(),
        "Reference2".spec_bytes() != "Reference6".spec_bytes(),
        "Reference3".spec_bytes() != "Reference6".spec_bytes(),
        "Reference4".spec_bytes() != "Reference6".spec_bytes(),
        "Reference5".spec_bytes() != "Reference6".spec_bytes(),
{
    reveal_strlit("Reference6");
    assert(is_ascii("Reference6"));
    assert("Reference6".spec_bytes() =~= seq![82u8, 101, 102, 101, 114, 101, 110, 99, 101, 54]);
    lemma_spelling_charset();
    assert("Charset".spec_bytes().len() != "Reference6".spec_bytes().len());
    lemma_spelling_sender();
    assert("Sender".spec_bytes().len() != "Reference6".spec_bytes().len());
    lemma_spelling_id();
    assert("ID".spec_bytes().len() != "Reference6".spec_bytes().len());
    lemma_spelling_reference0();
    assert("Reference0".spec_bytes()[9] != "Reference6".spec_bytes()[9]);
    lemma_spelling_reference1();
    assert("Reference1".spec_bytes()[9] != "Reference6".spec_bytes()[9]);
    lemma_spelling_reference2();
    assert("Reference2".spec_bytes()[9] != "Reference6".spec_bytes()[9]);
    lemma_spelling_reference3();
    assert("Reference3".spec_bytes()[9] != "Reference6".spec_bytes()[9]);
    lemma_spelling_reference4();
    assert("Reference4".spec_bytes()[9] != "Reference6".spec_bytes()[9]);
    lemma_spelling_reference5();
    assert("Reference5".spec_bytes()[9] != "Reference6".spec_bytes()[9]);
}

/// The bytes of `Reference7`, and that no defined name before it is spelled so.
proof fn lemma_spelling_reference7()
    ensures
        "Reference7".spec_bytes() == seq![82u8, 101, 102, 101, 114, 101, 110, 99, 101, 55],
        "Charset".spec_bytes() != "Reference7".spec_bytes(),
        "Sender".spec_bytes() != "Reference7".spec_bytes(),
        "ID".spec_bytes() != "Reference7".spec_bytes(),
        "Reference0".spec_bytes() != "Reference7".spec_bytes(),
        "Reference1".spec_bytes() != "Reference7".spec_bytes(),
        "Reference2".spec_bytes() != "Reference7".spec_bytes(),
        "Reference3".spec_bytes() != "Reference7".spec_bytes(),
        "Reference4".spec_bytes() != "Reference7".spec_bytes(),
        "Reference5".spec_bytes() != "Reference7".spec_bytes(),
        "Reference6".spec_bytes() != "Reference7".spec_bytes(),
{
    reveal_strlit("Reference7");
    assert(is_ascii("Reference7"));
    assert("Reference7".spec_bytes() =~= seq![82u8, 101, 102, 101, 114, 101, 110, 99, 101, 55]);
    lemma_spelling_charset();
    assert("Charset".spec_bytes().len() != "Reference7".spec_bytes().len());
    lemma_spelling_sender();
    assert("Sender".spec_bytes().len() != "Reference7".spec_bytes().len());
    lemma_spelling_id();
    assert("ID".spec_bytes().len() != "Reference7".spec_bytes().len());
    lemma_spelling_reference0();
    assert("Reference0".spec_bytes()[9] != "Reference7".spec_bytes()[9]);
    lemma_spelling_reference1();
    assert("Reference1".spec_bytes()[9] != "Reference7".spec_bytes()[9]);
    lemma_spelling_reference2();
    assert("Reference2".spec_bytes()[9] != "Reference7".spec_bytes()[9]);
    lemma_spelling_reference3();
    assert("Reference3".spec_bytes()[9] != "Reference7".spec_bytes()[9]);
    lemma_spelling_reference4();
    assert("Reference4".spec_bytes()[9] != "Reference7".spec_bytes()[9]);
    lemma_spelling_reference5();
    assert("Reference5".spec_bytes()[9] != "Reference7".spec_bytes()[9]);
    lemma_spelling_reference6();
    assert("Reference6".spec_bytes()[9] != "Reference7".spec_bytes()[9]);
}

/// The bytes of `SecurityLevel`, and that no defined name before it is spelled so.
proof fn lemma_spelling_securitylevel()
    ensures
        "SecurityLevel".spec_bytes() == seq![83u8, 101, 99, 117, 114, 105, 116, 121, 76, 101, 118, 101, 108],
        "Charset".spec_bytes() != "SecurityLevel".spec_bytes(),
        "Sender".spec_bytes() != "SecurityLevel".spec_bytes(),
        "ID".spec_bytes() != "SecurityLevel".spec_bytes(),
        "Reference0".spec_bytes() != "SecurityLevel".spec_bytes(),
        "Reference1".spec_bytes() != "SecurityLevel".spec_bytes(),
        "Reference2".spec_bytes() != "SecurityLevel".spec_bytes(),
        "Reference3".spec_bytes() != "SecurityLevel".spec_bytes(),
        "Reference4".spec_bytes() != "SecurityLevel".spec_bytes(),
        "Reference5".spec_bytes() != "SecurityLevel".spec_bytes(),
        "Reference6".spec_bytes() != "SecurityLevel".spec_bytes(),
        "Reference7".spec_bytes() != "SecurityLevel".spec_bytes(),
{
    reveal_strlit("SecurityLevel");
    assert(is_ascii("SecurityLevel"));
    assert("SecurityLevel".spec_bytes() =~= seq![83u8, 101, 99, 117, 114, 105, 116, 121, 76, 101, 118, 101, 108]);
    lemma_spelling_charset();
    assert("Charset".spec_bytes().len() != "SecurityLevel".spec_bytes().len());
    lemma_spelling_sender();
    assert("Sender".spec_bytes().len() != "SecurityLevel".spec_bytes().len());
    lemma_spelling_id();
    assert("ID".spec_bytes().len() != "SecurityLevel".spec_bytes().len());
    lemma_spelling_reference0();
    assert("Reference0".spec_bytes().len() != "SecurityLevel".spec_bytes().len());
    lemma_spelling_reference1();
    assert("Reference1".spec_bytes().len() != "SecurityLevel".spec_bytes().len());
    lemma_spelling_reference2();
    assert("Reference2".spec_bytes().len() != "SecurityLevel".spec_bytes().len());
    lemma_spelling_reference3();
    assert("Reference3".spec_bytes().len() != "SecurityLevel".spec_bytes().len());
    lemma_spelling_reference4();
    assert("Reference4".spec_bytes().len() != "SecurityLevel".spec_bytes().len());
    lemma_spelling_reference5();
    assert("Reference5".spec_bytes().len() != "SecurityLevel".spec_bytes().len());
    lemma_spelling_reference6();
    assert("Reference6".spec_bytes().len() != "SecurityLevel".spec_bytes().len());
    lemma_spelling_reference7();
    assert("Reference7".spec_bytes().len() != "SecurityLevel".spec_bytes().len());
}

/// The bytes of `Value`, and that no defined name before it is spelled so.
proof fn lemma_spelling_value()
    ensures
        "Value".spec_bytes() == seq![86u8, 97, 108, 117, 101],
        "Charset".spec_bytes() != "Value".spec_bytes(),
        "Sender".spec_bytes() != "Value".spec_bytes(),
        "ID".spec_bytes() != "Value".spec_bytes(),
        "Reference0".spec_bytes() != "Value".spec_bytes(),
        "Reference1".spec_bytes() != "Value".spec_bytes(),
        "Reference2".spec_bytes() != "Value".spec_bytes(),
        "Reference3".spec_bytes() != "Value".spec_bytes(),
        "Reference4".spec_bytes() != "Value".spec_bytes(),
        "Reference5".spec_bytes() != "Value".spec_bytes(),
        "Reference6".spec_bytes() != "Value".spec_bytes(),
        "Reference7".spec_bytes() != "Value".spec_bytes(),
        "SecurityLevel".spec_bytes() != "Value".spec_bytes(),
{
    reveal_strlit("Value");
    assert(is_ascii("Value"));
    assert("Value".spec_bytes() =~= seq![86u8, 97, 108, 117, 101]);
    lemma_spelling_charset();
    assert("Charset".spec_bytes().len() != "Value".spec_bytes().len());
    lemma_spelling_sender();
    assert("Sender".spec_bytes().len() != "Value".spec_bytes().len());
    lemma_spelling_id();
    assert("ID".spec_bytes().len() != "Value".spec_bytes().len());
    lemma_spelling_reference0();
    assert("Reference0".spec_bytes().len() != "Value".spec_bytes().len());
    lemma_spelling_reference1();
    assert("Reference1".spec_bytes().len() != "Value".spec_bytes().len());
    lemma_spelling_reference2();
    assert("Reference2".spec_bytes().len() != "Value".spec_bytes().len());
    lemma_spelling_reference3();
    assert("Reference3".spec_bytes().len() != "Value".spec_bytes().len());
    lemma_spelling_reference4();
    assert("Reference4".spec_bytes().len() != "Value".spec_bytes().len());
    lemma_spelling_reference5();
    assert("Reference5".spec_bytes().len() != "Value".spec_bytes().len());
    lemma_spelling_reference6();
    assert("Reference6".spec_bytes().len() != "Value".spec_bytes().len());
    lemma_spelling_reference7();
    assert("Reference7".spec_bytes().len() != "Value".spec_bytes().len());
    lemma_spelling_securitylevel();
    assert("SecurityLevel".spec_bytes().len() != "Value".spec_bytes().len());
}

/// Each defined name is found under its own spelling.
pub proof fn lemma_known_names()
    ensures
        known("Charset".spec_bytes()) == Some(HeaderName::Charset),
        known("Sender".spec_bytes()) == Some(HeaderName::Sender),
        known("ID".spec_bytes()) == Some(HeaderName::Id),
        known("Reference0".spec_bytes()) == Some(HeaderName::Reference0),
        known("Reference1".spec_bytes()) == Some(HeaderName::Reference1),
        known("Reference2".spec_bytes()) == Some(HeaderName::Reference2),
        known("Reference3".spec_bytes()) == Some(HeaderName::Reference3),
        known("Reference4".spec_bytes()) == Some(HeaderName::Reference4),
        known("Reference5".spec_bytes()) == Some(HeaderName::Reference5),
        known("Reference6".spec_bytes()) == Some(HeaderName::Reference6),
        known("Reference7".spec_bytes()) == Some(HeaderName::Reference7),
        known("SecurityLevel".spec_bytes()) == Some(HeaderName::SecurityLevel),
        known("Value".spec_bytes()) == Some(HeaderName::Value),
{
    lemma_spelling_charset();
    lemma_spelling_sender();
    lemma_spelling_id();
    lemma_spelling_reference0();
    lemma_spelling_reference1();
    lemma_spelling_reference2();
    lemma_spelling_reference3();
    lemma_spelling_reference4();
    lemma_spelling_reference5();
    lemma_spelling_reference6();
    lemma_spelling_reference7();
    lemma_spelling_securitylevel();
    lemma_spelling_value();
}

/// A defined name is spelled as the bytes that `known` was asked for.
pub proof fn lemma_known(bytes: Seq<u8>)
    ensures
        known(bytes) matches Some(name) ==> name@ == bytes && name.wf() && !(name is Other),
{
}

/// The defined name with this spelling, if there is one.
fn lookup(bytes: &[u8]) -> (res: Option<HeaderName>)
    ensures
        res == known(bytes@),
{
    if bytes_equal(bytes, "Charset".as_bytes()) {
        Some(HeaderName::Charset)
    } else if bytes_equal(bytes, "Sender".as_bytes()) {
        Some(HeaderName::Sender)
    } else if bytes_equal(bytes, "ID".as_bytes()) {
        Some(HeaderName::Id)
    } else if bytes_equal(bytes, "Reference0".as_bytes()) {
        Some(HeaderName::Reference0)
    } else if bytes_equal(bytes, "Reference1".as_bytes()) {
        Some(HeaderName::Reference1)
    } else if bytes_equal(bytes, "Reference2".as_bytes()) {
        Some(HeaderName::Reference2)
    } else if bytes_equal(bytes, "Reference3".as_bytes()) {
        Some(HeaderName::Reference3)
    } else if bytes_equal(bytes, "Reference4".as_bytes()) {
        Some(HeaderName::Reference4)
    } else if bytes_equal(bytes, "Reference5".as_bytes()) {
        Some(HeaderName::Reference5)
    } else if bytes_equal(bytes, "Reference6".as_bytes()) {
        Some(HeaderName::Reference6)
    } else if bytes_equal(bytes, "Reference7".as_bytes()) {
        Some(HeaderName::Reference7)
    } else if bytes_equal(bytes, "SecurityLevel".as_bytes()) {
        Some(HeaderName::SecurityLevel)
    } else if bytes_equal(bytes, "Value".as_bytes()) {
        Some(HeaderName::Value)
    } else {
        None
    }
}

impl HeaderName {
    /// Charset
    pub const CHARSET: HeaderName = HeaderName::Charset;

    /// Sender
    pub const SENDER: HeaderName = HeaderName::Sender;

    /// ID
    pub const ID: HeaderName = HeaderName::Id;

    /// Reference0
    pub const REFERENCE0: HeaderName = HeaderName::Reference0;

    /// Reference1
    pub const REFERENCE1: HeaderName = HeaderName::Reference1;

    /// Reference2
    pub const REFERENCE2: HeaderName = HeaderName::Reference2;

    /// Reference3
    pub const REFERENCE3: HeaderName = HeaderName::Reference3;

    /// Reference4
    pub const REFERENCE4: HeaderName = HeaderName::Reference4;

    /// Reference5
    pub const REFERENCE5: HeaderName = HeaderName::Reference5;

    /// Reference6
    pub const REFERENCE6: HeaderName = HeaderName::Reference6;

    /// Reference7
    pub const REFERENCE7: HeaderName = HeaderName::Reference7;

    /// SecurityLevel
    pub const SECURITY_LEVEL: HeaderName = HeaderName::SecurityLevel;

    /// Value
    pub const VALUE: HeaderName = HeaderName::Value;

    /// The spelling of the name.
    pub open spec fn name(&self) -> Seq<char> {
        match self {
            HeaderName::Charset => "Charset"@,
            HeaderName::Sender => "Sender"@,
            HeaderName::Id => "ID"@,
            HeaderName::Reference0 => "Reference0"@,
            HeaderName::Reference1 => "Reference1"@,
            HeaderName::Reference2 => "Reference2"@,
            HeaderName::Reference3 => "Reference3"@,
            HeaderName::Reference4 => "Reference4"@,
            HeaderName::Reference5 => "Reference5"@,
            HeaderName::Reference6 => "Reference6"@,
            HeaderName::Reference7 => "Reference7"@,
            HeaderName::SecurityLevel => "SecurityLevel"@,
            HeaderName::Value => "Value"@,
            HeaderName::Other(s) => s.text(),
        }
    }

    /// The bytes of a name are the encoding of its spelling.
    pub proof fn lemma_name_bytes(&self)
        ensures
            self@ == encode_utf8(self.name()),
    {
        if let HeaderName::Other(s) = self {
            s.lemma_text();
        }
    }

    /// The spelling of a well-formed name is a token.
    pub proof fn lemma_spelling_is_token(&self)
        requires
            self.wf(),
        ensures
            all_token(self@),
    {
        match self {
            HeaderName::Charset => {
                lemma_token_charset();
            },
            HeaderName::Sender => {
                lemma_token_sender();
            },
            HeaderName::Id => {
                lemma_token_id();
            },
            HeaderName::Reference0 => {
                lemma_token_reference0();
            },
            HeaderName::Reference1 => {
                lemma_token_reference1();
            },
            HeaderName::Reference2 => {
                lemma_token_reference2();
            },
            HeaderName::Reference3 => {
                lemma_token_reference3();
            },
            HeaderName::Reference4 => {
                lemma_token_reference4();
            },
            HeaderName::Reference5 => {
                lemma_token_reference5();
            },
            HeaderName::Reference6 => {
                lemma_token_reference6();
            },
            HeaderName::Reference7 => {
                lemma_token_reference7();
            },
            HeaderName::SecurityLevel => {
                lemma_token_securitylevel();
            },
            HeaderName::Value => {
                lemma_token_value();
            },
            HeaderName::Other(_) => {},
        }
    }

    /// A name that `Other` holds is a token and is not the spelling of a
    /// defined name.
    pub open spec fn wf(&self) -> bool {
        match self {
            HeaderName::Other(s) => s.wf() && known(s@) is None,
            _ => true,
        }
    }

    /// Converts a str to HeaderName.
    pub fn from_static(s: &str) -> (res: Result<HeaderName, Error>)
        ensures
            is_name_of(res, s.spec_bytes()),
            res is Ok <==> all_token(s.spec_bytes()),
            res matches Ok(name) ==> (name is Other <==> known(s.spec_bytes()) is None),
            s@ == "Charset"@ ==> res == Ok::<HeaderName, Error>(HeaderName::Charset),
            s@ == "Sender"@ ==> res == Ok::<HeaderName, Error>(HeaderName::Sender),
            s@ == "ID"@ ==> res == Ok::<HeaderName, Error>(HeaderName::Id),
            s@ == "Reference0"@ ==> res == Ok::<HeaderName, Error>(HeaderName::Reference0),
            s@ == "Reference1"@ ==> res == Ok::<HeaderName, Error>(HeaderName::Reference1),
            s@ == "Reference2"@ ==> res == Ok::<HeaderName, Error>(HeaderName::Reference2),
            s@ == "Reference3"@ ==> res == Ok::<HeaderName, Error>(HeaderName::Reference3),
            s@ == "Reference4"@ ==> res == Ok::<HeaderName, Error>(HeaderName::Reference4),
            s@ == "Reference5"@ ==> res == Ok::<HeaderName, Error>(HeaderName::Reference5),
            s@ == "Reference6"@ ==> res == Ok::<HeaderName, Error>(HeaderName::Reference6),
            s@ == "Reference7"@ ==> res == Ok::<HeaderName, Error>(HeaderName::Reference7),
            s@ == "SecurityLevel"@ ==> res == Ok::<HeaderName, Error>(HeaderName::SecurityLevel),
            s@ == "Value"@ ==> res == Ok::<HeaderName, Error>(HeaderName::Value),
    {
        HeaderName::from_bytes(s.as_bytes())
    }

    /// Converts a bytes to HeaderName.
    pub fn from_bytes(bytes: &[u8]) -> (res: Result<HeaderName, Error>)
        ensures
            is_name_of(res, bytes@),
            res is Ok <==> all_token(bytes@),
            res matches Ok(name) ==> (name is Other <==> known(bytes@) is None),
            bytes@ == "Charset".spec_bytes() ==> res == Ok::<HeaderName, Error>(HeaderName::Charset),
            bytes@ == "Sender".spec_bytes() ==> res == Ok::<HeaderName, Error>(HeaderName::Sender),
            bytes@ == "ID".spec_bytes() ==> res == Ok::<HeaderName, Error>(HeaderName::Id),
            bytes@ == "Reference0".spec_bytes() ==> res == Ok::<HeaderName, Error>(HeaderName::Reference0),
            bytes@ == "Reference1".spec_bytes() ==> res == Ok::<HeaderName, Error>(HeaderName::Reference1),
            bytes@ == "Reference2".spec_bytes() ==> res == Ok::<HeaderName, Error>(HeaderName::Reference2),
            bytes@ == "Reference3".spec_bytes() ==> res == Ok::<HeaderName, Error>(HeaderName::Reference3),
            bytes@ == "Reference4".spec_bytes() ==> res == Ok::<HeaderName, Error>(HeaderName::Reference4),
            bytes@ == "Reference5".spec_bytes() ==> res == Ok::<HeaderName, Error>(HeaderName::Reference5),
            bytes@ == "Reference6".spec_bytes() ==> res == Ok::<HeaderName, Error>(HeaderName::Reference6),
            bytes@ == "Reference7".spec_bytes() ==> res == Ok::<HeaderName, Error>(HeaderName::Reference7),
            bytes@ == "SecurityLevel".spec_bytes() ==> res == Ok::<HeaderName, Error>(HeaderName::SecurityLevel),
            bytes@ == "Value".spec_bytes() ==> res == Ok::<HeaderName, Error>(HeaderName::Value),
    {
        proof {
            lemma_known_names();
            lemma_token_charset();
            lemma_token_sender();
            lemma_token_id();
            lemma_token_reference0();
            lemma_token_reference1();
            lemma_token_reference2();
            lemma_token_reference3();
            lemma_token_reference4();
            lemma_token_reference5();
            lemma_token_reference6();
            lemma_token_reference7();
            lemma_token_securitylevel();
            lemma_token_value();
        }
        match find_non_token(bytes) {
            Some(i) => {
                proof {
                    assert(bytes@.take(i as int).len() == i);
                    assert(!all_token(bytes@));
                }
                Err(
                    Error::InvalidHeaderName(Rfc7230StringConvertError::InvalidCharacter(bytes[i])),
                )
            },
            None => {
                proof {
                    lemma_known(bytes@);
                }
                match lookup(bytes) {
                    Some(name) => Ok(name),
                    None => Ok(HeaderName::Other(Rfc7230String::from_tokens(bytes))),
                }
            },
        }
    }

    /// The spelling of the name.
    pub fn as_str(&self) -> (s: &str)
        ensures
            s@ == self.name(),
            s.spec_bytes() == self@,
    {
        match self {
            HeaderName::Charset => "Charset",
            HeaderName::Sender => "Sender",
            HeaderName::Id => "ID",
            HeaderName::Reference0 => "Reference0",
            HeaderName::Reference1 => "Reference1",
            HeaderName::Reference2 => "Reference2",
            HeaderName::Reference3 => "Reference3",
            HeaderName::Reference4 => "Reference4",
            HeaderName::Reference5 => "Reference5",
            HeaderName::Reference6 => "Reference6",
            HeaderName::Reference7 => "Reference7",
            HeaderName::SecurityLevel => "SecurityLevel",
            HeaderName::Value => "Value",
            HeaderName::Other(s) => s.as_str(),
        }
    }

    /// Converts a HeaderName to bytes.
    pub fn as_bytes(&self) -> (bytes: Vec<u8>)
        ensures
            bytes@ == self@,
    {
        to_vec(self.as_str().as_bytes())
    }

    /// Converts a HeaderName to bytes.
    pub fn to_vec(&self) -> (bytes: Vec<u8>)
        ensures
            bytes@ == self@,
    {
        to_vec(self.as_str().as_bytes())
    }

    /// The spelling of the name as an owned string.
    pub fn to_string(&self) -> (s: String)
        ensures
            s@ == self.name(),
            encode_utf8(s@) == self@,
    {
        self.as_str().to_owned()
    }
}

impl Clone for HeaderName {
    fn clone(&self) -> (r: Self)
        ensures
            r == *self,
    {
        match self {
            HeaderName::Charset => HeaderName::Charset,
            HeaderName::Sender => HeaderName::Sender,
            HeaderName::Id => HeaderName::Id,
            HeaderName::Reference0 => HeaderName::Reference0,
            HeaderName::Reference1 => HeaderName::Reference1,
            HeaderName::Reference2 => HeaderName::Reference2,
            HeaderName::Reference3 => HeaderName::Reference3,
            HeaderName::Reference4 => HeaderName::Reference4,
            HeaderName::Reference5 => HeaderName::Reference5,
            HeaderName::Reference6 => HeaderName::Reference6,
            HeaderName::Reference7 => HeaderName::Reference7,
            HeaderName::SecurityLevel => HeaderName::SecurityLevel,
            HeaderName::Value => HeaderName::Value,
            HeaderName::Other(s) => HeaderName::Other(s.clone()),
        }
    }
}

impl IntoText for HeaderName {
    open spec fn text(&self) -> Seq<char> {
        self.name()
    }

    fn into_text(self) -> (s: String) {
        self.to_string()
    }
}

impl PartialEq for HeaderName {
    fn eq(&self, other: &Self) -> (r: bool) {
        bytes_equal(self.as_str().as_bytes(), other.as_str().as_bytes())
    }
}

impl PartialEqSpecImpl for HeaderName {
    open spec fn obeys_eq_spec() -> bool {
        true
    }

    open spec fn eq_spec(&self, other: &Self) -> bool {
        self@ == other@
    }
}

} // verus!
