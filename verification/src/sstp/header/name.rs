//! The names of SSTP header fields.
use crate::util::bytes::{bytes_equal, to_vec};
use crate::util::string::{
    all_token, find_non_token, first_non_token, is_token_byte, Error as Rfc7230StringConvertError,
    Rfc7230String,
};
use crate::util::text::IntoText;
use vstd::prelude::*;
use vstd::std_specs::cmp::PartialEqSpecImpl;
use vstd::string::*;
use vstd::utf8::encode_utf8;

verus! {

/// Error that can occur when convert from string.
#[derive(Debug, PartialEq, Eq, Clone, Copy, Hash, Structural)]
pub enum Error {
    /// The name holds a byte that is no token character.
    InvalidHeaderName(Rfc7230StringConvertError),
}

impl Error {
    /// The text of the message for this error.
    pub open spec fn message_spec(self) -> Seq<char> {
        match self {
            Error::InvalidHeaderName(e) => "invalid header name: "@ + e.message_spec(),
        }
    }

    /// The message shown for this error.
    pub fn message(&self) -> (text: String)
        ensures
            text@ == self.message_spec(),
    {
        match self {
            Error::InvalidHeaderName(e) => "invalid header name: ".to_owned().concat(
                e.message().as_str(),
            ),
        }
    }
}

/// HeaderName is the name of the SSTP header field.
///
/// The names that SSTP defines have a variant each;
/// any other name that is a token is held by `Other`. A name whose
/// spelling is that of a defined name is always the defined name's variant,
/// never `Other`: see `wf`.
#[derive(Debug, Eq, Hash)]
pub enum HeaderName {
    /// Charset
    Charset,
    /// Sender
    Sender,
    /// Event
    Event,
    /// Reference0
    Reference0,
    /// Reference1
    Reference1,
    /// Reference2
    Reference2,
    /// Reference3
    Reference3,
    /// Reference4
    Reference4,
    /// Reference5
    Reference5,
    /// Reference6
    Reference6,
    /// Reference7
    Reference7,
    /// Script
    Script,
    /// Option
    OptionField,
    /// Entry
    Entry,
    /// HWnd
    HWnd,
    /// IfGhost
    IfGhost,
    /// Command
    Command,
    /// Document
    Document,
    /// Songname
    Songname,
    /// Sentence
    Sentence,
    /// Port
    Port,
    /// Surface
    Surface,
    /// A name that the protocol does not define.
    Other(Rfc7230String),
}

/// The defined name with this spelling, if there is one.
pub open spec fn known(bytes: Seq<u8>) -> Option<HeaderName> {
    if bytes == "Charset".spec_bytes() {
        Some(HeaderName::Charset)
    } else if bytes == "Sender".spec_bytes() {
        Some(HeaderName::Sender)
    } else if bytes == "Event".spec_bytes() {
        Some(HeaderName::Event)
    } else if bytes == "Reference0".spec_bytes() {
        Some(HeaderName::Reference0)
    } else if bytes == "Reference1".spec_bytes() {
        Some(HeaderName::Reference1)
    } else if bytes == "Reference2".spec_bytes() {
        Some(HeaderName::Reference2)
    } else if bytes == "Reference3".spec_bytes() {
        Some(HeaderName::Reference3)
    } else if bytes == "Reference4".spec_bytes() {
        Some(HeaderName::Reference4)
    } else if bytes == "Reference5".spec_bytes() {
        Some(HeaderName::Reference5)
    } else if bytes == "Reference6".spec_bytes() {
        Some(HeaderName::Reference6)
    } else if bytes == "Reference7".spec_bytes() {
        Some(HeaderName::Reference7)
    } else if bytes == "Script".spec_bytes() {
        Some(HeaderName::Script)
    } else if bytes == "Option".spec_bytes() {
        Some(HeaderName::OptionField)
    } else if bytes == "Entry".spec_bytes() {
        Some(HeaderName::Entry)
    } else if bytes == "HWnd".spec_bytes() {
        Some(HeaderName::HWnd)
    } else if bytes == "IfGhost".spec_bytes() {
        Some(HeaderName::IfGhost)
    } else if bytes == "Command".spec_bytes() {
        Some(HeaderName::Command)
    } else if bytes == "Document".spec_bytes() {
        Some(HeaderName::Document)
    } else if bytes == "Songname".spec_bytes() {
        Some(HeaderName::Songname)
    } else if bytes == "Sentence".spec_bytes() {
        Some(HeaderName::Sentence)
    } else if bytes == "Port".spec_bytes() {
        Some(HeaderName::Port)
    } else if bytes == "Surface".spec_bytes() {
        Some(HeaderName::Surface)
    } else {
        None
    }
}

impl View for HeaderName {
    type V = Seq<u8>;

    /// The bytes of the name's spelling.
    open spec fn view(&self) -> Seq<u8> {
        match self {
            HeaderName::Charset => "Charset".spec_bytes(),
            HeaderName::Sender => "Sender".spec_bytes(),
            HeaderName::Event => "Event".spec_bytes(),
            HeaderName::Reference0 => "Reference0".spec_bytes(),
            HeaderName::Reference1 => "Reference1".spec_bytes(),
            HeaderName::Reference2 => "Reference2".spec_bytes(),
            HeaderName::Reference3 => "Reference3".spec_bytes(),
            HeaderName::Reference4 => "Reference4".spec_bytes(),
            HeaderName::Reference5 => "Reference5".spec_bytes(),
            HeaderName::Reference6 => "Reference6".spec_bytes(),
            HeaderName::Reference7 => "Reference7".spec_bytes(),
            HeaderName::Script => "Script".spec_bytes(),
            HeaderName::OptionField => "Option".spec_bytes(),
            HeaderName::Entry => "Entry".spec_bytes(),
            HeaderName::HWnd => "HWnd".spec_bytes(),
            HeaderName::IfGhost => "IfGhost".spec_bytes(),
            HeaderName::Command => "Command".spec_bytes(),
            HeaderName::Document => "Document".spec_bytes(),
            HeaderName::Songname => "Songname".spec_bytes(),
            HeaderName::Sentence => "Sentence".spec_bytes(),
            HeaderName::Port => "Port".spec_bytes(),
            HeaderName::Surface => "Surface".spec_bytes(),
            HeaderName::Other(s) => s@,
        }
    }
}

/// Whether `res` is what reading a name from `bytes` must give: the name
/// spelled `bytes` where they are all token characters, and else the
/// error that holds the first byte that is none.
pub open spec fn is_name_of(res: Result<HeaderName, Error>, bytes: Seq<u8>) -> bool {
    match res {
        Ok(name) => all_token(bytes) && name@ == bytes && name.wf(),
        Err(Error::InvalidHeaderName(Rfc7230StringConvertError::InvalidCharacter(b))) => exists|
            i: int,
        | first_non_token(bytes, i) && bytes[i] == b,
    }
}

/// A text of ASCII letters and digits alone is a token.
proof fn lemma_letters_are_token(text: &str)
    requires
        forall|i: int|
            0 <= i < text@.len() ==> ('a' <= #[trigger] text@[i] <= 'z') || ('A' <= text@[i] <= 'Z')
                || ('0' <= text@[i] <= '9'),
    ensures
        all_token(text.spec_bytes()),
{
    assert(is_ascii(text)) by {
        assert forall|i: int| 0 <= i < text@.len() implies '\0' <= #[trigger] text@[i] <= '\u{7f}' by {}
    }
    let bytes = text.spec_bytes();
    assert forall|i: int| 0 <= i < bytes.len() implies is_token_byte(#[trigger] bytes[i]) by {
        assert(bytes[i] == text@[i] as u8);
    }
}

/// `Charset` is a token.
proof fn lemma_token_charset()
    ensures
        all_token("Charset".spec_bytes()),
{
    reveal_strlit("Charset");
    lemma_letters_are_token("Charset");
}

/// `Sender` is a token.
proof fn lemma_token_sender()
    ensures
        all_token("Sender".spec_bytes()),
{
    reveal_strlit("Sender");
    lemma_letters_are_token("Sender");
}

/// `Event` is a token.
proof fn lemma_token_event()
    ensures
        all_token("Event".spec_bytes()),
{
    reveal_strlit("Event");
    lemma_letters_are_token("Event");
}

/// `Reference0` is a token.
proof fn lemma_token_reference0()
    ensures
        all_token("Reference0".spec_bytes()),
{
    reveal_strlit("Reference0");
    lemma_letters_are_token("Reference0");
}

/// `Reference1` is a token.
proof fn lemma_token_reference1()
    ensures
        all_token("Reference1".spec_bytes()),
{
    reveal_strlit("Reference1");
    lemma_letters_are_token("Reference1");
}

/// `Reference2` is a token.
proof fn lemma_token_reference2()
    ensures
        all_token("Reference2".spec_bytes()),
{
    reveal_strlit("Reference2");
    lemma_letters_are_token("Reference2");
}

/// `Reference3` is a token.
proof fn lemma_token_reference3()
    ensures
        all_token("Reference3".spec_bytes()),
{
    reveal_strlit("Reference3");
    lemma_letters_are_token("Reference3");
}

/// `Reference4` is a token.
proof fn lemma_token_reference4()
    ensures
        all_token("Reference4".spec_bytes()),
{
    reveal_strlit("Reference4");
    lemma_letters_are_token("Reference4");
}

/// `Reference5` is a token.
proof fn lemma_token_reference5()
    ensures
        all_token("Reference5".spec_bytes()),
{
    reveal_strlit("Reference5");
    lemma_letters_are_token("Reference5");
}

/// `Reference6` is a token.
proof fn lemma_token_reference6()
    ensures
        all_token("Reference6".spec_bytes()),
{
    reveal_strlit("Reference6");
    lemma_letters_are_token("Reference6");
}

/// `Reference7` is a token.
proof fn lemma_token_reference7()
    ensures
        all_token("Reference7".spec_bytes()),
{
    reveal_strlit("Reference7");
    lemma_letters_are_token("Reference7");
}

/// `Script` is a token.
proof fn lemma_token_script()
    ensures
        all_token("Script".spec_bytes()),
{
    reveal_strlit("Script");
    lemma_letters_are_token("Script");
}

/// `Option` is a token.
proof fn lemma_token_option()
    ensures
        all_token("Option".spec_bytes()),
{
    reveal_strlit("Option");
    lemma_letters_are_token("Option");
}

/// `Entry` is a token.
proof fn lemma_token_entry()
    ensures
        all_token("Entry".spec_bytes()),
{
    reveal_strlit("Entry");
    lemma_letters_are_token("Entry");
}

/// `HWnd` is a token.
proof fn lemma_token_hwnd()
    ensures
        all_token("HWnd".spec_bytes()),
{
    reveal_strlit("HWnd");
    lemma_letters_are_token("HWnd");
}

/// `IfGhost` is a token.
proof fn lemma_token_ifghost()
    ensures
        all_token("IfGhost".spec_bytes()),
{
    reveal_strlit("IfGhost");
    lemma_letters_are_token("IfGhost");
}

/// `Command` is a token.
proof fn lemma_token_command()
    ensures
        all_token("Command".spec_bytes()),
{
    reveal_strlit("Command");
    lemma_letters_are_token("Command");
}

/// `Document` is a token.
proof fn lemma_token_document()
    ensures
        all_token("Document".spec_bytes()),
{
    reveal_strlit("Document");
    lemma_letters_are_token("Document");
}

/// `Songname` is a token.
proof fn lemma_token_songname()
    ensures
        all_token("Songname".spec_bytes()),
{
    reveal_strlit("Songname");
    lemma_letters_are_token("Songname");
}

/// `Sentence` is a token.
proof fn lemma_token_sentence()
    ensures
        all_token("Sentence".spec_bytes()),
{
    reveal_strlit("Sentence");
    lemma_letters_are_token("Sentence");
}

/// `Port` is a token.
proof fn lemma_token_port()
    ensures
        all_token("Port".spec_bytes()),
{
    reveal_strlit("Port");
    lemma_letters_are_token("Port");
}

/// `Surface` is a token.
proof fn lemma_token_surface()
    ensures
        all_token("Surface".spec_bytes()),
{
    reveal_strlit("Surface");
    lemma_letters_are_token("Surface");
}

/// The bytes of `Charset`, and that no defined name before it is spelled so.
proof fn lemma_spelling_charset()
    ensures
        "Charset".spec_bytes() == seq![67u8, 104, 97, 114, 115, 101, 116],
{
    reveal_strlit("Charset");
    assert(is_ascii("Charset"));
    assert("Charset".spec_bytes() =~= seq![67u8, 104, 97, 114, 115, 101, 116]);
}

/// The bytes of `Sender`, and that no defined name before it is spelled so.
proof fn lemma_spelling_sender()
    ensures
        "Sender".spec_bytes() == seq![83u8, 101, 110, 100, 101, 114],
        "Charset".spec_bytes() != "Sender".spec_bytes(),
{
    reveal_strlit("Sender");
    assert(is_ascii("Sender"));
    assert("Sender".spec_bytes() =~= seq![83u8, 101, 110, 100, 101, 114]);
    lemma_spelling_charset();
    assert("Charset".spec_bytes().len() != "Sender".spec_bytes().len());
}

/// The bytes of `Event`, and that no defined name before it is spelled so.
proof fn lemma_spelling_event()
    ensures
        "Event".spec_bytes() == seq![69u8, 118, 101, 110, 116],
        "Charset".spec_bytes() != "Event".spec_bytes(),
        "Sender".spec_bytes() != "Event".spec_bytes(),
{
    reveal_strlit("Event");
    assert(is_ascii("Event"));
    assert("Event".spec_bytes() =~= seq![69u8, 118, 101, 110, 116]);
    lemma_spelling_charset();
    assert("Charset".spec_bytes().len() != "Event".spec_bytes().len());
    lemma_spelling_sender();
    assert("Sender".spec_bytes().len() != "Event".spec_bytes().len());
}

/// The bytes of `Reference0`, and that no defined name before it is spelled so.
proof fn lemma_spelling_reference0()
    ensures
        "Reference0".spec_bytes() == seq![82u8, 101, 102, 101, 114, 101, 110, 99, 101, 48],
        "Charset".spec_bytes() != "Reference0".spec_bytes(),
        "Sender".spec_bytes() != "Reference0".spec_bytes(),
        "Event".spec_bytes() != "Reference0".spec_bytes(),
{
    reveal_strlit("Reference0");
    assert(is_ascii("Reference0"));
    assert("Reference0".spec_bytes() =~= seq![82u8, 101, 102, 101, 114, 101, 110, 99, 101, 48]);
    lemma_spelling_charset();
    assert("Charset".spec_bytes().len() != "Reference0".spec_bytes().len());
    lemma_spelling_sender();
    assert("Sender".spec_bytes().len() != "Reference0".spec_bytes().len());
    lemma_spelling_event();
    assert("Event".spec_bytes().len() != "Reference0".spec_bytes().len());
}

/// The bytes of `Reference1`, and that no defined name before it is spelled so.
proof fn lemma_spelling_reference1()
    ensures
        "Reference1".spec_bytes() == seq![82u8, 101, 102, 101, 114, 101, 110, 99, 101, 49],
        "Charset".spec_bytes() != "Reference1".spec_bytes(),
        "Sender".spec_bytes() != "Reference1".spec_bytes(),
        "Event".spec_bytes() != "Reference1".spec_bytes(),
        "Reference0".spec_bytes() != "Reference1".spec_bytes(),
{
    reveal_strlit("Reference1");
    assert(is_ascii("Reference1"));
    assert("Reference1".spec_bytes() =~= seq![82u8, 101, 102, 101, 114, 101, 110, 99, 101, 49]);
    lemma_spelling_charset();
    assert("Charset".spec_bytes().len() != "Reference1".spec_bytes().len());
    lemma_spelling_sender();
    assert("Sender".spec_bytes().len() != "Reference1".spec_bytes().len());
    lemma_spelling_event();
    assert("Event".spec_bytes().len() != "Reference1".spec_bytes().len());
    lemma_spelling_reference0();
    assert("Reference0".spec_bytes()[9] != "Reference1".spec_bytes()[9]);
}

/// The bytes of `Reference2`, and that no defined name before it is spelled so.
proof fn lemma_spelling_reference2()
    ensures
        "Reference2".spec_bytes() == seq![82u8, 101, 102, 101, 114, 101, 110, 99, 101, 50],
        "Charset".spec_bytes() != "Reference2".spec_bytes(),
        "Sender".spec_bytes() != "Reference2".spec_bytes(),
        "Event".spec_bytes() != "Reference2".spec_bytes(),
        "Reference0".spec_bytes() != "Reference2".spec_bytes(),
        "Reference1".spec_bytes() != "Reference2".spec_bytes(),
{
    reveal_strlit("Reference2");
    assert(is_ascii("Reference2"));
    assert("Reference2".spec_bytes() =~= seq![82u8, 101, 102, 101, 114, 101, 110, 99, 101, 50]);
    lemma_spelling_charset();
    assert("Charset".spec_bytes().len() != "Reference2".spec_bytes().len());
    lemma_spelling_sender();
    assert("Sender".spec_bytes().len() != "Reference2".spec_bytes().len());
    lemma_spelling_event();
    assert("Event".spec_bytes().len() != "Reference2".spec_bytes().len());
    lemma_spelling_reference0();
    assert("Reference0".spec_bytes()[9] != "Reference2".spec_bytes()[9]);
    lemma_spelling_reference1();
    assert("Reference1".spec_bytes()[9] != "Reference2".spec_bytes()[9]);
}

/// The bytes of `Reference3`, and that no defined name before it is spelled so.
proof fn lemma_spelling_reference3()
    ensures
        "Reference3".spec_bytes() == seq![82u8, 101, 102, 101, 114, 101, 110, 99, 101, 51],
        "Charset".spec_bytes() != "Reference3".spec_bytes(),
        "Sender".spec_bytes() != "Reference3".spec_bytes(),
        "Event".spec_bytes() != "Reference3".spec_bytes(),
        "Reference0".spec_bytes() != "Reference3".spec_bytes(),
        "Reference1".spec_bytes() != "Reference3".spec_bytes(),
        "Reference2".spec_bytes() != "Reference3".spec_bytes(),
{
    reveal_strlit("Reference3");
    assert(is_ascii("Reference3"));
    assert("Reference3".spec_bytes() =~= seq![82u8, 101, 102, 101, 114, 101, 110, 99, 101, 51]);
    lemma_spelling_charset();
    assert("Charset".spec_bytes().len() != "Reference3".spec_bytes().len());
    lemma_spelling_sender();
    assert("Sender".spec_bytes().len() != "Reference3".spec_bytes().len());
    lemma_spelling_event();
    assert("Event".spec_bytes().len() != "Reference3".spec_bytes().len());
    lemma_spelling_reference0();
    assert("Reference0".spec_bytes()[9] != "Reference3".spec_bytes()[9]);
    lemma_spelling_reference1();
    assert("Reference1".spec_bytes()[9] != "Reference3".spec_bytes()[9]);
    lemma_spelling_reference2();
    assert("Reference2".spec_bytes()[9] != "Reference3".spec_bytes()[9]);
}

/// The bytes of `Reference4`, and that no defined name before it is spelled so.
proof fn lemma_spelling_reference4()
    ensures
        "Reference4".spec_bytes() == seq![82u8, 101, 102, 101, 114, 101, 110, 99, 101, 52],
        "Charset".spec_bytes() != "Reference4".spec_bytes(),
        "Sender".spec_bytes() != "Reference4".spec_bytes(),
        "Event".spec_bytes() != "Reference4".spec_bytes(),
        "Reference0".spec_bytes() != "Reference4".spec_bytes(),
        "Reference1".spec_bytes() != "Reference4".spec_bytes(),
        "Reference2".spec_bytes() != "Reference4".spec_bytes(),
        "Reference3".spec_bytes() != "Reference4".spec_bytes(),
{
    reveal_strlit("Reference4");
    assert(is_ascii("Reference4"));
    assert("Reference4".spec_bytes() =~= seq![82u8, 101, 102, 101, 114, 101, 110, 99, 101, 52]);
    lemma_spelling_charset();
    assert("Charset".spec_bytes().len() != "Reference4".spec_bytes().len());
    lemma_spelling_sender();
    assert("Sender".spec_bytes().len() != "Reference4".spec_bytes().len());
    lemma_spelling_event();
    assert("Event".spec_bytes().len() != "Reference4".spec_bytes().len());
    lemma_spelling_reference0();
    assert("Reference0".spec_bytes()[9] != "Reference4".spec_bytes()[9]);
    lemma_spelling_reference1();
    assert("Reference1".spec_bytes()[9] != "Reference4".spec_bytes()[9]);
    lemma_spelling_reference2();
    assert("Reference2".spec_bytes()[9] != "Reference4".spec_bytes()[9]);
    lemma_spelling_reference3();
    assert("Reference3".spec_bytes()[9] != "Reference4".spec_bytes()[9]);
}

/// The bytes of `Reference5`, and that no defined name before it is spelled so.
proof fn lemma_spelling_reference5()
    ensures
        "Reference5".spec_bytes() == seq![82u8, 101, 102, 101, 114, 101, 110, 99, 101, 53],
        "Charset".spec_bytes() != "Reference5".spec_bytes(),
        "Sender".spec_bytes() != "Reference5".spec_bytes(),
        "Event".spec_bytes() != "Reference5".spec_bytes(),
        "Reference0".spec_bytes() != "Reference5".spec_bytes(),
        "Reference1".spec_bytes() != "Reference5".spec_bytes(),
        "Reference2".spec_bytes() != "Reference5".spec_bytes(),
        "Reference3".spec_bytes() != "Reference5".spec_bytes(),
        "Reference4".spec_bytes() != "Reference5".spec_bytes(),
{
    reveal_strlit("Reference5");
    assert(is_ascii("Reference5"));
    assert("Reference5".spec_bytes() =~= seq![82u8, 101, 102, 101, 114, 101, 110, 99, 101, 53]);
    lemma_spelling_charset();
    assert("Charset".spec_bytes().len() != "Reference5".spec_bytes().len());
    lemma_spelling_sender();
    assert("Sender".spec_bytes().len() != "Reference5".spec_bytes().len());
    lemma_spelling_event();
    assert("Event".spec_bytes().len() != "Reference5".spec_bytes().len());
    lemma_spelling_reference0();
    assert("Reference0".spec_bytes()[9] != "Reference5".spec_bytes()[9]);
    lemma_spelling_reference1();
    assert("Reference1".spec_bytes()[9] != "Reference5".spec_bytes()[9]);
    lemma_spelling_reference2();
    assert("Reference2".spec_bytes()[9] != "Reference5".spec_bytes()[9]);
    lemma_spelling_reference3();
    assert("Reference3".spec_bytes()[9] != "Reference5".spec_bytes()[9]);
    lemma_spelling_reference4();
    assert("Reference4".spec_bytes()[9] != "Reference5".spec_bytes()[9]);
}

/// The bytes of `Reference6`, and that no defined name before it is spelled so.
proof fn lemma_spelling_reference6()
    ensures
        "Reference6".spec_bytes() == seq![82u8, 101, 102, 101, 114, 101, 110, 99, 101, 54],
        "Charset".spec_bytes() != "Reference6".spec_bytes(),
        "Sender".spec_bytes() != "Reference6".spec_bytes(),
        "Event".spec_bytes() != "Reference6".spec_bytes(),
        "Reference0".spec_bytes() != "Reference6".spec_bytes(),
        "Reference1".spec_bytes() != "Reference6".spec_bytes(),
        "Reference2".spec_bytes() != "Reference6".spec_bytes(),
        "Reference3".spec_bytes() != "Reference6".spec_bytes(),
        "Reference4".spec_bytes() != "Reference6".spec_bytes(),
        "Reference5".spec_bytes() != "Reference6".spec_bytes(),
{
    reveal_strlit("Reference6");
    assert(is_ascii("Reference6"));
    assert("Reference6".spec_bytes() =~= seq![82u8, 101, 102, 101, 114, 101, 110, 99, 101, 54]);
    lemma_spelling_charset();
    assert("Charset".spec_bytes().len() != "Reference6".spec_bytes().len());
    lemma_spelling_sender();
    assert("Sender".spec_bytes().len() != "Reference6".spec_bytes().len());
    lemma_spelling_event();
    assert("Event".spec_bytes().len() != "Reference6".spec_bytes().len());
    lemma_spelling_reference0();
    assert("Reference0".spec_bytes()[9] != "Reference6".spec_bytes()[9]);
    lemma_spelling_reference1();
    assert("Reference1".spec_bytes()[9] != "Reference6".spec_bytes()[9]);
    lemma_spelling_reference2();
    assert("Reference2".spec_bytes()[9] != "Reference6".spec_bytes()[9]);
    lemma_spelling_reference3();
    assert("Reference3".spec_bytes()[9] != "Reference6".spec_bytes()[9]);
    lemma_spelling_reference4();
    assert("Reference4".spec_bytes()[9] != "Reference6".spec_bytes()[9]);
    lemma_spelling_reference5();
    assert("Reference5".spec_bytes()[9] != "Reference6".spec_bytes()[9]);
}

/// The bytes of `Reference7`, and that no defined name before it is spelled so.
proof fn lemma_spelling_reference7()
    ensures
        "Reference7".spec_bytes() == seq![82u8, 101, 102, 101, 114, 101, 110, 99, 101, 55],
        "Charset".spec_bytes() != "Reference7".spec_bytes(),
        "Sender".spec_bytes() != "Reference7".spec_bytes(),
        "Event".spec_bytes() != "Reference7".spec_bytes(),
        "Reference0".spec_bytes() != "Reference7".spec_bytes(),
        "Reference1".spec_bytes() != "Reference7".spec_bytes(),
        "Reference2".spec_bytes() != "Reference7".spec_bytes(),
        "Reference3".spec_bytes() != "Reference7".spec_bytes(),
        "Reference4".spec_bytes() != "Reference7".spec_bytes(),
        "Reference5".spec_bytes() != "Reference7".spec_bytes(),
        "Reference6".spec_bytes() != "Reference7".spec_bytes(),
{
    reveal_strlit("Reference7");
    assert(is_ascii("Reference7"));
    assert("Reference7".spec_bytes() =~= seq![82u8, 101, 102, 101, 114, 101, 110, 99, 101, 55]);
    lemma_spelling_charset();
    assert("Charset".spec_bytes().len() != "Reference7".spec_bytes().len());
    lemma_spelling_sender();
    assert("Sender".spec_bytes().len() != "Reference7".spec_bytes().len());
    lemma_spelling_event();
    assert("Event".spec_bytes().len() != "Reference7".spec_bytes().len());
    lemma_spelling_reference0();
    assert("Reference0".spec_bytes()[9] != "Reference7".spec_bytes()[9]);
    lemma_spelling_reference1();
    assert("Reference1".spec_bytes()[9] != "Reference7".spec_bytes()[9]);
    lemma_spelling_reference2();
    assert("Reference2".spec_bytes()[9] != "Reference7".spec_bytes()[9]);
    lemma_spelling_reference3();
    assert("Reference3".spec_bytes()[9] != "Reference7".spec_bytes()[9]);
    lemma_spelling_reference4();
    assert("Reference4".spec_bytes()[9] != "Reference7".spec_bytes()[9]);
    lemma_spelling_reference5();
    assert("Reference5".spec_bytes()[9] != "Reference7".spec_bytes()[9]);
    lemma_spelling_reference6();
    assert("Reference6".spec_bytes()[9] != "Reference7".spec_bytes()[9]);
}

/// The bytes of `Script`, and that no defined name before it is spelled so.
proof fn lemma_spelling_script()
    ensures
        "Script".spec_bytes() == seq![83u8, 99, 114, 105, 112, 116],
        "Charset".spec_bytes() != "Script".spec_bytes(),
        "Sender".spec_bytes() != "Script".spec_bytes(),
        "Event".spec_bytes() != "Script".spec_bytes(),
        "Reference0".spec_bytes() != "Script".spec_bytes(),
        "Reference1".spec_bytes() != "Script".spec_bytes(),
        "Reference2".spec_bytes() != "Script".spec_bytes(),
        "Reference3".spec_bytes() != "Script".spec_bytes(),
        "Reference4".spec_bytes() != "Script".spec_bytes(),
        "Reference5".spec_bytes() != "Script".spec_bytes(),
        "Reference6".spec_bytes() != "Script".spec_bytes(),
        "Reference7".spec_bytes() != "Script".spec_bytes(),
{
    reveal_strlit("Script");
    assert(is_ascii("Script"));
    assert("Script".spec_bytes() =~= seq![83u8, 99, 114, 105, 112, 116]);
    lemma_spelling_charset();
    assert("Charset".spec_bytes().len() != "Script".spec_bytes().len());
    lemma_spelling_sender();
    assert("Sender".spec_bytes()[1] != "Script".spec_bytes()[1]);
    lemma_spelling_event();
    assert("Event".spec_bytes().len() != "Script".spec_bytes().len());
    lemma_spelling_reference0();
    assert("Reference0".spec_bytes().len() != "Script".spec_bytes().len());
    lemma_spelling_reference1();
    assert("Reference1".spec_bytes().len() != "Script".spec_bytes().len());
    lemma_spelling_reference2();
    assert("Reference2".spec_bytes().len() != "Script".spec_bytes().len());
    lemma_spelling_reference3();
    assert("Reference3".spec_bytes().len() != "Script".spec_bytes().len());
    lemma_spelling_reference4();
    assert("Reference4".spec_bytes().len() != "Script".spec_bytes().len());
    lemma_spelling_reference5();
    assert("Reference5".spec_bytes().len() != "Script".spec_bytes().len());
    lemma_spelling_reference6();
    assert("Reference6".spec_bytes().len() != "Script".spec_bytes().len());
    lemma_spelling_reference7();
    assert("Reference7".spec_bytes().len() != "Script".spec_bytes().len());
}

/// The bytes of `Option`, and that no defined name before it is spelled so.
proof fn lemma_spelling_option()
    ensures
        "Option".spec_bytes() == seq![79u8, 112, 116, 105, 111, 110],
        "Charset".spec_bytes() != "Option".spec_bytes(),
        "Sender".spec_bytes() != "Option".spec_bytes(),
        "Event".spec_bytes() != "Option".spec_bytes(),
        "Reference0".spec_bytes() != "Option".spec_bytes(),
        "Reference1".spec_bytes() != "Option".spec_bytes(),
        "Reference2".spec_bytes() != "Option".spec_bytes(),
        "Reference3".spec_bytes() != "Option".spec_bytes(),
        "Reference4".spec_bytes() != "Option".spec_bytes(),
        "Reference5".spec_bytes() != "Option".spec_bytes(),
        "Reference6".spec_bytes() != "Option".spec_bytes(),
        "Reference7".spec_bytes() != "Option".spec_bytes(),
        "Script".spec_bytes() != "Option".spec_bytes(),
{
    reveal_strlit("Option");
    assert(is_ascii("Option"));
    assert("Option".spec_bytes() =~= seq![79u8, 112, 116, 105, 111, 110]);
    lemma_spelling_charset();
    assert("Charset".spec_bytes().len() != "Option".spec_bytes().len());
    lemma_spelling_sender();
    assert("Sender".spec_bytes()[0] != "Option".spec_bytes()[0]);
    lemma_spelling_event();
    assert("Event".spec_bytes().len() != "Option".spec_bytes().len());
    lemma_spelling_reference0();
    assert("Reference0".spec_bytes().len() != "Option".spec_bytes().len());
    lemma_spelling_reference1();
    assert("Reference1".spec_bytes().len() != "Option".spec_bytes().len());
    lemma_spelling_reference2();
    assert("Reference2".spec_bytes().len() != "Option".spec_bytes().len());
    lemma_spelling_reference3();
    assert("Reference3".spec_bytes().len() != "Option".spec_bytes().len());
    lemma_spelling_reference4();
    assert("Reference4".spec_bytes().len() != "Option".spec_bytes().len());
    lemma_spelling_reference5();
    assert("Reference5".spec_bytes().len() != "Option".spec_bytes().len());
    lemma_spelling_reference6();
    assert("Reference6".spec_bytes().len() != "Option".spec_bytes().len());
    lemma_spelling_reference7();
    assert("Reference7".spec_bytes().len() != "Option".spec_bytes().len());
    lemma_spelling_script();
    assert("Script".spec_bytes()[0] != "Option".spec_bytes()[0]);
}

/// The bytes of `Entry`, and that no defined name before it is spelled so.
proof fn lemma_spelling_entry()
    ensures
        "Entry".spec_bytes() == seq![69u8, 110, 116, 114, 121],
        "Charset".spec_bytes() != "Entry".spec_bytes(),
        "Sender".spec_bytes() != "Entry".spec_bytes(),
        "Event".spec_bytes() != "Entry".spec_bytes(),
        "Reference0".spec_bytes() != "Entry".spec_bytes(),
        "Reference1".spec_bytes() != "Entry".spec_bytes(),
        "Reference2".spec_bytes() != "Entry".spec_bytes(),
        "Reference3".spec_bytes() != "Entry".spec_bytes(),
        "Reference4".spec_bytes() != "Entry".spec_bytes(),
        "Reference5".spec_bytes() != "Entry".spec_bytes(),
        "Reference6".spec_bytes() != "Entry".spec_bytes(),
        "Reference7".spec_bytes() != "Entry".spec_bytes(),
        "Script".spec_bytes() != "Entry".spec_bytes(),
        "Option".spec_bytes() != "Entry".spec_bytes(),
{
    reveal_strlit("Entry");
    assert(is_ascii("Entry"));
    assert("Entry".spec_bytes() =~= seq![69u8, 110, 116, 114, 121]);
    lemma_spelling_charset();
    assert("Charset".spec_bytes().len() != "Entry".spec_bytes().len());
    lemma_spelling_sender();
    assert("Sender".spec_bytes().len() != "Entry".spec_bytes().len());
    lemma_spelling_event();
    assert("Event".spec_bytes()[1] != "Entry".spec_bytes()[1]);
    lemma_spelling_reference0();
    assert("Reference0".spec_bytes().len() != "Entry".spec_bytes().len());
    lemma_spelling_reference1();
    assert("Reference1".spec_bytes().len() != "Entry".spec_bytes().len());
    lemma_spelling_reference2();
    assert("Reference2".spec_bytes().len() != "Entry".spec_bytes().len());
    lemma_spelling_reference3();
    assert("Reference3".spec_bytes().len() != "Entry".spec_bytes().len());
    lemma_spelling_reference4();
    assert("Reference4".spec_bytes().len() != "Entry".spec_bytes().len());
    lemma_spelling_reference5();
    assert("Reference5".spec_bytes().len() != "Entry".spec_bytes().len());
    lemma_spelling_reference6();
    assert("Reference6".spec_bytes().len() != "Entry".spec_bytes().len());
    lemma_spelling_reference7();
    assert("Reference7".spec_bytes().len() != "Entry".spec_bytes().len());
    lemma_spelling_script();
    assert("Script".spec_bytes().len() != "Entry".spec_bytes().len());
    lemma_spelling_option();
    assert("Option".spec_bytes().len() != "Entry".spec_bytes().len());
}

/// The bytes of `HWnd`, and that no defined name before it is spelled so.
proof fn lemma_spelling_hwnd()
    ensures
        "HWnd".spec_bytes() == seq![72u8, 87, 110, 100],
        "Charset".spec_bytes() != "HWnd".spec_bytes(),
        "Sender".spec_bytes() != "HWnd".spec_bytes(),
        "Event".spec_bytes() != "HWnd".spec_bytes(),
        "Reference0".spec_bytes() != "HWnd".spec_bytes(),
        "Reference1".spec_bytes() != "HWnd".spec_bytes(),
        "Reference2".spec_bytes() != "HWnd".spec_bytes(),
        "Reference3".spec_bytes() != "HWnd".spec_bytes(),
        "Reference4".spec_bytes() != "HWnd".spec_bytes(),
        "Reference5".spec_bytes() != "HWnd".spec_bytes(),
        "Reference6".spec_bytes() != "HWnd".spec_bytes(),
        "Reference7".spec_bytes() != "HWnd".spec_bytes(),
        "Script".spec_bytes() != "HWnd".spec_bytes(),
        "Option".spec_bytes() != "HWnd".spec_bytes(),
        "Entry".spec_bytes() != "HWnd".spec_bytes(),
{
    reveal_strlit("HWnd");
    assert(is_ascii("HWnd"));
    assert("HWnd".spec_bytes() =~= seq![72u8, 87, 110, 100]);
    lemma_spelling_charset();
    assert("Charset".spec_bytes().len() != "HWnd".spec_bytes().len());
    lemma_spelling_sender();
    assert("Sender".spec_bytes().len() != "HWnd".spec_bytes().len());
    lemma_spelling_event();
    assert("Event".spec_bytes().len() != "HWnd".spec_bytes().len());
    lemma_spelling_reference0();
    assert("Reference0".spec_bytes().len() != "HWnd".spec_bytes().len());
    lemma_spelling_reference1();
    assert("Reference1".spec_bytes().len() != "HWnd".spec_bytes().len());
    lemma_spelling_reference2();
    assert("Reference2".spec_bytes().len() != "HWnd".spec_bytes().len());
    lemma_spelling_reference3();
    assert("Reference3".spec_bytes().len() != "HWnd".spec_bytes().len());
    lemma_spelling_reference4();
    assert("Reference4".spec_bytes().len() != "HWnd".spec_bytes().len());
    lemma_spelling_reference5();
    assert("Reference5".spec_bytes().len() != "HWnd".spec_bytes().len());
    lemma_spelling_reference6();
    assert("Reference6".spec_bytes().len() != "HWnd".spec_bytes().len());
    lemma_spelling_reference7();
    assert("Reference7".spec_bytes().len() != "HWnd".spec_bytes().len());
    lemma_spelling_script();
    assert("Script".spec_bytes().len() != "HWnd".spec_bytes().len());
    lemma_spelling_option();
    assert("Option".spec_bytes().len() != "HWnd".spec_bytes().len());
    lemma_spelling_entry();
    assert("Entry".spec_bytes().len() != "HWnd".spec_bytes().len());
}

/// The bytes of `IfGhost`, and that no defined name before it is spelled so.
proof fn lemma_spelling_ifghost()
    ensures
        "IfGhost".spec_bytes() == seq![73u8, 102, 71, 104, 111, 115, 116],
        "Charset".spec_bytes() != "IfGhost".spec_bytes(),
        "Sender".spec_bytes() != "IfGhost".spec_bytes(),
        "Event".spec_bytes() != "IfGhost".spec_bytes(),
        "Reference0".spec_bytes() != "IfGhost".spec_bytes(),
        "Reference1".spec_bytes() != "IfGhost".spec_bytes(),
        "Reference2".spec_bytes() != "IfGhost".spec_bytes(),
        "Reference3".spec_bytes() != "IfGhost".spec_bytes(),
        "Reference4".spec_bytes() != "IfGhost".spec_bytes(),
        "Reference5".spec_bytes() != "IfGhost".spec_bytes(),
        "Reference6".spec_bytes() != "IfGhost".spec_bytes(),
        "Reference7".spec_bytes() != "IfGhost".spec_bytes(),
        "Script".spec_bytes() != "IfGhost".spec_bytes(),
        "Option".spec_bytes() != "IfGhost".spec_bytes(),
        "Entry".spec_bytes() != "IfGhost".spec_bytes(),
        "HWnd".spec_bytes() != "IfGhost".spec_bytes(),
{
    reveal_strlit("IfGhost");
    assert(is_ascii("IfGhost"));
    assert("IfGhost".spec_bytes() =~= seq![73u8, 102, 71, 104, 111, 115, 116]);
    lemma_spelling_charset();
    assert("Charset".spec_bytes()[0] != "IfGhost".spec_bytes()[0]);
    lemma_spelling_sender();
    assert("Sender".spec_bytes().len() != "IfGhost".spec_bytes().len());
    lemma_spelling_event();
    assert("Event".spec_bytes().len() != "IfGhost".spec_bytes().len());
    lemma_spelling_reference0();
    assert("Reference0".spec_bytes().len() != "IfGhost".spec_bytes().len());
    lemma_spelling_reference1();
    assert("Reference1".spec_bytes().len() != "IfGhost".spec_bytes().len());
    lemma_spelling_reference2();
    assert("Reference2".spec_bytes().len() != "IfGhost".spec_bytes().len());
    lemma_spelling_reference3();
    assert("Reference3".spec_bytes().len() != "IfGhost".spec_bytes().len());
    lemma_spelling_reference4();
    assert("Reference4".spec_bytes().len() != "IfGhost".spec_bytes().len());
    lemma_spelling_reference5();
    assert("Reference5".spec_bytes().len() != "IfGhost".spec_bytes().len());
    lemma_spelling_reference6();
    assert("Reference6".spec_bytes().len() != "IfGhost".spec_bytes().len());
    lemma_spelling_reference7();
    assert("Reference7".spec_bytes().len() != "IfGhost".spec_bytes().len());
    lemma_spelling_script();
    assert("Script".spec_bytes().len() != "IfGhost".spec_bytes().len());
    lemma_spelling_option();
    assert("Option".spec_bytes().len() != "IfGhost".spec_bytes().len());
    lemma_spelling_entry();
    assert("Entry".spec_bytes().len() != "IfGhost".spec_bytes().len());
    lemma_spelling_hwnd();
    assert("HWnd".spec_bytes().len() != "IfGhost".spec_bytes().len());
}

/// The bytes of `Command`, and that no defined name before it is spelled so.
proof fn lemma_spelling_command()
    ensures
        "Command".spec_bytes() == seq![67u8, 111, 109, 109, 97, 110, 100],
        "Charset".spec_bytes() != "Command".spec_bytes(),
        "Sender".spec_bytes() != "Command".spec_bytes(),
        "Event".spec_bytes() != "Command".spec_bytes(),
        "Reference0".spec_bytes() != "Command".spec_bytes(),
        "Reference1".spec_bytes() != "Command".spec_bytes(),
        "Reference2".spec_bytes() != "Command".spec_bytes(),
        "Reference3".spec_bytes() != "Command".spec_bytes(),
        "Reference4".spec_bytes() != "Command".spec_bytes(),
        "Reference5".spec_bytes() != "Command".spec_bytes(),
        "Reference6".spec_bytes() != "Command".spec_bytes(),
        "Reference7".spec_bytes() != "Command".spec_bytes(),
        "Script".spec_bytes() != "Command".spec_bytes(),
        "Option".spec_bytes() != "Command".spec_bytes(),
        "Entry".spec_bytes() != "Command".spec_bytes(),
        "HWnd".spec_bytes() != "Command".spec_bytes(),
        "IfGhost".spec_bytes() != "Command".spec_bytes(),
{
    reveal_strlit("Command");
    assert(is_ascii("Command"));
    assert("Command".spec_bytes() =~= seq![67u8, 111, 109, 109, 97, 110, 100]);
    lemma_spelling_charset();
    assert("Charset".spec_bytes()[1] != "Command".spec_bytes()[1]);
    lemma_spelling_sender();
    assert("Sender".spec_bytes().len() != "Command".spec_bytes().len());
    lemma_spelling_event();
    assert("Event".spec_bytes().len() != "Command".spec_bytes().len());
    lemma_spelling_reference0();
    assert("Reference0".spec_bytes().len() != "Command".spec_bytes().len());
    lemma_spelling_reference1();
    assert("Reference1".spec_bytes().len() != "Command".spec_bytes().len());
    lemma_spelling_reference2();
    assert("Reference2".spec_bytes().len() != "Command".spec_bytes().len());
    lemma_spelling_reference3();
    assert("Reference3".spec_bytes().len() != "Command".spec_bytes().len());
    lemma_spelling_reference4();
    assert("Reference4".spec_bytes().len() != "Command".spec_bytes().len());
    lemma_spelling_reference5();
    assert("Reference5".spec_bytes().len() != "Command".spec_bytes().len());
    lemma_spelling_reference6();
    assert("Reference6".spec_bytes().len() != "Command".spec_bytes().len());
    lemma_spelling_reference7();
    assert("Reference7".spec_bytes().len() != "Command".spec_bytes().len());
    lemma_spelling_script();
    assert("Script".spec_bytes().len() != "Command".spec_bytes().len());
    lemma_spelling_option();
    assert("Option".spec_bytes().len() != "Command".spec_bytes().len());
    lemma_spelling_entry();
    assert("Entry".spec_bytes().len() != "Command".spec_bytes().len());
    lemma_spelling_hwnd();
    assert("HWnd".spec_bytes().len() != "Command".spec_bytes().len());
    lemma_spelling_ifghost();
    assert("IfGhost".spec_bytes()[0] != "Command".spec_bytes()[0]);
}

/// The bytes of `Document`, and that no defined name before it is spelled so.
proof fn lemma_spelling_document()
    ensures
        "Document".spec_bytes() == seq![68u8, 111, 99, 117, 109, 101, 110, 116],
        "Charset".spec_bytes() != "Document".spec_bytes(),
        "Sender".spec_bytes() != "Document".spec_bytes(),
        "Event".spec_bytes() != "Document".spec_bytes(),
        "Reference0".spec_bytes() != "Document".spec_bytes(),
        "Reference1".spec_bytes() != "Document".spec_bytes(),
        "Reference2".spec_bytes() != "Document".spec_bytes(),
        "Reference3".spec_bytes() != "Document".spec_bytes(),
        "Reference4".spec_bytes() != "Document".spec_bytes(),
        "Reference5".spec_bytes() != "Document".spec_bytes(),
        "Reference6".spec_bytes() != "Document".spec_bytes(),
        "Reference7".spec_bytes() != "Document".spec_bytes(),
        "Script".spec_bytes() != "Document".spec_bytes(),
        "Option".spec_bytes() != "Document".spec_bytes(),
        "Entry".spec_bytes() != "Document".spec_bytes(),
        "HWnd".spec_bytes() != "Document".spec_bytes(),
        "IfGhost".spec_bytes() != "Document".spec_bytes(),
        "Command".spec_bytes() != "Document".spec_bytes(),
{
    reveal_strlit("Document");
    assert(is_ascii("Document"));
    assert("Document".spec_bytes() =~= seq![68u8, 111, 99, 117, 109, 101, 110, 116]);
    lemma_spelling_charset();
    assert("Charset".spec_bytes().len() != "Document".spec_bytes().len());
    lemma_spelling_sender();
    assert("Sender".spec_bytes().len() != "Document".spec_bytes().len());
    lemma_spelling_event();
    assert("Event".spec_bytes().len() != "Document".spec_bytes().len());
    lemma_spelling_reference0();
    assert("Reference0".spec_bytes().len() != "Document".spec_bytes().len());
    lemma_spelling_reference1();
    assert("Reference1".spec_bytes().len() != "Document".spec_bytes().len());
    lemma_spelling_reference2();
    assert("Reference2".spec_bytes().len() != "Document".spec_bytes().len());
    lemma_spelling_reference3();
    assert("Reference3".spec_bytes().len() != "Document".spec_bytes().len());
    lemma_spelling_reference4();
    assert("Reference4".spec_bytes().len() != "Document".spec_bytes().len());
    lemma_spelling_reference5();
    assert("Reference5".spec_bytes().len() != "Document".spec_bytes().len());
    lemma_spelling_reference6();
    assert("Reference6".spec_bytes().len() != "Document".spec_bytes().len());
    lemma_spelling_reference7();
    assert("Reference7".spec_bytes().len() != "Document".spec_bytes().len());
    lemma_spelling_script();
    assert("Script".spec_bytes().len() != "Document".spec_bytes().len());
    lemma_spelling_option();
    assert("Option".spec_bytes().len() != "Document".spec_bytes().len());
    lemma_spelling_entry();
    assert("Entry".spec_bytes().len() != "Document".spec_bytes().len());
    lemma_spelling_hwnd();
    assert("HWnd".spec_bytes().len() != "Document".spec_bytes().len());
    lemma_spelling_ifghost();
    assert("IfGhost".spec_bytes().len() != "Document".spec_bytes().len());
    lemma_spelling_command();
    assert("Command".spec_bytes().len() != "Document".spec_bytes().len());
}

/// The bytes of `Songname`, and that no defined name before it is spelled so.
proof fn lemma_spelling_songname()
    ensures
        "Songname".spec_bytes() == seq![83u8, 111, 110, 103, 110, 97, 109, 101],
        "Charset".spec_bytes() != "Songname".spec_bytes(),
        "Sender".spec_bytes() != "Songname".spec_bytes(),
        "Event".spec_bytes() != "Songname".spec_bytes(),
        "Reference0".spec_bytes() != "Songname".spec_bytes(),
        "Reference1".spec_bytes() != "Songname".spec_bytes(),
        "Reference2".spec_bytes() != "Songname".spec_bytes(),
        "Reference3".spec_bytes() != "Songname".spec_bytes(),
        "Reference4".spec_bytes() != "Songname".spec_bytes(),
        "Reference5".spec_bytes() != "Songname".spec_bytes(),
        "Reference6".spec_bytes() != "Songname".spec_bytes(),
        "Reference7".spec_bytes() != "Songname".spec_bytes(),
        "Script".spec_bytes() != "Songname".spec_bytes(),
        "Option".spec_bytes() != "Songname".spec_bytes(),
        "Entry".spec_bytes() != "Songname".spec_bytes(),
        "HWnd".spec_bytes() != "Songname".spec_bytes(),
        "IfGhost".spec_bytes() != "Songname".spec_bytes(),
        "Command".spec_bytes() != "Songname".spec_bytes(),
        "Document".spec_bytes() != "Songname".spec_bytes(),
{
    reveal_strlit("Songname");
    assert(is_ascii("Songname"));
    assert("Songname".spec_bytes() =~= seq![83u8, 111, 110, 103, 110, 97, 109, 101]);
    lemma_spelling_charset();
    assert("Charset".spec_bytes().len() != "Songname".spec_bytes().len());
    lemma_spelling_sender();
    assert("Sender".spec_bytes().len() != "Songname".spec_bytes().len());
    lemma_spelling_event();
    assert("Event".spec_bytes().len() != "Songname".spec_bytes().len());
    lemma_spelling_reference0();
    assert("Reference0".spec_bytes().len() != "Songname".spec_bytes().len());
    lemma_spelling_reference1();
    assert("Reference1".spec_bytes().len() != "Songname".spec_bytes().len());
    lemma_spelling_reference2();
    assert("Reference2".spec_bytes().len() != "Songname".spec_bytes().len());
    lemma_spelling_reference3();
    assert("Reference3".spec_bytes().len() != "Songname".spec_bytes().len());
    lemma_spelling_reference4();
    assert("Reference4".spec_bytes().len() != "Songname".spec_bytes().len());
    lemma_spelling_reference5();
    assert("Reference5".spec_bytes().len() != "Songname".spec_bytes().len());
    lemma_spelling_reference6();
    assert("Reference6".spec_bytes().len() != "Songname".spec_bytes().len());
    lemma_spelling_reference7();
    assert("Reference7".spec_bytes().len() != "Songname".spec_bytes().len());
    lemma_spelling_script();
    assert("Script".spec_bytes().len() != "Songname".spec_bytes().len());
    lemma_spelling_option();
    assert("Option".spec_bytes().len() != "Songname".spec_bytes().len());
    lemma_spelling_entry();
    assert("Entry".spec_bytes().len() != "Songname".spec_bytes().len());
    lemma_spelling_hwnd();
    assert("HWnd".spec_bytes().len() != "Songname".spec_bytes().len());
    lemma_spelling_ifghost();
    assert("IfGhost".spec_bytes().len() != "Songname".spec_bytes().len());
    lemma_spelling_command();
    assert("Command".spec_bytes().len() != "Songname".spec_bytes().len());
    lemma_spelling_document();
    assert("Document".spec_bytes()[0] != "Songname".spec_bytes()[0]);
}

/// The bytes of `Sentence`, and that no defined name before it is spelled so.
proof fn lemma_spelling_sentence()
    ensures
        "Sentence".spec_bytes() == seq![83u8, 101, 110, 116, 101, 110, 99, 101],
        "Charset".spec_bytes() != "Sentence".spec_bytes(),
        "Sender".spec_bytes() != "Sentence".spec_bytes(),
        "Event".spec_bytes() != "Sentence".spec_bytes(),
        "Reference0".spec_bytes() != "Sentence".spec_bytes(),
        "Reference1".spec_bytes() != "Sentence".spec_bytes(),
        "Reference2".spec_bytes() != "Sentence".spec_bytes(),
        "Reference3".spec_bytes() != "Sentence".spec_bytes(),
        "Reference4".spec_bytes() != "Sentence".spec_bytes(),
        "Reference5".spec_bytes() != "Sentence".spec_bytes(),
        "Reference6".spec_bytes() != "Sentence".spec_bytes(),
        "Reference7".spec_bytes() != "Sentence".spec_bytes(),
        "Script".spec_bytes() != "Sentence".spec_bytes(),
        "Option".spec_bytes() != "Sentence".spec_bytes(),
        "Entry".spec_bytes() != "Sentence".spec_bytes(),
        "HWnd".spec_bytes() != "Sentence".spec_bytes(),
        "IfGhost".spec_bytes() != "Sentence".spec_bytes(),
        "Command".spec_bytes() != "Sentence".spec_bytes(),
        "Document".spec_bytes() != "Sentence".spec_bytes(),
        "Songname".spec_bytes() != "Sentence".spec_bytes(),
{
    reveal_strlit("Sentence");
    assert(is_ascii("Sentence"));
    assert("Sentence".spec_bytes() =~= seq![83u8, 101, 110, 116, 101, 110, 99, 101]);
    lemma_spelling_charset();
    assert("Charset".spec_bytes().len() != "Sentence".spec_bytes().len());
    lemma_spelling_sender();
    assert("Sender".spec_bytes().len() != "Sentence".spec_bytes().len());
    lemma_spelling_event();
    assert("Event".spec_bytes().len() != "Sentence".spec_bytes().len());
    lemma_spelling_reference0();
    assert("Reference0".spec_bytes().len() != "Sentence".spec_bytes().len());
    lemma_spelling_reference1();
    assert("Reference1".spec_bytes().len() != "Sentence".spec_bytes().len());
    lemma_spelling_reference2();
    assert("Reference2".spec_bytes().len() != "Sentence".spec_bytes().len());
    lemma_spelling_reference3();
    assert("Reference3".spec_bytes().len() != "Sentence".spec_bytes().len());
    lemma_spelling_reference4();
    assert("Reference4".spec_bytes().len() != "Sentence".spec_bytes().len());
    lemma_spelling_reference5();
    assert("Reference5".spec_bytes().len() != "Sentence".spec_bytes().len());
    lemma_spelling_reference6();
    assert("Reference6".spec_bytes().len() != "Sentence".spec_bytes().len());
    lemma_spelling_reference7();
    assert("Reference7".spec_bytes().len() != "Sentence".spec_bytes().len());
    lemma_spelling_script();
    assert("Script".spec_bytes().len() != "Sentence".spec_bytes().len());
    lemma_spelling_option();
    assert("Option".spec_bytes().len() != "Sentence".spec_bytes().len());
    lemma_spelling_entry();
    assert("Entry".spec_bytes().len() != "Sentence".spec_bytes().len());
    lemma_spelling_hwnd();
    assert("HWnd".spec_bytes().len() != "Sentence".spec_bytes().len());
    lemma_spelling_ifghost();
    assert("IfGhost".spec_bytes().len() != "Sentence".spec_bytes().len());
    lemma_spelling_command();
    assert("Command".spec_bytes().len() != "Sentence".spec_bytes().len());
    lemma_spelling_document();
    assert("Document".spec_bytes()[0] != "Sentence".spec_bytes()[0]);
    lemma_spelling_songname();
    assert("Songname".spec_bytes()[1] != "Sentence".spec_bytes()[1]);
}

/// The bytes of `Port`, and that no defined name before it is spelled so.
proof fn lemma_spelling_port()
    ensures
        "Port".spec_bytes() == seq![80u8, 111, 114, 116],
        "Charset".spec_bytes() != "Port".spec_bytes(),
        "Sender".spec_bytes() != "Port".spec_bytes(),
        "Event".spec_bytes() != "Port".spec_bytes(),
        "Reference0".spec_bytes() != "Port".spec_bytes(),
        "Reference1".spec_bytes() != "Port".spec_bytes(),
        "Reference2".spec_bytes() != "Port".spec_bytes(),
        "Reference3".spec_bytes() != "Port".spec_bytes(),
        "Reference4".spec_bytes() != "Port".spec_bytes(),
        "Reference5".spec_bytes() != "Port".spec_bytes(),
        "Reference6".spec_bytes() != "Port".spec_bytes(),
        "Reference7".spec_bytes() != "Port".spec_bytes(),
        "Script".spec_bytes() != "Port".spec_bytes(),
        "Option".spec_bytes() != "Port".spec_bytes(),
        "Entry".spec_bytes() != "Port".spec_bytes(),
        "HWnd".spec_bytes() != "Port".spec_bytes(),
        "IfGhost".spec_bytes() != "Port".spec_bytes(),
        "Command".spec_bytes() != "Port".spec_bytes(),
        "Document".spec_bytes() != "Port".spec_bytes(),
        "Songname".spec_bytes() != "Port".spec_bytes(),
        "Sentence".spec_bytes() != "Port".spec_bytes(),
{
    reveal_strlit("Port");
    assert(is_ascii("Port"));
    assert("Port".spec_bytes() =~= seq![80u8, 111, 114, 116]);
    lemma_spelling_charset();
    assert("Charset".spec_bytes().len() != "Port".spec_bytes().len());
    lemma_spelling_sender();
    assert("Sender".spec_bytes().len() != "Port".spec_bytes().len());
    lemma_spelling_event();
    assert("Event".spec_bytes().len() != "Port".spec_bytes().len());
    lemma_spelling_reference0();
    assert("Reference0".spec_bytes().len() != "Port".spec_bytes().len());
    lemma_spelling_reference1();
    assert("Reference1".spec_bytes().len() != "Port".spec_bytes().len());
    lemma_spelling_reference2();
    assert("Reference2".spec_bytes().len() != "Port".spec_bytes().len());
    lemma_spelling_reference3();
    assert("Reference3".spec_bytes().len() != "Port".spec_bytes().len());
    lemma_spelling_reference4();
    assert("Reference4".spec_bytes().len() != "Port".spec_bytes().len());
    lemma_spelling_reference5();
    assert("Reference5".spec_bytes().len() != "Port".spec_bytes().len());
    lemma_spelling_reference6();
    assert("Reference6".spec_bytes().len() != "Port".spec_bytes().len());
    lemma_spelling_reference7();
    assert("Reference7".spec_bytes().len() != "Port".spec_bytes().len());
    lemma_spelling_script();
    assert("Script".spec_bytes().len() != "Port".spec_bytes().len());
    lemma_spelling_option();
    assert("Option".spec_bytes().len() != "Port".spec_bytes().len());
    lemma_spelling_entry();
    assert("Entry".spec_bytes().len() != "Port".spec_bytes().len());
    lemma_spelling_hwnd();
    assert("HWnd".spec_bytes()[0] != "Port".spec_bytes()[0]);
    lemma_spelling_ifghost();
    assert("IfGhost".spec_bytes().len() != "Port".spec_bytes().len());
    lemma_spelling_command();
    assert("Command".spec_bytes().len() != "Port".spec_bytes().len());
    lemma_spelling_document();
    assert("Document".spec_bytes().len() != "Port".spec_bytes().len());
    lemma_spelling_songname();
    assert("Songname".spec_bytes().len() != "Port".spec_bytes().len());
    lemma_spelling_sentence();
    assert("Sentence".spec_bytes().len() != "Port".spec_bytes().len());
}

/// The bytes of `Surface`, and that no defined name before it is spelled so.
proof fn lemma_spelling_surface()
    ensures
        "Surface".spec_bytes() == seq![83u8, 117, 114, 102, 97, 99, 101],
        "Charset".spec_bytes() != "Surface".spec_bytes(),
        "Sender".spec_bytes() != "Surface".spec_bytes(),
        "Event".spec_bytes() != "Surface".spec_bytes(),
        "Reference0".spec_bytes() != "Surface".spec_bytes(),
        "Reference1".spec_bytes() != "Surface".spec_bytes(),
        "Reference2".spec_bytes() != "Surface".spec_bytes(),
        "Reference3".spec_bytes() != "Surface".spec_bytes(),
        "Reference4".spec_bytes() != "Surface".spec_bytes(),
        "Reference5".spec_bytes() != "Surface".spec_bytes(),
        "Reference6".spec_bytes() != "Surface".spec_bytes(),
        "Reference7".spec_bytes() != "Surface".spec_bytes(),
        "Script".spec_bytes() != "Surface".spec_bytes(),
        "Option".spec_bytes() != "Surface".spec_bytes(),
        "Entry".spec_bytes() != "Surface".spec_bytes(),
        "HWnd".spec_bytes() != "Surface".spec_bytes(),
        "IfGhost".spec_bytes() != "Surface".spec_bytes(),
        "Command".spec_bytes() != "Surface".spec_bytes(),
        "Document".spec_bytes() != "Surface".spec_bytes(),
        "Songname".spec_bytes() != "Surface".spec_bytes(),
        "Sentence".spec_bytes() != "Surface".spec_bytes(),
        "Port".spec_bytes() != "Surface".spec_bytes(),
{
    reveal_strlit("Surface");
    assert(is_ascii("Surface"));
    assert("Surface".spec_bytes() =~= seq![83u8, 117, 114, 102, 97, 99, 101]);
    lemma_spelling_charset();
    assert("Charset".spec_bytes()[0] != "Surface".spec_bytes()[0]);
    lemma_spelling_sender();
    assert("Sender".spec_bytes().len() != "Surface".spec_bytes().len());
    lemma_spelling_event();
    assert("Event".spec_bytes().len() != "Surface".spec_bytes().len());
    lemma_spelling_reference0();
    assert("Reference0".spec_bytes().len() != "Surface".spec_bytes().len());
    lemma_spelling_reference1();
    assert("Reference1".spec_bytes().len() != "Surface".spec_bytes().len());
    lemma_spelling_reference2();
    assert("Reference2".spec_bytes().len() != "Surface".spec_bytes().len());
    lemma_spelling_reference3();
    assert("Reference3".spec_bytes().len() != "Surface".spec_bytes().len());
    lemma_spelling_reference4();
    assert("Reference4".spec_bytes().len() != "Surface".spec_bytes().len());
    lemma_spelling_reference5();
    assert("Reference5".spec_bytes().len() != "Surface".spec_bytes().len());
    lemma_spelling_reference6();
    assert("Reference6".spec_bytes().len() != "Surface".spec_bytes().len());
    lemma_spelling_reference7();
    assert("Reference7".spec_bytes().len() != "Surface".spec_bytes().len());
    lemma_spelling_script();
    assert("Script".spec_bytes().len() != "Surface".spec_bytes().len());
    lemma_spelling_option();
    assert("Option".spec_bytes().len() != "Surface".spec_bytes().len());
    lemma_spelling_entry();
    assert("Entry".spec_bytes().len() != "Surface".spec_bytes().len());
    lemma_spelling_hwnd();
    assert("HWnd".spec_bytes().len() != "Surface".spec_bytes().len());
    lemma_spelling_ifghost();
    assert("IfGhost".spec_bytes()[0] != "Surface".spec_bytes()[0]);
    lemma_spelling_command();
    assert("Command".spec_bytes()[0] != "Surface".spec_bytes()[0]);
    lemma_spelling_document();
    assert("Document".spec_bytes().len() != "Surface".spec_bytes().len());
    lemma_spelling_songname();
    assert("Songname".spec_bytes().len() != "Surface".spec_bytes().len());
    lemma_spelling_sentence();
    assert("Sentence".spec_bytes().len() != "Surface".spec_bytes().len());
    lemma_spelling_port();
    assert("Port".spec_bytes().len() != "Surface".spec_bytes().len());
}

/// Each defined name is found under its own spelling.
pub proof fn lemma_known_names()
    ensures
        known("Charset".spec_bytes()) == Some(HeaderName::Charset),
        known("Sender".spec_bytes()) == Some(HeaderName::Sender),
        known("Event".spec_bytes()) == Some(HeaderName::Event),
        known("Reference0".spec_bytes()) == Some(HeaderName::Reference0),
        known("Reference1".spec_bytes()) == Some(HeaderName::Reference1),
        known("Reference2".spec_bytes()) == Some(HeaderName::Reference2),
        known("Reference3".spec_bytes()) == Some(HeaderName::Reference3),
        known("Reference4".spec_bytes()) == Some(HeaderName::Reference4),
        known("Reference5".spec_bytes()) == Some(HeaderName::Reference5),
        known("Reference6".spec_bytes()) == Some(HeaderName::Reference6),
        known("Reference7".spec_bytes()) == Some(HeaderName::Reference7),
        known("Script".spec_bytes()) == Some(HeaderName::Script),
        known("Option".spec_bytes()) == Some(HeaderName::OptionField),
        known("Entry".spec_bytes()) == Some(HeaderName::Entry),
        known("HWnd".spec_bytes()) == Some(HeaderName::HWnd),
        known("IfGhost".spec_bytes()) == Some(HeaderName::IfGhost),
        known("Command".spec_bytes()) == Some(HeaderName::Command),
        known("Document".spec_bytes()) == Some(HeaderName::Document),
        known("Songname".spec_bytes()) == Some(HeaderName::Songname),
        known("Sentence".spec_bytes()) == Some(HeaderName::Sentence),
        known("Port".spec_bytes()) == Some(HeaderName::Port),
        known("Surface".spec_bytes()) == Some(HeaderName::Surface),
{
    lemma_spelling_charset();
    lemma_spelling_sender();
    lemma_spelling_event();
    lemma_spelling_reference0();
    lemma_spelling_reference1();
    lemma_spelling_reference2();
    lemma_spelling_reference3();
    lemma_spelling_reference4();
    lemma_spelling_reference5();
    lemma_spelling_reference6();
    lemma_spelling_reference7();
    lemma_spelling_script();
    lemma_spelling_option();
    lemma_spelling_entry();
    lemma_spelling_hwnd();
    lemma_spelling_ifghost();
    lemma_spelling_command();
    lemma_spelling_document();
    lemma_spelling_songname();
    lemma_spelling_sentence();
    lemma_spelling_port();
    lemma_spelling_surface();
}

/// A defined name is spelled as the bytes that `known` was asked for.
pub proof fn lemma_known(bytes: Seq<u8>)
    ensures
        known(bytes) matches Some(name) ==> name@ == bytes && name.wf() && !(name is Other),
{
}

/// The defined name with this spelling, if there is one.
fn lookup(bytes: &[u8]) -> (res: Option<HeaderName>)
    ensures
        res == known(bytes@),
{
    if bytes_equal(bytes, "Charset".as_bytes()) {
        Some(HeaderName::Charset)
    } else if bytes_equal(bytes, "Sender".as_bytes()) {
        Some(HeaderName::Sender)
    } else if bytes_equal(bytes, "Event".as_bytes()) {
        Some(HeaderName::Event)
    } else if bytes_equal(bytes, "Reference0".as_bytes()) {
        Some(HeaderName::Reference0)
    } else if bytes_equal(bytes, "Reference1".as_bytes()) {
        Some(HeaderName::Reference1)
    } else if bytes_equal(bytes, "Reference2".as_bytes()) {
        Some(HeaderName::Reference2)
    } else if bytes_equal(bytes, "Reference3".as_bytes()) {
        Some(HeaderName::Reference3)
    } else if bytes_equal(bytes, "Reference4".as_bytes()) {
        Some(HeaderName::Reference4)
    } else if bytes_equal(bytes, "Reference5".as_bytes()) {
        Some(HeaderName::Reference5)
    } else if bytes_equal(bytes, "Reference6".as_bytes()) {
        Some(HeaderName::Reference6)
    } else if bytes_equal(bytes, "Reference7".as_bytes()) {
        Some(HeaderName::Reference7)
    } else if bytes_equal(bytes, "Script".as_bytes()) {
        Some(HeaderName::Script)
    } else if bytes_equal(bytes, "Option".as_bytes()) {
        Some(HeaderName::OptionField)
    } else if bytes_equal(bytes, "Entry".as_bytes()) {
        Some(HeaderName::Entry)
    } else if bytes_equal(bytes, "HWnd".as_bytes()) {
        Some(HeaderName::HWnd)
    } else if bytes_equal(bytes, "IfGhost".as_bytes()) {
        Some(HeaderName::IfGhost)
    } else if bytes_equal(bytes, "Command".as_bytes()) {
        Some(HeaderName::Command)
    } else if bytes_equal(bytes, "Document".as_bytes()) {
        Some(HeaderName::Document)
    } else if bytes_equal(bytes, "Songname".as_bytes()) {
        Some(HeaderName::Songname)
    } else if bytes_equal(bytes, "Sentence".as_bytes()) {
        Some(HeaderName::Sentence)
    } else if bytes_equal(bytes, "Port".as_bytes()) {
        Some(HeaderName::Port)
    } else if bytes_equal(bytes, "Surface".as_bytes()) {
        Some(HeaderName::Surface)
    } else {
        None
    }
}

impl HeaderName {
    /// Charset
    pub const CHARSET: HeaderName = HeaderName::Charset;

    /// Sender
    pub const SENDER: HeaderName = HeaderName::Sender;

    /// Event
    pub const EVENT: HeaderName = HeaderName::Event;

    /// Reference0
    pub const REFERENCE0: HeaderName = HeaderName::Reference0;

    /// Reference1
    pub const REFERENCE1: HeaderName = HeaderName::Reference1;

    /// Reference2
    pub const REFERENCE2: HeaderName = HeaderName::Reference2;

    /// Reference3
    pub const REFERENCE3: HeaderName = HeaderName::Reference3;

    /// Reference4
    pub const REFERENCE4: HeaderName = HeaderName::Reference4;

    /// Reference5
    pub const REFERENCE5: HeaderName = HeaderName::Reference5;

    /// Reference6
    pub const REFERENCE6: HeaderName = HeaderName::Reference6;

    /// Reference7
    pub const REFERENCE7: HeaderName = HeaderName::Reference7;

    /// Script
    pub const SCRIPT: HeaderName = HeaderName::Script;

    /// Option
    pub const OPTION: HeaderName = HeaderName::OptionField;

    /// Entry
    pub const ENTRY: HeaderName = HeaderName::Entry;

    /// HWnd
    pub const HWND: HeaderName = HeaderName::HWnd;

    /// IfGhost
    pub const IF_GHOST: HeaderName = HeaderName::IfGhost;

    /// Command
    pub const COMMAND: HeaderName = HeaderName::Command;

    /// Document
    pub const DOCUMENT: HeaderName = HeaderName::Document;

    /// Songname
    pub const SONGNAME: HeaderName = HeaderName::Songname;

    /// Sentence
    pub const SENTENCE: HeaderName = HeaderName::Sentence;

    /// Port
    pub const PORT: HeaderName = HeaderName::Port;

    /// Surface
    pub const SURFACE: HeaderName = HeaderName::Surface;

    /// The spelling of the name.
    pub open spec fn name(&self) -> Seq<char> {
        match self {
            HeaderName::Charset => "Charset"@,
            HeaderName::Sender => "Sender"@,
            HeaderName::Event => "Event"@,
            HeaderName::Reference0 => "Reference0"@,
            HeaderName::Reference1 => "Reference1"@,
            HeaderName::Reference2 => "Reference2"@,
            HeaderName::Reference3 => "Reference3"@,
            HeaderName::Reference4 => "Reference4"@,
            HeaderName::Reference5 => "Reference5"@,
            HeaderName::Reference6 => "Reference6"@,
            HeaderName::Reference7 => "Reference7"@,
            HeaderName::Script => "Script"@,
            HeaderName::OptionField => "Option"@,
            HeaderName::Entry => "Entry"@,
            HeaderName::HWnd => "HWnd"@,
            HeaderName::IfGhost => "IfGhost"@,
            HeaderName::Command => "Command"@,
            HeaderName::Document => "Document"@,
            HeaderName::Songname => "Songname"@,
            HeaderName::Sentence => "Sentence"@,
            HeaderName::Port => "Port"@,
            HeaderName::Surface => "Surface"@,
            HeaderName::Other(s) => s.text(),
        }
    }

    /// The bytes of a name are the encoding of its spelling.
    pub proof fn lemma_name_bytes(&self)
        ensures
            self@ == encode_utf8(self.name()),
    {
        if let HeaderName::Other(s) = self {
            s.lemma_text();
        }
    }

    /// The spelling of a well-formed name is a token.
    pub proof fn lemma_spelling_is_token(&self)
        requires
            self.wf(),
        ensures
            all_token(self@),
    {
        match self {
            HeaderName::Charset => {
                lemma_token_charset();
            },
            HeaderName::Sender => {
                lemma_token_sender();
            },
            HeaderName::Event => {
                lemma_token_event();
            },
            HeaderName::Reference0 => {
                lemma_token_reference0();
            },
            HeaderName::Reference1 => {
                lemma_token_reference1();
            },
            HeaderName::Reference2 => {
                lemma_token_reference2();
            },
            HeaderName::Reference3 => {
                lemma_token_reference3();
            },
            HeaderName::Reference4 => {
                lemma_token_reference4();
            },
            HeaderName::Reference5 => {
                lemma_token_reference5();
            },
            HeaderName::Reference6 => {
                lemma_token_reference6();
            },
            HeaderName::Reference7 => {
                lemma_token_reference7();
            },
            HeaderName::Script => {
                lemma_token_script();
            },
            HeaderName::OptionField => {
                lemma_token_option();
            },
            HeaderName::Entry => {
                lemma_token_entry();
            },
            HeaderName::HWnd => {
                lemma_token_hwnd();
            },
            HeaderName::IfGhost => {
                lemma_token_ifghost();
            },
            HeaderName::Command => {
                lemma_token_command();
            },
            HeaderName::Document => {
                lemma_token_document();
            },
            HeaderName::Songname => {
                lemma_token_songname();
            },
            HeaderName::Sentence => {
                lemma_token_sentence();
            },
            HeaderName::Port => {
                lemma_token_port();
            },
            HeaderName::Surface => {
                lemma_token_surface();
            },
            HeaderName::Other(_) => {},
        }
    }

    /// A name that `Other` holds is a token and is not the spelling of a
    /// defined name.
    pub open spec fn wf(&self) -> bool {
        match self {
            HeaderName::Other(s) => s.wf() && known(s@) is None,
            _ => true,
        }
    }

    /// Converts a str to HeaderName.
    pub fn from_static(s: &str) -> (res: Result<HeaderName, Error>)
        ensures
            is_name_of(res, s.spec_bytes()),
            res is Ok <==> all_token(s.spec_bytes()),
            res matches Ok(name) ==> (name is Other <==> known(s.spec_bytes()) is None),
            s@ == "Charset"@ ==> res == Ok::<HeaderName, Error>(HeaderName::Charset),
            s@ == "Sender"@ ==> res == Ok::<HeaderName, Error>(HeaderName::Sender),
            s@ == "Event"@ ==> res == Ok::<HeaderName, Error>(HeaderName::Event),
            s@ == "Reference0"@ ==> res == Ok::<HeaderName, Error>(HeaderName::Reference0),
            s@ == "Reference1"@ ==> res == Ok::<HeaderName, Error>(HeaderName::Reference1),
            s@ == "Reference2"@ ==> res == Ok::<HeaderName, Error>(HeaderName::Reference2),
            s@ == "Reference3"@ ==> res == Ok::<HeaderName, Error>(HeaderName::Reference3),
            s@ == "Reference4"@ ==> res == Ok::<HeaderName, Error>(HeaderName::Reference4),
            s@ == "Reference5"@ ==> res == Ok::<HeaderName, Error>(HeaderName::Reference5),
            s@ == "Reference6"@ ==> res == Ok::<HeaderName, Error>(HeaderName::Reference6),
            s@ == "Reference7"@ ==> res == Ok::<HeaderName, Error>(HeaderName::Reference7),
            s@ == "Script"@ ==> res == Ok::<HeaderName, Error>(HeaderName::Script),
            s@ == "Option"@ ==> res == Ok::<HeaderName, Error>(HeaderName::OptionField),
            s@ == "Entry"@ ==> res == Ok::<HeaderName, Error>(HeaderName::Entry),
            s@ == "HWnd"@ ==> res == Ok::<HeaderName, Error>(HeaderName::HWnd),
            s@ == "IfGhost"@ ==> res == Ok::<HeaderName, Error>(HeaderName::IfGhost),
            s@ == "Command"@ ==> res == Ok::<HeaderName, Error>(HeaderName::Command),
            s@ == "Document"@ ==> res == Ok::<HeaderName, Error>(HeaderName::Document),
            s@ == "Songname"@ ==> res == Ok::<HeaderName, Error>(HeaderName::Songname),
            s@ == "Sentence"@ ==> res == Ok::<HeaderName, Error>(HeaderName::Sentence),
            s@ == "Port"@ ==> res == Ok::<HeaderName, Error>(HeaderName::Port),
            s@ == "Surface"@ ==> res == Ok::<HeaderName, Error>(HeaderName::Surface),
    {
        HeaderName::from_bytes(s.as_bytes())
    }

    /// Converts a bytes to HeaderName.
    pub fn from_bytes(bytes: &[u8]) -> (res: Result<HeaderName, Error>)
        ensures
            is_name_of(res, bytes@),
            res is Ok <==> all_token(bytes@),
            res matches Ok(name) ==> (name is Other <==> known(bytes@) is None),
            bytes@ == "Charset".spec_bytes() ==> res == Ok::<HeaderName, Error>(HeaderName::Charset),
            bytes@ == "Sender".spec_bytes() ==> res == Ok::<HeaderName, Error>(HeaderName::Sender),
            bytes@ == "Event".spec_bytes() ==> res == Ok::<HeaderName, Error>(HeaderName::Event),
            bytes@ == "Reference0".spec_bytes() ==> res == Ok::<HeaderName, Error>(HeaderName::Reference0),
            bytes@ == "Reference1".spec_bytes() ==> res == Ok::<HeaderName, Error>(HeaderName::Reference1),
            bytes@ == "Reference2".spec_bytes() ==> res == Ok::<HeaderName, Error>(HeaderName::Reference2),
            bytes@ == "Reference3".spec_bytes() ==> res == Ok::<HeaderName, Error>(HeaderName::Reference3),
            bytes@ == "Reference4".spec_bytes() ==> res == Ok::<HeaderName, Error>(HeaderName::Reference4),
            bytes@ == "Reference5".spec_bytes() ==> res == Ok::<HeaderName, Error>(HeaderName::Reference5),
            bytes@ == "Reference6".spec_bytes() ==> res == Ok::<HeaderName, Error>(HeaderName::Reference6),
            bytes@ == "Reference7".spec_bytes() ==> res == Ok::<HeaderName, Error>(HeaderName::Reference7),
            bytes@ == "Script".spec_bytes() ==> res == Ok::<HeaderName, Error>(HeaderName::Script),
            bytes@ == "Option".spec_bytes() ==> res == Ok::<HeaderName, Error>(HeaderName::OptionField),
            bytes@ == "Entry".spec_bytes() ==> res == Ok::<HeaderName, Error>(HeaderName::Entry),
            bytes@ == "HWnd".spec_bytes() ==> res == Ok::<HeaderName, Error>(HeaderName::HWnd),
            bytes@ == "IfGhost".spec_bytes() ==> res == Ok::<HeaderName, Error>(HeaderName::IfGhost),
            bytes@ == "Command".spec_bytes() ==> res == Ok::<HeaderName, Error>(HeaderName::Command),
            bytes@ == "Document".spec_bytes() ==> res == Ok::<HeaderName, Error>(HeaderName::Document),
            bytes@ == "Songname".spec_bytes() ==> res == Ok::<HeaderName, Error>(HeaderName::Songname),
            bytes@ == "Sentence".spec_bytes() ==> res == Ok::<HeaderName, Error>(HeaderName::Sentence),
            bytes@ == "Port".spec_bytes() ==> res == Ok::<HeaderName, Error>(HeaderName::Port),
            bytes@ == "Surface".spec_bytes() ==> res == Ok::<HeaderName, Error>(HeaderName::Surface),
    {
        proof {
            lemma_known_names();
            lemma_token_charset();
            lemma_token_sender();
            lemma_token_event();
            lemma_token_reference0();
            lemma_token_reference1();
            lemma_token_reference2();
            lemma_token_reference3();
            lemma_token_reference4();
            lemma_token_reference5();
            lemma_token_reference6();
            lemma_token_reference7();
            lemma_token_script();
            lemma_token_option();
            lemma_token_entry();
            lemma_token_hwnd();
            lemma_token_ifghost();
            lemma_token_command();
            lemma_token_document();
            lemma_token_songname();
            lemma_token_sentence();
            lemma_token_port();
            lemma_token_surface();
        }
        match find_non_token(bytes) {
            Some(i) => {
                proof {
                    assert(bytes@.take(i as int).len() == i);
                    assert(!all_token(bytes@));
                }
                Err(
                    Error::InvalidHeaderName(Rfc7230StringConvertError::InvalidCharacter(bytes[i])),
                )
            },
            None => {
                proof {
                    lemma_known(bytes@);
                }
                match lookup(bytes) {
                    Some(name) => Ok(name),
                    None => Ok(HeaderName::Other(Rfc7230String::from_tokens(bytes))),
                }
            },
        }
    }

    /// The spelling of the name.
    pub fn as_str(&self) -> (s: &str)
        ensures
            s@ == self.name(),
            s.spec_bytes() == self@,
    {
        match self {
            HeaderName::Charset => "Charset",
            HeaderName::Sender => "Sender",
            HeaderName::Event => "Event",
            HeaderName::Reference0 => "Reference0",
            HeaderName::Reference1 => "Reference1",
            HeaderName::Reference2 => "Reference2",
            HeaderName::Reference3 => "Reference3",
            HeaderName::Reference4 => "Reference4",
            HeaderName::Reference5 => "Reference5",
            HeaderName::Reference6 => "Reference6",
            HeaderName::Reference7 => "Reference7",
            HeaderName::Script => "Script",
            HeaderName::OptionField => "Option",
            HeaderName::Entry => "Entry",
            HeaderName::HWnd => "HWnd",
            HeaderName::IfGhost => "IfGhost",
            HeaderName::Command => "Command",
            HeaderName::Document => "Document",
            HeaderName::Songname => "Songname",
            HeaderName::Sentence => "Sentence",
            HeaderName::Port => "Port",
            HeaderName::Surface => "Surface",
            HeaderName::Other(s) => s.as_str(),
        }
    }

    /// Converts a HeaderName to bytes.
    pub fn as_bytes(&self) -> (bytes: Vec<u8>)
        ensures
            bytes@ == self@,
    {
        to_vec(self.as_str().as_bytes())
    }

    /// Converts a HeaderName to bytes.
    pub fn to_vec(&self) -> (bytes: Vec<u8>)
        ensures
            bytes@ == self@,
    {
        to_vec(self.as_str().as_bytes())
    }

    /// The spelling of the name as an owned string.
    pub fn to_string(&self) -> (s: String)
        ensures
            s@ == self.name(),
            encode_utf8(s@) == self@,
    {
        self.as_str().to_owned()
    }
}

impl Clone for HeaderName {
    fn clone(&self) -> (r: Self)
        ensures
            r == *self,
    {
        match self {
            HeaderName::Charset => HeaderName::Charset,
            HeaderName::Sender => HeaderName::Sender,
            HeaderName::Event => HeaderName::Event,
            HeaderName::Reference0 => HeaderName::Reference0,
            HeaderName::Reference1 => HeaderName::Reference1,
            HeaderName::Reference2 => HeaderName::Reference2,
            HeaderName::Reference3 => HeaderName::Reference3,
            HeaderName::Reference4 => HeaderName::Reference4,
            HeaderName::Reference5 => HeaderName::Reference5,
            HeaderName::Reference6 => HeaderName::Reference6,
            HeaderName::Reference7 => HeaderName::Reference7,
            HeaderName::Script => HeaderName::Script,
            HeaderName::OptionField => HeaderName::OptionField,
            HeaderName::Entry => HeaderName::Entry,
            HeaderName::HWnd => HeaderName::HWnd,
            HeaderName::IfGhost => HeaderName::IfGhost,
            HeaderName::Command => HeaderName::Command,
            HeaderName::Document => HeaderName::Document,
            HeaderName::Songname => HeaderName::Songname,
            HeaderName::Sentence => HeaderName::Sentence,
            HeaderName::Port => HeaderName::Port,
            HeaderName::Surface => HeaderName::Surface,
            HeaderName::Other(s) => HeaderName::Other(s.clone()),
        }
    }
}

impl IntoText for HeaderName {
    open spec fn text(&self) -> Seq<char> {
        self.name()
    }

    fn into_text(self) -> (s: String) {
        self.to_string()
    }
}

impl PartialEq for HeaderName {
    fn eq(&self, other: &Self) -> (r: bool) {
        bytes_equal(self.as_str().as_bytes(), other.as_str().as_bytes())
    }
}

impl PartialEqSpecImpl for HeaderName {
    open spec fn obeys_eq_spec() -> bool {
        true
    }

    open spec fn eq_spec(&self, other: &Self) -> bool {
        self@ == other@
    }
}

} // verus!
