//! The character sets in which header values travel.
use crate::util::bytes::str_equal;
use vstd::prelude::*;
use vstd::string::*;

verus! {

/// What can go wrong when a charset is read from its name.
#[derive(Debug)]
pub enum Error {
    /// The name is none of `ASCII`, `Shift_JIS`, `ISO-2022-JP`, `EUC-JP`, `UTF-8`.
    Invalid(String),
}

impl View for Error {
    type V = Seq<char>;

    /// The name that was refused.
    open spec fn view(&self) -> Seq<char> {
        match self {
            Error::Invalid(name) => name@,
        }
    }
}

/// The text of the message for a name that is no charset's.
pub open spec fn invalid_message(name: Seq<char>) -> Seq<char> {
    "invalid charset `"@ + name
        + "`, the charset must be ASCII, Shift_JIS, ISO-2022-JP, EUC-JP or UTF-8"@
}

impl Error {
    /// The message shown for this error.
    pub fn message(&self) -> (text: String)
        ensures
            text@ == invalid_message(self@),
    {
        match self {
            Error::Invalid(name) => {
                let text = "invalid charset `".to_owned();
                let text = text.concat(name.as_str());
                text.concat("`, the charset must be ASCII, Shift_JIS, ISO-2022-JP, EUC-JP or UTF-8")
            },
        }
    }
}

/// The character set and encoding of the strings in a message's headers.
#[derive(Debug, PartialEq, Eq, Copy, Clone, Hash, Structural)]
pub enum Charset {
    Ascii,
    ShiftJis,
    Iso2022Jp,
    EucJp,
    Utf8,
}

/// The charset that a canonical name stands for, if any. Names are matched
/// exactly: no case folding, no trimming.
pub open spec fn charset_named(name: Seq<char>) -> Option<Charset> {
    if name == "ASCII"@ {
        Some(Charset::Ascii)
    } else if name == "Shift_JIS"@ {
        Some(Charset::ShiftJis)
    } else if name == "ISO-2022-JP"@ {
        Some(Charset::Iso2022Jp)
    } else if name == "EUC-JP"@ {
        Some(Charset::EucJp)
    } else if name == "UTF-8"@ {
        Some(Charset::Utf8)
    } else {
        None
    }
}

impl Charset {
    /// ASCII
    pub const ASCII: Charset = Charset::Ascii;

    /// Shift_JIS
    pub const SHIFT_JIS: Charset = Charset::ShiftJis;

    /// ISO-2022-JP
    pub const ISO2022JP: Charset = Charset::Iso2022Jp;

    /// EUC-JP
    pub const EUC_JP: Charset = Charset::EucJp;

    /// UTF-8
    pub const UTF8: Charset = Charset::Utf8;

    /// The canonical name of this charset.
    pub open spec fn name(self) -> Seq<char> {
        match self {
            Charset::Ascii => "ASCII"@,
            Charset::ShiftJis => "Shift_JIS"@,
            Charset::Iso2022Jp => "ISO-2022-JP"@,
            Charset::EucJp => "EUC-JP"@,
            Charset::Utf8 => "UTF-8"@,
        }
    }

    /// Whether the charset is one of the legacy Japanese encodings, which
    /// are transcoded by table.
    pub open spec fn is_legacy(self) -> bool {
        self is ShiftJis || self is Iso2022Jp || self is EucJp
    }

    /// Reads a charset from its canonical name.
    pub fn from_static(s: &str) -> (res: Result<Charset, Error>)
        ensures
            match charset_named(s@) {
                Some(charset) => res == Ok::<Charset, Error>(charset),
                None => res is Err && res->Err_0@ == s@,
            },
            s@ == "ASCII"@ ==> res == Ok::<Charset, Error>(Charset::Ascii),
            s@ == "Shift_JIS"@ ==> res == Ok::<Charset, Error>(Charset::ShiftJis),
            s@ == "ISO-2022-JP"@ ==> res == Ok::<Charset, Error>(Charset::Iso2022Jp),
            s@ == "EUC-JP"@ ==> res == Ok::<Charset, Error>(Charset::EucJp),
            s@ == "UTF-8"@ ==> res == Ok::<Charset, Error>(Charset::Utf8),
    {
        proof {
            lemma_name_round_trip(Charset::Ascii);
            lemma_name_round_trip(Charset::ShiftJis);
            lemma_name_round_trip(Charset::Iso2022Jp);
            lemma_name_round_trip(Charset::EucJp);
            lemma_name_round_trip(Charset::Utf8);
        }
        if str_equal(s, "ASCII") {
            Ok(Charset::Ascii)
        } else if str_equal(s, "Shift_JIS") {
            Ok(Charset::ShiftJis)
        } else if str_equal(s, "ISO-2022-JP") {
            Ok(Charset::Iso2022Jp)
        } else if str_equal(s, "EUC-JP") {
            Ok(Charset::EucJp)
        } else if str_equal(s, "UTF-8") {
            Ok(Charset::Utf8)
        } else {
            Err(Error::Invalid(s.to_owned()))
        }
    }

    /// Reads a charset from an owned name.
    pub fn from_string(s: String) -> (res: Result<Charset, Error>)
        ensures
            match charset_named(s@) {
                Some(charset) => res == Ok::<Charset, Error>(charset),
                None => res is Err && res->Err_0@ == s@,
            },
            s@ == "ASCII"@ ==> res == Ok::<Charset, Error>(Charset::Ascii),
            s@ == "Shift_JIS"@ ==> res == Ok::<Charset, Error>(Charset::ShiftJis),
            s@ == "ISO-2022-JP"@ ==> res == Ok::<Charset, Error>(Charset::Iso2022Jp),
            s@ == "EUC-JP"@ ==> res == Ok::<Charset, Error>(Charset::EucJp),
            s@ == "UTF-8"@ ==> res == Ok::<Charset, Error>(Charset::Utf8),
    {
        Charset::from_static(s.as_str())
    }

    /// The canonical name of this charset, as it stands in a `Charset` header.
    pub fn as_str(&self) -> (s: &'static str)
        ensures
            s@ == self.name(),
    {
        match self {
            Charset::Ascii => "ASCII",
            Charset::ShiftJis => "Shift_JIS",
            Charset::Iso2022Jp => "ISO-2022-JP",
            Charset::EucJp => "EUC-JP",
            Charset::Utf8 => "UTF-8",
        }
    }

    /// The canonical name of this charset as an owned string.
    pub fn to_string(&self) -> (s: String)
        ensures
            s@ == self.name(),
    {
        self.as_str().to_owned()
    }
}

/// Reading a charset's own name gives the charset back.
pub proof fn lemma_name_round_trip(charset: Charset)
    ensures
        charset_named(charset.name()) == Some(charset),
{
    reveal_strlit("ASCII");
    reveal_strlit("Shift_JIS");
    reveal_strlit("ISO-2022-JP");
    reveal_strlit("EUC-JP");
    reveal_strlit("UTF-8");
    assert("ASCII"@.len() == 5);
    assert("Shift_JIS"@.len() == 9);
    assert("ISO-2022-JP"@.len() == 11);
    assert("EUC-JP"@.len() == 6);
    assert("UTF-8"@[0] == 'U');
    assert("ASCII"@[0] == 'A');
}

/// A name is accepted exactly when it is the name of the charset it yields.
pub proof fn lemma_named_is_name(name: Seq<char>)
    ensures
        match charset_named(name) {
            Some(charset) => charset.name() == name,
            None => forall|charset: Charset| charset.name() != name,
        },
{
}

} // verus!
