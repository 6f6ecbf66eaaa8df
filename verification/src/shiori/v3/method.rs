//! The methods of a SHIORI/3.0 request.
use crate::util::bytes::{has_prefix, str_equal};
use crate::util::cursor::{key_bytes, keyword_match, lemma_keyword_found, KeywordMatch, SPACE};
use vstd::prelude::*;
use vstd::string::*;

verus! {

/// Method is the method of the SHIORI request.
#[derive(Debug, PartialEq, Eq, Copy, Clone, Hash, Structural)]
pub enum Method {
    /// Get
    Get,
    /// Notify
    Notify,
}

impl Method {
    /// Get
    pub const GET: Method = Method::Get;

    /// Notify
    pub const NOTIFY: Method = Method::Notify;

    /// The method keywords, in the order in which a request line is matched against them.
    pub open spec fn keywords() -> Seq<&'static str> {
        seq!["GET", "NOTIFY"]
    }

    /// The place of this value's keyword in the table.
    pub open spec fn index(self) -> int {
        match self {
            Method::Get => 0,
            Method::Notify => 1,
        }
    }

    /// The value whose keyword stands at a place of the table.
    pub open spec fn at(i: int) -> Method {
        if i == 0 {
            Method::Get
        } else {
            Method::Notify
        }
    }

    /// The keyword of this value, as it stands on the wire.
    pub open spec fn name(self) -> Seq<char> {
        match self {
            Method::Get => "GET"@,
            Method::Notify => "NOTIFY"@,
        }
    }

    /// The bytes of this value's keyword.
    pub open spec fn name_bytes(self) -> Seq<u8> {
        match self {
            Method::Get => "GET".spec_bytes(),
            Method::Notify => "NOTIFY".spec_bytes(),
        }
    }

    /// The value that stands at a place of the table, for places within it.
    pub fn from_index(i: usize) -> (value: Method)
        requires
            i < 2,
        ensures
            value == Method::at(i as int),
            value.index() == i,
    {
        if i == 0 {
            Method::Get
        } else {
            Method::Notify
        }
    }

    /// The value that a keyword stands for, if it is one of the table.
    /// Keywords are matched exactly.
    pub open spec fn named(name: Seq<char>) -> Option<Method> {
        if name == "GET"@ {
            Some(Method::Get)
        } else if name == "NOTIFY"@ {
            Some(Method::Notify)
        } else {
            None
        }
    }

    /// Reads a value from its keyword.
    pub fn from_name(name: &str) -> (res: Option<Method>)
        ensures
            res == Self::named(name@),
            name@ == "GET"@ ==> res == Some(Method::Get),
            name@ == "NOTIFY"@ ==> res == Some(Method::Notify),
    {
        proof {
            Self::lemma_keywords_differ();
        }
        if str_equal(name, "GET") {
            Some(Method::Get)
        } else if str_equal(name, "NOTIFY") {
            Some(Method::Notify)
        } else {
            None
        }
    }

    /// The keyword of this value.
    pub fn as_str(&self) -> (s: &'static str)
        ensures
            s@ == self.name(),
            s.spec_bytes() == self.name_bytes(),
            s == Method::keywords()[self.index()],
    {
        match self {
            Method::Get => "GET",
            Method::Notify => "NOTIFY",
        }
    }

    /// The keyword of this value as an owned string.
    pub fn to_string(&self) -> (s: String)
        ensures
            s@ == self.name(),
    {
        self.as_str().to_owned()
    }

    /// No two keywords are the same.
    pub proof fn lemma_keywords_differ()
        ensures
            forall|a: Self, b: Self| #![trigger a.name(), b.name()] a.name() == b.name() ==> a == b,
            "GET"@ != "NOTIFY"@,
    {
        reveal_strlit("GET");
        reveal_strlit("NOTIFY");
        assert("GET"@.len() == 3);
        assert("NOTIFY"@.len() == 6);
    }

    /// The bytes of each keyword, written out.
    pub proof fn lemma_keyword_bytes()
        ensures
            "GET".spec_bytes() == seq![71u8, 69, 84],
            "NOTIFY".spec_bytes() == seq![78u8, 79, 84, 73, 70, 89],
    {
        reveal_strlit("GET");
        reveal_strlit("NOTIFY");
        assert("GET".spec_bytes() =~= seq![71u8, 69, 84]) by {
            assert(is_ascii("GET"));
        }
        assert("NOTIFY".spec_bytes() =~= seq![78u8, 79, 84, 73, 70, 89]) by {
            assert(is_ascii("NOTIFY"));
        }
    }

    /// A keyword, followed by whatever, is read as the value that it is
    /// the keyword of, and what follows it is left.
    pub proof fn lemma_found(self, rest: Seq<u8>)
        ensures
            keyword_match(self.name_bytes() + rest, key_bytes(Self::keywords()), 1)
                == KeywordMatch::Found(self.index()),
            key_bytes(Self::keywords())[self.index()] == self.name_bytes(),
            (self.name_bytes() + rest).skip(self.name_bytes().len() as int) == rest,
            Self::at(self.index()) == self,
            self.name_bytes().len() > 0,
            self.name_bytes()[0] != SPACE,
    {
        Self::lemma_keyword_bytes();
        let keys = key_bytes(Self::keywords());
        let i = self.index();
        assert(keys[0] == "GET".spec_bytes());
        assert(keys[1] == "NOTIFY".spec_bytes());
        let head = keys[i].take(1);
        assert forall|j: int| 0 <= j < i implies !has_prefix(#[trigger] keys[j], head) by {
            if i == 1 && j == 0 {
                assert(keys[0].take(1)[0] != head[0]);
            }
        }
        lemma_keyword_found(keys, 1, i, rest);
    }
}

} // verus!
