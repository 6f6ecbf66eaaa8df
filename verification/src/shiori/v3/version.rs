//! The versions of the SHIORI protocol that are spoken here.
use crate::util::bytes::{has_prefix, str_equal};
use crate::util::cursor::{key_bytes, keyword_match, lemma_keyword_found, KeywordMatch, SPACE};
use vstd::prelude::*;
use vstd::string::*;

verus! {

/// Version is the version of the SHIORI protocol.
#[derive(Debug, PartialEq, Eq, Copy, Clone, Hash, Structural)]
pub enum Version {
    /// SHIORI/3.0
    Shiori30,
}

impl Version {
    /// SHIORI/3.0
    pub const SHIORI_30: Version = Version::Shiori30;

    /// The version literals, in the order in which a line is matched against them.
    pub open spec fn keywords() -> Seq<&'static str> {
        seq!["SHIORI/3.0"]
    }

    /// The place of this value's keyword in the table.
    pub open spec fn index(self) -> int {
        match self {
            Version::Shiori30 => 0,
        }
    }

    /// The value whose keyword stands at a place of the table.
    pub open spec fn at(i: int) -> Version {
        Version::Shiori30
    }

    /// The keyword of this value, as it stands on the wire.
    pub open spec fn name(self) -> Seq<char> {
        match self {
            Version::Shiori30 => "SHIORI/3.0"@,
        }
    }

    /// The bytes of this value's keyword.
    pub open spec fn name_bytes(self) -> Seq<u8> {
        match self {
            Version::Shiori30 => "SHIORI/3.0".spec_bytes(),
        }
    }

    /// The value that stands at a place of the table, for places within it.
    pub fn from_index(i: usize) -> (value: Version)
        requires
            i < 1,
        ensures
            value == Version::at(i as int),
            value.index() == i,
    {
        Version::Shiori30
    }

    /// The value that a keyword stands for, if it is one of the table.
    /// Keywords are matched exactly.
    pub open spec fn named(name: Seq<char>) -> Option<Version> {
        if name == "SHIORI/3.0"@ {
            Some(Version::Shiori30)
        } else {
            None
        }
    }

    /// Reads a value from its keyword.
    pub fn from_name(name: &str) -> (res: Option<Version>)
        ensures
            res == Self::named(name@),
            name@ == "SHIORI/3.0"@ ==> res == Some(Version::Shiori30),
    {
        proof {
            Self::lemma_keywords_differ();
        }
        if str_equal(name, "SHIORI/3.0") {
            Some(Version::Shiori30)
        } else {
            None
        }
    }

    /// The keyword of this value.
    pub fn as_str(&self) -> (s: &'static str)
        ensures
            s@ == self.name(),
            s.spec_bytes() == self.name_bytes(),
            s == Version::keywords()[self.index()],
    {
        match self {
            Version::Shiori30 => "SHIORI/3.0",
        }
    }

    /// The keyword of this value as an owned string.
    pub fn to_string(&self) -> (s: String)
        ensures
            s@ == self.name(),
    {
        self.as_str().to_owned()
    }

    /// No two keywords are the same.
    pub proof fn lemma_keywords_differ()
        ensures
            forall|a: Self, b: Self| #![trigger a.name(), b.name()] a.name() == b.name() ==> a == b,
    {
        reveal_strlit("SHIORI/3.0");
        assert("SHIORI/3.0"@.len() == 10);
    }

    /// The bytes of each keyword, written out.
    pub proof fn lemma_keyword_bytes()
        ensures
            "SHIORI/3.0".spec_bytes() == seq![83u8, 72, 73, 79, 82, 73, 47, 51, 46, 48],
    {
        reveal_strlit("SHIORI/3.0");
        assert("SHIORI/3.0".spec_bytes() =~= seq![83u8, 72, 73, 79, 82, 73, 47, 51, 46, 48]) by {
            assert(is_ascii("SHIORI/3.0"));
        }
    }

    /// A keyword, followed by whatever, is read as the value that it is
    /// the keyword of, and what follows it is left.
    pub proof fn lemma_found(self, rest: Seq<u8>)
        ensures
            keyword_match(self.name_bytes() + rest, key_bytes(Self::keywords()), 1)
                == KeywordMatch::Found(self.index()),
            key_bytes(Self::keywords())[self.index()] == self.name_bytes(),
            (self.name_bytes() + rest).skip(self.name_bytes().len() as int) == rest,
            Self::at(self.index()) == self,
            self.name_bytes().len() > 0,
            self.name_bytes()[0] != SPACE,
    {
        Self::lemma_keyword_bytes();
        let keys = key_bytes(Self::keywords());
        let i = self.index();
        assert(keys[0] == "SHIORI/3.0".spec_bytes());
        let head = keys[i].take(1);
        assert forall|j: int| 0 <= j < i implies !has_prefix(#[trigger] keys[j], head) by {
        }
        lemma_keyword_found(keys, 1, i, rest);
    }
}

impl Default for Version {
    /// The latest version.
    fn default() -> (value: Version)
        ensures
            value == Version::Shiori30,
    {
        Version::Shiori30
    }
}

impl std::str::FromStr for Version {
    type Err = ();

    /// Reads a version from its keyword: the keyword of the table gives its
    /// version, and any other text is refused.
    fn from_str(s: &str) -> (res: Result<Self, ()>)
        ensures
            res == match Version::named(s@) {
                Some(value) => Ok::<Version, ()>(value),
                None => Err::<Version, ()>(()),
            },
    {
        match Version::from_name(s) {
            Some(value) => Ok(value),
            None => Err(()),
        }
    }
}

} // verus!
