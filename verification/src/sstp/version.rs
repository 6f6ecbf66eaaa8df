//! The versions of the SSTP protocol.
use crate::util::bytes::{has_prefix, str_equal};
use crate::util::cursor::{key_bytes, keyword_match, lemma_keyword_found, KeywordMatch, SPACE};
use vstd::prelude::*;
use vstd::string::*;

verus! {

/// Version is the version of the SSTP protocol.
#[derive(Debug, PartialEq, Eq, Copy, Clone, Hash, Structural)]
#[allow(non_camel_case_types)]
pub enum Version {
    /// SSTP/1.0
    SSTP_10,
    /// SSTP/1.1
    SSTP_11,
    /// SSTP/1.2
    SSTP_12,
    /// SSTP/1.3
    SSTP_13,
    /// SSTP/1.4
    SSTP_14,
}

impl Version {
    /// The version literals, in the order in which a line is matched against them.
    pub open spec fn keywords() -> Seq<&'static str> {
        seq!["SSTP/1.0", "SSTP/1.1", "SSTP/1.2", "SSTP/1.3", "SSTP/1.4"]
    }

    /// The place of this value's keyword in the table.
    pub open spec fn index(self) -> int {
        match self {
            Version::SSTP_10 => 0,
            Version::SSTP_11 => 1,
            Version::SSTP_12 => 2,
            Version::SSTP_13 => 3,
            Version::SSTP_14 => 4,
        }
    }

    /// The value whose keyword stands at a place of the table.
    pub open spec fn at(i: int) -> Version {
        if i == 0 {
            Version::SSTP_10
        } else if i == 1 {
            Version::SSTP_11
        } else if i == 2 {
            Version::SSTP_12
        } else if i == 3 {
            Version::SSTP_13
        } else {
            Version::SSTP_14
        }
    }

    /// The keyword of this value, as it stands on the wire.
    pub open spec fn name(self) -> Seq<char> {
        match self {
            Version::SSTP_10 => "SSTP/1.0"@,
            Version::SSTP_11 => "SSTP/1.1"@,
            Version::SSTP_12 => "SSTP/1.2"@,
            Version::SSTP_13 => "SSTP/1.3"@,
            Version::SSTP_14 => "SSTP/1.4"@,
        }
    }

    /// The bytes of this value's keyword.
    pub open spec fn name_bytes(self) -> Seq<u8> {
        match self {
            Version::SSTP_10 => "SSTP/1.0".spec_bytes(),
            Version::SSTP_11 => "SSTP/1.1".spec_bytes(),
            Version::SSTP_12 => "SSTP/1.2".spec_bytes(),
            Version::SSTP_13 => "SSTP/1.3".spec_bytes(),
            Version::SSTP_14 => "SSTP/1.4".spec_bytes(),
        }
    }

    /// The value that stands at a place of the table, for places within it.
    pub fn from_index(i: usize) -> (value: Version)
        requires
            i < 5,
        ensures
            value == Version::at(i as int),
            value.index() == i,
    {
        if i == 0 {
            Version::SSTP_10
        } else if i == 1 {
            Version::SSTP_11
        } else if i == 2 {
            Version::SSTP_12
        } else if i == 3 {
            Version::SSTP_13
        } else {
            Version::SSTP_14
        }
    }

    /// The value that a keyword stands for, if it is one of the table.
    /// Keywords are matched exactly.
    pub open spec fn named(name: Seq<char>) -> Option<Version> {
        if name == "SSTP/1.0"@ {
            Some(Version::SSTP_10)
        } else if name == "SSTP/1.1"@ {
            Some(Version::SSTP_11)
        } else if name == "SSTP/1.2"@ {
            Some(Version::SSTP_12)
        } else if name == "SSTP/1.3"@ {
            Some(Version::SSTP_13)
        } else if name == "SSTP/1.4"@ {
            Some(Version::SSTP_14)
        } else {
            None
        }
    }

    /// Reads a value from its keyword.
    pub fn from_name(name: &str) -> (res: Option<Version>)
        ensures
            res == Self::named(name@),
            name@ == "SSTP/1.0"@ ==> res == Some(Version::SSTP_10),
            name@ == "SSTP/1.1"@ ==> res == Some(Version::SSTP_11),
            name@ == "SSTP/1.2"@ ==> res == Some(Version::SSTP_12),
            name@ == "SSTP/1.3"@ ==> res == Some(Version::SSTP_13),
            name@ == "SSTP/1.4"@ ==> res == Some(Version::SSTP_14),
    {
        proof {
            Self::lemma_keywords_differ();
        }
        if str_equal(name, "SSTP/1.0") {
            Some(Version::SSTP_10)
        } else if str_equal(name, "SSTP/1.1") {
            Some(Version::SSTP_11)
        } else if str_equal(name, "SSTP/1.2") {
            Some(Version::SSTP_12)
        } else if str_equal(name, "SSTP/1.3") {
            Some(Version::SSTP_13)
        } else if str_equal(name, "SSTP/1.4") {
            Some(Version::SSTP_14)
        } else {
            None
        }
    }

    /// The keyword of this value.
    pub fn as_str(&self) -> (s: &'static str)
        ensures
            s@ == self.name(),
            s.spec_bytes() == self.name_bytes(),
            s == Version::keywords()[self.index()],
    {
        match self {
            Version::SSTP_10 => "SSTP/1.0",
            Version::SSTP_11 => "SSTP/1.1",
            Version::SSTP_12 => "SSTP/1.2",
            Version::SSTP_13 => "SSTP/1.3",
            Version::SSTP_14 => "SSTP/1.4",
        }
    }

    /// The keyword of this value as an owned string.
    pub fn to_string(&self) -> (s: String)
        ensures
            s@ == self.name(),
    {
        self.as_str().to_owned()
    }

    /// No two keywords are the same.
    pub proof fn lemma_keywords_differ()
        ensures
            forall|a: Self, b: Self| #![trigger a.name(), b.name()] a.name() == b.name() ==> a == b,
            "SSTP/1.0"@ != "SSTP/1.1"@,
            "SSTP/1.0"@ != "SSTP/1.2"@,
            "SSTP/1.1"@ != "SSTP/1.2"@,
            "SSTP/1.0"@ != "SSTP/1.3"@,
            "SSTP/1.1"@ != "SSTP/1.3"@,
            "SSTP/1.2"@ != "SSTP/1.3"@,
            "SSTP/1.0"@ != "SSTP/1.4"@,
            "SSTP/1.1"@ != "SSTP/1.4"@,
            "SSTP/1.2"@ != "SSTP/1.4"@,
            "SSTP/1.3"@ != "SSTP/1.4"@,
    {
        reveal_strlit("SSTP/1.0");
        reveal_strlit("SSTP/1.1");
        reveal_strlit("SSTP/1.2");
        reveal_strlit("SSTP/1.3");
        reveal_strlit("SSTP/1.4");
        assert("SSTP/1.0"@.len() == 8);
        assert("SSTP/1.1"@.len() == 8);
        assert("SSTP/1.2"@.len() == 8);
        assert("SSTP/1.3"@.len() == 8);
        assert("SSTP/1.4"@.len() == 8);
        assert("SSTP/1.0"@[7] != "SSTP/1.1"@[7]);
        assert("SSTP/1.0"@[7] != "SSTP/1.2"@[7]);
        assert("SSTP/1.1"@[7] != "SSTP/1.2"@[7]);
        assert("SSTP/1.0"@[7] != "SSTP/1.3"@[7]);
        assert("SSTP/1.1"@[7] != "SSTP/1.3"@[7]);
        assert("SSTP/1.2"@[7] != "SSTP/1.3"@[7]);
        assert("SSTP/1.0"@[7] != "SSTP/1.4"@[7]);
        assert("SSTP/1.1"@[7] != "SSTP/1.4"@[7]);
        assert("SSTP/1.2"@[7] != "SSTP/1.4"@[7]);
        assert("SSTP/1.3"@[7] != "SSTP/1.4"@[7]);
    }

    /// The bytes of each keyword, written out.
    pub proof fn lemma_keyword_bytes()
        ensures
            "SSTP/1.0".spec_bytes() == seq![83u8, 83, 84, 80, 47, 49, 46, 48],
            "SSTP/1.1".spec_bytes() == seq![83u8, 83, 84, 80, 47, 49, 46, 49],
            "SSTP/1.2".spec_bytes() == seq![83u8, 83, 84, 80, 47, 49, 46, 50],
            "SSTP/1.3".spec_bytes() == seq![83u8, 83, 84, 80, 47, 49, 46, 51],
            "SSTP/1.4".spec_bytes() == seq![83u8, 83, 84, 80, 47, 49, 46, 52],
    {
        reveal_strlit("SSTP/1.0");
        reveal_strlit("SSTP/1.1");
        reveal_strlit("SSTP/1.2");
        reveal_strlit("SSTP/1.3");
        reveal_strlit("SSTP/1.4");
        assert("SSTP/1.0".spec_bytes() =~= seq![83u8, 83, 84, 80, 47, 49, 46, 48]) by {
            assert(is_ascii("SSTP/1.0"));
        }
        assert("SSTP/1.1".spec_bytes() =~= seq![83u8, 83, 84, 80, 47, 49, 46, 49]) by {
            assert(is_ascii("SSTP/1.1"));
        }
        assert("SSTP/1.2".spec_bytes() =~= seq![83u8, 83, 84, 80, 47, 49, 46, 50]) by {
            assert(is_ascii("SSTP/1.2"));
        }
        assert("SSTP/1.3".spec_bytes() =~= seq![83u8, 83, 84, 80, 47, 49, 46, 51]) by {
            assert(is_ascii("SSTP/1.3"));
        }
        assert("SSTP/1.4".spec_bytes() =~= seq![83u8, 83, 84, 80, 47, 49, 46, 52]) by {
            assert(is_ascii("SSTP/1.4"));
        }
    }

    /// A keyword, followed by whatever, is read as the value that it is
    /// the keyword of, and what follows it is left.
    pub proof fn lemma_found(self, rest: Seq<u8>)
        ensures
            keyword_match(self.name_bytes() + rest, key_bytes(Self::keywords()), 8)
                == KeywordMatch::Found(self.index()),
            key_bytes(Self::keywords())[self.index()] == self.name_bytes(),
            (self.name_bytes() + rest).skip(self.name_bytes().len() as int) == rest,
            Self::at(self.index()) == self,
            self.name_bytes().len() > 0,
            self.name_bytes()[0] != SPACE,
    {
        Self::lemma_keyword_bytes();
        let keys = key_bytes(Self::keywords());
        let i = self.index();
        assert(keys[0] == "SSTP/1.0".spec_bytes());
        assert(keys[1] == "SSTP/1.1".spec_bytes());
        assert(keys[2] == "SSTP/1.2".spec_bytes());
        assert(keys[3] == "SSTP/1.3".spec_bytes());
        assert(keys[4] == "SSTP/1.4".spec_bytes());
        let head = keys[i].take(8);
        assert forall|j: int| 0 <= j < i implies !has_prefix(#[trigger] keys[j], head) by {
            if i == 1 && j == 0 {
                assert(keys[0].take(8)[7] != head[7]);
            }
            if i == 2 && j == 0 {
                assert(keys[0].take(8)[7] != head[7]);
            }
            if i == 2 && j == 1 {
                assert(keys[1].take(8)[7] != head[7]);
            }
            if i == 3 && j == 0 {
                assert(keys[0].take(8)[7] != head[7]);
            }
            if i == 3 && j == 1 {
                assert(keys[1].take(8)[7] != head[7]);
            }
            if i == 3 && j == 2 {
                assert(keys[2].take(8)[7] != head[7]);
            }
            if i == 4 && j == 0 {
                assert(keys[0].take(8)[7] != head[7]);
            }
            if i == 4 && j == 1 {
                assert(keys[1].take(8)[7] != head[7]);
            }
            if i == 4 && j == 2 {
                assert(keys[2].take(8)[7] != head[7]);
            }
            if i == 4 && j == 3 {
                assert(keys[3].take(8)[7] != head[7]);
            }
        }
        lemma_keyword_found(keys, 8, i, rest);
    }
}

impl Default for Version {
    /// The latest version.
    fn default() -> (value: Version)
        ensures
            value == Version::SSTP_14,
    {
        Version::SSTP_14
    }
}

} // verus!
