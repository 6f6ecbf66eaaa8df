//! The methods of an SSTP request.
use crate::util::bytes::{has_prefix, str_equal};
use crate::util::cursor::{key_bytes, keyword_match, lemma_keyword_found, KeywordMatch, SPACE};
use vstd::prelude::*;
use vstd::string::*;

verus! {

/// Method is the method of the SSTP request.
#[derive(Debug, PartialEq, Eq, Copy, Clone, Hash, Structural)]
pub enum Method {
    /// Notify
    Notify,
    /// Send
    Send,
    /// Execute
    Execute,
    /// Give
    Give,
    /// Communicate
    Communicate,
}

impl Method {
    /// Notify
    pub const NOTIFY: Method = Method::Notify;

    /// Send
    pub const SEND: Method = Method::Send;

    /// Execute
    pub const EXECUTE: Method = Method::Execute;

    /// Give
    pub const GIVE: Method = Method::Give;

    /// Communicate
    pub const COMMUNICATE: Method = Method::Communicate;

    /// The method keywords, in the order in which a request line is matched against them.
    pub open spec fn keywords() -> Seq<&'static str> {
        seq!["NOTIFY", "SEND", "EXECUTE", "GIVE", "COMMUNICATE"]
    }

    /// The place of this value's keyword in the table.
    pub open spec fn index(self) -> int {
        match self {
            Method::Notify => 0,
            Method::Send => 1,
            Method::Execute => 2,
            Method::Give => 3,
            Method::Communicate => 4,
        }
    }

    /// The value whose keyword stands at a place of the table.
    pub open spec fn at(i: int) -> Method {
        if i == 0 {
            Method::Notify
        } else if i == 1 {
            Method::Send
        } else if i == 2 {
            Method::Execute
        } else if i == 3 {
            Method::Give
        } else {
            Method::Communicate
        }
    }

    /// The keyword of this value, as it stands on the wire.
    pub open spec fn name(self) -> Seq<char> {
        match self {
            Method::Notify => "NOTIFY"@,
            Method::Send => "SEND"@,
            Method::Execute => "EXECUTE"@,
            Method::Give => "GIVE"@,
            Method::Communicate => "COMMUNICATE"@,
        }
    }

    /// The bytes of this value's keyword.
    pub open spec fn name_bytes(self) -> Seq<u8> {
        match self {
            Method::Notify => "NOTIFY".spec_bytes(),
            Method::Send => "SEND".spec_bytes(),
            Method::Execute => "EXECUTE".spec_bytes(),
            Method::Give => "GIVE".spec_bytes(),
            Method::Communicate => "COMMUNICATE".spec_bytes(),
        }
    }

    /// The value that stands at a place of the table, for places within it.
    pub fn from_index(i: usize) -> (value: Method)
        requires
            i < 5,
        ensures
            value == Method::at(i as int),
            value.index() == i,
    {
        if i == 0 {
            Method::Notify
        } else if i == 1 {
            Method::Send
        } else if i == 2 {
            Method::Execute
        } else if i == 3 {
            Method::Give
        } else {
            Method::Communicate
        }
    }

    /// The value that a keyword stands for, if it is one of the table.
    /// Keywords are matched exactly.
    pub open spec fn named(name: Seq<char>) -> Option<Method> {
        if name == "NOTIFY"@ {
            Some(Method::Notify)
        } else if name == "SEND"@ {
            Some(Method::Send)
        } else if name == "EXECUTE"@ {
            Some(Method::Execute)
        } else if name == "GIVE"@ {
            Some(Method::Give)
        } else if name == "COMMUNICATE"@ {
            Some(Method::Communicate)
        } else {
            None
        }
    }

    /// Reads a value from its keyword.
    pub fn from_name(name: &str) -> (res: Option<Method>)
        ensures
            res == Self::named(name@),
            name@ == "NOTIFY"@ ==> res == Some(Method::Notify),
            name@ == "SEND"@ ==> res == Some(Method::Send),
            name@ == "EXECUTE"@ ==> res == Some(Method::Execute),
            name@ == "GIVE"@ ==> res == Some(Method::Give),
            name@ == "COMMUNICATE"@ ==> res == Some(Method::Communicate),
    {
        proof {
            Self::lemma_keywords_differ();
        }
        if str_equal(name, "NOTIFY") {
            Some(Method::Notify)
        } else if str_equal(name, "SEND") {
            Some(Method::Send)
        } else if str_equal(name, "EXECUTE") {
            Some(Method::Execute)
        } else if str_equal(name, "GIVE") {
            Some(Method::Give)
        } else if str_equal(name, "COMMUNICATE") {
            Some(Method::Communicate)
        } else {
            None
        }
    }

    /// The keyword of this value.
    pub fn as_str(&self) -> (s: &'static str)
        ensures
            s@ == self.name(),
            s.spec_bytes() == self.name_bytes(),
            s == Method::keywords()[self.index()],
    {
        match self {
            Method::Notify => "NOTIFY",
            Method::Send => "SEND",
            Method::Execute => "EXECUTE",
            Method::Give => "GIVE",
            Method::Communicate => "COMMUNICATE",
        }
    }

    /// The keyword of this value as an owned string.
    pub fn to_string(&self) -> (s: String)
        ensures
            s@ == self.name(),
    {
        self.as_str().to_owned()
    }

    /// No two keywords are the same.
    pub proof fn lemma_keywords_differ()
        ensures
            forall|a: Self, b: Self| #![trigger a.name(), b.name()] a.name() == b.name() ==> a == b,
            "NOTIFY"@ != "SEND"@,
            "NOTIFY"@ != "EXECUTE"@,
            "SEND"@ != "EXECUTE"@,
            "NOTIFY"@ != "GIVE"@,
            "SEND"@ != "GIVE"@,
            "EXECUTE"@ != "GIVE"@,
            "NOTIFY"@ != "COMMUNICATE"@,
            "SEND"@ != "COMMUNICATE"@,
            "EXECUTE"@ != "COMMUNICATE"@,
            "GIVE"@ != "COMMUNICATE"@,
    {
        reveal_strlit("NOTIFY");
        reveal_strlit("SEND");
        reveal_strlit("EXECUTE");
        reveal_strlit("GIVE");
        reveal_strlit("COMMUNICATE");
        assert("NOTIFY"@.len() == 6);
        assert("SEND"@.len() == 4);
        assert("EXECUTE"@.len() == 7);
        assert("GIVE"@.len() == 4);
        assert("COMMUNICATE"@.len() == 11);
        assert("SEND"@[0] != "GIVE"@[0]);
    }

    /// The bytes of each keyword, written out.
    pub proof fn lemma_keyword_bytes()
        ensures
            "NOTIFY".spec_bytes() == seq![78u8, 79, 84, 73, 70, 89],
            "SEND".spec_bytes() == seq![83u8, 69, 78, 68],
            "EXECUTE".spec_bytes() == seq![69u8, 88, 69, 67, 85, 84, 69],
            "GIVE".spec_bytes() == seq![71u8, 73, 86, 69],
            "COMMUNICATE".spec_bytes() == seq![67u8, 79, 77, 77, 85, 78, 73, 67, 65, 84, 69],
    {
        reveal_strlit("NOTIFY");
        reveal_strlit("SEND");
        reveal_strlit("EXECUTE");
        reveal_strlit("GIVE");
        reveal_strlit("COMMUNICATE");
        assert("NOTIFY".spec_bytes() =~= seq![78u8, 79, 84, 73, 70, 89]) by {
            assert(is_ascii("NOTIFY"));
        }
        assert("SEND".spec_bytes() =~= seq![83u8, 69, 78, 68]) by {
            assert(is_ascii("SEND"));
        }
        assert("EXECUTE".spec_bytes() =~= seq![69u8, 88, 69, 67, 85, 84, 69]) by {
            assert(is_ascii("EXECUTE"));
        }
        assert("GIVE".spec_bytes() =~= seq![71u8, 73, 86, 69]) by {
            assert(is_ascii("GIVE"));
        }
        assert("COMMUNICATE".spec_bytes() =~= seq![67u8, 79, 77, 77, 85, 78, 73, 67, 65, 84, 69]) by {
            assert(is_ascii("COMMUNICATE"));
        }
    }

    /// A keyword, followed by whatever, is read as the value that it is
    /// the keyword of, and what follows it is left.
    pub proof fn lemma_found(self, rest: Seq<u8>)
        ensures
            keyword_match(self.name_bytes() + rest, key_bytes(Self::keywords()), 1)
                == KeywordMatch::Found(self.index()),
            key_bytes(Self::keywords())[self.index()] == self.name_bytes(),
            (self.name_bytes() + rest).skip(self.name_bytes().len() as int) == rest,
            Self::at(self.index()) == self,
            self.name_bytes().len() > 0,
            self.name_bytes()[0] != SPACE,
    {
        Self::lemma_keyword_bytes();
        let keys = key_bytes(Self::keywords());
        let i = self.index();
        assert(keys[0] == "NOTIFY".spec_bytes());
        assert(keys[1] == "SEND".spec_bytes());
        assert(keys[2] == "EXECUTE".spec_bytes());
        assert(keys[3] == "GIVE".spec_bytes());
        assert(keys[4] == "COMMUNICATE".spec_bytes());
        let head = keys[i].take(1);
        assert forall|j: int| 0 <= j < i implies !has_prefix(#[trigger] keys[j], head) by {
            if i == 1 && j == 0 {
                assert(keys[0].take(1)[0] != head[0]);
            }
            if i == 2 && j == 0 {
                assert(keys[0].take(1)[0] != head[0]);
            }
            if i == 2 && j == 1 {
                assert(keys[1].take(1)[0] != head[0]);
            }
            if i == 3 && j == 0 {
                assert(keys[0].take(1)[0] != head[0]);
            }
            if i == 3 && j == 1 {
                assert(keys[1].take(1)[0] != head[0]);
            }
            if i == 3 && j == 2 {
                assert(keys[2].take(1)[0] != head[0]);
            }
            if i == 4 && j == 0 {
                assert(keys[0].take(1)[0] != head[0]);
            }
            if i == 4 && j == 1 {
                assert(keys[1].take(1)[0] != head[0]);
            }
            if i == 4 && j == 2 {
                assert(keys[2].take(1)[0] != head[0]);
            }
            if i == 4 && j == 3 {
                assert(keys[3].take(1)[0] != head[0]);
            }
        }
        lemma_keyword_found(keys, 1, i, rest);
    }
}

} // verus!
