//! The status codes of a SHIORI/3.0 response.
use crate::util::bytes::{has_prefix, str_equal};
use crate::util::cursor::{key_bytes, keyword_match, lemma_keyword_found, KeywordMatch, SPACE};
use vstd::prelude::*;
use vstd::string::*;

verus! {

/// StatusCode represents the status code of the SHIORI response.
///
/// The set is closed: a status line that names another code is no
/// SHIORI/3.0 response.
#[derive(Debug, PartialEq, Eq, Copy, Clone, Hash, Structural)]
pub enum StatusCode {
    /// 200 OK
    Okay,
    /// 204 No Content
    NoContent,
    /// 310 Communicate (deprecated)
    Communicate,
    /// 311 Not Enough
    NotEnough,
    /// 312 Advice
    Advice,
    /// 400 Bad Request
    BadRequest,
    /// 500 Internal Server Error
    InternalServerError,
}

impl StatusCode {
    /// 200 OK
    pub const OK: StatusCode = StatusCode::Okay;

    /// 204 No Content
    pub const NO_CONTENT: StatusCode = StatusCode::NoContent;

    /// 310 Communicate (deprecated)
    pub const COMMUNICATE: StatusCode = StatusCode::Communicate;

    /// 311 Not Enough
    pub const NOT_ENOUGH: StatusCode = StatusCode::NotEnough;

    /// 312 Advice
    pub const ADVICE: StatusCode = StatusCode::Advice;

    /// 400 Bad Request
    pub const BAD_REQUEST: StatusCode = StatusCode::BadRequest;

    /// 500 Internal Server Error
    pub const INTERNAL_SERVER_ERROR: StatusCode = StatusCode::InternalServerError;

    /// The status lines, in the order in which a response line is matched against them.
    pub open spec fn keywords() -> Seq<&'static str> {
        seq!["200 OK", "204 No Content", "310 Communicate", "311 Not Enough", "312 Advice", "400 Bad Request", "500 Internal Server Error"]
    }

    /// The place of this value's keyword in the table.
    pub open spec fn index(self) -> int {
        match self {
            StatusCode::Okay => 0,
            StatusCode::NoContent => 1,
            StatusCode::Communicate => 2,
            StatusCode::NotEnough => 3,
            StatusCode::Advice => 4,
            StatusCode::BadRequest => 5,
            StatusCode::InternalServerError => 6,
        }
    }

    /// The value whose keyword stands at a place of the table.
    pub open spec fn at(i: int) -> StatusCode {
        if i == 0 {
            StatusCode::Okay
        } else if i == 1 {
            StatusCode::NoContent
        } else if i == 2 {
            StatusCode::Communicate
        } else if i == 3 {
            StatusCode::NotEnough
        } else if i == 4 {
            StatusCode::Advice
        } else if i == 5 {
            StatusCode::BadRequest
        } else {
            StatusCode::InternalServerError
        }
    }

    /// The keyword of this value, as it stands on the wire.
    pub open spec fn name(self) -> Seq<char> {
        match self {
            StatusCode::Okay => "200 OK"@,
            StatusCode::NoContent => "204 No Content"@,
            StatusCode::Communicate => "310 Communicate"@,
            StatusCode::NotEnough => "311 Not Enough"@,
            StatusCode::Advice => "312 Advice"@,
            StatusCode::BadRequest => "400 Bad Request"@,
            StatusCode::InternalServerError => "500 Internal Server Error"@,
        }
    }

    /// The bytes of this value's keyword.
    pub open spec fn name_bytes(self) -> Seq<u8> {
        match self {
            StatusCode::Okay => "200 OK".spec_bytes(),
            StatusCode::NoContent => "204 No Content".spec_bytes(),
            StatusCode::Communicate => "310 Communicate".spec_bytes(),
            StatusCode::NotEnough => "311 Not Enough".spec_bytes(),
            StatusCode::Advice => "312 Advice".spec_bytes(),
            StatusCode::BadRequest => "400 Bad Request".spec_bytes(),
            StatusCode::InternalServerError => "500 Internal Server Error".spec_bytes(),
        }
    }

    /// The value that stands at a place of the table, for places within it.
    pub fn from_index(i: usize) -> (value: StatusCode)
        requires
            i < 7,
        ensures
            value == StatusCode::at(i as int),
            value.index() == i,
    {
        if i == 0 {
            StatusCode::Okay
        } else if i == 1 {
            StatusCode::NoContent
        } else if i == 2 {
            StatusCode::Communicate
        } else if i == 3 {
            StatusCode::NotEnough
        } else if i == 4 {
            StatusCode::Advice
        } else if i == 5 {
            StatusCode::BadRequest
        } else {
            StatusCode::InternalServerError
        }
    }

    /// The value that a keyword stands for, if it is one of the table.
    /// Keywords are matched exactly.
    pub open spec fn named(name: Seq<char>) -> Option<StatusCode> {
        if name == "200 OK"@ {
            Some(StatusCode::Okay)
        } else if name == "204 No Content"@ {
            Some(StatusCode::NoContent)
        } else if name == "310 Communicate"@ {
            Some(StatusCode::Communicate)
        } else if name == "311 Not Enough"@ {
            Some(StatusCode::NotEnough)
        } else if name == "312 Advice"@ {
            Some(StatusCode::Advice)
        } else if name == "400 Bad Request"@ {
            Some(StatusCode::BadRequest)
        } else if name == "500 Internal Server Error"@ {
            Some(StatusCode::InternalServerError)
        } else {
            None
        }
    }

    /// Reads a value from its keyword.
    pub fn from_name(name: &str) -> (res: Option<StatusCode>)
        ensures
            res == Self::named(name@),
            name@ == "200 OK"@ ==> res == Some(StatusCode::Okay),
            name@ == "204 No Content"@ ==> res == Some(StatusCode::NoContent),
            name@ == "310 Communicate"@ ==> res == Some(StatusCode::Communicate),
            name@ == "311 Not Enough"@ ==> res == Some(StatusCode::NotEnough),
            name@ == "312 Advice"@ ==> res == Some(StatusCode::Advice),
            name@ == "400 Bad Request"@ ==> res == Some(StatusCode::BadRequest),
            name@ == "500 Internal Server Error"@ ==> res == Some(StatusCode::InternalServerError),
    {
        proof {
            Self::lemma_keywords_differ();
        }
        if str_equal(name, "200 OK") {
            Some(StatusCode::Okay)
        } else if str_equal(name, "204 No Content") {
            Some(StatusCode::NoContent)
        } else if str_equal(name, "310 Communicate") {
            Some(StatusCode::Communicate)
        } else if str_equal(name, "311 Not Enough") {
            Some(StatusCode::NotEnough)
        } else if str_equal(name, "312 Advice") {
            Some(StatusCode::Advice)
        } else if str_equal(name, "400 Bad Request") {
            Some(StatusCode::BadRequest)
        } else if str_equal(name, "500 Internal Server Error") {
            Some(StatusCode::InternalServerError)
        } else {
            None
        }
    }

    /// The keyword of this value.
    pub fn as_str(&self) -> (s: &'static str)
        ensures
            s@ == self.name(),
            s.spec_bytes() == self.name_bytes(),
            s == StatusCode::keywords()[self.index()],
    {
        match self {
            StatusCode::Okay => "200 OK",
            StatusCode::NoContent => "204 No Content",
            StatusCode::Communicate => "310 Communicate",
            StatusCode::NotEnough => "311 Not Enough",
            StatusCode::Advice => "312 Advice",
            StatusCode::BadRequest => "400 Bad Request",
            StatusCode::InternalServerError => "500 Internal Server Error",
        }
    }

    /// The keyword of this value as an owned string.
    pub fn to_string(&self) -> (s: String)
        ensures
            s@ == self.name(),
    {
        self.as_str().to_owned()
    }

    /// No two keywords are the same.
    pub proof fn lemma_keywords_differ()
        ensures
            forall|a: Self, b: Self| #![trigger a.name(), b.name()] a.name() == b.name() ==> a == b,
            "200 OK"@ != "204 No Content"@,
            "200 OK"@ != "310 Communicate"@,
            "204 No Content"@ != "310 Communicate"@,
            "200 OK"@ != "311 Not Enough"@,
            "204 No Content"@ != "311 Not Enough"@,
            "310 Communicate"@ != "311 Not Enough"@,
            "200 OK"@ != "312 Advice"@,
            "204 No Content"@ != "312 Advice"@,
            "310 Communicate"@ != "312 Advice"@,
            "311 Not Enough"@ != "312 Advice"@,
            "200 OK"@ != "400 Bad Request"@,
            "204 No Content"@ != "400 Bad Request"@,
            "310 Communicate"@ != "400 Bad Request"@,
            "311 Not Enough"@ != "400 Bad Request"@,
            "312 Advice"@ != "400 Bad Request"@,
            "200 OK"@ != "500 Internal Server Error"@,
            "204 No Content"@ != "500 Internal Server Error"@,
            "310 Communicate"@ != "500 Internal Server Error"@,
            "311 Not Enough"@ != "500 Internal Server Error"@,
            "312 Advice"@ != "500 Internal Server Error"@,
            "400 Bad Request"@ != "500 Internal Server Error"@,
    {
        reveal_strlit("200 OK");
        reveal_strlit("204 No Content");
        reveal_strlit("310 Communicate");
        reveal_strlit("311 Not Enough");
        reveal_strlit("312 Advice");
        reveal_strlit("400 Bad Request");
        reveal_strlit("500 Internal Server Error");
        assert("200 OK"@.len() == 6);
        assert("204 No Content"@.len() == 14);
        assert("310 Communicate"@.len() == 15);
        assert("311 Not Enough"@.len() == 14);
        assert("312 Advice"@.len() == 10);
        assert("400 Bad Request"@.len() == 15);
        assert("500 Internal Server Error"@.len() == 25);
        assert("204 No Content"@[0] != "311 Not Enough"@[0]);
        assert("310 Communicate"@[0] != "400 Bad Request"@[0]);
    }

    /// The bytes of each keyword, written out.
    pub proof fn lemma_keyword_bytes()
        ensures
            "200 OK".spec_bytes() == seq![50u8, 48, 48, 32, 79, 75],
            "204 No Content".spec_bytes() == seq![50u8, 48, 52, 32, 78, 111, 32, 67, 111, 110, 116, 101, 110, 116],
            "310 Communicate".spec_bytes() == seq![51u8, 49, 48, 32, 67, 111, 109, 109, 117, 110, 105, 99, 97, 116, 101],
            "311 Not Enough".spec_bytes() == seq![51u8, 49, 49, 32, 78, 111, 116, 32, 69, 110, 111, 117, 103, 104],
            "312 Advice".spec_bytes() == seq![51u8, 49, 50, 32, 65, 100, 118, 105, 99, 101],
            "400 Bad Request".spec_bytes() == seq![52u8, 48, 48, 32, 66, 97, 100, 32, 82, 101, 113, 117, 101, 115, 116],
            "500 Internal Server Error".spec_bytes() == seq![53u8, 48, 48, 32, 73, 110, 116, 101, 114, 110, 97, 108, 32, 83, 101, 114, 118, 101, 114, 32, 69, 114, 114, 111, 114],
    {
        reveal_strlit("200 OK");
        reveal_strlit("204 No Content");
        reveal_strlit("310 Communicate");
        reveal_strlit("311 Not Enough");
        reveal_strlit("312 Advice");
        reveal_strlit("400 Bad Request");
        reveal_strlit("500 Internal Server Error");
        assert("200 OK".spec_bytes() =~= seq![50u8, 48, 48, 32, 79, 75]) by {
            assert(is_ascii("200 OK"));
        }
        assert("204 No Content".spec_bytes() =~= seq![50u8, 48, 52, 32, 78, 111, 32, 67, 111, 110, 116, 101, 110, 116]) by {
            assert(is_ascii("204 No Content"));
        }
        assert("310 Communicate".spec_bytes() =~= seq![51u8, 49, 48, 32, 67, 111, 109, 109, 117, 110, 105, 99, 97, 116, 101]) by {
            assert(is_ascii("310 Communicate"));
        }
        assert("311 Not Enough".spec_bytes() =~= seq![51u8, 49, 49, 32, 78, 111, 116, 32, 69, 110, 111, 117, 103, 104]) by {
            assert(is_ascii("311 Not Enough"));
        }
        assert("312 Advice".spec_bytes() =~= seq![51u8, 49, 50, 32, 65, 100, 118, 105, 99, 101]) by {
            assert(is_ascii("312 Advice"));
        }
        assert("400 Bad Request".spec_bytes() =~= seq![52u8, 48, 48, 32, 66, 97, 100, 32, 82, 101, 113, 117, 101, 115, 116]) by {
            assert(is_ascii("400 Bad Request"));
        }
        assert("500 Internal Server Error".spec_bytes() =~= seq![53u8, 48, 48, 32, 73, 110, 116, 101, 114, 110, 97, 108, 32, 83, 101, 114, 118, 101, 114, 32, 69, 114, 114, 111, 114]) by {
            assert(is_ascii("500 Internal Server Error"));
        }
    }

    /// A keyword, followed by whatever, is read as the value that it is
    /// the keyword of, and what follows it is left.
    pub proof fn lemma_found(self, rest: Seq<u8>)
        ensures
            keyword_match(self.name_bytes() + rest, key_bytes(Self::keywords()), 3)
                == KeywordMatch::Found(self.index()),
            key_bytes(Self::keywords())[self.index()] == self.name_bytes(),
            (self.name_bytes() + rest).skip(self.name_bytes().len() as int) == rest,
            Self::at(self.index()) == self,
            self.name_bytes().len() > 0,
            self.name_bytes()[0] != SPACE,
    {
        Self::lemma_keyword_bytes();
        let keys = key_bytes(Self::keywords());
        let i = self.index();
        assert(keys[0] == "200 OK".spec_bytes());
        assert(keys[1] == "204 No Content".spec_bytes());
        assert(keys[2] == "310 Communicate".spec_bytes());
        assert(keys[3] == "311 Not Enough".spec_bytes());
        assert(keys[4] == "312 Advice".spec_bytes());
        assert(keys[5] == "400 Bad Request".spec_bytes());
        assert(keys[6] == "500 Internal Server Error".spec_bytes());
        let head = keys[i].take(3);
        assert forall|j: int| 0 <= j < i implies !has_prefix(#[trigger] keys[j], head) by {
            if i == 1 && j == 0 {
                assert(keys[0].take(3)[2] != head[2]);
            }
            if i == 2 && j == 0 {
                assert(keys[0].take(3)[0] != head[0]);
            }
            if i == 2 && j == 1 {
                assert(keys[1].take(3)[0] != head[0]);
            }
            if i == 3 && j == 0 {
                assert(keys[0].take(3)[0] != head[0]);
            }
            if i == 3 && j == 1 {
                assert(keys[1].take(3)[0] != head[0]);
            }
            if i == 3 && j == 2 {
                assert(keys[2].take(3)[2] != head[2]);
            }
            if i == 4 && j == 0 {
                assert(keys[0].take(3)[0] != head[0]);
            }
            if i == 4 && j == 1 {
                assert(keys[1].take(3)[0] != head[0]);
            }
            if i == 4 && j == 2 {
                assert(keys[2].take(3)[2] != head[2]);
            }
            if i == 4 && j == 3 {
                assert(keys[3].take(3)[2] != head[2]);
            }
            if i == 5 && j == 0 {
                assert(keys[0].take(3)[0] != head[0]);
            }
            if i == 5 && j == 1 {
                assert(keys[1].take(3)[0] != head[0]);
            }
            if i == 5 && j == 2 {
                assert(keys[2].take(3)[0] != head[0]);
            }
            if i == 5 && j == 3 {
                assert(keys[3].take(3)[0] != head[0]);
            }
            if i == 5 && j == 4 {
                assert(keys[4].take(3)[0] != head[0]);
            }
            if i == 6 && j == 0 {
                assert(keys[0].take(3)[0] != head[0]);
            }
            if i == 6 && j == 1 {
                assert(keys[1].take(3)[0] != head[0]);
            }
            if i == 6 && j == 2 {
                assert(keys[2].take(3)[0] != head[0]);
            }
            if i == 6 && j == 3 {
                assert(keys[3].take(3)[0] != head[0]);
            }
            if i == 6 && j == 4 {
                assert(keys[4].take(3)[0] != head[0]);
            }
            if i == 6 && j == 5 {
                assert(keys[5].take(3)[0] != head[0]);
            }
        }
        lemma_keyword_found(keys, 3, i, rest);
    }
}

} // verus!
