//! The status codes of an SSTP response.
use crate::util::bytes::{has_prefix, str_equal};
use crate::util::cursor::{key_bytes, keyword_match, lemma_keyword_found, KeywordMatch, SPACE};
use vstd::prelude::*;
use vstd::string::*;

verus! {

/// StatusCode represents the status code of the SSTP response.
///
/// The set is closed: a status line that names another code is no SSTP
/// response.
#[derive(Debug, PartialEq, Eq, Copy, Clone, Hash, Structural)]
pub enum StatusCode {
    /// 200 OK
    Okay,
    /// 204 No Content
    NoContent,
    /// 210 Break
    Break,
    /// 400 Bad Request
    BadRequest,
    /// 408 Request Timeout
    RequestTimeout,
    /// 409 Conflict
    Conflict,
    /// 420 Refuse
    Refuse,
    /// 501 Not Implemented
    NotImplemented,
    /// 503 Service Unavailable
    ServiceUnavailable,
    /// 510 Not Local IP
    NotLocalIp,
    /// 511 In Black List
    InBlackList,
    /// 512 Invisible
    Invisible,
}

impl StatusCode {
    /// 200 OK
    pub const OK: StatusCode = StatusCode::Okay;

    /// 204 No Content
    pub const NO_CONTENT: StatusCode = StatusCode::NoContent;

    /// 210 Break
    pub const BREAK: StatusCode = StatusCode::Break;

    /// 400 Bad Request
    pub const BAD_REQUEST: StatusCode = StatusCode::BadRequest;

    /// 408 Request Timeout
    pub const REQUEST_TIMEOUT: StatusCode = StatusCode::RequestTimeout;

    /// 409 Conflict
    pub const CONFLICT: StatusCode = StatusCode::Conflict;

    /// 420 Refuse
    pub const REFUSE: StatusCode = StatusCode::Refuse;

    /// 501 Not Implemented
    pub const NOT_IMPLEMENTED: StatusCode = StatusCode::NotImplemented;

    /// 503 Service Unavailable
    pub const SERVICE_UNAVAILABLE: StatusCode = StatusCode::ServiceUnavailable;

    /// 510 Not Local IP
    pub const NOT_LOCAL_IP: StatusCode = StatusCode::NotLocalIp;

    /// 511 In Black List
    pub const IN_BLACK_LIST: StatusCode = StatusCode::InBlackList;

    /// 512 Invisible
    pub const INVISIBLE: StatusCode = StatusCode::Invisible;

    /// The status lines, in the order in which a response line is matched against them.
    pub open spec fn keywords() -> Seq<&'static str> {
        seq!["200 OK", "204 No Content", "210 Break", "400 Bad Request", "408 Request Timeout", "409 Conflict", "420 Refuse", "501 Not Implemented", "503 Service Unavailable", "510 Not Local IP", "511 In Black List", "512 Invisible"]
    }

    /// The place of this value's keyword in the table.
    pub open spec fn index(self) -> int {
        match self {
            StatusCode::Okay => 0,
            StatusCode::NoContent => 1,
            StatusCode::Break => 2,
            StatusCode::BadRequest => 3,
            StatusCode::RequestTimeout => 4,
            StatusCode::Conflict => 5,
            StatusCode::Refuse => 6,
            StatusCode::NotImplemented => 7,
            StatusCode::ServiceUnavailable => 8,
            StatusCode::NotLocalIp => 9,
            StatusCode::InBlackList => 10,
            StatusCode::Invisible => 11,
        }
    }

    /// The value whose keyword stands at a place of the table.
    pub open spec fn at(i: int) -> StatusCode {
        if i == 0 {
            StatusCode::Okay
        } else if i == 1 {
            StatusCode::NoContent
        } else if i == 2 {
            StatusCode::Break
        } else if i == 3 {
            StatusCode::BadRequest
        } else if i == 4 {
            StatusCode::RequestTimeout
        } else if i == 5 {
            StatusCode::Conflict
        } else if i == 6 {
            StatusCode::Refuse
        } else if i == 7 {
            StatusCode::NotImplemented
        } else if i == 8 {
            StatusCode::ServiceUnavailable
        } else if i == 9 {
            StatusCode::NotLocalIp
        } else if i == 10 {
            StatusCode::InBlackList
        } else {
            StatusCode::Invisible
        }
    }

    /// The keyword of this value, as it stands on the wire.
    pub open spec fn name(self) -> Seq<char> {
        match self {
            StatusCode::Okay => "200 OK"@,
            StatusCode::NoContent => "204 No Content"@,
            StatusCode::Break => "210 Break"@,
            StatusCode::BadRequest => "400 Bad Request"@,
            StatusCode::RequestTimeout => "408 Request Timeout"@,
            StatusCode::Conflict => "409 Conflict"@,
            StatusCode::Refuse => "420 Refuse"@,
            StatusCode::NotImplemented => "501 Not Implemented"@,
            StatusCode::ServiceUnavailable => "503 Service Unavailable"@,
            StatusCode::NotLocalIp => "510 Not Local IP"@,
            StatusCode::InBlackList => "511 In Black List"@,
            StatusCode::Invisible => "512 Invisible"@,
        }
    }

    /// The bytes of this value's keyword.
    pub open spec fn name_bytes(self) -> Seq<u8> {
        match self {
            StatusCode::Okay => "200 OK".spec_bytes(),
            StatusCode::NoContent => "204 No Content".spec_bytes(),
            StatusCode::Break => "210 Break".spec_bytes(),
            StatusCode::BadRequest => "400 Bad Request".spec_bytes(),
            StatusCode::RequestTimeout => "408 Request Timeout".spec_bytes(),
            StatusCode::Conflict => "409 Conflict".spec_bytes(),
            StatusCode::Refuse => "420 Refuse".spec_bytes(),
            StatusCode::NotImplemented => "501 Not Implemented".spec_bytes(),
            StatusCode::ServiceUnavailable => "503 Service Unavailable".spec_bytes(),
            StatusCode::NotLocalIp => "510 Not Local IP".spec_bytes(),
            StatusCode::InBlackList => "511 In Black List".spec_bytes(),
            StatusCode::Invisible => "512 Invisible".spec_bytes(),
        }
    }

    /// The value that stands at a place of the table, for places within it.
    pub fn from_index(i: usize) -> (value: StatusCode)
        requires
            i < 12,
        ensures
            value == StatusCode::at(i as int),
            value.index() == i,
    {
        if i == 0 {
            StatusCode::Okay
        } else if i == 1 {
            StatusCode::NoContent
        } else if i == 2 {
            StatusCode::Break
        } else if i == 3 {
            StatusCode::BadRequest
        } else if i == 4 {
            StatusCode::RequestTimeout
        } else if i == 5 {
            StatusCode::Conflict
        } else if i == 6 {
            StatusCode::Refuse
        } else if i == 7 {
            StatusCode::NotImplemented
        } else if i == 8 {
            StatusCode::ServiceUnavailable
        } else if i == 9 {
            StatusCode::NotLocalIp
        } else if i == 10 {
            StatusCode::InBlackList
        } else {
            StatusCode::Invisible
        }
    }

    /// The value that a keyword stands for, if it is one of the table.
    /// Keywords are matched exactly.
    pub open spec fn named(name: Seq<char>) -> Option<StatusCode> {
        if name == "200 OK"@ {
            Some(StatusCode::Okay)
        } else if name == "204 No Content"@ {
            Some(StatusCode::NoContent)
        } else if name == "210 Break"@ {
            Some(StatusCode::Break)
        } else if name == "400 Bad Request"@ {
            Some(StatusCode::BadRequest)
        } else if name == "408 Request Timeout"@ {
            Some(StatusCode::RequestTimeout)
        } else if name == "409 Conflict"@ {
            Some(StatusCode::Conflict)
        } else if name == "420 Refuse"@ {
            Some(StatusCode::Refuse)
        } else if name == "501 Not Implemented"@ {
            Some(StatusCode::NotImplemented)
        } else if name == "503 Service Unavailable"@ {
            Some(StatusCode::ServiceUnavailable)
        } else if name == "510 Not Local IP"@ {
            Some(StatusCode::NotLocalIp)
        } else if name == "511 In Black List"@ {
            Some(StatusCode::InBlackList)
        } else if name == "512 Invisible"@ {
            Some(StatusCode::Invisible)
        } else {
            None
        }
    }

    /// Reads a value from its keyword.
    pub fn from_name(name: &str) -> (res: Option<StatusCode>)
        ensures
            res == Self::named(name@),
            name@ == "200 OK"@ ==> res == Some(StatusCode::Okay),
            name@ == "204 No Content"@ ==> res == Some(StatusCode::NoContent),
            name@ == "210 Break"@ ==> res == Some(StatusCode::Break),
            name@ == "400 Bad Request"@ ==> res == Some(StatusCode::BadRequest),
            name@ == "408 Request Timeout"@ ==> res == Some(StatusCode::RequestTimeout),
            name@ == "409 Conflict"@ ==> res == Some(StatusCode::Conflict),
            name@ == "420 Refuse"@ ==> res == Some(StatusCode::Refuse),
            name@ == "501 Not Implemented"@ ==> res == Some(StatusCode::NotImplemented),
            name@ == "503 Service Unavailable"@ ==> res == Some(StatusCode::ServiceUnavailable),
            name@ == "510 Not Local IP"@ ==> res == Some(StatusCode::NotLocalIp),
            name@ == "511 In Black List"@ ==> res == Some(StatusCode::InBlackList),
            name@ == "512 Invisible"@ ==> res == Some(StatusCode::Invisible),
    {
        proof {
            Self::lemma_keywords_differ();
        }
        if str_equal(name, "200 OK") {
            Some(StatusCode::Okay)
        } else if str_equal(name, "204 No Content") {
            Some(StatusCode::NoContent)
        } else if str_equal(name, "210 Break") {
            Some(StatusCode::Break)
        } else if str_equal(name, "400 Bad Request") {
            Some(StatusCode::BadRequest)
        } else if str_equal(name, "408 Request Timeout") {
            Some(StatusCode::RequestTimeout)
        } else if str_equal(name, "409 Conflict") {
            Some(StatusCode::Conflict)
        } else if str_equal(name, "420 Refuse") {
            Some(StatusCode::Refuse)
        } else if str_equal(name, "501 Not Implemented") {
            Some(StatusCode::NotImplemented)
        } else if str_equal(name, "503 Service Unavailable") {
            Some(StatusCode::ServiceUnavailable)
        } else if str_equal(name, "510 Not Local IP") {
            Some(StatusCode::NotLocalIp)
        } else if str_equal(name, "511 In Black List") {
            Some(StatusCode::InBlackList)
        } else if str_equal(name, "512 Invisible") {
            Some(StatusCode::Invisible)
        } else {
            None
        }
    }

    /// The keyword of this value.
    pub fn as_str(&self) -> (s: &'static str)
        ensures
            s@ == self.name(),
            s.spec_bytes() == self.name_bytes(),
            s == StatusCode::keywords()[self.index()],
    {
        match self {
            StatusCode::Okay => "200 OK",
            StatusCode::NoContent => "204 No Content",
            StatusCode::Break => "210 Break",
            StatusCode::BadRequest => "400 Bad Request",
            StatusCode::RequestTimeout => "408 Request Timeout",
            StatusCode::Conflict => "409 Conflict",
            StatusCode::Refuse => "420 Refuse",
            StatusCode::NotImplemented => "501 Not Implemented",
            StatusCode::ServiceUnavailable => "503 Service Unavailable",
            StatusCode::NotLocalIp => "510 Not Local IP",
            StatusCode::InBlackList => "511 In Black List",
            StatusCode::Invisible => "512 Invisible",
        }
    }

    /// The keyword of this value as an owned string.
    pub fn to_string(&self) -> (s: String)
        ensures
            s@ == self.name(),
    {
        self.as_str().to_owned()
    }

    /// No two keywords are the same.
    pub proof fn lemma_keywords_differ()
        ensures
            forall|a: Self, b: Self| #![trigger a.name(), b.name()] a.name() == b.name() ==> a == b,
            "200 OK"@ != "204 No Content"@,
            "200 OK"@ != "210 Break"@,
            "204 No Content"@ != "210 Break"@,
            "200 OK"@ != "400 Bad Request"@,
            "204 No Content"@ != "400 Bad Request"@,
            "210 Break"@ != "400 Bad Request"@,
            "200 OK"@ != "408 Request Timeout"@,
            "204 No Content"@ != "408 Request Timeout"@,
            "210 Break"@ != "408 Request Timeout"@,
            "400 Bad Request"@ != "408 Request Timeout"@,
            "200 OK"@ != "409 Conflict"@,
            "204 No Content"@ != "409 Conflict"@,
            "210 Break"@ != "409 Conflict"@,
            "400 Bad Request"@ != "409 Conflict"@,
            "408 Request Timeout"@ != "409 Conflict"@,
            "200 OK"@ != "420 Refuse"@,
            "204 No Content"@ != "420 Refuse"@,
            "210 Break"@ != "420 Refuse"@,
            "400 Bad Request"@ != "420 Refuse"@,
            "408 Request Timeout"@ != "420 Refuse"@,
            "409 Conflict"@ != "420 Refuse"@,
            "200 OK"@ != "501 Not Implemented"@,
            "204 No Content"@ != "501 Not Implemented"@,
            "210 Break"@ != "501 Not Implemented"@,
            "400 Bad Request"@ != "501 Not Implemented"@,
            "408 Request Timeout"@ != "501 Not Implemented"@,
            "409 Conflict"@ != "501 Not Implemented"@,
            "420 Refuse"@ != "501 Not Implemented"@,
            "200 OK"@ != "503 Service Unavailable"@,
            "204 No Content"@ != "503 Service Unavailable"@,
            "210 Break"@ != "503 Service Unavailable"@,
            "400 Bad Request"@ != "503 Service Unavailable"@,
            "408 Request Timeout"@ != "503 Service Unavailable"@,
            "409 Conflict"@ != "503 Service Unavailable"@,
            "420 Refuse"@ != "503 Service Unavailable"@,
            "501 Not Implemented"@ != "503 Service Unavailable"@,
            "200 OK"@ != "510 Not Local IP"@,
            "204 No Content"@ != "510 Not Local IP"@,
            "210 Break"@ != "510 Not Local IP"@,
            "400 Bad Request"@ != "510 Not Local IP"@,
            "408 Request Timeout"@ != "510 Not Local IP"@,
            "409 Conflict"@ != "510 Not Local IP"@,
            "420 Refuse"@ != "510 Not Local IP"@,
            "501 Not Implemented"@ != "510 Not Local IP"@,
            "503 Service Unavailable"@ != "510 Not Local IP"@,
            "200 OK"@ != "511 In Black List"@,
            "204 No Content"@ != "511 In Black List"@,
            "210 Break"@ != "511 In Black List"@,
            "400 Bad Request"@ != "511 In Black List"@,
            "408 Request Timeout"@ != "511 In Black List"@,
            "409 Conflict"@ != "511 In Black List"@,
            "420 Refuse"@ != "511 In Black List"@,
            "501 Not Implemented"@ != "511 In Black List"@,
            "503 Service Unavailable"@ != "511 In Black List"@,
            "510 Not Local IP"@ != "511 In Black List"@,
            "200 OK"@ != "512 Invisible"@,
            "204 No Content"@ != "512 Invisible"@,
            "210 Break"@ != "512 Invisible"@,
            "400 Bad Request"@ != "512 Invisible"@,
            "408 Request Timeout"@ != "512 Invisible"@,
            "409 Conflict"@ != "512 Invisible"@,
            "420 Refuse"@ != "512 Invisible"@,
            "501 Not Implemented"@ != "512 Invisible"@,
            "503 Service Unavailable"@ != "512 Invisible"@,
            "510 Not Local IP"@ != "512 Invisible"@,
            "511 In Black List"@ != "512 Invisible"@,
    {
        reveal_strlit("200 OK");
        reveal_strlit("204 No Content");
        reveal_strlit("210 Break");
        reveal_strlit("400 Bad Request");
        reveal_strlit("408 Request Timeout");
        reveal_strlit("409 Conflict");
        reveal_strlit("420 Refuse");
        reveal_strlit("501 Not Implemented");
        reveal_strlit("503 Service Unavailable");
        reveal_strlit("510 Not Local IP");
        reveal_strlit("511 In Black List");
        reveal_strlit("512 Invisible");
        assert("200 OK"@.len() == 6);
        assert("204 No Content"@.len() == 14);
        assert("210 Break"@.len() == 9);
        assert("400 Bad Request"@.len() == 15);
        assert("408 Request Timeout"@.len() == 19);
        assert("409 Conflict"@.len() == 12);
        assert("420 Refuse"@.len() == 10);
        assert("501 Not Implemented"@.len() == 19);
        assert("503 Service Unavailable"@.len() == 23);
        assert("510 Not Local IP"@.len() == 16);
        assert("511 In Black List"@.len() == 17);
        assert("512 Invisible"@.len() == 13);
        assert("408 Request Timeout"@[0] != "501 Not Implemented"@[0]);
    }

    /// The bytes of each keyword, written out.
    pub proof fn lemma_keyword_bytes()
        ensures
            "200 OK".spec_bytes() == seq![50u8, 48, 48, 32, 79, 75],
            "204 No Content".spec_bytes() == seq![50u8, 48, 52, 32, 78, 111, 32, 67, 111, 110, 116, 101, 110, 116],
            "210 Break".spec_bytes() == seq![50u8, 49, 48, 32, 66, 114, 101, 97, 107],
            "400 Bad Request".spec_bytes() == seq![52u8, 48, 48, 32, 66, 97, 100, 32, 82, 101, 113, 117, 101, 115, 116],
            "408 Request Timeout".spec_bytes() == seq![52u8, 48, 56, 32, 82, 101, 113, 117, 101, 115, 116, 32, 84, 105, 109, 101, 111, 117, 116],
            "409 Conflict".spec_bytes() == seq![52u8, 48, 57, 32, 67, 111, 110, 102, 108, 105, 99, 116],
            "420 Refuse".spec_bytes() == seq![52u8, 50, 48, 32, 82, 101, 102, 117, 115, 101],
            "501 Not Implemented".spec_bytes() == seq![53u8, 48, 49, 32, 78, 111, 116, 32, 73, 109, 112, 108, 101, 109, 101, 110, 116, 101, 100],
            "503 Service Unavailable".spec_bytes() == seq![53u8, 48, 51, 32, 83, 101, 114, 118, 105, 99, 101, 32, 85, 110, 97, 118, 97, 105, 108, 97, 98, 108, 101],
            "510 Not Local IP".spec_bytes() == seq![53u8, 49, 48, 32, 78, 111, 116, 32, 76, 111, 99, 97, 108, 32, 73, 80],
            "511 In Black List".spec_bytes() == seq![53u8, 49, 49, 32, 73, 110, 32, 66, 108, 97, 99, 107, 32, 76, 105, 115, 116],
            "512 Invisible".spec_bytes() == seq![53u8, 49, 50, 32, 73, 110, 118, 105, 115, 105, 98, 108, 101],
    {
        reveal_strlit("200 OK");
        reveal_strlit("204 No Content");
        reveal_strlit("210 Break");
        reveal_strlit("400 Bad Request");
        reveal_strlit("408 Request Timeout");
        reveal_strlit("409 Conflict");
        reveal_strlit("420 Refuse");
        reveal_strlit("501 Not Implemented");
        reveal_strlit("503 Service Unavailable");
        reveal_strlit("510 Not Local IP");
        reveal_strlit("511 In Black List");
        reveal_strlit("512 Invisible");
        assert("200 OK".spec_bytes() =~= seq![50u8, 48, 48, 32, 79, 75]) by {
            assert(is_ascii("200 OK"));
        }
        assert("204 No Content".spec_bytes() =~= seq![50u8, 48, 52, 32, 78, 111, 32, 67, 111, 110, 116, 101, 110, 116]) by {
            assert(is_ascii("204 No Content"));
        }
        assert("210 Break".spec_bytes() =~= seq![50u8, 49, 48, 32, 66, 114, 101, 97, 107]) by {
            assert(is_ascii("210 Break"));
        }
        assert("400 Bad Request".spec_bytes() =~= seq![52u8, 48, 48, 32, 66, 97, 100, 32, 82, 101, 113, 117, 101, 115, 116]) by {
            assert(is_ascii("400 Bad Request"));
        }
        assert("408 Request Timeout".spec_bytes() =~= seq![52u8, 48, 56, 32, 82, 101, 113, 117, 101, 115, 116, 32, 84, 105, 109, 101, 111, 117, 116]) by {
            assert(is_ascii("408 Request Timeout"));
        }
        assert("409 Conflict".spec_bytes() =~= seq![52u8, 48, 57, 32, 67, 111, 110, 102, 108, 105, 99, 116]) by {
            assert(is_ascii("409 Conflict"));
        }
        assert("420 Refuse".spec_bytes() =~= seq![52u8, 50, 48, 32, 82, 101, 102, 117, 115, 101]) by {
            assert(is_ascii("420 Refuse"));
        }
        assert("501 Not Implemented".spec_bytes() =~= seq![53u8, 48, 49, 32, 78, 111, 116, 32, 73, 109, 112, 108, 101, 109, 101, 110, 116, 101, 100]) by {
            assert(is_ascii("501 Not Implemented"));
        }
        assert("503 Service Unavailable".spec_bytes() =~= seq![53u8, 48, 51, 32, 83, 101, 114, 118, 105, 99, 101, 32, 85, 110, 97, 118, 97, 105, 108, 97, 98, 108, 101]) by {
            assert(is_ascii("503 Service Unavailable"));
        }
        assert("510 Not Local IP".spec_bytes() =~= seq![53u8, 49, 48, 32, 78, 111, 116, 32, 76, 111, 99, 97, 108, 32, 73, 80]) by {
            assert(is_ascii("510 Not Local IP"));
        }
        assert("511 In Black List".spec_bytes() =~= seq![53u8, 49, 49, 32, 73, 110, 32, 66, 108, 97, 99, 107, 32, 76, 105, 115, 116]) by {
            assert(is_ascii("511 In Black List"));
        }
        assert("512 Invisible".spec_bytes() =~= seq![53u8, 49, 50, 32, 73, 110, 118, 105, 115, 105, 98, 108, 101]) by {
            assert(is_ascii("512 Invisible"));
        }
    }

    /// A keyword, followed by whatever, is read as the value that it is
    /// the keyword of, and what follows it is left.
    pub proof fn lemma_found(self, rest: Seq<u8>)
        ensures
            keyword_match(self.name_bytes() + rest, key_bytes(Self::keywords()), 3)
                == KeywordMatch::Found(self.index()),
            key_bytes(Self::keywords())[self.index()] == self.name_bytes(),
            (self.name_bytes() + rest).skip(self.name_bytes().len() as int) == rest,
            Self::at(self.index()) == self,
            self.name_bytes().len() > 0,
            self.name_bytes()[0] != SPACE,
    {
        Self::lemma_keyword_bytes();
        let keys = key_bytes(Self::keywords());
        let i = self.index();
        assert(keys[0] == "200 OK".spec_bytes());
        assert(keys[1] == "204 No Content".spec_bytes());
        assert(keys[2] == "210 Break".spec_bytes());
        assert(keys[3] == "400 Bad Request".spec_bytes());
        assert(keys[4] == "408 Request Timeout".spec_bytes());
        assert(keys[5] == "409 Conflict".spec_bytes());
        assert(keys[6] == "420 Refuse".spec_bytes());
        assert(keys[7] == "501 Not Implemented".spec_bytes());
        assert(keys[8] == "503 Service Unavailable".spec_bytes());
        assert(keys[9] == "510 Not Local IP".spec_bytes());
        assert(keys[10] == "511 In Black List".spec_bytes());
        assert(keys[11] == "512 Invisible".spec_bytes());
        let head = keys[i].take(3);
        assert forall|j: int| 0 <= j < i implies !has_prefix(#[trigger] keys[j], head) by {
            if i == 1 && j == 0 {
                assert(keys[0].take(3)[2] != head[2]);
            }
            if i == 2 && j == 0 {
                assert(keys[0].take(3)[1] != head[1]);
            }
            if i == 2 && j == 1 {
                assert(keys[1].take(3)[1] != head[1]);
            }
            if i == 3 && j == 0 {
                assert(keys[0].take(3)[0] != head[0]);
            }
            if i == 3 && j == 1 {
                assert(keys[1].take(3)[0] != head[0]);
            }
            if i == 3 && j == 2 {
                assert(keys[2].take(3)[0] != head[0]);
            }
            if i == 4 && j == 0 {
                assert(keys[0].take(3)[0] != head[0]);
            }
            if i == 4 && j == 1 {
                assert(keys[1].take(3)[0] != head[0]);
            }
            if i == 4 && j == 2 {
                assert(keys[2].take(3)[0] != head[0]);
            }
            if i == 4 && j == 3 {
                assert(keys[3].take(3)[2] != head[2]);
            }
            if i == 5 && j == 0 {
                assert(keys[0].take(3)[0] != head[0]);
            }
            if i == 5 && j == 1 {
                assert(keys[1].take(3)[0] != head[0]);
            }
            if i == 5 && j == 2 {
                assert(keys[2].take(3)[0] != head[0]);
            }
            if i == 5 && j == 3 {
                assert(keys[3].take(3)[2] != head[2]);
            }
            if i == 5 && j == 4 {
                assert(keys[4].take(3)[2] != head[2]);
            }
            if i == 6 && j == 0 {
                assert(keys[0].take(3)[0] != head[0]);
            }
            if i == 6 && j == 1 {
                assert(keys[1].take(3)[0] != head[0]);
            }
            if i == 6 && j == 2 {
                assert(keys[2].take(3)[0] != head[0]);
            }
            if i == 6 && j == 3 {
                assert(keys[3].take(3)[1] != head[1]);
            }
            if i == 6 && j == 4 {
                assert(keys[4].take(3)[1] != head[1]);
            }
            if i == 6 && j == 5 {
                assert(keys[5].take(3)[1] != head[1]);
            }
            if i == 7 && j == 0 {
                assert(keys[0].take(3)[0] != head[0]);
            }
            if i == 7 && j == 1 {
                assert(keys[1].take(3)[0] != head[0]);
            }
            if i == 7 && j == 2 {
                assert(keys[2].take(3)[0] != head[0]);
            }
            if i == 7 && j == 3 {
                assert(keys[3].take(3)[0] != head[0]);
            }
            if i == 7 && j == 4 {
                assert(keys[4].take(3)[0] != head[0]);
            }
            if i == 7 && j == 5 {
                assert(keys[5].take(3)[0] != head[0]);
            }
            if i == 7 && j == 6 {
                assert(keys[6].take(3)[0] != head[0]);
            }
            if i == 8 && j == 0 {
                assert(keys[0].take(3)[0] != head[0]);
            }
            if i == 8 && j == 1 {
                assert(keys[1].take(3)[0] != head[0]);
            }
            if i == 8 && j == 2 {
                assert(keys[2].take(3)[0] != head[0]);
            }
            if i == 8 && j == 3 {
                assert(keys[3].take(3)[0] != head[0]);
            }
            if i == 8 && j == 4 {
                assert(keys[4].take(3)[0] != head[0]);
            }
            if i == 8 && j == 5 {
                assert(keys[5].take(3)[0] != head[0]);
            }
            if i == 8 && j == 6 {
                assert(keys[6].take(3)[0] != head[0]);
            }
            if i == 8 && j == 7 {
                assert(keys[7].take(3)[2] != head[2]);
            }
            if i == 9 && j == 0 {
                assert(keys[0].take(3)[0] != head[0]);
            }
            if i == 9 && j == 1 {
                assert(keys[1].take(3)[0] != head[0]);
            }
            if i == 9 && j == 2 {
                assert(keys[2].take(3)[0] != head[0]);
            }
            if i == 9 && j == 3 {
                assert(keys[3].take(3)[0] != head[0]);
            }
            if i == 9 && j == 4 {
                assert(keys[4].take(3)[0] != head[0]);
            }
            if i == 9 && j == 5 {
                assert(keys[5].take(3)[0] != head[0]);
            }
            if i == 9 && j == 6 {
                assert(keys[6].take(3)[0] != head[0]);
            }
            if i == 9 && j == 7 {
                assert(keys[7].take(3)[1] != head[1]);
            }
            if i == 9 && j == 8 {
                assert(keys[8].take(3)[1] != head[1]);
            }
            if i == 10 && j == 0 {
                assert(keys[0].take(3)[0] != head[0]);
            }
            if i == 10 && j == 1 {
                assert(keys[1].take(3)[0] != head[0]);
            }
            if i == 10 && j == 2 {
                assert(keys[2].take(3)[0] != head[0]);
            }
            if i == 10 && j == 3 {
                assert(keys[3].take(3)[0] != head[0]);
            }
            if i == 10 && j == 4 {
                assert(keys[4].take(3)[0] != head[0]);
            }
            if i == 10 && j == 5 {
                assert(keys[5].take(3)[0] != head[0]);
            }
            if i == 10 && j == 6 {
                assert(keys[6].take(3)[0] != head[0]);
            }
            if i == 10 && j == 7 {
                assert(keys[7].take(3)[1] != head[1]);
            }
            if i == 10 && j == 8 {
                assert(keys[8].take(3)[1] != head[1]);
            }
            if i == 10 && j == 9 {
                assert(keys[9].take(3)[2] != head[2]);
            }
            if i == 11 && j == 0 {
                assert(keys[0].take(3)[0] != head[0]);
            }
            if i == 11 && j == 1 {
                assert(keys[1].take(3)[0] != head[0]);
            }
            if i == 11 && j == 2 {
                assert(keys[2].take(3)[0] != head[0]);
            }
            if i == 11 && j == 3 {
                assert(keys[3].take(3)[0] != head[0]);
            }
            if i == 11 && j == 4 {
                assert(keys[4].take(3)[0] != head[0]);
            }
            if i == 11 && j == 5 {
                assert(keys[5].take(3)[0] != head[0]);
            }
            if i == 11 && j == 6 {
                assert(keys[6].take(3)[0] != head[0]);
            }
            if i == 11 && j == 7 {
                assert(keys[7].take(3)[1] != head[1]);
            }
            if i == 11 && j == 8 {
                assert(keys[8].take(3)[1] != head[1]);
            }
            if i == 11 && j == 9 {
                assert(keys[9].take(3)[2] != head[2]);
            }
            if i == 11 && j == 10 {
                assert(keys[10].take(3)[2] != head[2]);
            }
        }
        lemma_keyword_found(keys, 3, i, rest);
    }
}

} // verus!
