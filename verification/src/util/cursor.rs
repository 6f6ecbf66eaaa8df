//! A cursor over a byte slice, and the reads that the parsers are made of.
//!
//! Every read is stated over what the cursor has still to give, its
//! `remaining` bytes: what comes back, and how much of them is used up.
use crate::util::bytes::{has_prefix, starts_with, to_vec};
use vstd::prelude::*;
use vstd::slice::slice_subrange;
use vstd::string::*;

verus! {

/// The byte of a space.
pub const SPACE: u8 = 0x20;

/// The byte of a colon.
pub const COLON: u8 = 0x3a;

/// The byte of a carriage return.
pub const CR: u8 = 0x0d;

/// The byte of a line feed.
pub const LF: u8 = 0x0a;

/// The line terminator, a carriage return and a line feed.
pub open spec fn crlf() -> Seq<u8> {
    seq![CR, LF]
}

/// Why a read came to nothing.
#[derive(Debug, PartialEq, Eq, Clone, Copy, Hash, Structural)]
pub enum ReadError {
    /// The input ended before the read was complete.
    UnexpectedEof,
    /// The bytes read were not the ones that had to stand there.
    UnexpectedBytes,
}

impl ReadError {
    /// The text of the message for this error.
    pub open spec fn message_spec(self) -> Seq<char> {
        match self {
            ReadError::UnexpectedEof => "failed to fill whole buffer"@,
            ReadError::UnexpectedBytes => "it is not the expected bytes"@,
        }
    }

    /// The message shown for this error.
    pub fn message(&self) -> (text: &'static str)
        ensures
            text@ == self.message_spec(),
    {
        match self {
            ReadError::UnexpectedEof => "failed to fill whole buffer",
            ReadError::UnexpectedBytes => "it is not the expected bytes",
        }
    }
}

/// Whether `i` is the first place in `s` at which `pat` stands.
pub open spec fn is_first_match(s: Seq<u8>, pat: Seq<u8>, i: int) -> bool {
    &&& 0 <= i <= s.len()
    &&& has_prefix(s.skip(i), pat)
    &&& forall|j: int| 0 <= j < i ==> !has_prefix(#[trigger] s.skip(j), pat)
}

/// `pat` stands nowhere in `s`.
pub open spec fn lacks_match(s: Seq<u8>, pat: Seq<u8>) -> bool {
    forall|j: int| 0 <= j <= s.len() ==> !has_prefix(#[trigger] s.skip(j), pat)
}

/// The first place in `s` at which `pat` stands, if it stands anywhere.
pub open spec fn find(s: Seq<u8>, pat: Seq<u8>) -> Option<int> {
    if exists|i: int| is_first_match(s, pat, i) {
        Some(choose|i: int| is_first_match(s, pat, i))
    } else {
        None
    }
}

/// There is at most one first match.
pub proof fn lemma_first_match_unique(s: Seq<u8>, pat: Seq<u8>, i: int, j: int)
    requires
        is_first_match(s, pat, i),
        is_first_match(s, pat, j),
    ensures
        i == j,
{
    if i < j {
        assert(!has_prefix(s.skip(i), pat));
    } else if j < i {
        assert(!has_prefix(s.skip(j), pat));
    }
}

/// A first match is what `find` finds.
pub proof fn lemma_find_some(s: Seq<u8>, pat: Seq<u8>, i: int)
    requires
        is_first_match(s, pat, i),
    ensures
        find(s, pat) == Some(i),
{
    let k = choose|k: int| is_first_match(s, pat, k);
    lemma_first_match_unique(s, pat, i, k);
}

/// Where the pattern stands nowhere, `find` finds nothing.
pub proof fn lemma_find_none(s: Seq<u8>, pat: Seq<u8>)
    requires
        lacks_match(s, pat),
    ensures
        find(s, pat) is None,
{
    if exists|i: int| is_first_match(s, pat, i) {
        let k = choose|k: int| is_first_match(s, pat, k);
        assert(!has_prefix(s.skip(k), pat));
    }
}

/// What `find` finds is a first match, and it finds one wherever the
/// pattern stands.
pub proof fn lemma_find(s: Seq<u8>, pat: Seq<u8>)
    ensures
        match find(s, pat) {
            Some(i) => is_first_match(s, pat, i),
            None => lacks_match(s, pat),
        },
{
    if !(exists|i: int| is_first_match(s, pat, i)) {
        assert forall|j: int| 0 <= j <= s.len() implies !has_prefix(#[trigger] s.skip(j), pat) by {
            if has_prefix(s.skip(j), pat) {
                lemma_first_match_below(s, pat, j);
            }
        }
    }
}

/// Where the pattern stands at `j`, there is a first place at or before `j`.
proof fn lemma_first_match_below(s: Seq<u8>, pat: Seq<u8>, j: int)
    requires
        0 <= j <= s.len(),
        has_prefix(s.skip(j), pat),
    ensures
        exists|i: int| is_first_match(s, pat, i),
    decreases j,
{
    if exists|k: int| 0 <= k < j && has_prefix(#[trigger] s.skip(k), pat) {
        let k = choose|k: int| 0 <= k < j && has_prefix(#[trigger] s.skip(k), pat);
        lemma_first_match_below(s, pat, k);
    } else {
        assert(is_first_match(s, pat, j));
    }
}

/// How many times the byte `b` stands at the head of `s` before any other byte.
pub open spec fn run_length(s: Seq<u8>, b: u8) -> nat
    decreases s.len(),
{
    if s.len() > 0 && s[0] == b {
        1 + run_length(s.drop_first(), b)
    } else {
        0
    }
}

/// The run at the head of `s` is within `s`, made of `b` alone, and ends
/// where another byte or the end stands.
pub proof fn lemma_run_length(s: Seq<u8>, b: u8)
    ensures
        run_length(s, b) <= s.len(),
        forall|j: int| 0 <= j < run_length(s, b) ==> s[j] == b,
        run_length(s, b) < s.len() ==> s[run_length(s, b) as int] != b,
    decreases s.len(),
{
    if s.len() > 0 && s[0] == b {
        lemma_run_length(s.drop_first(), b);
        assert forall|j: int| 0 <= j < run_length(s, b) implies s[j] == b by {
            if j > 0 {
                assert(s.drop_first()[j - 1] == s[j]);
            }
        }
        if run_length(s, b) < s.len() {
            assert(s.drop_first()[run_length(s.drop_first(), b) as int] == s[run_length(
                s,
                b,
            ) as int]);
        }
    }
}

/// A head that does not begin with `b` has a run of length zero, and one
/// that begins with it has a run one longer than its tail's.
pub proof fn lemma_run_length_from(s: Seq<u8>, b: u8, n: int)
    requires
        0 <= n <= s.len(),
        forall|j: int| 0 <= j < n ==> s[j] == b,
    ensures
        run_length(s, b) == n + run_length(s.skip(n), b),
    decreases n,
{
    if n == 0 {
        assert(s.skip(0) =~= s);
    } else {
        assert(s[0] == b);
        assert forall|j: int| 0 <= j < n - 1 implies s.drop_first()[j] == b by {
            assert(s.drop_first()[j] == s[j + 1]);
        }
        lemma_run_length_from(s.drop_first(), b, n - 1);
        assert(s.drop_first().skip(n - 1) =~= s.skip(n));
    }
}

/// The run of `b` at the head of `n` times `b`, followed by something that
/// does not begin with `b`, is those `n`.
pub proof fn lemma_run_length_of(n: nat, b: u8, rest: Seq<u8>)
    requires
        rest.len() > 0 ==> rest[0] != b,
    ensures
        run_length(Seq::new(n, |i: int| b) + rest, b) == n,
        (Seq::new(n, |i: int| b) + rest).skip(n as int) == rest,
{
    let s = Seq::new(n, |i: int| b) + rest;
    lemma_run_length_from(s, b, n as int);
    assert(s.skip(n as int) =~= rest);
}

/// The outcome of matching the head of an input against a table of keywords.
pub enum KeywordMatch {
    /// The keyword at this place in the table stands at the head.
    Found(int),
    /// No keyword of the table stands at the head.
    Unknown,
    /// The input ends before the keyword does.
    Eof,
}

/// Whether `i` is the first key of the table that begins with `head`.
pub open spec fn is_first_key(keys: Seq<Seq<u8>>, head: Seq<u8>, i: int) -> bool {
    &&& 0 <= i < keys.len()
    &&& has_prefix(keys[i], head)
    &&& forall|j: int| 0 <= j < i ==> !has_prefix(#[trigger] keys[j], head)
}

/// Matches the head of `s` against the keywords of a table. The first
/// `prefix` bytes pick the keyword, the first of the table that begins with
/// them; the bytes after them must then be the rest of that keyword.
pub open spec fn keyword_match(s: Seq<u8>, keys: Seq<Seq<u8>>, prefix: int) -> KeywordMatch {
    if s.len() < prefix {
        KeywordMatch::Eof
    } else if !(exists|i: int| is_first_key(keys, s.take(prefix), i)) {
        KeywordMatch::Unknown
    } else {
        let i = choose|i: int| is_first_key(keys, s.take(prefix), i);
        if s.len() < keys[i].len() {
            KeywordMatch::Eof
        } else if has_prefix(s, keys[i]) {
            KeywordMatch::Found(i)
        } else {
            KeywordMatch::Unknown
        }
    }
}

/// A keyword of the table, followed by whatever, is found as itself,
/// provided no keyword before it in the table begins as it does.
pub proof fn lemma_keyword_found(keys: Seq<Seq<u8>>, prefix: int, i: int, rest: Seq<u8>)
    requires
        0 <= i < keys.len(),
        0 < prefix <= keys[i].len(),
        forall|j: int| 0 <= j < i ==> !has_prefix(#[trigger] keys[j], keys[i].take(prefix)),
    ensures
        keyword_match(keys[i] + rest, keys, prefix) == KeywordMatch::Found(i),
        (keys[i] + rest).skip(keys[i].len() as int) == rest,
{
    let s = keys[i] + rest;
    let head = keys[i].take(prefix);
    assert(s.take(prefix) =~= head);
    assert(is_first_key(keys, head, i));
    let c = choose|c: int| is_first_key(keys, s.take(prefix), c);
    if c < i {
        assert(!has_prefix(keys[c], head));
    }
    if i < c {
        assert(!has_prefix(keys[i], head));
    }
    assert(s.take(keys[i].len() as int) =~= keys[i]);
    assert(s.skip(keys[i].len() as int) =~= rest);
}

/// The bytes of the keywords of a table.
pub open spec fn key_bytes(keys: Seq<&'static str>) -> Seq<Seq<u8>> {
    Seq::new(keys.len(), |i: int| keys[i].spec_bytes())
}

/// Why no keyword was read.
#[derive(Debug, PartialEq, Eq, Clone, Copy, Hash, Structural)]
pub enum MatchError {
    /// The input ended before the keyword did.
    Eof,
    /// No keyword of the table stands at the head of the input.
    Unknown,
}

/// A position in a byte slice.
#[derive(Debug)]
pub struct ByteCursor<'a> {
    input: &'a [u8],
    pos: usize,
}

impl<'a> ByteCursor<'a> {
    /// The whole input.
    pub closed spec fn input(&self) -> Seq<u8> {
        self.input@
    }

    /// How many bytes of the input have been read.
    pub closed spec fn offset(&self) -> int {
        self.pos as int
    }

    /// The position lies within the input.
    pub open spec fn wf(&self) -> bool {
        0 <= self.offset() <= self.input().len()
    }

    #[verifier::type_invariant]
    pub open spec fn inv(&self) -> bool {
        self.wf()
    }

    /// The bytes that have not been read yet.
    pub open spec fn remaining(&self) -> Seq<u8> {
        self.input().skip(self.offset())
    }

    /// A cursor at the start of `input`.
    pub fn new(input: &'a [u8]) -> (cursor: Self)
        ensures
            cursor.input() == input@,
            cursor.offset() == 0,
            cursor.remaining() == input@,
            cursor.wf(),
    {
        assert(input@.skip(0) =~= input@);
        Self { input, pos: 0 }
    }

    /// How many bytes have been read.
    pub fn position(&self) -> (pos: usize)
        ensures
            pos == self.offset(),
            self.wf(),
    {
        proof {
            use_type_invariant(self);
        }
        self.pos
    }

    /// Whether every byte has been read.
    pub fn is_eof(&self) -> (b: bool)
        ensures
            b == (self.remaining().len() == 0),
            self.wf(),
    {
        proof {
            use_type_invariant(self);
        }
        self.pos == self.input.len()
    }

    /// The next `n` bytes, without reading them.
    pub fn lookahead(&self, n: usize) -> (res: Result<Vec<u8>, ReadError>)
        ensures
            self.wf(),
            match res {
                Ok(bytes) => n <= self.remaining().len() && bytes@ == self.remaining().take(
                    n as int,
                ),
                Err(e) => n > self.remaining().len() && e == ReadError::UnexpectedEof,
            },
    {
        proof {
            use_type_invariant(self);
        }
        if n > self.input.len() - self.pos {
            Err(ReadError::UnexpectedEof)
        } else {
            let bytes = to_vec(slice_subrange(self.input, self.pos, self.pos + n));
            assert(bytes@ =~= self.remaining().take(n as int));
            Ok(bytes)
        }
    }

    /// Reads the next `n` bytes. Where fewer are left, the read fails and
    /// the cursor stands at the end.
    pub fn read(&mut self, n: usize) -> (res: Result<Vec<u8>, ReadError>)
        ensures
            final(self).wf(),
            final(self).input() == old(self).input(),
            match res {
                Ok(bytes) => {
                    &&& n <= old(self).remaining().len()
                    &&& bytes@ == old(self).remaining().take(n as int)
                    &&& final(self).remaining() == old(self).remaining().skip(n as int)
                },
                Err(e) => {
                    &&& n > old(self).remaining().len()
                    &&& e == ReadError::UnexpectedEof
                    &&& final(self).remaining().len() == 0
                },
            },
    {
        proof {
            use_type_invariant(&*self);
        }
        if n > self.input.len() - self.pos {
            self.pos = self.input.len();
            Err(ReadError::UnexpectedEof)
        } else {
            let bytes = to_vec(slice_subrange(self.input, self.pos, self.pos + n));
            assert(bytes@ =~= self.remaining().take(n as int));
            assert(self.input().skip(self.offset() + n) =~= self.remaining().skip(n as int));
            self.pos = self.pos + n;
            Ok(bytes)
        }
    }

    /// Reads as many bytes as `expected` has, and fails unless they are
    /// `expected`. The bytes are read even where they are others.
    pub fn read_expect(&mut self, expected: &[u8]) -> (res: Result<(), ReadError>)
        ensures
            final(self).wf(),
            final(self).input() == old(self).input(),
            match res {
                Ok(_) => {
                    &&& has_prefix(old(self).remaining(), expected@)
                    &&& final(self).remaining() == old(self).remaining().skip(
                        expected@.len() as int,
                    )
                },
                Err(ReadError::UnexpectedEof) => {
                    &&& expected@.len() > old(self).remaining().len()
                    &&& final(self).remaining().len() == 0
                },
                Err(ReadError::UnexpectedBytes) => {
                    &&& expected@.len() <= old(self).remaining().len()
                    &&& !has_prefix(old(self).remaining(), expected@)
                    &&& final(self).remaining() == old(self).remaining().skip(
                        expected@.len() as int,
                    )
                },
            },
    {
        match self.read(expected.len()) {
            Ok(bytes) => {
                if starts_with(bytes.as_slice(), expected) {
                    assert(bytes@.take(expected@.len() as int) =~= bytes@);
                    Ok(())
                } else {
                    assert(bytes@.take(expected@.len() as int) =~= bytes@);
                    Err(ReadError::UnexpectedBytes)
                }
            },
            Err(e) => Err(e),
        }
    }

    /// Reads the byte `b` for as long as it stands next, and says how often
    /// it stood there.
    pub fn read_repeat(&mut self, b: u8) -> (n: usize)
        ensures
            final(self).wf(),
            final(self).input() == old(self).input(),
            n == run_length(old(self).remaining(), b),
            final(self).remaining() == old(self).remaining().skip(n as int),
    {
        proof {
            use_type_invariant(&*self);
        }
        let start = self.pos;
        let ghost rest = self.remaining();
        while self.pos < self.input.len() && self.input[self.pos] == b
            invariant
                self.input@ == old(self).input(),
                start == old(self).offset(),
                rest == old(self).remaining(),
                start <= self.pos <= self.input@.len(),
                forall|j: int| 0 <= j < self.pos - start ==> rest[j] == b,
            decreases self.input@.len() - self.pos,
        {
            self.pos = self.pos + 1;
        }
        let n = self.pos - start;
        proof {
            lemma_run_length_from(rest, b, n as int);
            assert(rest.skip(n as int) =~= self.remaining());
            if rest.skip(n as int).len() > 0 {
                assert(rest.skip(n as int)[0] == self.input@[self.pos as int]);
            }
        }
        n
    }

    /// Reads up to and past the first place where `delimiter` stands, and
    /// hands back the bytes before it. Where it stands nowhere, the read
    /// fails and the cursor stands at the end.
    pub fn read_until(&mut self, delimiter: &[u8]) -> (res: Result<Vec<u8>, ReadError>)
        requires
            delimiter@.len() > 0,
        ensures
            final(self).wf(),
            final(self).input() == old(self).input(),
            match find(old(self).remaining(), delimiter@) {
                Some(i) => {
                    &&& res is Ok
                    &&& res->Ok_0@ == old(self).remaining().take(i)
                    &&& final(self).remaining() == old(self).remaining().skip(
                        i + delimiter@.len(),
                    )
                },
                None => {
                    &&& res == Err::<Vec<u8>, ReadError>(ReadError::UnexpectedEof)
                    &&& final(self).remaining().len() == 0
                },
            },
    {
        proof {
            use_type_invariant(&*self);
        }
        let start = self.pos;
        let ghost rest = self.remaining();
        let mut i: usize = self.pos;
        while i < self.input.len()
            invariant
                self.input@ == old(self).input(),
                self.pos == start == old(self).offset(),
                rest == old(self).remaining(),
                start <= i <= self.input@.len(),
                delimiter@.len() > 0,
                forall|j: int| 0 <= j < i - start ==> !has_prefix(#[trigger] rest.skip(j), delimiter@),
            decreases self.input@.len() - i,
        {
            let tail = slice_subrange(self.input, i, self.input.len());
            assert(tail@ =~= rest.skip(i - start));
            if starts_with(tail, delimiter) {
                let bytes = to_vec(slice_subrange(self.input, start, i));
                proof {
                    assert(is_first_match(rest, delimiter@, i - start));
                    lemma_find_some(rest, delimiter@, i - start);
                    assert(bytes@ =~= rest.take(i - start));
                    assert(self.input@.skip(i + delimiter@.len()) =~= rest.skip(
                        i - start + delimiter@.len(),
                    ));
                }
                self.pos = i + delimiter.len();
                return Ok(bytes);
            }
            i += 1;
        }
        proof {
            assert(rest.skip(rest.len() as int) =~= Seq::<u8>::empty());
            assert(!has_prefix(rest.skip(rest.len() as int), delimiter@));
            lemma_find_none(rest, delimiter@);
        }
        self.pos = self.input.len();
        Err(ReadError::UnexpectedEof)
    }

    /// Reads the keyword of the table that stands next. The first `prefix`
    /// bytes pick the keyword; the bytes after them must be its rest.
    pub fn read_match(&mut self, keys: &[&'static str], prefix: usize) -> (res: Result<
        usize,
        MatchError,
    >)
        requires
            prefix > 0,
            forall|i: int| 0 <= i < keys@.len() ==> prefix <= (#[trigger] keys@[i]).spec_bytes().len(),
        ensures
            final(self).wf(),
            final(self).input() == old(self).input(),
            match keyword_match(old(self).remaining(), key_bytes(keys@), prefix as int) {
                KeywordMatch::Found(i) => {
                    &&& res == Ok::<usize, MatchError>(i as usize)
                    &&& 0 <= i < keys@.len()
                    &&& final(self).remaining() == old(self).remaining().skip(
                        keys@[i].spec_bytes().len() as int,
                    )
                },
                KeywordMatch::Unknown => res == Err::<usize, MatchError>(MatchError::Unknown),
                KeywordMatch::Eof => res == Err::<usize, MatchError>(MatchError::Eof),
            },
    {
        let ghost rest = self.remaining();
        let ghost table = key_bytes(keys@);
        let head = match self.read(prefix) {
            Ok(head) => head,
            Err(_) => {
                return Err(MatchError::Eof);
            },
        };
        let k = match find_key(keys, head.as_slice()) {
            Some(k) => k,
            None => {
                return Err(MatchError::Unknown);
            },
        };
        let key = keys[k].as_bytes();
        assert(key@ == table[k as int]);
        let tail = slice_subrange(key, prefix, key.len());
        proof {
            assert(key@.take(head@.len() as int) == head@);
            assert(key@ =~= head@ + tail@);
            if rest.len() >= key@.len() {
                assert(rest.skip(prefix as int).skip(tail@.len() as int) =~= rest.skip(
                    key@.len() as int,
                ));
                assert(rest.take(key@.len() as int) =~= head@ + rest.skip(prefix as int).take(
                    tail@.len() as int,
                ));
            }
        }
        match self.read_expect(tail) {
            Ok(_) => Ok(k),
            Err(ReadError::UnexpectedEof) => Err(MatchError::Eof),
            Err(ReadError::UnexpectedBytes) => {
                proof {
                    if has_prefix(rest, key@) {
                        let got = rest.skip(prefix as int).take(tail@.len() as int);
                        assert(head@ + got == head@ + tail@);
                        assert(got =~= (head@ + got).skip(head@.len() as int));
                        assert(tail@ =~= (head@ + tail@).skip(head@.len() as int));
                    }
                }
                Err(MatchError::Unknown)
            },
        }
    }
}

/// The first key of the table that begins with `head`, if there is one.
fn find_key(keys: &[&'static str], head: &[u8]) -> (res: Option<usize>)
    ensures
        match res {
            Some(k) => is_first_key(key_bytes(keys@), head@, k as int) && k == (choose|i: int|
                is_first_key(key_bytes(keys@), head@, i)),
            None => !(exists|i: int| is_first_key(key_bytes(keys@), head@, i)),
        },
{
    let ghost table = key_bytes(keys@);
    let mut k: usize = 0;
    while k < keys.len()
        invariant
            k <= keys@.len(),
            table == key_bytes(keys@),
            forall|j: int| 0 <= j < k ==> !has_prefix(#[trigger] table[j], head@),
        decreases keys@.len() - k,
    {
        let key = keys[k].as_bytes();
        assert(key@ == table[k as int]);
        if starts_with(key, head) {
            proof {
                assert(is_first_key(table, head@, k as int));
                let c = choose|i: int| is_first_key(table, head@, i);
                if c < k {
                    assert(!has_prefix(table[c], head@));
                }
                if k < c {
                    assert(!has_prefix(table[k as int], head@));
                }
            }
            return Some(k);
        }
        k += 1;
    }
    proof {
        if exists|i: int| is_first_key(table, head@, i) {
            let c = choose|i: int| is_first_key(table, head@, i);
            assert(!has_prefix(table[c], head@));
        }
    }
    None
}

} // verus!
