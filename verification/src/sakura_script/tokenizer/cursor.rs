//! A cursor that walks a text character by character.
use vstd::prelude::*;
use vstd::std_specs::iter::IteratorSpec;
use vstd::string::*;

verus! {

/// A cursor for navigating through a string, character by character.
///
/// `Cursor` keeps a text and a position in it. The position counts
/// characters, not bytes: whatever the cursor hands out is made of whole
/// characters.
#[derive(Debug)]
pub struct Cursor<'a> {
    inner: &'a str,
    len: usize,
    pos: usize,
}

/// The smaller of two numbers.
pub open spec fn least(a: int, b: int) -> int {
    if a <= b {
        a
    } else {
        b
    }
}

impl<'a> Cursor<'a> {
    /// The whole text.
    pub closed spec fn text(&self) -> Seq<char> {
        self.inner@
    }

    /// How many characters have been read.
    pub closed spec fn offset(&self) -> int {
        self.pos as int
    }

    /// The position lies within the text.
    pub open spec fn wf(&self) -> bool {
        0 <= self.offset() <= self.text().len()
    }

    #[verifier::type_invariant]
    pub closed spec fn inv(&self) -> bool {
        self.pos <= self.len && self.len == self.inner@.len()
    }

    /// The characters that have not been read yet.
    pub open spec fn remaining(&self) -> Seq<char> {
        self.text().skip(self.offset())
    }

    /// A cursor at the start of `inner`.
    pub fn new(inner: &'a str) -> (cursor: Self)
        ensures
            cursor.text() == inner@,
            cursor.offset() == 0,
            cursor.remaining() == inner@,
            cursor.wf(),
    {
        assert(inner@.skip(0) =~= inner@);
        Self { inner, len: inner.unicode_len(), pos: 0 }
    }

    /// The text that the cursor walks.
    pub fn into_inner(self) -> (inner: &'a str)
        ensures
            inner@ == self.text(),
    {
        self.inner
    }

    /// Returns the current position of the cursor in terms of character count.
    pub fn position(&self) -> (pos: usize)
        ensures
            pos == self.offset(),
            self.wf(),
    {
        proof {
            use_type_invariant(self);
        }
        self.pos
    }

    /// Reads up to `n` characters from the current position and advances the cursor.
    pub fn read(&mut self, n: usize) -> (s: &'a str)
        ensures
            final(self).wf(),
            final(self).text() == old(self).text(),
            s@ == old(self).remaining().take(least(n as int, old(self).remaining().len() as int)),
            final(self).remaining() == old(self).remaining().skip(s@.len() as int),
            final(self).offset() == old(self).offset() + s@.len(),
    {
        proof {
            use_type_invariant(&*self);
        }
        let start = self.pos;
        let end = if n <= self.len - self.pos {
            self.pos + n
        } else {
            self.len
        };
        let s = self.inner.substring_char(start, end);
        assert(s@ =~= self.remaining().take(end - start));
        assert(self.text().skip(end as int) =~= self.remaining().skip(end - start));
        self.pos = end;
        s
    }

    /// Reads characters while the given predicate returns `true` and advances the cursor.
    ///
    /// What is read is the longest run at the current position of which the
    /// predicate accepted every character: the character after it, if there
    /// is one, was refused.
    pub fn read_while<P: Fn(char) -> bool>(&mut self, predicate: P) -> (s: &'a str)
        requires
            forall|c: char| call_requires(predicate, (c,)),
        ensures
            final(self).wf(),
            final(self).text() == old(self).text(),
            s@.len() <= old(self).remaining().len(),
            s@ == old(self).remaining().take(s@.len() as int),
            final(self).remaining() == old(self).remaining().skip(s@.len() as int),
            final(self).offset() == old(self).offset() + s@.len(),
            forall|i: int| 0 <= i < s@.len() ==> call_ensures(predicate, (#[trigger] s@[i],), true),
            s@.len() < old(self).remaining().len() ==> call_ensures(
                predicate,
                (old(self).remaining()[s@.len() as int],),
                false,
            ),
    {
        broadcast use vstd::string::group_string_axioms;

        proof {
            use_type_invariant(&*self);
        }
        let start = self.pos;
        let rest = self.inner.substring_char(start, self.len);
        assert(rest@ =~= self.remaining());
        let mut count: usize = 0;
        let mut open = true;
        for c in it: rest.chars()
            invariant
                it.seq() == rest@,
                rest@.len() == self.len - start,
                forall|c: char| call_requires(predicate, (c,)),
                count <= it.index(),
                open ==> count == it.index(),
                forall|i: int| 0 <= i < count ==> call_ensures(predicate, (#[trigger] rest@[i],), true),
                !open ==> count < rest@.len() && call_ensures(predicate, (rest@[count as int],), false),
        {
            if open {
                if predicate(c) {
                    count = count + 1;
                } else {
                    open = false;
                }
            }
        }
        let end = start + count;
        let s = self.inner.substring_char(start, end);
        assert(s@ =~= self.remaining().take(count as int));
        assert(self.text().skip(end as int) =~= self.remaining().skip(count as int));
        self.pos = end;
        s
    }

    /// Returns the next character without advancing the cursor.
    pub fn peek(&self) -> (c: Option<char>)
        ensures
            self.wf(),
            c == if self.remaining().len() > 0 {
                Some(self.remaining()[0])
            } else {
                None
            },
    {
        proof {
            use_type_invariant(self);
        }
        if self.pos < self.len {
            Some(self.inner.get_char(self.pos))
        } else {
            None
        }
    }

    /// Returns a string slice containing up to `n` characters starting from the current position.
    pub fn peek_nth(&self, n: usize) -> (s: &'a str)
        ensures
            self.wf(),
            s@ == self.remaining().take(least(n as int, self.remaining().len() as int)),
    {
        proof {
            use_type_invariant(self);
        }
        let end = if n <= self.len - self.pos {
            self.pos + n
        } else {
            self.len
        };
        let s = self.inner.substring_char(self.pos, end);
        assert(s@ =~= self.remaining().take(end - self.pos));
        s
    }

    /// Advances the cursor by one character and returns it.
    pub fn next(&mut self) -> (c: Option<char>)
        ensures
            final(self).wf(),
            final(self).text() == old(self).text(),
            match c {
                Some(c) => {
                    &&& old(self).remaining().len() > 0
                    &&& c == old(self).remaining()[0]
                    &&& final(self).remaining() == old(self).remaining().skip(1)
                    &&& final(self).offset() == old(self).offset() + 1
                },
                None => old(self).remaining().len() == 0 && *final(self) == *old(self),
            },
    {
        proof {
            use_type_invariant(&*self);
        }
        if self.pos < self.len {
            let c = self.inner.get_char(self.pos);
            assert(self.text().skip(self.offset() + 1) =~= self.remaining().skip(1));
            self.pos = self.pos + 1;
            Some(c)
        } else {
            None
        }
    }
}

} // verus!
