//! The header fields of a SHIORI/3.0 message, in the order of the wire.
use crate::charset::Charset;
use crate::header::compose::{build_value, built_fields, pairs_of, ComposeError, FieldError};
use crate::header::lines::{
    field_values, fields_bytes, first_field, lemma_fields_bytes_push, lemma_first_bad_byte,
    write_field, Field,
};
use crate::header::value::HeaderValue;
use crate::shiori::v3::header::name::Error as HeaderNameError;
use crate::shiori::v3::header::name::HeaderName;
use crate::util::bag::{values_of, OrderedBag};
use crate::util::string::{all_token, Error as Rfc7230StringConvertError};
use vstd::prelude::*;
use vstd::std_specs::iter::IteratorSpec;
use vstd::string::*;
use vstd::utf8::encode_utf8;

verus! {

/// The fields that a sequence of entries stands for on the wire: for each
/// entry, the bytes of its name and the bytes of its value.
pub open spec fn fields_of(entries: Seq<(HeaderName, HeaderValue)>) -> Seq<Field> {
    Seq::new(entries.len(), |i: int| (entries[i].0@, entries[i].1@))
}

/// The values that the bag holds under a name are, as bytes, the values of
/// the fields of that name.
pub proof fn lemma_values_are_field_values(entries: Seq<(HeaderName, HeaderValue)>, k: HeaderName)
    ensures
        values_of(entries, k).len() == field_values(fields_of(entries), k@).len(),
        forall|j: int|
            0 <= j < values_of(entries, k).len() ==> (#[trigger] values_of(entries, k)[j])@
                == field_values(fields_of(entries), k@)[j],
    decreases entries.len(),
{
    if entries.len() > 0 {
        lemma_values_are_field_values(entries.drop_last(), k);
        assert(fields_of(entries).drop_last() =~= fields_of(entries.drop_last()));
        assert(fields_of(entries).last() == (entries.last().0@, entries.last().1@));
    }
}

/// Where the first `n` pairs make no fields, all the pairs make none, and
/// for the same reason.
pub proof fn lemma_built_fields_error(pairs: Seq<(Seq<char>, Seq<char>)>, n: int, charset: Charset)
    requires
        0 <= n <= pairs.len(),
        built_fields(pairs.take(n), charset) is Err,
    ensures
        built_fields(pairs, charset) == built_fields(pairs.take(n), charset),
    decreases pairs.len() - n,
{
    if n < pairs.len() {
        let next = pairs.take(n + 1);
        assert(next.drop_last() =~= pairs.take(n));
        lemma_built_fields_error(pairs, n + 1, charset);
    } else {
        assert(pairs.take(n) =~= pairs);
    }
}

/// HeaderMap is a bag of SHIORI header fields.
///
/// A message may hold several fields of one name. The HeaderMap keeps the
/// fields in the order in which they came, and can return the first or all
/// of the values of a name.
#[derive(Debug)]
pub struct HeaderMap {
    bag: OrderedBag<HeaderName, HeaderValue>,
}

impl View for HeaderMap {
    type V = Seq<(HeaderName, HeaderValue)>;

    /// The entries, in the order in which they were inserted.
    closed spec fn view(&self) -> Seq<(HeaderName, HeaderValue)> {
        self.bag@
    }
}

impl HeaderMap {
    /// The fields as they stand on the wire.
    pub open spec fn fields(&self) -> Seq<Field> {
        fields_of(self@)
    }

    /// Every name in the map is well formed.
    pub open spec fn wf(&self) -> bool {
        forall|i: int| 0 <= i < self@.len() ==> (#[trigger] self@[i]).0.wf()
    }

    /// The names of a well-formed map are tokens.
    pub proof fn lemma_names_are_tokens(&self)
        requires
            self.wf(),
        ensures
            forall|i: int| 0 <= i < self.fields().len() ==> all_token((#[trigger] self.fields()[i]).0),
    {
        assert forall|i: int| 0 <= i < self.fields().len() implies all_token(
            (#[trigger] self.fields()[i]).0,
        ) by {
            assert(self@[i].0.wf());
            self@[i].0.lemma_spelling_is_token();
        }
    }

    /// An empty map.
    pub fn new() -> (map: Self)
        ensures
            map@ == Seq::<(HeaderName, HeaderValue)>::empty(),
            map.fields() == Seq::<Field>::empty(),
            map.wf(),
    {
        let map = Self { bag: OrderedBag::new() };
        assert(map.fields() =~= Seq::<Field>::empty());
        map
    }

    /// An empty map with room for `capacity` fields.
    pub fn with_capacity(capacity: usize) -> (map: Self)
        ensures
            map@ == Seq::<(HeaderName, HeaderValue)>::empty(),
            map.fields() == Seq::<Field>::empty(),
            map.wf(),
    {
        let map = Self { bag: OrderedBag::with_capacity(capacity) };
        assert(map.fields() =~= Seq::<Field>::empty());
        map
    }

    /// Makes the fields of a builder's pairs, in their order: each name is
    /// read as a header name, each value is encoded. The first pair that
    /// makes no field ends the making.
    pub fn from_pairs(pairs: &[(String, String)], charset: Charset) -> (res: Result<
        Self,
        ComposeError,
    >)
        ensures
            match built_fields(pairs_of(pairs@), charset) {
                Ok(fields) => res is Ok && res->Ok_0.fields() == fields && res->Ok_0.wf(),
                Err(e) => res is Err && res->Err_0@ == e,
            },
    {
        let mut map = HeaderMap::with_capacity(pairs.len());
        let ghost all = pairs_of(pairs@);
        let mut i: usize = 0;
        assert(all.take(0) =~= Seq::<(Seq<char>, Seq<char>)>::empty());
        while i < pairs.len()
            invariant
                i <= pairs@.len(),
                all == pairs_of(pairs@),
                map.wf(),
                built_fields(all.take(i as int), charset) == Ok::<Seq<Field>, FieldError>(
                    map.fields(),
                ),
            decreases pairs@.len() - i,
        {
            let ghost upto = all.take(i + 1);
            proof {
                assert(upto.drop_last() =~= all.take(i as int));
                assert(upto.last() == all[i as int]);
                assert(all[i as int] == (pairs@[i as int].0@, pairs@[i as int].1@));
                if built_fields(upto, charset) is Err {
                    lemma_built_fields_error(all, i + 1, charset);
                }
            }
            let name = match HeaderName::from_static(pairs[i].0.as_str()) {
                Ok(name) => name,
                Err(HeaderNameError::InvalidHeaderName(Rfc7230StringConvertError::InvalidCharacter(b))) => {
                    proof {
                        lemma_first_bad_byte(encode_utf8(pairs@[i as int].0@));
                    }
                    return Err(ComposeError::InvalidName(b));
                },
            };
            let value = match build_value(pairs[i].1.as_str(), charset) {
                Ok(value) => value,
                Err(e) => {
                    return Err(ComposeError::InvalidValue(e));
                },
            };
            map.insert(name, value);
            i += 1;
        }
        assert(all.take(all.len() as int) =~= all);
        Ok(map)
    }

    /// Returns only one value for a field name: the one that came first.
    pub fn get(&self, key: &HeaderName) -> (r: Option<&HeaderValue>)
        ensures
            match first_field(self.fields(), key@) {
                Some(bytes) => r is Some && r->Some_0@ == bytes,
                None => r is None,
            },
    {
        proof {
            lemma_values_are_field_values(self@, *key);
        }
        self.bag.get(key)
    }

    /// Returns all values for a field name, in the order in which they came.
    pub fn get_all(&self, key: &HeaderName) -> (r: Vec<&HeaderValue>)
        ensures
            r@.len() == field_values(self.fields(), key@).len(),
            forall|j: int|
                0 <= j < r@.len() ==> (#[trigger] r@[j])@ == field_values(self.fields(), key@)[j],
    {
        proof {
            lemma_values_are_field_values(self@, *key);
        }
        self.bag.get_all(key)
    }

    /// Insert field name and value. Fields that the map holds already stay
    /// as they are, those of the same name too.
    pub fn insert(&mut self, key: HeaderName, value: HeaderValue)
        ensures
            final(self)@ == old(self)@.push((key, value)),
            final(self).fields() == old(self).fields().push((key@, value@)),
            old(self).wf() && key.wf() ==> final(self).wf(),
    {
        self.bag.insert(key, value);
        assert(self.fields() =~= old(self).fields().push((key@, value@)));
    }

    /// The number of fields.
    pub fn len(&self) -> (n: usize)
        ensures
            n == self@.len(),
            n == self.fields().len(),
    {
        self.bag.len()
    }

    /// Whether the map holds no field.
    pub fn is_empty(&self) -> (b: bool)
        ensures
            b == (self@.len() == 0),
    {
        self.bag.is_empty()
    }

    /// The fields in the order in which they were inserted.
    pub fn as_slice(&self) -> (entries: &[(HeaderName, HeaderValue)])
        ensures
            entries@ == self@,
    {
        self.bag.as_slice()
    }

    /// Writes the field lines, in the order in which the fields were
    /// inserted: no field is dropped, joined with another or moved.
    pub fn write_to(&self, buf: &mut Vec<u8>)
        ensures
            final(buf)@ == old(buf)@ + fields_bytes(self.fields()),
    {
        let entries = self.bag.as_slice();
        let ghost fields = self.fields();
        let mut i: usize = 0;
        assert(fields.take(0) =~= Seq::<Field>::empty());
        assert(buf@ =~= old(buf)@ + fields_bytes(fields.take(0)));
        while i < entries.len()
            invariant
                entries@ == self@,
                fields == self.fields(),
                i <= entries@.len(),
                buf@ == old(buf)@ + fields_bytes(fields.take(i as int)),
            decreases entries@.len() - i,
        {
            let name = entries[i].0.as_str().as_bytes();
            let value = entries[i].1.as_slice();
            proof {
                assert(fields.take(i + 1) =~= fields.take(i as int).push(fields[i as int]));
                lemma_fields_bytes_push(fields.take(i as int), fields[i as int]);
            }
            write_field(buf, name, value);
            i += 1;
            assert(buf@ =~= old(buf)@ + fields_bytes(fields.take(i as int)));
        }
        assert(fields.take(fields.len() as int) =~= fields);
    }

    /// The fields in the order in which they were inserted, as a vector.
    pub fn into_vec(self) -> (entries: Vec<(HeaderName, HeaderValue)>)
        ensures
            entries@ == self@,
    {
        self.bag.into_vec()
    }

    /// Hands the fields out in the order in which they were inserted.
    pub fn into_iter(self) -> (it: std::vec::IntoIter<(HeaderName, HeaderValue)>)
        ensures
            it.remaining() == self@,
    {
        self.bag.into_iter()
    }

    /// Walks the fields in the order in which they were inserted.
    pub fn iter(&self) -> (it: std::slice::Iter<'_, (HeaderName, HeaderValue)>)
        ensures
            it.remaining() == self@.as_ref(),
    {
        self.bag.iter()
    }
}

} // verus!
