//! The header block of a message: field lines up to a blank line.
//!
//! A field line is a name, a colon, any number of spaces, a value, and a
//! line terminator. The grammar is the same for both protocols and knows
//! nothing of charsets: a value is the bytes up to the line terminator.
use crate::util::bytes::{append_bytes, has_prefix};
use crate::util::cursor::{
    crlf, find, lacks_match, lemma_find, lemma_find_some, lemma_run_length, lemma_run_length_of,
    run_length, ByteCursor, ReadError, COLON, CR, LF, SPACE,
};
use crate::util::string::{all_token, first_non_token};
use vstd::prelude::*;

verus! {

/// A header field as it stands on the wire: the bytes of its name and the
/// bytes of its value.
pub type Field = (Seq<u8>, Seq<u8>);

/// What stands at the head of a header block.
pub enum Line {
    /// The blank line that ends the block.
    Blank,
    /// A field, and the bytes that follow its line.
    Field { name: Seq<u8>, value: Seq<u8>, rest: Seq<u8> },
    /// Neither: the input ends before a line does.
    Truncated,
}

/// The colon, as a pattern.
pub open spec fn colon() -> Seq<u8> {
    seq![COLON]
}

/// Reads what stands at the head of `s`.
pub open spec fn field_line(s: Seq<u8>) -> Line {
    if s.len() < 2 {
        Line::Truncated
    } else if s[0] == CR && s[1] == LF {
        Line::Blank
    } else {
        match find(s, colon()) {
            None => Line::Truncated,
            Some(c) => {
                let after = s.skip(c + 1);
                let body = after.skip(run_length(after, SPACE) as int);
                match find(body, crlf()) {
                    None => Line::Truncated,
                    Some(e) => Line::Field {
                        name: s.take(c),
                        value: body.take(e),
                        rest: body.skip(e + 2),
                    },
                }
            },
        }
    }
}

/// What follows a field line is shorter than what the line began.
pub proof fn lemma_field_line_shrinks(s: Seq<u8>)
    ensures
        field_line(s) matches Line::Field { rest, .. } ==> rest.len() < s.len(),
{
    if let Line::Field { rest, .. } = field_line(s) {
        lemma_find(s, colon());
        let c = find(s, colon())->Some_0;
        let after = s.skip(c + 1);
        lemma_run_length(after, SPACE);
        let body = after.skip(run_length(after, SPACE) as int);
        lemma_find(body, crlf());
    }
}

/// Why a header block cannot be read.
pub enum BlockError {
    /// The input ends before the blank line that ends the block.
    Truncated,
    /// A name holds this byte, which is no token character.
    InvalidName(u8),
}

/// The first byte of `bytes` that is no token character.
pub open spec fn first_bad_byte(bytes: Seq<u8>) -> u8 {
    bytes[choose|i: int| first_non_token(bytes, i)]
}

/// There is one first byte that is no token character.
pub proof fn lemma_first_bad_byte(bytes: Seq<u8>)
    ensures
        forall|i: int| first_non_token(bytes, i) ==> bytes[i] == first_bad_byte(bytes),
{
    assert forall|i: int| first_non_token(bytes, i) implies bytes[i] == first_bad_byte(bytes) by {
        let k = choose|k: int| first_non_token(bytes, k);
        if i < k {
            assert(bytes.take(k)[i] == bytes[i]);
        } else if k < i {
            assert(bytes.take(i)[k] == bytes[k]);
        }
    }
}

/// Reads the header block at the head of `s`: its fields in order, and
/// the bytes from the blank line on. The blank line itself is left
/// standing. A field whose name is no token ends the reading, unless the
/// input is truncated within that very line.
pub open spec fn header_block(s: Seq<u8>) -> Result<(Seq<Field>, Seq<u8>), BlockError>
    decreases s.len(),
{
    match field_line(s) {
        Line::Truncated => Err(BlockError::Truncated),
        Line::Blank => Ok((Seq::empty(), s)),
        Line::Field { name, value, rest } => {
            if !all_token(name) {
                Err(BlockError::InvalidName(first_bad_byte(name)))
            } else {
                proof {
                    lemma_field_line_shrinks(s);
                }
                match header_block(rest) {
                    Ok((fields, tail)) => Ok((seq![(name, value)] + fields, tail)),
                    Err(e) => Err(e),
                }
            }
        },
    }
}

/// The outcome of a block of which `done` has been read already and the
/// rest comes to `outcome`.
pub open spec fn after_fields(
    done: Seq<Field>,
    outcome: Result<(Seq<Field>, Seq<u8>), BlockError>,
) -> Result<(Seq<Field>, Seq<u8>), BlockError> {
    match outcome {
        Ok((fields, tail)) => Ok((done + fields, tail)),
        Err(e) => Err(e),
    }
}

/// The values of the fields named `name`, in the order of the fields.
pub open spec fn field_values(fields: Seq<Field>, name: Seq<u8>) -> Seq<Seq<u8>>
    decreases fields.len(),
{
    if fields.len() == 0 {
        Seq::empty()
    } else if fields.last().0 == name {
        field_values(fields.drop_last(), name).push(fields.last().1)
    } else {
        field_values(fields.drop_last(), name)
    }
}

/// The value of the first field named `name`.
pub open spec fn first_field(fields: Seq<Field>, name: Seq<u8>) -> Option<Seq<u8>> {
    if field_values(fields, name).len() == 0 {
        None
    } else {
        Some(field_values(fields, name).first())
    }
}

/// The bytes of a field line: the name, a colon and a space, the value,
/// and the line terminator.
pub open spec fn field_bytes(field: Field) -> Seq<u8> {
    field.0 + seq![COLON, SPACE] + field.1 + crlf()
}

/// The bytes of the field lines of `fields`, one after the other.
pub open spec fn fields_bytes(fields: Seq<Field>) -> Seq<u8>
    decreases fields.len(),
{
    if fields.len() == 0 {
        Seq::empty()
    } else {
        field_bytes(fields.first()) + fields_bytes(fields.drop_first())
    }
}

/// The lines of two runs of fields laid end to end are the lines of the
/// first followed by the lines of the second.
pub proof fn lemma_fields_bytes_concat(a: Seq<Field>, b: Seq<Field>)
    ensures
        fields_bytes(a + b) == fields_bytes(a) + fields_bytes(b),
    decreases a.len(),
{
    if a.len() == 0 {
        assert(a + b =~= b);
        assert(fields_bytes(a) + fields_bytes(b) =~= fields_bytes(b));
    } else {
        assert((a + b).first() == a.first());
        assert((a + b).drop_first() =~= a.drop_first() + b);
        lemma_fields_bytes_concat(a.drop_first(), b);
        assert(fields_bytes(a + b) =~= fields_bytes(a) + fields_bytes(b));
    }
}

/// One more field adds its line at the end.
pub proof fn lemma_fields_bytes_push(fields: Seq<Field>, field: Field)
    ensures
        fields_bytes(fields.push(field)) == fields_bytes(fields) + field_bytes(field),
{
    let one = seq![field];
    assert(fields.push(field) =~= fields + one);
    lemma_fields_bytes_concat(fields, one);
    assert(one.drop_first() =~= Seq::<Field>::empty());
    assert(one.first() == field);
    assert(fields_bytes(one.drop_first()) =~= Seq::<u8>::empty());
    assert(fields_bytes(one) =~= field_bytes(field));
}

/// `n` spaces.
pub open spec fn spaces(n: nat) -> Seq<u8> {
    Seq::new(n, |i: int| SPACE)
}

/// Whether a value comes back from the wire as it went: it holds no line
/// terminator, and it does not begin with a space.
pub open spec fn is_wire_value(value: Seq<u8>) -> bool {
    lacks_match(value, crlf()) && (value.len() > 0 ==> value[0] != SPACE)
}

/// Whether fields come back from the wire as they went: every name is a
/// token, and every value is a wire value.
pub open spec fn are_wire_fields(fields: Seq<Field>) -> bool {
    forall|i: int|
        0 <= i < fields.len() ==> all_token((#[trigger] fields[i]).0) && is_wire_value(fields[i].1)
}

/// A line terminator stands at a place exactly when a carriage return
/// stands there and a line feed after it.
pub proof fn lemma_crlf_at(s: Seq<u8>, j: int)
    requires
        0 <= j <= s.len(),
    ensures
        has_prefix(s.skip(j), crlf()) <==> (j + 1 < s.len() && s[j] == CR && s[j + 1] == LF),
{
    let t = s.skip(j);
    if j + 1 < s.len() && s[j] == CR && s[j + 1] == LF {
        assert(t.take(2) =~= crlf());
    }
    if has_prefix(t, crlf()) {
        assert(t.take(2)[0] == crlf()[0]);
        assert(t.take(2)[1] == crlf()[1]);
    }
}

/// A colon stands at a place exactly when that byte is one.
pub proof fn lemma_colon_at(s: Seq<u8>, j: int)
    requires
        0 <= j <= s.len(),
    ensures
        has_prefix(s.skip(j), colon()) <==> (j < s.len() && s[j] == COLON),
{
    let t = s.skip(j);
    if j < s.len() && s[j] == COLON {
        assert(t.take(1) =~= colon());
    }
    if has_prefix(t, colon()) {
        assert(t.take(1)[0] == colon()[0]);
    }
}

/// A field line is read back as the field that was written, however many
/// spaces stand after the colon: none, one or many.
pub proof fn lemma_field_line(name: Seq<u8>, n: nat, value: Seq<u8>, rest: Seq<u8>)
    requires
        all_token(name),
        is_wire_value(value),
    ensures
        field_line(name + colon() + spaces(n) + value + crlf() + rest) == (Line::Field {
            name,
            value,
            rest,
        }),
{
    let s = name + colon() + spaces(n) + value + crlf() + rest;
    let c = name.len() as int;
    // The line does not begin with a line terminator.
    assert(s.len() >= 3);
    if name.len() > 0 {
        assert(s[0] == name[0]);
        assert(crate::util::string::is_token_byte(name[0]));
    } else {
        assert(s[0] == COLON);
    }
    // The first colon is the one after the name.
    assert(s[c] == COLON);
    lemma_colon_at(s, c);
    assert forall|j: int| 0 <= j < c implies !has_prefix(#[trigger] s.skip(j), colon()) by {
        lemma_colon_at(s, j);
        assert(s[j] == name[j]);
        assert(crate::util::string::is_token_byte(name[j]));
    }
    lemma_find_some(s, colon(), c);
    // After the colon come the spaces, and then the value.
    let after = s.skip(c + 1);
    let tail = value + crlf() + rest;
    assert(after =~= spaces(n) + tail);
    if value.len() > 0 {
        assert(tail[0] == value[0]);
    } else {
        assert(tail[0] == CR);
    }
    lemma_run_length_of(n, SPACE, tail);
    let body = after.skip(run_length(after, SPACE) as int);
    assert(body == tail);
    // The first line terminator is the one after the value.
    let e = value.len() as int;
    lemma_crlf_at(body, e);
    assert(body[e] == CR && body[e + 1] == LF);
    assert forall|j: int| 0 <= j < e implies !has_prefix(#[trigger] body.skip(j), crlf()) by {
        lemma_crlf_at(body, j);
        if body[j] == CR && body[j + 1] == LF {
            if j + 1 < e {
                lemma_crlf_at(value, j);
                assert(value[j] == body[j] && value[j + 1] == body[j + 1]);
                assert(has_prefix(value.skip(j), crlf()));
            } else {
                assert(body[j + 1] == CR);
            }
        }
    }
    lemma_find_some(body, crlf(), e);
    assert(s.take(c) =~= name);
    assert(body.take(e) =~= value);
    assert(body.skip(e + 2) =~= rest);
}

/// A header block is read back as the fields that were written, in their
/// order, and what follows them is left standing.
pub proof fn lemma_header_block(fields: Seq<Field>, tail: Seq<u8>)
    requires
        are_wire_fields(fields),
        has_prefix(tail, crlf()),
    ensures
        header_block(fields_bytes(fields) + tail) == Ok::<(Seq<Field>, Seq<u8>), BlockError>(
            (fields, tail),
        ),
    decreases fields.len(),
{
    if fields.len() == 0 {
        assert(fields_bytes(fields) + tail =~= tail);
        assert(tail.take(2)[0] == crlf()[0]);
        assert(tail.take(2)[1] == crlf()[1]);
        assert(field_line(tail) == Line::Blank);
        assert(fields =~= Seq::<Field>::empty());
    } else {
        let first = fields.first();
        let others = fields.drop_first();
        let rest = fields_bytes(others) + tail;
        let s = fields_bytes(fields) + tail;
        assert(all_token(fields[0].0) && is_wire_value(fields[0].1));
        assert(are_wire_fields(others)) by {
            assert forall|i: int| 0 <= i < others.len() implies all_token((#[trigger] others[i]).0)
                && is_wire_value(others[i].1) by {
                assert(others[i] == fields[i + 1]);
            }
        }
        assert(spaces(1) =~= seq![SPACE]);
        assert(s =~= first.0 + colon() + spaces(1) + first.1 + crlf() + rest);
        lemma_field_line(first.0, 1, first.1, rest);
        lemma_header_block(others, tail);
        assert(seq![(first.0, first.1)] + others =~= fields);
    }
}

/// The fields that are read from a header block are wire fields: written
/// again, they are read back as they are.
pub proof fn lemma_header_block_wire(s: Seq<u8>)
    ensures
        header_block(s) matches Ok((fields, tail)) ==> are_wire_fields(fields),
    decreases s.len(),
{
    if let Line::Field { name, value, rest } = field_line(s) {
        if all_token(name) {
            lemma_field_line_shrinks(s);
            lemma_header_block_wire(rest);
            if let Ok((fields, tail)) = header_block(rest) {
                lemma_find(s, colon());
                let c = find(s, colon())->Some_0;
                let after = s.skip(c + 1);
                lemma_run_length(after, SPACE);
                let body = after.skip(run_length(after, SPACE) as int);
                lemma_find(body, crlf());
                let e = find(body, crlf())->Some_0;
                assert(is_wire_value(value)) by {
                    assert forall|j: int| 0 <= j <= value.len() implies !has_prefix(
                        #[trigger] value.skip(j),
                        crlf(),
                    ) by {
                        lemma_crlf_at(value, j);
                        if j + 1 < value.len() && value[j] == CR && value[j + 1] == LF {
                            lemma_crlf_at(body, j);
                            assert(body[j] == value[j] && body[j + 1] == value[j + 1]);
                            assert(has_prefix(body.skip(j), crlf()));
                        }
                    }
                    if value.len() > 0 {
                        assert(value[0] == body[0]);
                        assert(body[0] == after[run_length(after, SPACE) as int]);
                    }
                }
                let all = seq![(name, value)] + fields;
                assert forall|i: int| 0 <= i < all.len() implies all_token((#[trigger] all[i]).0)
                    && is_wire_value(all[i].1) by {
                    if i > 0 {
                        assert(all[i] == fields[i - 1]);
                    }
                }
            }
        }
    }
}

/// Inserting a field named `name` with the value `a` and then another with
/// the value `b`, where no field had that name, makes `a` the first value
/// of the name and `a`, `b` its values.
pub proof fn lemma_first_wins(fields: Seq<Field>, name: Seq<u8>, a: Seq<u8>, b: Seq<u8>)
    requires
        forall|i: int| 0 <= i < fields.len() ==> (#[trigger] fields[i]).0 != name,
    ensures
        first_field(fields.push((name, a)).push((name, b)), name) == Some(a),
        field_values(fields.push((name, a)).push((name, b)), name) == seq![a, b],
{
    let one = fields.push((name, a));
    let two = one.push((name, b));
    lemma_field_values_lacking(fields, name);
    assert(one.drop_last() =~= fields);
    assert(two.drop_last() =~= one);
    assert(field_values(one, name) =~= seq![a]);
    assert(field_values(two, name) =~= seq![a, b]);
}

/// Fields of which none has the name hold no value under it.
pub proof fn lemma_field_values_lacking(fields: Seq<Field>, name: Seq<u8>)
    requires
        forall|i: int| 0 <= i < fields.len() ==> (#[trigger] fields[i]).0 != name,
    ensures
        field_values(fields, name) == Seq::<Seq<u8>>::empty(),
    decreases fields.len(),
{
    if fields.len() > 0 {
        assert(fields[fields.len() - 1].0 != name);
        assert forall|i: int| 0 <= i < fields.drop_last().len() implies (
        #[trigger] fields.drop_last()[i]).0 != name by {
            assert(fields.drop_last()[i] == fields[i]);
        }
        lemma_field_values_lacking(fields.drop_last(), name);
    }
}

/// Writes a field line.
pub fn write_field(buf: &mut Vec<u8>, name: &[u8], value: &[u8])
    ensures
        final(buf)@ == old(buf)@ + field_bytes((name@, value@)),
{
    append_bytes(buf, name);
    buf.push(COLON);
    buf.push(SPACE);
    append_bytes(buf, value);
    buf.push(CR);
    buf.push(LF);
    assert(buf@ =~= old(buf)@ + field_bytes((name@, value@)));
}

/// Writes a line terminator.
pub fn write_crlf(buf: &mut Vec<u8>)
    ensures
        final(buf)@ == old(buf)@ + crlf(),
{
    buf.push(CR);
    buf.push(LF);
    assert(buf@ =~= old(buf)@ + crlf());
}

/// Reads one line of a header block. A blank line is left standing and
/// reported as `None`; of a field line the name and the value are handed
/// back as they stand, and the line is used up.
pub fn read_field_line(cursor: &mut ByteCursor) -> (res: Result<Option<(Vec<u8>, Vec<u8>)>, ReadError>)
    ensures
        final(cursor).wf(),
        final(cursor).input() == old(cursor).input(),
        match field_line(old(cursor).remaining()) {
            Line::Blank => res == Ok::<Option<(Vec<u8>, Vec<u8>)>, ReadError>(None)
                && final(cursor).remaining() == old(cursor).remaining(),
            Line::Field { name, value, rest } => {
                &&& res matches Ok(Some(field))
                &&& field.0@ == name
                &&& field.1@ == value
                &&& final(cursor).remaining() == rest
            },
            Line::Truncated => res == Err::<Option<(Vec<u8>, Vec<u8>)>, ReadError>(
                ReadError::UnexpectedEof,
            ),
        },
{
    let ghost s = cursor.remaining();
    let head = match cursor.lookahead(2) {
        Ok(head) => head,
        Err(e) => {
            return Err(e);
        },
    };
    if head[0] == CR && head[1] == LF {
        return Ok(None);
    }
    let colon: [u8; 1] = [COLON];
    assert(colon@ =~= self::colon());
    let name = match cursor.read_until(colon.as_slice()) {
        Ok(name) => name,
        Err(e) => {
            return Err(e);
        },
    };
    let _ = cursor.read_repeat(SPACE);
    let line_end: [u8; 2] = [CR, LF];
    assert(line_end@ =~= crlf());
    let value = match cursor.read_until(line_end.as_slice()) {
        Ok(value) => value,
        Err(e) => {
            return Err(e);
        },
    };
    Ok(Some((name, value)))
}

} // verus!
