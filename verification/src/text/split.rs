//! Splitting of texts and byte strings into fields, pieces and lines.

use super::chars_of;
use vstd::prelude::*;

verus! {

/// The fields of `s` between separators: one more than there are separators.
pub open spec fn fields<T>(s: Seq<T>, separator: T) -> Seq<Seq<T>>
    decreases s.len(),
{
    if s.len() == 0 {
        seq![Seq::<T>::empty()]
    } else {
        let before = fields(s.drop_last(), separator);
        if s.last() == separator {
            before.push(Seq::<T>::empty())
        } else {
            before.drop_last().push(before.last().push(s.last()))
        }
    }
}

/// There is always a last field.
pub proof fn lemma_fields_nonempty<T>(s: Seq<T>, separator: T)
    ensures
        fields(s, separator).len() >= 1,
    decreases s.len(),
{
    if s.len() > 0 {
        lemma_fields_nonempty(s.drop_last(), separator);
    }
}

/// No field holds the separator.
pub proof fn lemma_fields_free<T>(s: Seq<T>, separator: T, i: int)
    requires
        0 <= i < fields(s, separator).len(),
    ensures
        !fields(s, separator)[i].contains(separator),
    decreases s.len(),
{
    if s.len() > 0 {
        let before = fields(s.drop_last(), separator);
        lemma_fields_nonempty(s.drop_last(), separator);
        if s.last() == separator {
            if i < before.len() {
                lemma_fields_free(s.drop_last(), separator, i);
            }
        } else if i < before.len() - 1 {
            lemma_fields_free(s.drop_last(), separator, i);
        } else {
            lemma_fields_free(s.drop_last(), separator, before.len() - 1);
            let last = before.last().push(s.last());
            assert forall|j: int| 0 <= j < last.len() implies last[j] != separator by {
                if j < before.last().len() {
                    assert(before.last()[j] == last[j]);
                    assert(before.last().contains(last[j]));
                }
            }
        }
    }
}

/// The byte fields of a byte string.
pub open spec fn byte_rows(list: Seq<Vec<u8>>) -> Seq<Seq<u8>> {
    list.map_values(|v: Vec<u8>| v@)
}

/// Splits a text at each `separator`.
pub fn split_fields(s: &str, separator: char) -> (r: Vec<String>)
    ensures
        super::texts(r@) == fields(s@, separator),
{
    let chars = chars_of(s);
    let mut done: Vec<String> = Vec::new();
    let mut current = String::new();
    let mut i: usize = 0;
    assert(s@.take(0) =~= Seq::<char>::empty());
    assert(super::texts(done@).push(current@) =~= fields(s@.take(0), separator));
    while i < chars.len()
        invariant
            i <= chars.len(),
            chars@ == s@,
            super::texts(done@).push(current@) == fields(s@.take(i as int), separator),
        decreases chars.len() - i,
    {
        let c = chars[i];
        let ghost before = super::texts(done@).push(current@);
        proof {
            assert(s@.take(i as int + 1).drop_last() =~= s@.take(i as int));
            assert(before.drop_last() =~= super::texts(done@));
            assert(before.last() == current@);
        }
        if c == separator {
            done.push(current);
            current = String::new();
            assert(super::texts(done@) =~= before);
        } else {
            current.push(c);
        }
        i += 1;
    }
    assert(s@.take(i as int) =~= s@);
    let ghost before = super::texts(done@).push(current@);
    done.push(current);
    assert(super::texts(done@) =~= before);
    done
}

/// Splits a byte string at each `separator`.
pub fn split_bytes(s: &[u8], separator: u8) -> (r: Vec<Vec<u8>>)
    ensures
        byte_rows(r@) == fields(s@, separator),
{
    let mut done: Vec<Vec<u8>> = Vec::new();
    let mut current: Vec<u8> = Vec::new();
    let mut i: usize = 0;
    assert(s@.take(0) =~= Seq::<u8>::empty());
    assert(byte_rows(done@).push(current@) =~= fields(s@.take(0), separator));
    while i < s.len()
        invariant
            i <= s.len(),
            byte_rows(done@).push(current@) == fields(s@.take(i as int), separator),
        decreases s.len() - i,
    {
        let c: u8 = s[i];
        let ghost before = byte_rows(done@).push(current@);
        proof {
            assert(s@.take(i as int + 1).drop_last() =~= s@.take(i as int));
            assert(before.drop_last() =~= byte_rows(done@));
            assert(before.last() == current@);
        }
        if c == separator {
            done.push(current);
            current = Vec::new();
            assert(byte_rows(done@) =~= before);
        } else {
            current.push(c);
        }
        i += 1;
    }
    assert(s@.take(i as int) =~= s@);
    let ghost before = byte_rows(done@).push(current@);
    done.push(current);
    assert(byte_rows(done@) =~= before);
    done
}

/// The pieces of `s`, each of which ends with its newline; only the last may lack one.
pub open spec fn pieces(s: Seq<char>) -> Seq<Seq<char>>
    decreases s.len(),
{
    if s.len() == 0 {
        Seq::empty()
    } else {
        let before = pieces(s.drop_last());
        if s.len() == 1 || s[s.len() - 2] == '\n' {
            before.push(seq![s.last()])
        } else {
            before.drop_last().push(before.last().push(s.last()))
        }
    }
}

/// A nonempty text has a last piece.
pub proof fn lemma_pieces_nonempty(s: Seq<char>)
    requires
        s.len() > 0,
    ensures
        pieces(s).len() > 0,
    decreases s.len(),
{
    if s.len() > 1 && s[s.len() - 2] != '\n' {
        lemma_pieces_nonempty(s.drop_last());
    }
}

/// Splits a text after each newline.
pub fn split_pieces(s: &str) -> (r: Vec<String>)
    ensures
        super::texts(r@) == pieces(s@),
{
    let chars = chars_of(s);
    let mut done: Vec<String> = Vec::new();
    let mut current = String::new();
    let mut i: usize = 0;
    assert(super::texts(done@) =~= pieces(s@.take(0)));
    while i < chars.len()
        invariant
            i <= chars.len(),
            chars@ == s@,
            current@.len() == 0 <==> (i == 0 || s@[i - 1] == '\n'),
            current@.len() == 0 ==> super::texts(done@) == pieces(s@.take(i as int)),
            current@.len() > 0 ==> super::texts(done@).push(current@) == pieces(
                s@.take(i as int),
            ),
        decreases chars.len() - i,
    {
        let c = chars[i];
        let ghost next = s@.take(i as int + 1);
        let ghost before = super::texts(done@);
        let ghost start = current@;
        proof {
            assert(next.drop_last() =~= s@.take(i as int));
            if start.len() > 0 {
                assert(before.push(start).drop_last() =~= before);
                assert(before.push(start).last() == start);
                assert(next[next.len() - 2] == s@[i - 1]);
            } else {
                assert(start =~= Seq::<char>::empty());
                assert(start.push(c) =~= seq![c]);
                assert(i == 0 || next[next.len() - 2] == '\n');
            }
        }
        current.push(c);
        assert(before.push(current@) == pieces(next));
        if c == '\n' {
            done.push(current);
            assert(super::texts(done@) =~= pieces(next));
            current = String::new();
        }
        i += 1;
    }
    assert(s@.take(i as int) =~= s@);
    if !current.as_str().is_empty() {
        let ghost before = super::texts(done@).push(current@);
        done.push(current);
        assert(super::texts(done@) =~= before);
    }
    done
}

/// A piece without its line ending: a newline, or a carriage return and a newline.
pub open spec fn line_of(piece: Seq<char>) -> Seq<char> {
    if piece.len() > 0 && piece.last() == '\n' {
        let body = piece.drop_last();
        if body.len() > 0 && body.last() == '\r' {
            body.drop_last()
        } else {
            body
        }
    } else {
        piece
    }
}

/// The lines of a text, without their line endings.
pub open spec fn lines(s: Seq<char>) -> Seq<Seq<char>> {
    pieces(s).map_values(|piece: Seq<char>| line_of(piece))
}

/// Splits a text into lines.
pub fn split_lines(s: &str) -> (r: Vec<String>)
    ensures
        super::texts(r@) == lines(s@),
{
    let parts = split_pieces(s);
    let mut out: Vec<String> = Vec::new();
    let mut i: usize = 0;
    while i < parts.len()
        invariant
            i <= parts.len(),
            out.len() == i,
            super::texts(parts@) == pieces(s@),
            forall|j: int| 0 <= j < i ==> (#[trigger] out@[j])@ == line_of(parts@[j]@),
        decreases parts.len() - i,
    {
        let chars = chars_of(parts[i].as_str());
        let mut end: usize = chars.len();
        if end > 0 && chars[end - 1] == '\n' {
            end -= 1;
            if end > 0 && chars[end - 1] == '\r' {
                end -= 1;
            }
        }
        let line = super::text_of(&chars, 0, end);
        assert(line@ =~= line_of(parts@[i as int]@));
        out.push(line);
        i += 1;
    }
    assert forall|j: int| 0 <= j < out@.len() implies (#[trigger] out@[j])@ == lines(s@)[j] by {
        assert(super::texts(parts@)[j] == parts@[j]@);
    }
    assert(super::texts(parts@).len() == parts@.len());
    assert(super::texts(out@) =~= lines(s@));
    out
}

/// Concatenation gives back what was split into pieces.
pub proof fn lemma_pieces_flatten(s: Seq<char>)
    ensures
        pieces(s).flatten() == s,
    decreases s.len(),
{
    if s.len() > 0 {
        let rest = s.drop_last();
        let before = pieces(rest);
        lemma_pieces_flatten(rest);
        if s.len() == 1 || s[s.len() - 2] == '\n' {
            before.lemma_flatten_push(seq![s.last()]);
            assert(rest + seq![s.last()] =~= s);
        } else {
            lemma_pieces_nonempty(rest);
            before.drop_last().lemma_flatten_push(before.last());
            assert(before.drop_last().push(before.last()) =~= before);
            before.drop_last().lemma_flatten_push(before.last().push(s.last()));
            assert(before.drop_last().flatten() + before.last().push(s.last()) =~= (
            before.drop_last().flatten() + before.last()).push(s.last()));
            assert(rest.push(s.last()) =~= s);
        }
    } else {
        assert(pieces(s) =~= Seq::empty());
        assert(s =~= Seq::empty());
    }
}

/// A text of whole lines splits apart from what follows it.
pub proof fn lemma_pieces_join(a: Seq<char>, b: Seq<char>)
    requires
        a.len() == 0 || a.last() == '\n',
    ensures
        pieces(a + b) == pieces(a) + pieces(b),
    decreases b.len(),
{
    let s = a + b;
    if b.len() == 0 {
        assert(s =~= a);
        assert(pieces(a) + pieces(b) =~= pieces(a));
    } else {
        let rest = b.drop_last();
        lemma_pieces_join(a, rest);
        assert(s.drop_last() =~= a + rest);
        assert(s.last() == b.last());
        if b.len() == 1 {
            assert(s.len() == 1 || s[s.len() - 2] == a.last());
            assert(rest =~= Seq::empty());
            assert(pieces(rest) =~= Seq::empty());
            assert(pieces(s) =~= pieces(a) + pieces(b));
        } else {
            assert(s[s.len() - 2] == b[b.len() - 2]);
            if b[b.len() - 2] != '\n' {
                lemma_pieces_nonempty(rest);
            }
            assert(pieces(s) =~= pieces(a) + pieces(b));
        }
    }
}

/// A text without a newline before its end is one piece.
pub proof fn lemma_one_piece(s: Seq<char>)
    requires
        s.len() > 0,
        forall|i: int| 0 <= i < s.len() - 1 ==> s[i] != '\n',
    ensures
        pieces(s) == seq![s],
    decreases s.len(),
{
    if s.len() > 1 {
        lemma_one_piece(s.drop_last());
        assert(s.drop_last().push(s.last()) =~= s);
    } else {
        assert(s =~= seq![s.last()]);
        assert(pieces(s.drop_last()) =~= Seq::empty());
    }
    assert(pieces(s) =~= seq![s]);
}

/// A piece is a line: not empty, without a newline before its end, and with one at its end
/// unless it is the last.
pub proof fn lemma_piece_shape(s: Seq<char>, k: int)
    requires
        0 <= k < pieces(s).len(),
    ensures
        pieces(s)[k].len() > 0,
        forall|i: int| 0 <= i < pieces(s)[k].len() - 1 ==> pieces(s)[k][i] != '\n',
        k < pieces(s).len() - 1 ==> pieces(s)[k].last() == '\n',
        k == pieces(s).len() - 1 ==> pieces(s)[k].last() == s.last(),
    decreases s.len(),
{
    let rest = s.drop_last();
    let before = pieces(rest);
    if s.len() == 1 || s[s.len() - 2] == '\n' {
        if k < before.len() {
            lemma_piece_shape(rest, k);
        }
    } else {
        lemma_pieces_nonempty(rest);
        lemma_piece_shape(rest, if k < before.len() { k } else { before.len() - 1 });
    }
}

/// The fields with the separator between them.
pub open spec fn rejoined<T>(list: Seq<Seq<T>>, separator: T) -> Seq<T>
    decreases list.len(),
{
    if list.len() == 0 {
        Seq::empty()
    } else if list.len() == 1 {
        list[0]
    } else {
        rejoined(list.drop_last(), separator).push(separator) + list.last()
    }
}

/// Fields hold no separator, and with separators between them they are the whole.
pub proof fn fields_rejoin_to_the_whole<T>(s: Seq<T>, separator: T)
    ensures
        fields(s, separator).len() >= 1,
        rejoined(fields(s, separator), separator) == s,
        forall|i: int|
            0 <= i < fields(s, separator).len() ==> !(#[trigger] fields(s, separator)[i]).contains(
                separator,
            ),
    decreases s.len(),
{
    lemma_fields_nonempty(s, separator);
    assert forall|i: int| 0 <= i < fields(s, separator).len() implies !(#[trigger] fields(
        s,
        separator,
    )[i]).contains(separator) by {
        lemma_fields_free(s, separator, i);
    }
    let list = fields(s, separator);
    if s.len() == 0 {
        assert(list[0] =~= s);
    } else {
        let rest = s.drop_last();
        let before = fields(rest, separator);
        fields_rejoin_to_the_whole(rest, separator);
        if s.last() == separator {
            assert(list.drop_last() =~= before);
            assert(rejoined(list, separator) =~= rest.push(separator));
        } else {
            assert(list.drop_last() =~= before.drop_last());
            assert(list.last() == before.last().push(s.last()));
            if list.len() == 1 {
                assert(rejoined(list, separator) =~= s);
            } else {
                assert(rejoined(list, separator) =~= rejoined(before, separator).push(s.last()));
            }
        }
        assert(rest.push(s.last()) =~= s);
    }
}

/// A line is a piece without its newline and the carriage return before it.
pub proof fn lines_lose_their_endings(body: Seq<char>)
    requires
        !body.contains('\n'),
    ensures
        line_of(body) == body,
        line_of(body + seq!['\r', '\n']) == body,
        body.len() == 0 || body.last() != '\r' ==> line_of(body.push('\n')) == body,
{
    if body.len() > 0 {
        assert(body.contains(body.last()));
    }
    let crlf = body + seq!['\r', '\n'];
    assert(crlf.drop_last() =~= body.push('\r'));
    assert(body.push('\r').drop_last() =~= body);
    assert(body.push('\n').drop_last() =~= body);
}

/// One more field stands behind a separator.
proof fn lemma_field_behind<T>(a: Seq<T>, separator: T, b: Seq<T>)
    requires
        !b.contains(separator),
    ensures
        fields(a.push(separator) + b, separator) == fields(a, separator).push(b),
    decreases b.len(),
{
    let s = a.push(separator) + b;
    if b.len() == 0 {
        assert(s =~= a.push(separator));
        assert(s.drop_last() =~= a);
        assert(b =~= Seq::empty());
    } else {
        let rest = b.drop_last();
        assert forall|c: T| rest.contains(c) implies b.contains(c) by {
            let i = choose|i: int| 0 <= i < rest.len() && rest[i] == c;
            assert(b[i] == c);
        }
        lemma_field_behind(a, separator, rest);
        assert(s.drop_last() =~= a.push(separator) + rest);
        assert(b.contains(b.last()));
        assert(s.last() == b.last());
        let before = fields(a, separator).push(rest);
        assert(before.drop_last() =~= fields(a, separator));
        assert(rest.push(b.last()) =~= b);
    }
}

proof fn lemma_one_field<T>(s: Seq<T>, separator: T)
    requires
        !s.contains(separator),
    ensures
        fields(s, separator) == seq![s],
    decreases s.len(),
{
    if s.len() == 0 {
        assert(s =~= Seq::empty());
    } else {
        let rest = s.drop_last();
        assert forall|c: T| rest.contains(c) implies s.contains(c) by {
            let i = choose|i: int| 0 <= i < rest.len() && rest[i] == c;
            assert(s[i] == c);
        }
        lemma_one_field(rest, separator);
        assert(s.contains(s.last()));
        assert(rest.push(s.last()) =~= s);
        assert(fields(s, separator) =~= seq![s]);
    }
}

/// What was joined with separators splits into the same fields.
pub proof fn fields_split_what_was_joined<T>(list: Seq<Seq<T>>, separator: T)
    requires
        list.len() >= 1,
        forall|i: int| 0 <= i < list.len() ==> !(#[trigger] list[i]).contains(separator),
    ensures
        fields(rejoined(list, separator), separator) == list,
    decreases list.len(),
{
    if list.len() == 1 {
        lemma_one_field(list[0], separator);
        assert(list =~= seq![list[0]]);
    } else {
        let front = list.drop_last();
        assert forall|i: int| 0 <= i < front.len() implies !(#[trigger] front[i]).contains(
            separator,
        ) by {
            assert(front[i] == list[i]);
        }
        fields_split_what_was_joined(front, separator);
        lemma_field_behind(rejoined(front, separator), separator, list.last());
        assert(front.push(list.last()) =~= list);
    }
}

} // verus!
