//! Whitespace, trimming, case and replacement.

use super::{chars_of, text_of};
use vstd::prelude::*;

verus! {

/// Characters with the Unicode property `White_Space`.
pub open spec fn is_space(c: char) -> bool {
    ||| '\u{9}' <= c <= '\u{d}'
    ||| c == ' '
    ||| c == '\u{85}'
    ||| c == '\u{a0}'
    ||| c == '\u{1680}'
    ||| '\u{2000}' <= c <= '\u{200a}'
    ||| c == '\u{2028}'
    ||| c == '\u{2029}'
    ||| c == '\u{202f}'
    ||| c == '\u{205f}'
    ||| c == '\u{3000}'
}

/// Decides [`is_space`].
pub fn space(c: char) -> (r: bool)
    ensures
        r == is_space(c),
{
    ('\u{9}' <= c && c <= '\u{d}') || c == ' ' || c == '\u{85}' || c == '\u{a0}' || c == '\u{1680}'
        || ('\u{2000}' <= c && c <= '\u{200a}') || c == '\u{2028}' || c == '\u{2029}' || c
        == '\u{202f}' || c == '\u{205f}' || c == '\u{3000}'
}

/// Control characters: the Unicode category `Cc`.
pub open spec fn is_control(c: char) -> bool {
    c <= '\u{1f}' || '\u{7f}' <= c <= '\u{9f}'
}

/// A text that trimming leaves empty.
pub open spec fn is_blank(s: Seq<char>) -> bool {
    forall|i: int| 0 <= i < s.len() ==> is_space(#[trigger] s[i])
}

/// Decides [`is_blank`].
pub fn blank(s: &str) -> (r: bool)
    ensures
        r == is_blank(s@),
{
    let chars = chars_of(s);
    let mut i: usize = 0;
    while i < chars.len()
        invariant
            i <= chars.len(),
            chars@ == s@,
            forall|j: int| 0 <= j < i ==> is_space(#[trigger] s@[j]),
        decreases chars.len() - i,
    {
        if !space(chars[i]) {
            assert(!is_space(s@[i as int]));
            return false;
        }
        i += 1;
    }
    true
}

/// Whether a text holds whitespace anywhere.
pub open spec fn has_space(s: Seq<char>) -> bool {
    exists|i: int| 0 <= i < s.len() && is_space(#[trigger] s[i])
}

/// Decides [`has_space`].
pub fn any_space(s: &str) -> (r: bool)
    ensures
        r == has_space(s@),
{
    let chars = chars_of(s);
    let mut i: usize = 0;
    while i < chars.len()
        invariant
            i <= chars.len(),
            chars@ == s@,
            forall|j: int| 0 <= j < i ==> !is_space(#[trigger] s@[j]),
        decreases chars.len() - i,
    {
        if space(chars[i]) {
            assert(is_space(s@[i as int]));
            return true;
        }
        i += 1;
    }
    false
}

/// Whether a text holds a control character anywhere.
pub open spec fn has_control(s: Seq<char>) -> bool {
    exists|i: int| 0 <= i < s.len() && is_control(#[trigger] s[i])
}

/// Decides [`has_control`].
pub fn any_control(s: &str) -> (r: bool)
    ensures
        r == has_control(s@),
{
    let chars = chars_of(s);
    let mut i: usize = 0;
    while i < chars.len()
        invariant
            i <= chars.len(),
            chars@ == s@,
            forall|j: int| 0 <= j < i ==> !is_control(#[trigger] s@[j]),
        decreases chars.len() - i,
    {
        let c = chars[i];
        if c <= '\u{1f}' || ('\u{7f}' <= c && c <= '\u{9f}') {
            assert(is_control(s@[i as int]));
            return true;
        }
        i += 1;
    }
    false
}

/// A text without its leading whitespace.
pub open spec fn trim_start(s: Seq<char>) -> Seq<char>
    decreases s.len(),
{
    if s.len() > 0 && is_space(s[0]) {
        trim_start(s.drop_first())
    } else {
        s
    }
}

/// A text without its trailing whitespace.
pub open spec fn trim_end(s: Seq<char>) -> Seq<char>
    decreases s.len(),
{
    if s.len() > 0 && is_space(s.last()) {
        trim_end(s.drop_last())
    } else {
        s
    }
}

/// A text without leading and trailing whitespace.
pub open spec fn trim(s: Seq<char>) -> Seq<char> {
    trim_end(trim_start(s))
}

/// Trimming makes no text longer.
pub proof fn lemma_trim_len(s: Seq<char>)
    ensures
        trim(s).len() <= s.len(),
{
    lemma_trim_start_len(s);
    lemma_trim_end_len(trim_start(s));
}

proof fn lemma_trim_start_len(s: Seq<char>)
    ensures
        trim_start(s).len() <= s.len(),
    decreases s.len(),
{
    if s.len() > 0 && is_space(s[0]) {
        lemma_trim_start_len(s.drop_first());
    }
}

proof fn lemma_trim_end_len(s: Seq<char>)
    ensures
        trim_end(s).len() <= s.len(),
    decreases s.len(),
{
    if s.len() > 0 && is_space(s.last()) {
        lemma_trim_end_len(s.drop_last());
    }
}

/// A text without its leading occurrences of `c`.
pub open spec fn skip_leading(s: Seq<char>, c: char) -> Seq<char>
    decreases s.len(),
{
    if s.len() > 0 && s[0] == c {
        skip_leading(s.drop_first(), c)
    } else {
        s
    }
}

/// A text without its trailing occurrences of `c`.
pub open spec fn skip_trailing(s: Seq<char>, c: char) -> Seq<char>
    decreases s.len(),
{
    if s.len() > 0 && s.last() == c {
        skip_trailing(s.drop_last(), c)
    } else {
        s
    }
}

/// Removes leading whitespace.
pub fn trimmed_start(s: &str) -> (r: String)
    ensures
        r@ == trim_start(s@),
{
    let chars = chars_of(s);
    let mut i: usize = 0;
    assert(s@.skip(0) =~= s@);
    while i < chars.len() && space(chars[i])
        invariant
            i <= chars.len(),
            chars@ == s@,
            trim_start(s@) == trim_start(s@.skip(i as int)),
        decreases chars.len() - i,
    {
        assert(s@.skip(i as int).drop_first() =~= s@.skip(i as int + 1));
        i += 1;
    }
    let rest = text_of(&chars, i, chars.len());
    assert(rest@ =~= s@.skip(i as int));
    rest
}

/// Removes trailing whitespace.
pub fn trimmed_end(s: &str) -> (r: String)
    ensures
        r@ == trim_end(s@),
{
    let chars = chars_of(s);
    let mut end: usize = chars.len();
    assert(s@.take(end as int) =~= s@);
    while end > 0 && space(chars[end - 1])
        invariant
            end <= chars.len(),
            chars@ == s@,
            trim_end(s@) == trim_end(s@.take(end as int)),
        decreases end,
    {
        assert(s@.take(end as int).drop_last() =~= s@.take(end as int - 1));
        end -= 1;
    }
    let rest = text_of(&chars, 0, end);
    assert(rest@ =~= s@.take(end as int));
    rest
}

/// Removes leading and trailing whitespace.
pub fn trimmed(s: &str) -> (r: String)
    ensures
        r@ == trim(s@),
{
    let rest = trimmed_start(s);
    trimmed_end(rest.as_str())
}

/// Removes leading occurrences of `c`.
pub fn without_leading(s: &str, c: char) -> (r: String)
    ensures
        r@ == skip_leading(s@, c),
{
    let chars = chars_of(s);
    let mut i: usize = 0;
    assert(s@.skip(0) =~= s@);
    while i < chars.len() && chars[i] == c
        invariant
            i <= chars.len(),
            chars@ == s@,
            skip_leading(s@, c) == skip_leading(s@.skip(i as int), c),
        decreases chars.len() - i,
    {
        assert(s@.skip(i as int).drop_first() =~= s@.skip(i as int + 1));
        i += 1;
    }
    let rest = text_of(&chars, i, chars.len());
    assert(rest@ =~= s@.skip(i as int));
    rest
}

/// Removes trailing occurrences of `c`.
pub fn without_trailing(s: &str, c: char) -> (r: String)
    ensures
        r@ == skip_trailing(s@, c),
{
    let chars = chars_of(s);
    let mut end: usize = chars.len();
    assert(s@.take(end as int) =~= s@);
    while end > 0 && chars[end - 1] == c
        invariant
            end <= chars.len(),
            chars@ == s@,
            skip_trailing(s@, c) == skip_trailing(s@.take(end as int), c),
        decreases end,
    {
        assert(s@.take(end as int).drop_last() =~= s@.take(end as int - 1));
        end -= 1;
    }
    let rest = text_of(&chars, 0, end);
    assert(rest@ =~= s@.take(end as int));
    rest
}

/// A letter `A` to `Z` in lower case; any other character unchanged.
pub open spec fn lower(c: char) -> char {
    if 'A' <= c <= 'Z' {
        (c as u32 + 32) as char
    } else {
        c
    }
}

/// A text without whitespace and with its ASCII letters in lower case.
pub open spec fn squeezed(s: Seq<char>) -> Seq<char>
    decreases s.len(),
{
    if s.len() == 0 {
        s
    } else if is_space(s.last()) {
        squeezed(s.drop_last())
    } else {
        squeezed(s.drop_last()).push(lower(s.last()))
    }
}

/// Inserted whitespace leaves no trace in a squeezed text.
pub proof fn lemma_squeezed_insert(s: Seq<char>, i: int, c: char)
    requires
        0 <= i <= s.len(),
        is_space(c),
    ensures
        squeezed(s.insert(i, c)) == squeezed(s),
    decreases s.len(),
{
    let longer = s.insert(i, c);
    if i == s.len() {
        assert(longer.drop_last() =~= s);
    } else {
        assert(longer.drop_last() =~= s.drop_last().insert(i, c));
        lemma_squeezed_insert(s.drop_last(), i, c);
    }
}

/// The case of an ASCII letter leaves no trace in a squeezed text.
pub proof fn lemma_squeezed_case(s: Seq<char>, i: int, c: char)
    requires
        0 <= i < s.len(),
        lower(c) == lower(s[i]),
    ensures
        squeezed(s.update(i, c)) == squeezed(s),
    decreases s.len(),
{
    let other = s.update(i, c);
    if i == s.len() - 1 {
        assert(other.drop_last() =~= s.drop_last());
        assert(is_space(c) == is_space(s[i]));
    } else {
        assert(other.drop_last() =~= s.drop_last().update(i, c));
        lemma_squeezed_case(s.drop_last(), i, c);
    }
}

/// Removes whitespace and lowers ASCII letters.
pub fn squeeze(s: &str) -> (r: String)
    ensures
        r@ == squeezed(s@),
{
    let chars = chars_of(s);
    let mut out = String::new();
    let mut i: usize = 0;
    assert(out@ =~= squeezed(s@.take(0)));
    while i < chars.len()
        invariant
            i <= chars.len(),
            chars@ == s@,
            out@ == squeezed(s@.take(i as int)),
        decreases chars.len() - i,
    {
        let c = chars[i];
        assert(s@.take(i as int + 1).drop_last() =~= s@.take(i as int));
        if !space(c) {
            if 'A' <= c && c <= 'Z' {
                out.push((c as u8 + 32) as char);
            } else {
                out.push(c);
            }
        }
        i += 1;
    }
    assert(s@.take(i as int) =~= s@);
    out
}

/// The first `limit` characters of a text, or all of them.
pub open spec fn clipped(s: Seq<char>, limit: nat) -> Seq<char> {
    if s.len() <= limit {
        s
    } else {
        s.take(limit as int)
    }
}

/// Keeps at most `limit` characters.
pub fn clip(s: &str, limit: usize) -> (r: String)
    ensures
        r@ == clipped(s@, limit as nat),
{
    let chars = chars_of(s);
    if chars.len() <= limit {
        s.to_owned()
    } else {
        let kept = text_of(&chars, 0, limit);
        assert(kept@ =~= s@.take(limit as int));
        kept
    }
}

/// Every occurrence of `from`, read from the left without overlap, replaced by `to`.
pub open spec fn replaced(s: Seq<char>, from: Seq<char>, to: Seq<char>) -> Seq<char>
    decreases s.len(),
{
    if from.len() == 0 || s.len() < from.len() {
        s
    } else if super::occurs_at(s, from, 0) {
        to + replaced(s.skip(from.len() as int), from, to)
    } else {
        seq![s[0]] + replaced(s.skip(1), from, to)
    }
}

/// Replaces every occurrence of a nonempty text.
pub fn replace(s: &str, from: &str, to: &str) -> (r: String)
    requires
        from@.len() > 0,
    ensures
        r@ == replaced(s@, from@, to@),
{
    let chars = chars_of(s);
    let wanted = chars_of(from);
    let mut out = String::new();
    let mut i: usize = 0;
    assert(s@.skip(0) =~= s@);
    assert(out@ + replaced(s@.skip(0), from@, to@) =~= replaced(s@, from@, to@));
    while i < chars.len() && wanted.len() <= chars.len() - i
        invariant
            i <= chars.len(),
            chars@ == s@,
            wanted@ == from@,
            from@.len() > 0,
            out@ + replaced(s@.skip(i as int), from@, to@) == replaced(s@, from@, to@),
        decreases chars.len() - i,
    {
        let ghost before = out@;
        let ghost rest = s@.skip(i as int);
        assert(super::occurs_at(s@, from@, i as int) <==> super::occurs_at(rest, from@, 0)) by {
            assert(rest.subrange(0, from@.len() as int) =~= s@.subrange(
                i as int,
                i + from@.len(),
            ));
        }
        if super::part_at(&chars, &wanted, i) {
            out.append(to);
            proof {
                assert(rest.skip(from@.len() as int) =~= s@.skip(i + from@.len()));
                assert(out@ + replaced(s@.skip(i + from@.len()), from@, to@) =~= before + replaced(
                    rest,
                    from@,
                    to@,
                ));
            }
            i += wanted.len();
        } else {
            out.push(chars[i]);
            proof {
                assert(rest.skip(1) =~= s@.skip(i + 1));
                assert(out@ + replaced(s@.skip(i + 1), from@, to@) =~= before + replaced(
                    rest,
                    from@,
                    to@,
                ));
            }
            i += 1;
        }
    }
    let rest = text_of(&chars, i, chars.len());
    assert(rest@ =~= s@.skip(i as int));
    out.append(rest.as_str());
    out
}

/// Position of the first `c`, or the length where there is none.
pub open spec fn first_index(s: Seq<char>, c: char) -> int
    decreases s.len(),
{
    if s.len() == 0 || s[0] == c {
        0
    } else {
        1 + first_index(s.drop_first(), c)
    }
}

/// What stands before and after the first `c`.
pub open spec fn cut(s: Seq<char>, c: char) -> Option<(Seq<char>, Seq<char>)> {
    if s.contains(c) {
        let at = first_index(s, c);
        Some((s.take(at), s.skip(at + 1)))
    } else {
        None
    }
}

/// The first index is the one with no `c` before it.
pub proof fn lemma_first_index(s: Seq<char>, c: char, at: int)
    requires
        0 <= at <= s.len(),
        forall|j: int| 0 <= j < at ==> s[j] != c,
        at < s.len() ==> s[at] == c,
    ensures
        first_index(s, c) == at,
    decreases s.len(),
{
    if s.len() > 0 && at > 0 {
        assert(s[0] != c);
        lemma_first_index(s.drop_first(), c, at - 1);
    }
}

/// Splits a text at the first `c`.
pub fn split_once(s: &str, c: char) -> (r: Option<(String, String)>)
    ensures
        r is Some == cut(s@, c) is Some,
        r matches Some(parts) ==> Some((parts.0@, parts.1@)) == cut(s@, c),
{
    let chars = chars_of(s);
    let mut i: usize = 0;
    while i < chars.len()
        invariant
            i <= chars.len(),
            chars@ == s@,
            forall|j: int| 0 <= j < i ==> s@[j] != c,
        decreases chars.len() - i,
    {
        if chars[i] == c {
            proof {
                lemma_first_index(s@, c, i as int);
                assert(s@[i as int] == c);
            }
            let before = text_of(&chars, 0, i);
            let after = text_of(&chars, i + 1, chars.len());
            assert(before@ =~= s@.take(i as int));
            assert(after@ =~= s@.skip(i as int + 1));
            return Some((before, after));
        }
        i += 1;
    }
    None
}

/// Squeezing keeps what is no whitespace, in order, and lowers its ASCII letters.
pub proof fn squeezing_keeps_what_is_no_whitespace(s: Seq<char>)
    ensures
        squeezed(s) == s.filter(|c: char| !is_space(c)).map_values(|c: char| lower(c)),
    decreases s.len(),
{
    reveal(Seq::filter);
    let keep = |c: char| !is_space(c);
    if s.len() > 0 {
        squeezing_keeps_what_is_no_whitespace(s.drop_last());
    }
    assert(squeezed(s) =~= s.filter(keep).map_values(|c: char| lower(c)));
}

/// Lowering moves the ASCII capitals by one fixed distance and keeps every other character.
pub proof fn lowering_moves_capitals(c: char)
    ensures
        'A' <= c <= 'Z' ==> 'a' <= lower(c) <= 'z' && lower(c) as int - 'a' as int == c as int
            - 'A' as int,
        !('A' <= c <= 'Z') ==> lower(c) == c,
{
}

/// Trimming takes whitespace off both ends, and nothing else.
pub proof fn trimming_takes_whitespace_off_both_ends(s: Seq<char>) -> (r: (int, int))
    ensures
        0 <= r.0 <= r.1 <= s.len(),
        trim(s) == s.subrange(r.0, r.1),
        forall|i: int| 0 <= i < r.0 ==> is_space(#[trigger] s[i]),
        forall|i: int| r.1 <= i < s.len() ==> is_space(#[trigger] s[i]),
        trim(s).len() > 0 ==> !is_space(trim(s)[0]) && !is_space(trim(s).last()),
{
    let n = lemma_trim_start_cut(s);
    let body = trim_start(s);
    let m = lemma_trim_end_cut(body);
    assert(body.take(m) =~= s.subrange(n, n + m));
    assert forall|i: int| n + m <= i < s.len() implies is_space(#[trigger] s[i]) by {
        assert(body[i - n] == s[i]);
    }
    if m > 0 {
        assert(trim(s)[0] == body[0]);
    }
    (n, n + m)
}

proof fn lemma_trim_start_cut(s: Seq<char>) -> (n: int)
    ensures
        0 <= n <= s.len(),
        trim_start(s) == s.skip(n),
        forall|i: int| 0 <= i < n ==> is_space(#[trigger] s[i]),
        n < s.len() ==> !is_space(s[n]),
    decreases s.len(),
{
    if s.len() > 0 && is_space(s[0]) {
        let rest = s.drop_first();
        let m = lemma_trim_start_cut(rest);
        assert(rest.skip(m) =~= s.skip(m + 1));
        assert forall|i: int| 0 <= i < m + 1 implies is_space(#[trigger] s[i]) by {
            if i > 0 {
                assert(rest[i - 1] == s[i]);
            }
        }
        if m < rest.len() {
            assert(rest[m] == s[m + 1]);
        }
        m + 1
    } else {
        assert(s.skip(0) =~= s);
        0
    }
}

proof fn lemma_trim_end_cut(s: Seq<char>) -> (n: int)
    ensures
        0 <= n <= s.len(),
        trim_end(s) == s.take(n),
        forall|i: int| n <= i < s.len() ==> is_space(#[trigger] s[i]),
        n > 0 ==> !is_space(s[n - 1]),
    decreases s.len(),
{
    if s.len() > 0 && is_space(s.last()) {
        let rest = s.drop_last();
        let m = lemma_trim_end_cut(rest);
        assert(rest.take(m) =~= s.take(m));
        assert forall|i: int| m <= i < s.len() implies is_space(#[trigger] s[i]) by {
            if i < rest.len() {
                assert(rest[i] == s[i]);
            }
        }
        if m > 0 {
            assert(rest[m - 1] == s[m - 1]);
        }
        m
    } else {
        assert(s.take(s.len() as int) =~= s);
        s.len() as int
    }
}

/// A text is cut at the first separator.
pub proof fn texts_are_cut_at_the_first_separator(a: Seq<char>, c: char, b: Seq<char>, s: Seq<char>)
    ensures
        !a.contains(c) ==> cut(a + seq![c] + b, c) == Some((a, b)),
        !s.contains(c) ==> cut(s, c) is None,
{
    if !a.contains(c) {
        let whole = a + seq![c] + b;
        assert(whole[a.len() as int] == c);
        assert forall|j: int| 0 <= j < a.len() implies whole[j] != c by {
            assert(a.contains(a[j]));
        }
        lemma_first_index(whole, c, a.len() as int);
        assert(whole.take(a.len() as int) =~= a);
        assert(whole.skip(a.len() as int + 1) =~= b);
    }
}

/// Clipping keeps the beginning of a text up to the limit.
pub proof fn clipping_keeps_the_beginning(s: Seq<char>, limit: nat)
    ensures
        clipped(s, limit).len() == (if s.len() <= limit {
            s.len()
        } else {
            limit
        }),
        forall|i: int| 0 <= i < clipped(s, limit).len() ==> clipped(s, limit)[i] == s[i],
{
}

/// Replacing changes nothing where nothing is found, and puts the new text in place of the old one
/// where the old one stands at the front.
pub proof fn replacing_puts_the_new_text_in_place(
    s: Seq<char>,
    from: Seq<char>,
    to: Seq<char>,
    rest: Seq<char>,
)
    requires
        from.len() > 0,
    ensures
        !super::has_part(s, from) ==> replaced(s, from, to) == s,
        super::has_part(s, from) ==> super::has_part(replaced(s, from, to), to),
        replaced(from + rest, from, to) == to + replaced(rest, from, to),
{
    lemma_replaced_absent(s, from, to);
    if super::has_part(s, from) {
        let at = choose|at: int| super::occurs_at(s, from, at);
        lemma_replaced_present(s, from, to, at);
    }
    assert((from + rest).subrange(0, from.len() as int) =~= from);
    assert(super::occurs_at(from + rest, from, 0));
    assert((from + rest).skip(from.len() as int) =~= rest);
}

proof fn lemma_replaced_absent(s: Seq<char>, from: Seq<char>, to: Seq<char>)
    ensures
        !super::has_part(s, from) ==> replaced(s, from, to) == s,
    decreases s.len(),
{
    if from.len() > 0 && s.len() >= from.len() && !super::has_part(s, from) {
        assert(!super::occurs_at(s, from, 0));
        let rest = s.skip(1);
        if super::has_part(rest, from) {
            let at = choose|at: int| super::occurs_at(rest, from, at);
            assert(s.subrange(at + 1, at + 1 + from.len()) =~= rest.subrange(at, at + from.len()));
            assert(super::occurs_at(s, from, at + 1));
        }
        lemma_replaced_absent(rest, from, to);
        assert(seq![s[0]] + rest =~= s);
    }
}

proof fn lemma_replaced_present(s: Seq<char>, from: Seq<char>, to: Seq<char>, at: int)
    requires
        from.len() > 0,
        super::occurs_at(s, from, at),
    ensures
        super::has_part(replaced(s, from, to), to),
    decreases s.len(),
{
    if super::occurs_at(s, from, 0) {
        let rest = replaced(s.skip(from.len() as int), from, to);
        super::lemma_own_part(to);
        super::lemma_parts_stay(to, rest);
    } else {
        let rest = s.skip(1);
        assert(rest.subrange(at - 1, at - 1 + from.len()) =~= s.subrange(at, at + from.len()));
        lemma_replaced_present(rest, from, to, at - 1);
        super::lemma_parts_stay(seq![s[0]], replaced(rest, from, to));
    }
}

/// What does not hold the first character of the old text stays in front.
pub proof fn lemma_replaced_behind(p: Seq<char>, s: Seq<char>, from: Seq<char>, to: Seq<char>)
    requires
        from.len() > 0,
        !p.contains(from[0]),
    ensures
        replaced(p + s, from, to) == p + replaced(s, from, to),
    decreases p.len(),
{
    if p.len() == 0 {
        assert(p + s =~= s);
        assert(p + replaced(s, from, to) =~= replaced(s, from, to));
    } else {
        let rest = p.skip(1);
        let whole = p + s;
        assert forall|c: char| rest.contains(c) implies p.contains(c) by {
            let i = choose|i: int| 0 <= i < rest.len() && rest[i] == c;
            assert(p[i + 1] == c);
        }
        assert(whole.skip(1) =~= rest + s);
        lemma_replaced_behind(rest, s, from, to);
        assert(p.contains(p[0]));
        if super::occurs_at(whole, from, 0) {
            assert(whole.subrange(0, from.len() as int)[0] == whole[0]);
        }
        if whole.len() < from.len() {
            assert(replaced(s, from, to) == s);
        } else {
            assert(seq![p[0]] + (rest + replaced(s, from, to)) =~= p + replaced(s, from, to));
        }
    }
}

/// Which characters are whitespace and which are controls, by their code points.
pub proof fn whitespace_and_controls_by_code_point(c: char)
    ensures
        ({
            let n = c as u32;
            &&& is_space(c) <==> 9 <= n <= 13 || n == 32 || n == 133 || n == 160 || n == 5760 || 8192
                <= n <= 8202 || n == 8232 || n == 8233 || n == 8239 || n == 8287 || n == 12288
            &&& is_control(c) <==> n < 32 || 127 <= n <= 159
        }),
{
}

/// A text is blank where all of it is whitespace.
pub proof fn blank_texts_hold_whitespace_alone(s: Seq<char>, c: char)
    ensures
        is_blank(Seq::empty()),
        is_blank(s.push(c)) <==> is_blank(s) && is_space(c),
        has_space(s) <==> exists|i: int| 0 <= i < s.len() && is_space(#[trigger] s[i]),
        has_control(s) <==> exists|i: int| 0 <= i < s.len() && is_control(#[trigger] s[i]),
{
    let longer = s.push(c);
    if is_blank(longer) {
        assert(longer[s.len() as int] == c);
        assert forall|i: int| 0 <= i < s.len() implies is_space(#[trigger] s[i]) by {
            assert(longer[i] == s[i]);
        }
    }
    if is_blank(s) && is_space(c) {
        assert forall|i: int| 0 <= i < longer.len() implies is_space(#[trigger] longer[i]) by {
            if i < s.len() {
                assert(s[i] == longer[i]);
            }
        }
    }
}

} // verus!
