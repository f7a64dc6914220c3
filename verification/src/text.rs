//! Plain text operations over sequences of characters.
//!
//! Every function here is stated over the characters of a string, `s@`. Byte lengths
//! are those of the UTF-8 encoding, `vstd::utf8::encode_utf8(s@)`.

/// Decimal and hexadecimal numbers.
pub mod number;
/// Fields, pieces and lines.
pub mod split;
/// Whitespace, case and replacement.
pub mod trim;

use vstd::prelude::*;

verus! {

/// The characters of a list of strings.
pub open spec fn texts(list: Seq<String>) -> Seq<Seq<char>> {
    list.map_values(|s: String| s@)
}

/// Length of a text in UTF-8 bytes.
pub open spec fn utf8_len(s: Seq<char>) -> nat {
    vstd::utf8::encode_utf8(s).len()
}

/// `String::push` appends one character.
pub assume_specification[ String::push ](s: &mut String, c: char)
    ensures
        final(s)@ == old(s)@.push(c),
;

/// The characters of a string, in order.
pub fn chars_of(s: &str) -> (r: Vec<char>)
    ensures
        r@ == s@,
{
    let mut out: Vec<char> = Vec::new();
    for c in it: s.chars()
        invariant
            out@ == it.seq().take(it.index() as int),
            it.seq() == s@,
    {
        out.push(c);
    }
    out
}

/// A string holding the characters of `chars` from `from` up to but not including `to`.
pub fn text_of(chars: &Vec<char>, from: usize, to: usize) -> (r: String)
    requires
        from <= to <= chars.len(),
    ensures
        r@ == chars@.subrange(from as int, to as int),
{
    let mut out = String::new();
    let mut i: usize = from;
    while i < to
        invariant
            from <= i <= to <= chars.len(),
            out@ == chars@.subrange(from as int, i as int),
        decreases to - i,
    {
        out.push(chars[i]);
        i += 1;
    }
    out
}

/// Distinct texts have distinct encodings.
pub proof fn lemma_encode_injective(a: Seq<char>, b: Seq<char>)
    requires
        vstd::utf8::encode_utf8(a) == vstd::utf8::encode_utf8(b),
    ensures
        a == b,
{
    vstd::utf8::encode_utf8_decode_utf8(a);
    vstd::utf8::encode_utf8_decode_utf8(b);
}

/// Whether two byte strings are equal.
pub fn bytes_eq(a: &[u8], b: &[u8]) -> (r: bool)
    ensures
        r == (a@ == b@),
{
    if a.len() != b.len() {
        return false;
    }
    let mut i: usize = 0;
    while i < a.len()
        invariant
            0 <= i <= a.len(),
            a.len() == b.len(),
            forall|j: int| 0 <= j < i ==> a@[j] == b@[j],
        decreases a.len() - i,
    {
        if a[i] != b[i] {
            return false;
        }
        i += 1;
    }
    assert(a@ =~= b@);
    true
}

/// Whether two texts are equal.
pub fn text_eq(a: &str, b: &str) -> (r: bool)
    ensures
        r == (a@ == b@),
{
    let r = bytes_eq(a.as_bytes(), b.as_bytes());
    proof {
        if r {
            lemma_encode_injective(a@, b@);
        }
    }
    r
}

/// Whether a list holds a text.
pub fn listed(list: &Vec<String>, item: &str) -> (r: bool)
    ensures
        r == texts(list@).contains(item@),
{
    let mut i: usize = 0;
    while i < list.len()
        invariant
            i <= list.len(),
            forall|j: int| 0 <= j < i ==> (#[trigger] list@[j])@ != item@,
        decreases list.len() - i,
    {
        if text_eq(list[i].as_str(), item) {
            assert(texts(list@)[i as int] == item@);
            return true;
        }
        i += 1;
    }
    assert forall|j: int| 0 <= j < texts(list@).len() implies texts(list@)[j]
        != item@ by {
        assert(texts(list@)[j] == list@[j]@);
    }
    false
}

/// Decodes UTF-8 with `std::str::from_utf8`: bytes that are valid UTF-8 give their
/// characters, all others give nothing.
#[verifier::external_body]
pub(crate) fn utf8_text(bytes: &[u8]) -> (r: Option<String>)
    ensures
        r is Some <==> vstd::utf8::valid_utf8(bytes@),
        r matches Some(s) ==> s@ == vstd::utf8::decode_utf8(bytes@),
{
    std::str::from_utf8(bytes).ok().map(str::to_owned)
}

/// Number of UTF-8 bytes of a text.
pub fn byte_len(s: &str) -> (r: usize)
    ensures
        r == utf8_len(s@),
{
    s.as_bytes().len()
}

/// A text with another in front of it.
pub fn prefixed(before: &str, value: &str) -> (r: String)
    ensures
        r@ == before@ + value@,
{
    let mut out = before.to_owned();
    out.append(value);
    out
}

/// A text between two others.
pub fn enclosed(before: &str, middle: &str, after: &str) -> (r: String)
    ensures
        r@ == before@ + middle@ + after@,
{
    let mut out = before.to_owned();
    out.append(middle);
    out.append(after);
    out
}

/// ASCII decimal digit.
pub open spec fn is_digit(c: char) -> bool {
    '0' <= c <= '9'
}

/// ASCII letter or digit.
pub open spec fn is_alphanumeric(c: char) -> bool {
    is_digit(c) || ('a' <= c <= 'z') || ('A' <= c <= 'Z')
}

/// A set of characters that an identifier may use.
#[derive(Debug, Clone, Copy, PartialEq, Eq)]
pub enum Alphabet {
    /// Digits and the letters `a` to `f`.
    LowerHex,
    /// Digits and the letters `a` to `f` in either case.
    Hex,
    /// Letters, digits, `-` and `_`.
    Identifier,
    /// Letters, digits and `-`.
    JobName,
    /// Letters, digits and `./:@_-`.
    ImageReference,
    /// Letters, digits, `.`, `-` and `_`.
    Host,
    /// Digits, `.` and `-`, letters.
    Model,
}

impl Alphabet {
    /// Whether the alphabet holds a character.
    pub open spec fn holds(self, c: char) -> bool {
        match self {
            Alphabet::LowerHex => is_digit(c) || 'a' <= c <= 'f',
            Alphabet::Hex => is_digit(c) || 'a' <= c <= 'f' || 'A' <= c <= 'F',
            Alphabet::Identifier => is_alphanumeric(c) || c == '-' || c == '_',
            Alphabet::JobName => is_alphanumeric(c) || c == '-',
            Alphabet::ImageReference => is_alphanumeric(c) || c == '.' || c == '/' || c == ':'
                || c == '@' || c == '_' || c == '-',
            Alphabet::Host => is_alphanumeric(c) || c == '.' || c == '-' || c == '_',
            Alphabet::Model => is_alphanumeric(c) || c == '.' || c == '-',
        }
    }

    /// Whether the alphabet holds every character of a text.
    pub open spec fn spells(self, s: Seq<char>) -> bool {
        forall|i: int| 0 <= i < s.len() ==> self.holds(#[trigger] s[i])
    }

    /// Decides membership of one character.
    pub fn has(self, c: char) -> (r: bool)
        ensures
            r == self.holds(c),
    {
        let digit = '0' <= c && c <= '9';
        let word = digit || ('a' <= c && c <= 'z') || ('A' <= c && c <= 'Z');
        match self {
            Alphabet::LowerHex => digit || ('a' <= c && c <= 'f'),
            Alphabet::Hex => digit || ('a' <= c && c <= 'f') || ('A' <= c && c <= 'F'),
            Alphabet::Identifier => word || c == '-' || c == '_',
            Alphabet::JobName => word || c == '-',
            Alphabet::ImageReference => word || c == '.' || c == '/' || c == ':' || c == '@'
                || c == '_' || c == '-',
            Alphabet::Host => word || c == '.' || c == '-' || c == '_',
            Alphabet::Model => word || c == '.' || c == '-',
        }
    }

    /// Decides whether a text uses this alphabet only.
    pub fn spelled(self, s: &str) -> (r: bool)
        ensures
            r == self.spells(s@),
    {
        let chars = chars_of(s);
        let mut i: usize = 0;
        while i < chars.len()
            invariant
                i <= chars.len(),
                chars@ == s@,
                forall|j: int| 0 <= j < i ==> self.holds(#[trigger] s@[j]),
            decreases chars.len() - i,
        {
            if !self.has(chars[i]) {
                assert(!self.holds(s@[i as int]));
                return false;
            }
            i += 1;
        }
        true
    }
}

/// Whether some character of a text equals `c`.
pub fn contains_char(s: &str, c: char) -> (r: bool)
    ensures
        r == s@.contains(c),
{
    let chars = chars_of(s);
    let mut i: usize = 0;
    while i < chars.len()
        invariant
            i <= chars.len(),
            chars@ == s@,
            forall|j: int| 0 <= j < i ==> s@[j] != c,
        decreases chars.len() - i,
    {
        if chars[i] == c {
            assert(s@[i as int] == c);
            return true;
        }
        i += 1;
    }
    false
}

/// Whether `prefix` begins `s`.
pub fn starts_with(s: &str, prefix: &str) -> (r: bool)
    ensures
        r == prefix@.is_prefix_of(s@),
{
    let whole = chars_of(s);
    let part = chars_of(prefix);
    if part.len() > whole.len() {
        return false;
    }
    let mut i: usize = 0;
    while i < part.len()
        invariant
            i <= part.len() <= whole.len(),
            whole@ == s@,
            part@ == prefix@,
            forall|j: int| 0 <= j < i ==> whole@[j] == part@[j],
        decreases part.len() - i,
    {
        if whole[i] != part[i] {
            return false;
        }
        i += 1;
    }
    assert(prefix@ =~= s@.subrange(0, prefix@.len() as int));
    true
}

/// Whether `suffix` ends `s`.
pub fn ends_with(s: &str, suffix: &str) -> (r: bool)
    ensures
        r == suffix@.is_suffix_of(s@),
{
    let whole = chars_of(s);
    let part = chars_of(suffix);
    if part.len() > whole.len() {
        return false;
    }
    let start: usize = whole.len() - part.len();
    let mut i: usize = 0;
    while i < part.len()
        invariant
            i <= part.len() <= whole.len(),
            start == whole.len() - part.len(),
            whole@ == s@,
            part@ == suffix@,
            forall|j: int| 0 <= j < i ==> whole@[start + j] == part@[j],
        decreases part.len() - i,
    {
        if whole[start + i] != part[i] {
            assert(s@.subrange(start as int, s@.len() as int)[i as int] == whole@[start + i]);
            return false;
        }
        i += 1;
    }
    assert(suffix@ =~= s@.subrange(start as int, s@.len() as int));
    true
}

/// What follows `prefix` in `s`, where `prefix` begins `s`.
pub open spec fn after_prefix(s: Seq<char>, prefix: Seq<char>) -> Option<Seq<char>> {
    if prefix.is_prefix_of(s) {
        Some(s.skip(prefix.len() as int))
    } else {
        None
    }
}

/// Removes a prefix.
pub fn strip_prefix(s: &str, prefix: &str) -> (r: Option<String>)
    ensures
        r is Some == after_prefix(s@, prefix@) is Some,
        r matches Some(rest) ==> Some(rest@) == after_prefix(s@, prefix@),
{
    if !starts_with(s, prefix) {
        return None;
    }
    let whole = chars_of(s);
    let part = chars_of(prefix);
    let rest = text_of(&whole, part.len(), whole.len());
    assert(rest@ =~= s@.skip(prefix@.len() as int));
    Some(rest)
}

/// Whether `part` occurs in `s` at position `at`.
pub open spec fn occurs_at(s: Seq<char>, part: Seq<char>, at: int) -> bool {
    0 <= at && at + part.len() <= s.len() && s.subrange(at, at + part.len()) == part
}

/// Whether `part` occurs in `s`.
pub open spec fn has_part(s: Seq<char>, part: Seq<char>) -> bool {
    exists|at: int| occurs_at(s, part, at)
}

fn part_at(s: &Vec<char>, part: &Vec<char>, at: usize) -> (r: bool)
    requires
        at <= s.len(),
    ensures
        r == occurs_at(s@, part@, at as int),
{
    if part.len() > s.len() - at {
        return false;
    }
    let mut i: usize = 0;
    while i < part.len()
        invariant
            i <= part.len(),
            at + part.len() <= s.len(),
            forall|j: int| 0 <= j < i ==> s@[at + j] == part@[j],
        decreases part.len() - i,
    {
        if s[at + i] != part[i] {
            assert(s@.subrange(at as int, at + part@.len())[i as int] == s@[at + i]);
            return false;
        }
        i += 1;
    }
    assert(s@.subrange(at as int, at + part@.len()) =~= part@);
    true
}

/// First position at which `part` occurs in `s`.
pub fn find(s: &Vec<char>, part: &Vec<char>) -> (r: Option<usize>)
    ensures
        match r {
            Some(at) => occurs_at(s@, part@, at as int)
                && (forall|j: int| 0 <= j < at ==> !occurs_at(s@, part@, j)),
            None => !has_part(s@, part@),
        },
{
    let mut at: usize = 0;
    while at < s.len()
        invariant
            at <= s.len(),
            forall|j: int| 0 <= j < at ==> !occurs_at(s@, part@, j),
        decreases s.len() - at,
    {
        if part_at(s, part, at) {
            return Some(at);
        }
        at += 1;
    }
    if part_at(s, part, at) {
        return Some(at);
    }
    assert forall|j: int| !occurs_at(s@, part@, j) by {}
    None
}

/// Whether `part` occurs in `s`.
pub fn contains(s: &str, part: &str) -> (r: bool)
    ensures
        r == has_part(s@, part@),
{
    let whole = chars_of(s);
    let wanted = chars_of(part);
    match find(&whole, &wanted) {
        Some(at) => {
            assert(occurs_at(s@, part@, at as int));
            true
        },
        None => false,
    }
}

/// A part occurs exactly where a text can be cut around it.
pub proof fn parts_are_where_a_text_can_be_cut(s: Seq<char>, part: Seq<char>)
    ensures
        has_part(s, part) <==> exists|a: Seq<char>, b: Seq<char>| s == #[trigger] (a + part + b),
{
    if has_part(s, part) {
        let at = choose|at: int| occurs_at(s, part, at);
        let a = s.take(at);
        let b = s.skip(at + part.len());
        assert(s =~= a + part + b);
    }
    if exists|a: Seq<char>, b: Seq<char>| s == #[trigger] (a + part + b) {
        let (a, b) = choose|a: Seq<char>, b: Seq<char>| s == #[trigger] (a + part + b);
        assert(s.subrange(a.len() as int, a.len() as int + part.len()) =~= part);
        assert(occurs_at(s, part, a.len() as int));
    }
}

/// What follows a prefix is the rest of the text.
pub proof fn prefixes_are_cut_off(prefix: Seq<char>, rest: Seq<char>, s: Seq<char>)
    ensures
        after_prefix(prefix + rest, prefix) == Some(rest),
        after_prefix(s, prefix) matches Some(tail) ==> s == prefix + tail,
{
    assert((prefix + rest).subrange(0, prefix.len() as int) =~= prefix);
    assert((prefix + rest).skip(prefix.len() as int) =~= rest);
    if prefix.is_prefix_of(s) {
        assert(s =~= prefix + s.skip(prefix.len() as int));
    }
}

/// The characters of each alphabet.
pub proof fn alphabets_hold_their_characters(c: char)
    ensures
        ({
            let digit = '0' <= c <= '9';
            let word = digit || 'a' <= c <= 'z' || 'A' <= c <= 'Z';
            &&& Alphabet::LowerHex.holds(c) == (digit || 'a' <= c <= 'f')
            &&& Alphabet::Hex.holds(c) == (digit || 'a' <= c <= 'f' || 'A' <= c <= 'F')
            &&& Alphabet::Identifier.holds(c) == (word || c == '-' || c == '_')
            &&& Alphabet::JobName.holds(c) == (word || c == '-')
            &&& Alphabet::ImageReference.holds(c) == (word || c == '.' || c == '/' || c == ':' || c
                == '@' || c == '_' || c == '-')
            &&& Alphabet::Host.holds(c) == (word || c == '.' || c == '-' || c == '_')
            &&& Alphabet::Model.holds(c) == (word || c == '.' || c == '-')
        }),
{
}

/// What is part of a part is part of the whole.
pub proof fn lemma_part_of_part(s: Seq<char>, part: Seq<char>, inner: Seq<char>)
    requires
        has_part(s, part),
        has_part(part, inner),
    ensures
        has_part(s, inner),
{
    let at = choose|at: int| occurs_at(s, part, at);
    let within = choose|at: int| occurs_at(part, inner, at);
    assert(s.subrange(at + within, at + within + inner.len()) =~= part.subrange(
        within,
        within + inner.len(),
    ));
    assert(occurs_at(s, inner, at + within));
}

/// What is part of a text stays part of it when more is written before or behind it.
pub proof fn lemma_parts_stay(a: Seq<char>, b: Seq<char>)
    ensures
        forall|part: Seq<char>| #[trigger] has_part(a, part) ==> has_part(a + b, part),
        forall|part: Seq<char>| #[trigger] has_part(b, part) ==> has_part(a + b, part),
{
    assert forall|part: Seq<char>| #[trigger] has_part(a, part) implies has_part(a + b, part) by {
        let at = choose|at: int| occurs_at(a, part, at);
        assert((a + b).subrange(at, at + part.len()) =~= part);
        assert(occurs_at(a + b, part, at));
    }
    assert forall|part: Seq<char>| #[trigger] has_part(b, part) implies has_part(a + b, part) by {
        let at = choose|at: int| occurs_at(b, part, at);
        assert((a + b).subrange(a.len() + at, a.len() + at + part.len()) =~= part);
        assert(occurs_at(a + b, part, a.len() + at));
    }
}

/// A text is part of itself.
pub proof fn lemma_own_part(s: Seq<char>)
    ensures
        has_part(s, s),
{
    assert(s.subrange(0, s.len() as int) =~= s);
    assert(occurs_at(s, s, 0));
}

/// A text is spelled where each of its characters is in the alphabet.
pub proof fn texts_are_spelled_character_by_character(alphabet: Alphabet, s: Seq<char>, c: char)
    ensures
        alphabet.spells(Seq::empty()),
        alphabet.spells(s.push(c)) <==> alphabet.spells(s) && alphabet.holds(c),
{
    let longer = s.push(c);
    if alphabet.spells(longer) {
        assert(longer[s.len() as int] == c);
        assert forall|i: int| 0 <= i < s.len() implies alphabet.holds(#[trigger] s[i]) by {
            assert(longer[i] == s[i]);
        }
    }
    if alphabet.spells(s) && alphabet.holds(c) {
        assert forall|i: int| 0 <= i < longer.len() implies alphabet.holds(#[trigger] longer[i]) by {
            if i < s.len() {
                assert(s[i] == longer[i]);
            }
        }
    }
}

} // verus!
