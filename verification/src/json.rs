//! JSON text: objects and arrays written member by member, and values found in a document.

use crate::text;
use crate::text::number;
use vstd::prelude::*;

verus! {

/// A character inside a JSON string: quotes, backslashes and control characters below U+0020
/// are escaped, by one letter where there is one, and every other character stands for itself.
pub open spec fn escape(c: char) -> Seq<char> {
    if c == '"' {
        seq!['\\', '"']
    } else if c == '\\' {
        seq!['\\', '\\']
    } else if c == '\u{8}' {
        seq!['\\', 'b']
    } else if c == '\u{9}' {
        seq!['\\', 't']
    } else if c == '\u{a}' {
        seq!['\\', 'n']
    } else if c == '\u{c}' {
        seq!['\\', 'f']
    } else if c == '\u{d}' {
        seq!['\\', 'r']
    } else if c <= '\u{1f}' {
        seq!['\\', 'u', '0', '0', number::hex_char(c as nat / 16), number::hex_char(c as nat % 16)]
    } else {
        seq![c]
    }
}

/// Characters inside a JSON string, one after the other.
pub open spec fn escaped(s: Seq<char>) -> Seq<char>
    decreases s.len(),
{
    if s.len() == 0 {
        Seq::empty()
    } else {
        escape(s.first()) + escaped(s.drop_first())
    }
}

/// A text as a JSON string, quotes and escapes included.
pub open spec fn json_string(s: Seq<char>) -> Seq<char> {
    seq!['"'] + escaped(s) + seq!['"']
}

/// Quotes a text with `serde_json::to_string`, which does not fail on a string: the text between
/// quotes, each of its characters written as [`escape`] says.
#[verifier::external_body]
pub(crate) fn quoted(s: &str) -> (r: String)
    ensures
        r@ == json_string(s@),
{
    serde_json::to_string(s).expect("a string is serializable")
}

/// A JSON value, without what is inside arrays and objects.
pub enum JsonShape {
    /// `null`.
    Null,
    /// A truth value.
    Bool(bool),
    /// A number, where it is an unsigned integer of 64 bits.
    Number(Option<u64>),
    /// A string.
    Text(String),
    /// An array.
    Array,
    /// An object.
    Object,
}

/// A JSON value, without what is inside arrays and objects.
pub enum ShapeView {
    /// `null`.
    Null,
    /// A truth value.
    Bool(bool),
    /// A number, where it is an unsigned integer of 64 bits.
    Number(Option<u64>),
    /// A string.
    Text(Seq<char>),
    /// An array.
    Array,
    /// An object.
    Object,
}

impl View for JsonShape {
    type V = ShapeView;

    open spec fn view(&self) -> ShapeView {
        match *self {
            JsonShape::Null => ShapeView::Null,
            JsonShape::Bool(b) => ShapeView::Bool(b),
            JsonShape::Number(n) => ShapeView::Number(n),
            JsonShape::Text(s) => ShapeView::Text(s@),
            JsonShape::Array => ShapeView::Array,
            JsonShape::Object => ShapeView::Object,
        }
    }
}

/// What a JSON pointer finds in a document, if it finds anything.
pub uninterp spec fn json_at(document: Seq<u8>, pointer: Seq<char>) -> Option<ShapeView>;

/// Finds a value with `serde_json::from_slice` and `serde_json::Value::pointer`: nothing where
/// the document is not JSON or the pointer finds nothing. The result is named [`json_at`].
#[verifier::external_body]
pub(crate) fn find(document: &[u8], pointer: &str) -> (r: Option<JsonShape>)
    ensures
        match r {
            Some(shape) => json_at(document@, pointer@) == Some(shape@),
            None => json_at(document@, pointer@) is None,
        },
{
    let value: serde_json::Value = serde_json::from_slice(document).ok()?;
    Some(match value.pointer(pointer)? {
        serde_json::Value::Null => JsonShape::Null,
        serde_json::Value::Bool(b) => JsonShape::Bool(*b),
        serde_json::Value::Number(n) => JsonShape::Number(n.as_u64()),
        serde_json::Value::String(s) => JsonShape::Text(s.clone()),
        serde_json::Value::Array(_) => JsonShape::Array,
        serde_json::Value::Object(_) => JsonShape::Object,
    })
}

/// The string that a JSON pointer finds in a document, if there is one.
pub open spec fn json_text_at(document: Seq<u8>, pointer: Seq<char>) -> Option<Seq<char>> {
    match json_at(document, pointer) {
        Some(ShapeView::Text(s)) => Some(s),
        _ => None,
    }
}

/// Finds a string.
pub fn find_text(document: &[u8], pointer: &str) -> (r: Option<String>)
    ensures
        r is Some == json_text_at(document@, pointer@) is Some,
        r matches Some(s) ==> json_text_at(document@, pointer@) == Some(s@),
{
    match find(document, pointer) {
        Some(JsonShape::Text(s)) => Some(s),
        _ => None,
    }
}

/// Texts with commas between them.
pub open spec fn joined(items: Seq<Seq<char>>) -> Seq<char>
    decreases items.len(),
{
    if items.len() == 0 {
        Seq::empty()
    } else if items.len() == 1 {
        items[0]
    } else {
        joined(items.drop_last()) + ","@ + items.last()
    }
}

/// One member of an object: a plain key and the text of its value.
pub open spec fn member(key: Seq<char>, value: Seq<char>) -> Seq<char> {
    "\""@ + key + "\":"@ + value
}

/// An object with the given members, in order.
pub open spec fn object_text(members: Seq<Seq<char>>) -> Seq<char> {
    "{"@ + joined(members) + "}"@
}

/// An array with the given items, in order.
pub open spec fn array_text(items: Seq<Seq<char>>) -> Seq<char> {
    "["@ + joined(items) + "]"@
}

/// A truth value.
pub open spec fn bool_text(b: bool) -> Seq<char> {
    if b {
        "true"@
    } else {
        "false"@
    }
}

/// A string, or `null` where there is none.
pub open spec fn optional_string(s: Option<Seq<char>>) -> Seq<char> {
    match s {
        Some(s) => json_string(s),
        None => "null"@,
    }
}

/// What may follow a value in an object: nothing, a comma or the closing brace.
pub open spec fn ends_value(rest: Seq<char>) -> bool {
    rest.len() > 0 ==> rest[0] == ',' || rest[0] == '}'
}

/// A number, a truth value or `null`: without quotes, commas and braces.
pub open spec fn is_token(value: Seq<char>) -> bool {
    &&& value.len() > 0
    &&& forall|i: int|
        0 <= i < value.len() ==> #[trigger] value[i] != '"' && value[i] != ',' && value[i] != '}'
}

/// A string or a token.
pub open spec fn is_scalar(value: Seq<char>) -> bool {
    is_token(value) || exists|s: Seq<char>| value == json_string(s)
}

/// Members with the given keys and values.
pub open spec fn members(keys: Seq<Seq<char>>, values: Seq<Seq<char>>) -> Seq<Seq<char>> {
    Seq::new(keys.len(), |i: int| member(keys[i], values[i]))
}

/// The first character can be read back from what it is written as.
proof fn lemma_escape_reads_back(c: char, x: Seq<char>, d: char, y: Seq<char>)
    requires
        escape(c) + x == escape(d) + y,
    ensures
        c == d,
        x == y,
{
    let left = escape(c) + x;
    let right = escape(d) + y;
    assert(left[0] == escape(c)[0]);
    assert(right[0] == escape(d)[0]);
    if escape(c).len() > 1 && escape(d).len() > 1 {
        assert(left[1] == escape(c)[1]);
        assert(right[1] == escape(d)[1]);
        if escape(c)[1] == 'u' {
            assert(left[4] == escape(c)[4] && left[5] == escape(c)[5]);
            assert(right[4] == escape(d)[4] && right[5] == escape(d)[5]);
        }
    }
    assert(c == d);
    assert(x =~= left.skip(escape(c).len() as int));
    assert(y =~= right.skip(escape(d).len() as int));
}

/// A text can be read back from its JSON string, whatever follows.
proof fn lemma_escaped_reads_back(s: Seq<char>, x: Seq<char>, t: Seq<char>, y: Seq<char>)
    requires
        escaped(s) + seq!['"'] + x == escaped(t) + seq!['"'] + y,
    ensures
        s == t,
        x == y,
    decreases s.len(),
{
    let left = escaped(s) + seq!['"'] + x;
    let right = escaped(t) + seq!['"'] + y;
    if s.len() > 0 {
        assert(left[0] == escape(s.first())[0]);
    } else {
        assert(left[0] == '"');
    }
    if t.len() > 0 {
        assert(right[0] == escape(t.first())[0]);
    } else {
        assert(right[0] == '"');
    }
    if s.len() > 0 && t.len() > 0 {
        let p = escaped(s.drop_first()) + seq!['"'] + x;
        let q = escaped(t.drop_first()) + seq!['"'] + y;
        assert(left =~= escape(s.first()) + p);
        assert(right =~= escape(t.first()) + q);
        lemma_escape_reads_back(s.first(), p, t.first(), q);
        lemma_escaped_reads_back(s.drop_first(), x, t.drop_first(), y);
        assert(s =~= seq![s.first()] + s.drop_first());
        assert(t =~= seq![t.first()] + t.drop_first());
    } else {
        assert(s =~= t);
        assert(x =~= left.skip(1));
        assert(y =~= right.skip(1));
    }
}

/// Quoting is one to one.
pub proof fn lemma_string_reads_back(s: Seq<char>, t: Seq<char>)
    requires
        json_string(s) == json_string(t),
    ensures
        s == t,
{
    assert(escaped(s) + seq!['"'] + Seq::<char>::empty() =~= json_string(s).skip(1));
    assert(escaped(t) + seq!['"'] + Seq::<char>::empty() =~= json_string(t).skip(1));
    lemma_escaped_reads_back(s, Seq::empty(), t, Seq::empty());
}

/// An optional string can be read back.
pub proof fn lemma_optional_reads_back(s: Option<Seq<char>>, t: Option<Seq<char>>)
    requires
        optional_string(s) == optional_string(t),
    ensures
        s == t,
{
    reveal_strlit("null");
    assert(optional_string(s)[0] == (if s is Some { '"' } else { 'n' }));
    assert(optional_string(t)[0] == (if t is Some { '"' } else { 'n' }));
    if s is Some {
        lemma_string_reads_back(s->0, t->0);
    }
}

/// A scalar can be read back from what it begins.
proof fn lemma_scalar_reads_back(v: Seq<char>, x: Seq<char>, w: Seq<char>, y: Seq<char>)
    requires
        is_scalar(v),
        is_scalar(w),
        ends_value(x),
        ends_value(y),
        v + x == w + y,
    ensures
        v == w,
        x == y,
{
    let left = v + x;
    let right = w + y;
    assert(left[0] == v[0]);
    assert(right[0] == w[0]);
    if is_token(v) && is_token(w) {
        if v.len() < w.len() {
            assert(left[v.len() as int] == x[0]);
            assert(right[v.len() as int] == w[v.len() as int]);
        } else if w.len() < v.len() {
            assert(right[w.len() as int] == y[0]);
            assert(left[w.len() as int] == v[w.len() as int]);
        }
        assert(v =~= left.take(v.len() as int));
        assert(w =~= right.take(w.len() as int));
    } else {
        let s = choose|s: Seq<char>| v == json_string(s);
        let t = choose|t: Seq<char>| w == json_string(t);
        assert(v == json_string(s));
        assert(w == json_string(t));
        assert(escaped(s) + seq!['"'] + x =~= left.skip(1));
        assert(escaped(t) + seq!['"'] + y =~= right.skip(1));
        lemma_escaped_reads_back(s, x, t, y);
    }
    assert(x =~= left.skip(v.len() as int));
    assert(y =~= right.skip(w.len() as int));
}

/// Members with the same keys and the same text have the same values, whatever follows.
proof fn lemma_joined_reads_back(
    keys: Seq<Seq<char>>,
    a: Seq<Seq<char>>,
    x: Seq<char>,
    b: Seq<Seq<char>>,
    y: Seq<char>,
)
    requires
        a.len() == keys.len(),
        b.len() == keys.len(),
        forall|i: int| 0 <= i < a.len() ==> is_scalar(#[trigger] a[i]),
        forall|i: int| 0 <= i < b.len() ==> is_scalar(#[trigger] b[i]),
        ends_value(x),
        ends_value(y),
        joined(members(keys, a)) + x == joined(members(keys, b)) + y,
    ensures
        a == b,
        x == y,
    decreases keys.len(),
{
    let left = members(keys, a);
    let right = members(keys, b);
    if keys.len() == 0 {
        assert(joined(left) + x =~= x);
        assert(joined(right) + y =~= y);
        assert(a =~= b);
    } else {
        let name = "\""@ + keys.last() + "\":"@;
        if keys.len() == 1 {
            let p = a[0] + x;
            let q = b[0] + y;
            assert(joined(left) + x =~= name + p);
            assert(joined(right) + y =~= name + q);
            assert(p =~= (name + p).skip(name.len() as int));
            assert(q =~= (name + q).skip(name.len() as int));
            lemma_scalar_reads_back(a[0], x, b[0], y);
            assert(a =~= b);
        } else {
            let front = ","@ + name;
            let p = a.last() + x;
            let q = b.last() + y;
            assert(joined(left) + x =~= joined(left.drop_last()) + (front + p));
            assert(joined(right) + y =~= joined(right.drop_last()) + (front + q));
            assert(left.drop_last() =~= members(keys.drop_last(), a.drop_last()));
            assert(right.drop_last() =~= members(keys.drop_last(), b.drop_last()));
            reveal_strlit(",");
            assert((front + p)[0] == ',');
            assert((front + q)[0] == ',');
            lemma_joined_reads_back(
                keys.drop_last(),
                a.drop_last(),
                front + p,
                b.drop_last(),
                front + q,
            );
            assert(p =~= (front + p).skip(front.len() as int));
            assert(q =~= (front + q).skip(front.len() as int));
            lemma_scalar_reads_back(a.last(), x, b.last(), y);
            assert(a =~= a.drop_last().push(a.last()));
            assert(b =~= b.drop_last().push(b.last()));
        }
    }
}

/// An object of scalars with given keys can be read back.
pub proof fn lemma_object_reads_back(
    keys: Seq<Seq<char>>,
    a: Seq<Seq<char>>,
    b: Seq<Seq<char>>,
)
    requires
        a.len() == keys.len(),
        b.len() == keys.len(),
        forall|i: int| 0 <= i < a.len() ==> is_scalar(#[trigger] a[i]),
        forall|i: int| 0 <= i < b.len() ==> is_scalar(#[trigger] b[i]),
        object_text(members(keys, a)) == object_text(members(keys, b)),
    ensures
        a == b,
{
    let left = joined(members(keys, a)) + "}"@;
    let right = joined(members(keys, b)) + "}"@;
    reveal_strlit("{");
    reveal_strlit("}");
    assert(left =~= object_text(members(keys, a)).skip(1));
    assert(right =~= object_text(members(keys, b)).skip(1));
    lemma_joined_reads_back(keys, a, "}"@, b, "}"@);
}

/// A signed number is a token.
pub proof fn lemma_number_token(n: int)
    ensures
        is_token(number::signed_decimal(n)),
        is_scalar(number::signed_decimal(n)),
{
    if n < 0 {
        number::lemma_decimal_value((-n) as nat);
    } else {
        number::lemma_decimal_value(n as nat);
    }
}

/// Strings, optional strings and truth values are scalars.
pub proof fn lemma_scalars(s: Option<Seq<char>>, b: bool)
    ensures
        is_scalar(optional_string(s)),
        is_scalar(bool_text(b)),
{
    reveal_strlit("null");
    reveal_strlit("true");
    reveal_strlit("false");
    if s is None {
        assert(is_token("null"@));
    }
    assert(is_token(bool_text(b)));
}

/// Writes texts with commas between them.
pub fn join(items: &Vec<String>) -> (r: String)
    ensures
        r@ == joined(crate::text::texts(items@)),
{
    let ghost all = crate::text::texts(items@);
    let mut out = String::new();
    let mut i: usize = 0;
    assert(all.take(0) =~= Seq::empty());
    while i < items.len()
        invariant
            i <= items.len(),
            all == crate::text::texts(items@),
            out@ == joined(all.take(i as int)),
        decreases items.len() - i,
    {
        let ghost before = out@;
        if i > 0 {
            out.append(",");
        }
        out.append(items[i].as_str());
        proof {
            let next = all.take(i as int + 1);
            assert(next.drop_last() =~= all.take(i as int));
            assert(next.last() == items@[i as int]@);
            if i == 0 {
                assert(out@ =~= items@[0]@);
            }
        }
        i += 1;
    }
    assert(all.take(i as int) =~= all);
    out
}

/// Writes an object.
pub fn object(members: &Vec<String>) -> (r: String)
    ensures
        r@ == object_text(crate::text::texts(members@)),
{
    let mut out = "{".to_owned();
    let body = join(members);
    out.append(body.as_str());
    out.append("}");
    out
}

/// Writes an array.
pub fn array(items: &Vec<String>) -> (r: String)
    ensures
        r@ == array_text(crate::text::texts(items@)),
{
    let mut out = "[".to_owned();
    let body = join(items);
    out.append(body.as_str());
    out.append("]");
    out
}

/// Writes a member whose value is already JSON.
pub fn raw_member(key: &str, value: &str) -> (r: String)
    ensures
        r@ == member(key@, value@),
{
    let mut out = "\"".to_owned();
    out.append(key);
    out.append("\":");
    out.append(value);
    out
}

/// Writes a member whose value is a string.
pub fn text_member(key: &str, value: &str) -> (r: String)
    ensures
        r@ == member(key@, json_string(value@)),
{
    let value = quoted(value);
    raw_member(key, value.as_str())
}

/// Writes a member whose value is a string or `null`.
pub fn optional_member(key: &str, value: &Option<String>) -> (r: String)
    ensures
        r@ == member(
            key@,
            optional_string(
                match *value {
                    Some(s) => Some(s@),
                    None => None,
                },
            ),
        ),
{
    match value {
        Some(s) => text_member(key, s.as_str()),
        None => raw_member(key, "null"),
    }
}

/// Writes a member whose value is an unsigned number.
pub fn number_member(key: &str, value: u64) -> (r: String)
    ensures
        r@ == member(key@, number::decimal(value as nat)),
{
    let value = number::decimal_text(value);
    raw_member(key, value.as_str())
}

/// Writes a member whose value is a signed number.
pub fn signed_member(key: &str, value: i64) -> (r: String)
    ensures
        r@ == member(key@, number::signed_decimal(value as int)),
{
    let value = number::signed_decimal_text(value);
    raw_member(key, value.as_str())
}

/// Writes a member whose value is a truth value.
pub fn bool_member(key: &str, value: bool) -> (r: String)
    ensures
        r@ == member(key@, bool_text(value)),
{
    if value {
        raw_member(key, "true")
    } else {
        raw_member(key, "false")
    }
}

/// Each of the joined texts is part of the whole.
pub proof fn lemma_joined_holds(items: Seq<Seq<char>>)
    ensures
        forall|i: int|
            0 <= i < items.len() ==> text::has_part(joined(items), #[trigger] items[i]),
    decreases items.len(),
{
    if items.len() == 1 {
        text::lemma_own_part(items[0]);
    } else if items.len() > 1 {
        let front = items.drop_last();
        lemma_joined_holds(front);
        let head = joined(front) + ","@;
        text::lemma_parts_stay(joined(front), ","@);
        text::lemma_parts_stay(head, items.last());
        text::lemma_own_part(items.last());
        assert forall|i: int| 0 <= i < items.len() implies text::has_part(
            joined(items),
            #[trigger] items[i],
        ) by {
            if i < front.len() {
                assert(front[i] == items[i]);
                assert(text::has_part(joined(front), front[i]));
                assert(text::has_part(head, front[i]));
            }
        }
    }
}

/// An object holds each of its members, between braces.
pub proof fn objects_hold_their_members(members: Seq<Seq<char>>)
    ensures
        forall|i: int|
            0 <= i < members.len() ==> text::has_part(object_text(members), #[trigger] members[i]),
        object_text(members).len() >= 2,
        object_text(members)[0] == '{',
        object_text(members).last() == '}',
{
    lemma_joined_holds(members);
    text::lemma_parts_stay("{"@, joined(members));
    text::lemma_parts_stay("{"@ + joined(members), "}"@);
    reveal_strlit("{");
    reveal_strlit("}");
    assert forall|i: int| 0 <= i < members.len() implies text::has_part(
        object_text(members),
        #[trigger] members[i],
    ) by {
        assert(text::has_part("{"@ + joined(members), members[i]));
    }
}

/// An array holds each of its items, between brackets.
pub proof fn arrays_hold_their_items(items: Seq<Seq<char>>)
    ensures
        forall|i: int|
            0 <= i < items.len() ==> text::has_part(array_text(items), #[trigger] items[i]),
        array_text(items).len() >= 2,
        array_text(items)[0] == '[',
        array_text(items).last() == ']',
{
    lemma_joined_holds(items);
    text::lemma_parts_stay("["@, joined(items));
    text::lemma_parts_stay("["@ + joined(items), "]"@);
    reveal_strlit("[");
    reveal_strlit("]");
    assert forall|i: int| 0 <= i < items.len() implies text::has_part(
        array_text(items),
        #[trigger] items[i],
    ) by {
        assert(text::has_part("["@ + joined(items), items[i]));
    }
}

/// A member is its quoted key, a colon and its value.
pub proof fn members_hold_key_and_value(key: Seq<char>, value: Seq<char>)
    ensures
        member(key, value) == seq!['"'] + key + seq!['"', ':'] + value,
        text::has_part(member(key, value), value),
{
    reveal_strlit("\"");
    reveal_strlit("\":");
    assert(member(key, value) =~= seq!['"'] + key + seq!['"', ':'] + value);
    text::lemma_own_part(value);
    text::lemma_parts_stay("\""@ + key + "\":"@, value);
}

/// What stands for a truth value and for a missing string.
pub proof fn words_stand_for_truth_and_absence(s: Seq<char>)
    ensures
        bool_text(true) == seq!['t', 'r', 'u', 'e'],
        bool_text(false) == seq!['f', 'a', 'l', 's', 'e'],
        optional_string(None) == seq!['n', 'u', 'l', 'l'],
        optional_string(Some(s)) == json_string(s),
        json_string(s).len() >= 2,
        json_string(s)[0] == '"',
        json_string(s).last() == '"',
{
    reveal_strlit("true");
    reveal_strlit("false");
    reveal_strlit("null");
    assert("true"@ =~= seq!['t', 'r', 'u', 'e']);
    assert("false"@ =~= seq!['f', 'a', 'l', 's', 'e']);
    assert("null"@ =~= seq!['n', 'u', 'l', 'l']);
}

/// An object holds one of its members.
pub proof fn lemma_object_member(members: Seq<Seq<char>>, i: int)
    requires
        0 <= i < members.len(),
    ensures
        text::has_part(object_text(members), members[i]),
{
    objects_hold_their_members(members);
}

/// A string is written character by character, and a character that is no quote, no backslash and no
/// control stands for itself.
pub proof fn strings_are_written_character_by_character(s: Seq<char>, c: char)
    ensures
        json_string(Seq::empty()) == seq!['"', '"'],
        json_string(seq![c] + s) == seq!['"'] + escape(c) + json_string(s).skip(1),
        c != '"' && c != '\\' && c as u32 >= 32 ==> escape(c) == seq![c],
        escape('"') == seq!['\\', '"'],
        escape('\\') == seq!['\\', '\\'],
        escape('\n') == seq!['\\', 'n'],
        (c as u32) < 32 ==> escape(c).len() >= 2 && escape(c)[0] == '\\',
{
    let longer = seq![c] + s;
    assert(longer.drop_first() =~= s);
    assert(json_string(s).skip(1) =~= escaped(s) + seq!['"']);
    assert(json_string(longer) =~= seq!['"'] + escape(c) + json_string(s).skip(1));
    assert(json_string(Seq::empty()) =~= seq!['"', '"']);
}

/// A text is found exactly where a string is.
pub proof fn texts_are_found_where_strings_are(document: Seq<u8>, pointer: Seq<char>, text: Seq<char>)
    ensures
        json_text_at(document, pointer) == Some(text) <==> json_at(document, pointer) == Some(
            ShapeView::Text(text),
        ),
{
}

} // verus!
