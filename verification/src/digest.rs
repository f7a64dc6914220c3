//! Content identities: SHA-256 in lowercase hexadecimal.

use crate::text;
use vstd::prelude::*;

verus! {

/// The SHA-256 hash of a byte string.
pub uninterp spec fn sha256(bytes: Seq<u8>) -> Seq<u8>;

/// Hashes with `sha2::Sha256::digest`. The result is the 32 bytes named [`sha256`].
#[verifier::external_body]
pub(crate) fn sha256_bytes(bytes: &[u8]) -> (r: Vec<u8>)
    ensures
        r@ == sha256(bytes@),
        r@.len() == 32,
{
    <sha2::Sha256 as sha2::Digest>::digest(bytes).to_vec()
}

/// The content identity of a byte string: `sha256:` and 64 hexadecimal digits.
pub open spec fn digest_of(bytes: Seq<u8>) -> Seq<char> {
    "sha256:"@ + text::number::hex(sha256(bytes))
}

/// The content identity of a text.
pub open spec fn text_digest(s: Seq<char>) -> Seq<char> {
    digest_of(vstd::utf8::encode_utf8(s))
}

/// What follows `prefix` in `s` is 64 lowercase hexadecimal digits and nothing else.
pub open spec fn pinned_by(s: Seq<char>, prefix: Seq<char>) -> bool {
    match text::after_prefix(s, prefix) {
        Some(hex) => hex.len() == 64 && text::Alphabet::LowerHex.spells(hex),
        None => false,
    }
}

/// A well-formed content identity.
pub open spec fn is_digest(s: Seq<char>) -> bool {
    pinned_by(s, "sha256:"@)
}

/// A text of ASCII characters has as many bytes as characters.
pub(crate) proof fn lemma_hex_ascii(s: Seq<char>)
    requires
        text::Alphabet::LowerHex.spells(s),
    ensures
        text::utf8_len(s) == s.len(),
{
    assert(vstd::utf8::is_ascii_chars(s)) by {
        assert forall|i: int| 0 <= i < s.len() implies '\0' <= #[trigger] s[i] <= '\u{7f}' by {
            assert(text::Alphabet::LowerHex.holds(s[i]));
        }
    }
    vstd::utf8::is_ascii_chars_encode_utf8(s);
}

/// Computes the content identity of a byte string. It is always well-formed.
pub fn digest(bytes: &[u8]) -> (r: String)
    ensures
        r@ == digest_of(bytes@),
        is_digest(r@),
{
    let hash = sha256_bytes(bytes);
    let hex = text::number::hex_text(hash.as_slice());
    let mut out = "sha256:".to_owned();
    out.append(hex.as_str());
    proof {
        text::number::lemma_hex_shape(sha256(bytes@));
        lemma_after_prefix("sha256:"@, text::number::hex(sha256(bytes@)));
    }
    out
}

/// A prefix that was put in front is a prefix, and removing it gives back the rest.
pub proof fn lemma_after_prefix(prefix: Seq<char>, rest: Seq<char>)
    ensures
        text::after_prefix(prefix + rest, prefix) == Some(rest),
{
    let whole = prefix + rest;
    assert(whole.subrange(0, prefix.len() as int) =~= prefix);
    assert(whole.skip(prefix.len() as int) =~= rest);
}

/// Decides [`pinned_by`].
pub fn pinned(s: &str, prefix: &str) -> (r: bool)
    ensures
        r == pinned_by(s@, prefix@),
{
    match text::strip_prefix(s, prefix) {
        Some(hex) => {
            let spelled = text::Alphabet::LowerHex.spelled(hex.as_str());
            proof {
                if spelled {
                    lemma_hex_ascii(hex@);
                }
            }
            spelled && text::byte_len(hex.as_str()) == 64
        },
        None => false,
    }
}

/// Decides [`is_digest`].
pub fn valid_digest(s: &str) -> (r: bool)
    ensures
        r == is_digest(s@),
{
    pinned(s, "sha256:")
}

/// A pinned reference is the prefix and 64 lowercase hexadecimal digits, and nothing else.
pub proof fn pinned_references_end_in_a_digest(prefix: Seq<char>, hex: Seq<char>, s: Seq<char>)
    ensures
        pinned_by(prefix + hex, prefix) <==> hex.len() == 64 && forall|i: int|
            0 <= i < hex.len() ==> ('0' <= #[trigger] hex[i] <= '9') || ('a' <= hex[i] <= 'f'),
        pinned_by(s, prefix) ==> s.len() == prefix.len() + 64 && s == prefix + s.skip(
            prefix.len() as int,
        ),
        is_digest(s) ==> s.len() == 71 && s.take(7) == "sha256:"@,
{
    text::prefixes_are_cut_off(prefix, hex, s);
    text::prefixes_are_cut_off("sha256:"@, hex, s);
    assert(text::Alphabet::LowerHex.spells(hex) == forall|i: int|
        0 <= i < hex.len() ==> ('0' <= #[trigger] hex[i] <= '9') || ('a' <= hex[i] <= 'f'));
    reveal_strlit("sha256:");
    if is_digest(s) {
        let tail = text::after_prefix(s, "sha256:"@)->0;
        assert(s.take(7) =~= "sha256:"@);
    }
}

/// A content identity is `sha256:` and the hash in hexadecimal, and that of a text is that of its
/// UTF-8 bytes.
pub proof fn identities_name_the_hash(bytes: Seq<u8>, s: Seq<char>)
    ensures
        digest_of(bytes).take(7) == "sha256:"@,
        digest_of(bytes).skip(7) == text::number::hex(sha256(bytes)),
        text_digest(s) == digest_of(vstd::utf8::encode_utf8(s)),
{
    reveal_strlit("sha256:");
    assert(digest_of(bytes).take(7) =~= "sha256:"@);
    assert(digest_of(bytes).skip(7) =~= text::number::hex(sha256(bytes)));
}

} // verus!
