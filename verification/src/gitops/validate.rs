//! Verifies exact renderer output and base identity before any sandbox execution or handoff.
//!
//! These pure checks do not execute repository scripts or authenticate repository
//! evidence. The read-only adapter must supply the actual changed-file set and SHAs.

use super::it_tools_image;
use super::it_tools_image::{render, PILOT_PATH};
use crate::text;
use vstd::prelude::*;

verus! {

/// Scope failures never authorize force-push, conflict resolution, or validator bypass.
#[derive(Debug, Clone, Copy, PartialEq, Eq, Structural)]
pub enum ScopeError {
    /// Revision identifiers are malformed or the base has moved.
    BaseChanged,
    /// The candidate differs from the deterministic one-field repair.
    OutsideScope,
}

/// A Git object identifier: 40 or 64 lowercase hexadecimal digits.
pub open spec fn is_sha(value: Seq<char>) -> bool {
    (value.len() == 40 || value.len() == 64) && text::Alphabet::LowerHex.spells(value)
}

/// The list names the pilot file and nothing else.
pub open spec fn only_pilot(changed_paths: Seq<&str>) -> bool {
    changed_paths.len() == 1 && changed_paths[0]@ == PILOT_PATH@
}

/// The outcome of a scope check.
pub open spec fn change_scope(
    expected_base: Seq<char>,
    current_base: Seq<char>,
    source: Seq<char>,
    candidate: Seq<char>,
    image: Seq<char>,
    changed_paths: Seq<&str>,
) -> Result<(), ScopeError> {
    if !is_sha(expected_base) || expected_base != current_base {
        Err(ScopeError::BaseChanged)
    } else if !only_pilot(changed_paths) || text::utf8_len(candidate)
        > it_tools_image::MAX_SOURCE_BYTES || it_tools_image::rendered(source, image) != Ok::<
        Seq<char>,
        it_tools_image::RenderError,
    >(candidate) {
        Err(ScopeError::OutsideScope)
    } else {
        Ok(())
    }
}

/// Checks the exact candidate bytes against a fresh base revision and complete path list.
/// Passing this check does not imply that sandboxed validation has run.
pub fn validate_change(
    expected_base: &str,
    current_base: &str,
    source: &str,
    candidate: &str,
    image: &str,
    changed_paths: &[&str],
) -> (r: Result<(), ScopeError>)
    ensures
        r == change_scope(
            expected_base@,
            current_base@,
            source@,
            candidate@,
            image@,
            changed_paths@,
        ),
{
    if !valid_sha(expected_base) || !text::text_eq(expected_base, current_base) {
        return Err(ScopeError::BaseChanged);
    }
    if changed_paths.len() != 1 || !text::text_eq(changed_paths[0], PILOT_PATH) {
        return Err(ScopeError::OutsideScope);
    }
    if text::byte_len(candidate) > it_tools_image::MAX_SOURCE_BYTES {
        return Err(ScopeError::OutsideScope);
    }
    match render(source, image) {
        Ok(out) => {
            if text::text_eq(out.as_str(), candidate) {
                Ok(())
            } else {
                Err(ScopeError::OutsideScope)
            }
        },
        Err(_) => Err(ScopeError::OutsideScope),
    }
}

/// Decides [`is_sha`].
pub fn valid_sha(value: &str) -> (r: bool)
    ensures
        r == is_sha(value@),
{
    let length: usize = text::chars_of(value).len();
    (length == 40 || length == 64) && text::Alphabet::LowerHex.spelled(value)
}

/// A change is in scope exactly where the base is a full revision that has not moved, the pilot file
/// is the only one changed, and the candidate is its repair, within the size bound.
pub proof fn changes_are_in_scope_exactly_as_the_repair(
    expected_base: Seq<char>,
    current_base: Seq<char>,
    source: Seq<char>,
    candidate: Seq<char>,
    image: Seq<char>,
    changed_paths: Seq<&str>,
)
    ensures
        ({
            let outcome = change_scope(
                expected_base,
                current_base,
                source,
                candidate,
                image,
                changed_paths,
            );
            let unmoved = expected_base == current_base && (expected_base.len() == 40
                || expected_base.len() == 64) && forall|i: int|
                0 <= i < expected_base.len() ==> ('0' <= #[trigger] expected_base[i] <= '9') || ('a'
                    <= expected_base[i] <= 'f');
            let scoped = changed_paths.len() == 1 && changed_paths[0]@
                == "stacks/utility/compose.yml"@ && vstd::utf8::encode_utf8(candidate).len()
                <= 262144 && it_tools_image::rendered(source, image) is Ok
                && it_tools_image::rendered(source, image)->Ok_0 == candidate;
            &&& outcome is Ok <==> unmoved && scoped
            &&& !unmoved ==> outcome == Err::<(), ScopeError>(ScopeError::BaseChanged)
            &&& unmoved && !scoped ==> outcome == Err::<(), ScopeError>(ScopeError::OutsideScope)
        }),
{
    assert(text::Alphabet::LowerHex.spells(expected_base) == forall|i: int|
        0 <= i < expected_base.len() ==> ('0' <= #[trigger] expected_base[i] <= '9') || ('a'
            <= expected_base[i] <= 'f'));
}

} // verus!
