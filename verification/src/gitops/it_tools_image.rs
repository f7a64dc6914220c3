//! Changes the pilot image scalar while preserving source bytes and verifying semantic scope.
//!
//! This low-level renderer accepts only the fixed image repository and immutable digest.
//! Its output is untrusted until deployment qualification and validation are satisfied.

use crate::digest;
use crate::text;
use crate::text::{split, trim};
use crate::yaml;
use vstd::prelude::*;

verus! {

/// Fixed pilot path; callers cannot select another repository file.
pub const PILOT_PATH: &'static str = "stacks/utility/compose.yml";

/// Largest source that is rewritten, in bytes.
pub const MAX_SOURCE_BYTES: usize = 262144;

/// Largest number of image lines in a source.
pub const MAX_IMAGE_LINES: usize = 32;

/// A rejected repair requires fresh evidence or an operator recommendation, never a patch fallback.
#[derive(Debug, Clone, Copy, PartialEq, Eq, Structural)]
pub enum RenderError {
    /// The image does not name the fixed repository at an immutable digest.
    InvalidImage,
    /// Unsupported, ambiguous, or excessive YAML must not be rewritten.
    UnsupportedSource,
    /// No repair is needed for an identical scalar.
    NoChange,
}

/// The fixed repository at a digest of 64 lowercase hexadecimal digits.
pub open spec fn is_pilot_image(image: Seq<char>) -> bool {
    digest::pinned_by(image, "ghcr.io/corentinth/it-tools@sha256:"@)
}

/// Accepts a digest-only reference, without tags, interpolation, credentials, or alternate registries.
pub fn valid_image(image: &str) -> (r: bool)
    ensures
        r == is_pilot_image(image@),
{
    digest::pinned(image, "ghcr.io/corentinth/it-tools@sha256:")
}

/// A line that, but for leading whitespace, begins with `image:`.
pub open spec fn is_image_line(line: Seq<char>) -> bool {
    "image:"@.is_prefix_of(trim::trim_start(line))
}

/// Number of image lines.
pub open spec fn image_lines(lines: Seq<Seq<char>>) -> nat
    decreases lines.len(),
{
    if lines.len() == 0 {
        0
    } else {
        image_lines(lines.drop_last()) + if is_image_line(lines.last()) {
            1nat
        } else {
            0nat
        }
    }
}

/// Where the scalar ends: before the first ` #`, or else before trailing whitespace.
pub open spec fn scalar_end(scalar: Seq<char>) -> int {
    if text::has_part(scalar, " #"@) {
        choose|at: int|
            text::occurs_at(scalar, " #"@, at) && (forall|j: int|
                0 <= j < at ==> !text::occurs_at(scalar, " #"@, j))
    } else {
        trim::trim_end(scalar).len() as int
    }
}

/// The single-line scalar of an `image:` line: where it starts and ends in the line.
pub open spec fn scalar_span(line: Seq<char>) -> Option<(int, int)> {
    match text::after_prefix(trim::skip_leading(line, ' '), "image:"@) {
        Some(rest) => {
            let scalar = trim::skip_leading(rest, ' ');
            let start = line.len() - scalar.len();
            let end = scalar_end(scalar);
            if end > 0 && !scalar.take(end).contains('\n') && !scalar.take(end).contains('\r') {
                Some((start as int, start + end))
            } else {
                None
            }
        },
        None => None,
    }
}

/// The source with the scalar of line `k` replaced by the image.
pub open spec fn attempt(source: Seq<char>, image: Seq<char>, k: int) -> Option<Seq<char>> {
    let lines = split::pieces(source);
    if 0 <= k < lines.len() {
        let offset = lines.take(k).flatten().len() as int;
        match scalar_span(lines[k]) {
            Some((start, end)) => Some(
                source.take(offset + start) + image + source.skip(offset + end),
            ),
            None => None,
        }
    } else {
        None
    }
}

/// Replacing the scalar of line `k` changes the pilot image and nothing else in the document.
pub open spec fn accepts(source: Seq<char>, image: Seq<char>, k: int) -> bool {
    match attempt(source, image, k) {
        Some(candidate) => yaml::yaml_differs_only_at(
            source,
            candidate,
            "services"@,
            "it-tools"@,
            "image"@,
            image,
        ),
        None => false,
    }
}

/// Line `k` is the only one whose replacement is accepted.
pub open spec fn sole(source: Seq<char>, image: Seq<char>, k: int) -> bool {
    accepts(source, image, k) && forall|j: int| #[trigger] accepts(source, image, j) ==> j == k
}

/// The image that a Compose document declares for the pilot service.
pub open spec fn declared_image(source: Seq<char>) -> Option<Seq<char>> {
    yaml::yaml_text_at(source, "services"@, "it-tools"@, "image"@)
}

/// A source within the bounds of the renderer.
pub open spec fn in_bounds(source: Seq<char>) -> bool {
    &&& text::utf8_len(source) <= MAX_SOURCE_BYTES
    &&& !source.contains('\t')
    &&& image_lines(split::lines(source)) <= MAX_IMAGE_LINES
}

/// The outcome of a repair.
pub open spec fn rendered(source: Seq<char>, image: Seq<char>) -> Result<Seq<char>, RenderError> {
    if !is_pilot_image(image) {
        Err(RenderError::InvalidImage)
    } else if !in_bounds(source) || declared_image(source) is None {
        Err(RenderError::UnsupportedSource)
    } else if declared_image(source) == Some(image) {
        Err(RenderError::NoChange)
    } else if exists|k: int| sole(source, image, k) {
        Ok(attempt(source, image, choose|k: int| sole(source, image, k))->0)
    } else {
        Err(RenderError::UnsupportedSource)
    }
}

/// Removing leading characters removes a beginning.
proof fn lemma_skip_leading(s: Seq<char>, c: char)
    ensures
        trim::skip_leading(s, c).len() <= s.len(),
        trim::skip_leading(s, c) == s.skip(s.len() - trim::skip_leading(s, c).len()),
    decreases s.len(),
{
    if s.len() > 0 && s[0] == c {
        let rest = s.drop_first();
        lemma_skip_leading(rest, c);
        let kept = trim::skip_leading(rest, c);
        assert(rest.skip(rest.len() - kept.len()) =~= s.skip(s.len() - kept.len()));
    } else {
        assert(s.skip(0) =~= s);
    }
}

/// Removing trailing whitespace removes an end.
proof fn lemma_trim_end(s: Seq<char>)
    ensures
        trim::trim_end(s).len() <= s.len(),
    decreases s.len(),
{
    if s.len() > 0 && trim::is_space(s.last()) {
        lemma_trim_end(s.drop_last());
    }
}

fn count_image_lines(source: &str) -> (r: usize)
    ensures
        r == image_lines(split::lines(source@)),
{
    let lines = split::split_lines(source);
    let ghost all = split::lines(source@);
    let mut count: usize = 0;
    let mut i: usize = 0;
    assert(all.take(0) =~= Seq::empty());
    while i < lines.len()
        invariant
            i <= lines.len(),
            count <= i,
            text::texts(lines@) == all,
            count == image_lines(all.take(i as int)),
        decreases lines.len() - i,
    {
        proof {
            assert(all.take(i as int + 1).drop_last() =~= all.take(i as int));
            assert(all[i as int] == lines@[i as int]@);
            assert(text::texts(lines@).len() == lines@.len());
        }
        let body = trim::trimmed_start(lines[i].as_str());
        if text::starts_with(body.as_str(), "image:") {
            count += 1;
        }
        i += 1;
    }
    assert(text::texts(lines@).len() == lines@.len());
    assert(all.take(i as int) =~= all);
    count
}

fn find_scalar_end(scalar: &Vec<char>) -> (r: usize)
    ensures
        r == scalar_end(scalar@),
        r <= scalar.len(),
{
    let mark = text::chars_of(" #");
    match text::find(scalar, &mark) {
        Some(at) => {
            proof {
                assert(text::has_part(scalar@, " #"@));
                let chosen = scalar_end(scalar@);
                assert(text::occurs_at(scalar@, " #"@, at as int));
                assert(text::occurs_at(scalar@, " #"@, chosen));
                assert(!(chosen < at));
                assert(!(at < chosen));
            }
            at
        },
        None => {
            let whole = text::text_of(scalar, 0, scalar.len());
            assert(whole@ =~= scalar@);
            proof {
                lemma_trim_end(scalar@);
            }
            let kept = trim::trimmed_end(whole.as_str());
            text::chars_of(kept.as_str()).len()
        },
    }
}

/// Finds the single-line scalar of an `image:` line.
fn find_scalar(line: &str) -> (r: Option<(usize, usize)>)
    ensures
        match r {
            Some((start, end)) => scalar_span(line@) == Some((start as int, end as int)) && start
                <= end <= line@.len(),
            None => scalar_span(line@) is None,
        },
{
    let body = trim::without_leading(line, ' ');
    let rest = match text::strip_prefix(body.as_str(), "image:") {
        Some(rest) => rest,
        None => return None,
    };
    let scalar_text = trim::without_leading(rest.as_str(), ' ');
    let scalar = text::chars_of(scalar_text.as_str());
    let whole = text::chars_of(line);
    proof {
        lemma_skip_leading(line@, ' ');
        lemma_skip_leading(rest@, ' ');
    }
    let start: usize = whole.len() - scalar.len();
    let end = find_scalar_end(&scalar);
    if end == 0 {
        return None;
    }
    let value = text::text_of(&scalar, 0, end);
    assert(value@ =~= scalar@.take(end as int));
    if text::contains_char(value.as_str(), '\n') || text::contains_char(value.as_str(), '\r') {
        return None;
    }
    Some((start, start + end))
}

/// The pieces before line `k` and those from it on are the whole source.
proof fn lemma_offsets(lines: Seq<Seq<char>>, k: int)
    requires
        0 <= k < lines.len(),
    ensures
        lines.take(k + 1).flatten() == lines.take(k).flatten() + lines[k],
        lines.take(k).flatten().len() + lines[k].len() <= lines.flatten().len(),
    decreases lines.len() - k,
{
    lines.take(k).lemma_flatten_push(lines[k]);
    assert(lines.take(k).push(lines[k]) =~= lines.take(k + 1));
    if k + 1 < lines.len() {
        lemma_offsets(lines, k + 1);
    } else {
        assert(lines.take(k + 1) =~= lines);
    }
}

/// Returns source with exactly one scalar replaced; unsupported layouts fail closed.
pub fn render(source: &str, image: &str) -> (r: Result<String, RenderError>)
    ensures
        match r {
            Ok(out) => rendered(source@, image@) == Ok::<Seq<char>, RenderError>(out@),
            Err(error) => rendered(source@, image@) == Err::<Seq<char>, RenderError>(error),
        },
        // A repaired source declares the image, and is not repaired again.
        r matches Ok(out) ==> declared_image(out@) == Some(image@) && rendered(out@, image@)
            == Err::<Seq<char>, RenderError>(
            if text::utf8_len(out@) <= MAX_SOURCE_BYTES {
                RenderError::NoChange
            } else {
                RenderError::UnsupportedSource
            },
        ),
{
    if !valid_image(image) {
        return Err(RenderError::InvalidImage);
    }
    if text::byte_len(source) > MAX_SOURCE_BYTES || text::contains_char(source, '\t')
        || count_image_lines(source) > MAX_IMAGE_LINES {
        return Err(RenderError::UnsupportedSource);
    }
    match yaml::find_text(source, "services", "it-tools", "image") {
        Some(declared) => {
            if text::text_eq(declared.as_str(), image) {
                return Err(RenderError::NoChange);
            }
        },
        None => return Err(RenderError::UnsupportedSource),
    }
    let whole = text::chars_of(source);
    let lines = split::split_pieces(source);
    let ghost pieces = split::pieces(source@);
    proof {
        split::lemma_pieces_flatten(source@);
        assert(text::texts(lines@).len() == lines@.len());
        assert(pieces.take(0).flatten() =~= Seq::empty());
    }
    let mut accepted: Option<String> = None;
    let ghost mut at: int = -1;
    let mut offset: usize = 0;
    let mut i: usize = 0;
    while i < lines.len()
        invariant
            i <= lines.len(),
            whole@ == source@,
            text::texts(lines@) == pieces,
            pieces == split::pieces(source@),
            pieces.len() == lines.len(),
            pieces.flatten() == source@,
            offset == pieces.take(i as int).flatten().len(),
            offset <= whole.len(),
            is_pilot_image(image@),
            in_bounds(source@),
            declared_image(source@) is Some,
            declared_image(source@) != Some(image@),
            match accepted {
                Some(out) => 0 <= at < i && accepts(source@, image@, at) && attempt(
                    source@,
                    image@,
                    at,
                ) == Some(out@) && declared_image(out@) == Some(image@) && (forall|j: int|
                    0 <= j < i && #[trigger] accepts(source@, image@, j) ==> j == at),
                None => forall|j: int| 0 <= j < i ==> !#[trigger] accepts(source@, image@, j),
            },
        decreases lines.len() - i,
    {
        proof {
            lemma_offsets(pieces, i as int);
            assert(pieces[i as int] == lines@[i as int]@);
        }
        let line = &lines[i];
        if let Some((start, end)) = find_scalar(line.as_str()) {
            let mut candidate = text::text_of(&whole, 0, offset + start);
            candidate.append(image);
            let after = text::text_of(&whole, offset + end, whole.len());
            candidate.append(after.as_str());
            proof {
                assert(whole@.subrange(0, offset + start) =~= source@.take(offset + start));
                assert(after@ =~= source@.skip(offset + end));
                assert(attempt(source@, image@, i as int) == Some(candidate@));
            }
            if yaml::differs_only_at(
                source,
                candidate.as_str(),
                "services",
                "it-tools",
                "image",
                image,
            ) {
                assert(accepts(source@, image@, i as int));
                if accepted.is_some() {
                    assert(accepts(source@, image@, at));
                    assert(forall|k: int| !sole(source@, image@, k));
                    return Err(RenderError::UnsupportedSource);
                }
                accepted = Some(candidate);
                proof {
                    at = i as int;
                }
            }
        }
        offset += text::chars_of(line.as_str()).len();
        i += 1;
    }
    match accepted {
        Some(out) => {
            proof {
                assert(sole(source@, image@, at));
                let chosen = choose|k: int| sole(source@, image@, k);
                assert(sole(source@, image@, chosen));
                assert(accepts(source@, image@, chosen));
                assert(chosen == at);
                repairs_keep_what_is_bounded(source@, image@, out@);
            }
            Ok(out)
        },
        None => {
            assert(forall|k: int| !sole(source@, image@, k));
            Err(RenderError::UnsupportedSource)
        },
    }
}

/// `out` is `source` with the characters from `start` to `end`, on one line, replaced by the image.
pub open spec fn replaces_span(
    source: Seq<char>,
    image: Seq<char>,
    out: Seq<char>,
    start: int,
    end: int,
) -> bool {
    &&& 0 <= start < end <= source.len()
    &&& out == source.take(start) + image + source.skip(end)
    &&& !source.subrange(start, end).contains('\n')
}

/// A repair replaces one nonempty stretch of one line by the image and keeps every other
/// character of the source.
pub proof fn repair_changes_one_stretch_of_one_line(
    source: Seq<char>,
    image: Seq<char>,
    out: Seq<char>,
)
    requires
        rendered(source, image) == Ok::<Seq<char>, RenderError>(out),
    ensures
        exists|start: int, end: int| replaces_span(source, image, out, start, end),
{
    let k = choose|k: int| sole(source, image, k);
    let lines = split::pieces(source);
    assert(accepts(source, image, k));
    let line = lines[k];
    let offset = lines.take(k).flatten().len() as int;
    let (start, end) = scalar_span(line)->0;
    split::lemma_pieces_flatten(source);
    lemma_offsets(lines, k);
    lemma_span_in_line(line);
    lemma_piece_place(lines, k);
    let stretch = source.subrange(offset + start, offset + end);
    assert(stretch =~= line.subrange(start, end));
    assert(replaces_span(source, image, out, offset + start, offset + end));
}

/// A repair keeps the source free of tabs and adds no image line: of the renderer's bounds it can
/// only exceed the one on size.
pub proof fn repairs_keep_what_is_bounded(source: Seq<char>, image: Seq<char>, out: Seq<char>)
    requires
        rendered(source, image) == Ok::<Seq<char>, RenderError>(out),
    ensures
        !out.contains('\t'),
        image_lines(split::lines(out)) <= image_lines(split::lines(source)),
        in_bounds(out) == (text::utf8_len(out) <= MAX_SOURCE_BYTES),
{
    let k = choose|k: int| sole(source, image, k);
    assert(accepts(source, image, k));
    let lines = split::pieces(source);
    let line = lines[k];
    let front = lines.take(k).flatten();
    let offset = front.len() as int;
    let rear = source.skip(offset + line.len());
    let (start, end) = scalar_span(line)->0;
    let repaired = line.take(start) + image + line.skip(end);
    lemma_image_is_plain(image);
    lemma_span_in_line(line);
    split::lemma_pieces_flatten(source);
    lemma_piece_place(lines, k);
    lemma_beginning(lines, k);
    split::lemma_piece_shape(source, k);
    assert(front == source.take(offset));
    assert(source =~= front + line + rear);
    assert(out =~= front + repaired + rear);
    assert forall|i: int| 0 <= i < out.len() implies out[i] != '\t' by {
        let from = offset + start;
        if i < from {
            assert(out[i] == source[i]);
            assert(source.contains(source[i]));
        } else if i < from + image.len() {
            assert(out[i] == image[i - from]);
        } else {
            let j = i - from - image.len() + offset + end;
            assert(out[i] == source[j]);
            assert(source.contains(source[j]));
        }
    }
    assert(front.len() == 0 || front.last() == '\n') by {
        if k > 0 {
            split::lemma_piece_shape(source, k - 1);
            lemma_offsets(lines, k - 1);
            let before = lines.take(k - 1).flatten();
            assert((before + lines[k - 1]).last() == lines[k - 1].last());
        } else {
            assert(lines.take(0).flatten() =~= Seq::empty());
        }
    }
    assert(line.last() == '\n' || rear.len() == 0) by {
        if k == lines.len() - 1 {
            assert(lines.take(k + 1) =~= lines);
            lemma_offsets(lines, k);
            assert(source.len() == offset + line.len());
        }
    }
    assert(end < line.len() || line.last() != '\n') by {
        if end == line.len() && line.last() == '\n' {
            assert(line.subrange(start, end).last() == '\n');
            assert(line.subrange(start, end).contains('\n'));
        }
    }
    assert forall|i: int| 0 <= i < repaired.len() - 1 implies repaired[i] != '\n' by {
        if i < start {
            assert(repaired[i] == line[i]);
        } else if i < start + image.len() {
            assert(repaired[i] == image[i - start]);
        } else {
            assert(repaired[i] == line[i - start - image.len() + end]);
        }
    }
    assert(line.last() == '\n' ==> repaired.last() == '\n') by {
        if line.last() == '\n' {
            assert(repaired.last() == line.skip(end).last());
        }
    }
    lemma_lines_around(front, line, rear);
    lemma_lines_around(front, repaired, rear);
    lemma_scalar_line_is_image_line(line);
}

/// Image lines of a text around one of its lines.
proof fn lemma_lines_around(front: Seq<char>, line: Seq<char>, rear: Seq<char>)
    requires
        front.len() == 0 || front.last() == '\n',
        line.len() > 0,
        forall|i: int| 0 <= i < line.len() - 1 ==> line[i] != '\n',
        line.last() == '\n' || rear.len() == 0,
    ensures
        image_lines(split::lines(front + line + rear)) == image_lines(split::lines(front)) + (
        if is_image_line(split::line_of(line)) {
            1nat
        } else {
            0nat
        }) + image_lines(split::lines(rear)),
{
    let whole = front + line + rear;
    let head = front + line;
    split::lemma_pieces_join(front, line);
    split::lemma_one_piece(line);
    let middle = seq![split::line_of(line)];
    assert(split::lines(head) =~= split::lines(front) + middle);
    if rear.len() == 0 {
        assert(whole =~= head);
        assert(split::lines(rear) =~= Seq::empty());
    } else {
        assert(head.last() == '\n');
        split::lemma_pieces_join(head, rear);
    }
    assert(split::lines(whole) =~= split::lines(front) + middle + split::lines(rear));
    lemma_image_lines_join(split::lines(front), middle);
    lemma_image_lines_join(split::lines(front) + middle, split::lines(rear));
    assert(middle.drop_last() =~= Seq::empty());
    assert(image_lines(middle.drop_last()) == 0);
}

proof fn lemma_image_lines_join(a: Seq<Seq<char>>, b: Seq<Seq<char>>)
    ensures
        image_lines(a + b) == image_lines(a) + image_lines(b),
    decreases b.len(),
{
    if b.len() == 0 {
        assert(a + b =~= a);
    } else {
        lemma_image_lines_join(a, b.drop_last());
        assert((a + b).drop_last() =~= a + b.drop_last());
    }
}

/// A line with a scalar is an image line.
proof fn lemma_scalar_line_is_image_line(line: Seq<char>)
    requires
        scalar_span(line) is Some,
    ensures
        is_image_line(split::line_of(line)),
{
    let (start, end) = scalar_span(line)->0;
    let stretch = line.subrange(start, end);
    let kept = split::line_of(line);
    lemma_span_in_line(line);
    assert(end <= kept.len()) by {
        if line.last() == '\n' {
            if end == line.len() {
                assert(stretch.last() == '\n');
                assert(stretch.contains('\n'));
            } else if end == line.len() - 1 && line[line.len() - 2] == '\r' {
                assert(stretch.last() == '\r');
                assert(stretch.contains('\r'));
            }
        }
    }
    assert(kept =~= line.take(kept.len() as int));
    lemma_image_line_beginning(line, kept.len() as int);
}

/// The beginning of a line that holds `image:` behind spaces is an image line.
proof fn lemma_image_line_beginning(line: Seq<char>, n: int)
    requires
        "image:"@.is_prefix_of(trim::skip_leading(line, ' ')),
        line.len() - trim::skip_leading(line, ' ').len() + "image:"@.len() <= n <= line.len(),
    ensures
        is_image_line(line.take(n)),
    decreases line.len(),
{
    reveal_strlit("image:");
    lemma_skip_leading(line, ' ');
    if line.len() > 0 && line[0] == ' ' {
        lemma_skip_leading(line.drop_first(), ' ');
        lemma_image_line_beginning(line.drop_first(), n - 1);
        assert(line.take(n).drop_first() =~= line.drop_first().take(n - 1));
    } else {
        assert("image:"@ =~= line.subrange(0, 6));
        assert(line[0] == 'i') by {
            assert("image:"@[0] == line.subrange(0, 6)[0]);
        }
        assert("image:"@ =~= line.take(n).subrange(0, 6));
    }
}

/// An image holds no tab and no newline.
proof fn lemma_image_is_plain(image: Seq<char>)
    requires
        is_pilot_image(image),
    ensures
        forall|i: int| 0 <= i < image.len() ==> image[i] != '\t' && image[i] != '\n',
        image.len() > 0,
{
    let prefix = "ghcr.io/corentinth/it-tools@sha256:"@;
    reveal_strlit("ghcr.io/corentinth/it-tools@sha256:");
    let hex = image.skip(prefix.len() as int);
    assert forall|i: int| 0 <= i < image.len() implies image[i] != '\t' && image[i] != '\n' by {
        if i < prefix.len() {
            assert(image.subrange(0, prefix.len() as int)[i] == prefix[i]);
        } else {
            assert(hex[i - prefix.len()] == image[i]);
            assert(text::Alphabet::LowerHex.holds(hex[i - prefix.len()]));
        }
    }
}

/// A scalar lies within its line and holds no newline.
proof fn lemma_span_in_line(line: Seq<char>)
    requires
        scalar_span(line) is Some,
    ensures
        ({
            let (start, end) = scalar_span(line)->0;
            &&& 0 <= start < end <= line.len()
            &&& !line.subrange(start, end).contains('\n')
            &&& !line.subrange(start, end).contains('\r')
            &&& start >= line.len() - trim::skip_leading(line, ' ').len() + "image:"@.len()
            &&& "image:"@.is_prefix_of(trim::skip_leading(line, ' '))
        }),
{
    let body = trim::skip_leading(line, ' ');
    lemma_skip_leading(line, ' ');
    let rest = text::after_prefix(body, "image:"@)->0;
    lemma_skip_leading(rest, ' ');
    let scalar = trim::skip_leading(rest, ' ');
    let (start, end) = scalar_span(line)->0;
    lemma_trim_end(scalar);
    if text::has_part(scalar, " #"@) {
        let first = scalar_end(scalar);
        lemma_first_part(scalar, " #"@);
        assert(text::occurs_at(scalar, " #"@, first));
    }
    assert(end - start <= scalar.len());
    assert(rest =~= body.skip("image:"@.len() as int));
    assert(scalar =~= line.skip(start));
    assert(line.subrange(start, end) =~= scalar.take(end - start));
}

/// Where a part occurs, it has a first place.
proof fn lemma_first_part(s: Seq<char>, part: Seq<char>)
    requires
        text::has_part(s, part),
    ensures
        exists|at: int|
            text::occurs_at(s, part, at) && (forall|j: int|
                0 <= j < at ==> !text::occurs_at(s, part, j)),
{
    let any = choose|at: int| text::occurs_at(s, part, at);
    lemma_least_part(s, part, any);
}

proof fn lemma_least_part(s: Seq<char>, part: Seq<char>, at: int)
    requires
        text::occurs_at(s, part, at),
    ensures
        exists|first: int|
            text::occurs_at(s, part, first) && (forall|j: int|
                0 <= j < first ==> !text::occurs_at(s, part, j)),
    decreases at,
{
    if exists|j: int| 0 <= j < at && text::occurs_at(s, part, j) {
        let j = choose|j: int| 0 <= j < at && text::occurs_at(s, part, j);
        lemma_least_part(s, part, j);
    }
}

/// Line `k` stands in the whole behind the lines before it.
proof fn lemma_piece_place(lines: Seq<Seq<char>>, k: int)
    requires
        0 <= k < lines.len(),
    ensures
        ({
            let offset = lines.take(k).flatten().len() as int;
            offset + lines[k].len() <= lines.flatten().len() && lines.flatten().subrange(
                offset,
                offset + lines[k].len(),
            ) == lines[k]
        }),
    decreases lines.len() - k,
{
    lemma_offsets(lines, k);
    lemma_beginning(lines, k + 1);
    let offset = lines.take(k).flatten().len() as int;
    let upto = lines.take(k + 1).flatten();
    assert(lines.flatten().subrange(offset, offset + lines[k].len()) =~= upto.subrange(
        offset,
        offset + lines[k].len(),
    ));
    assert(upto.subrange(offset, offset + lines[k].len()) =~= lines[k]);
}

/// The first lines begin the whole.
proof fn lemma_beginning(lines: Seq<Seq<char>>, k: int)
    requires
        0 <= k <= lines.len(),
    ensures
        lines.take(k).flatten().len() <= lines.flatten().len(),
        lines.flatten().take(lines.take(k).flatten().len() as int) == lines.take(k).flatten(),
    decreases lines.len() - k,
{
    if k < lines.len() {
        lemma_offsets(lines, k);
        lemma_beginning(lines, k + 1);
        let n = lines.take(k).flatten().len() as int;
        let m = lines.take(k + 1).flatten().len() as int;
        assert(lines.flatten().take(n) =~= lines.flatten().take(m).take(n));
        assert(lines.take(k + 1).flatten().take(n) =~= lines.take(k).flatten());
    } else {
        assert(lines.take(k) =~= lines);
        assert(lines.flatten().take(lines.flatten().len() as int) =~= lines.flatten());
    }
}

/// A pilot image is the one repository at a digest of 64 lowercase hexadecimal digits.
pub proof fn pilot_images_are_pinned(hex: Seq<char>, image: Seq<char>)
    ensures
        is_pilot_image("ghcr.io/corentinth/it-tools@sha256:"@ + hex) <==> hex.len() == 64 && forall|
            i: int,
        | 0 <= i < hex.len() ==> ('0' <= #[trigger] hex[i] <= '9') || ('a' <= hex[i] <= 'f'),
        is_pilot_image(image) ==> image == "ghcr.io/corentinth/it-tools@sha256:"@ + image.skip(35),
{
    let front = "ghcr.io/corentinth/it-tools@sha256:"@;
    reveal_strlit("ghcr.io/corentinth/it-tools@sha256:");
    digest::pinned_references_end_in_a_digest(front, hex, image);
}

/// How a repair is judged, in order: the image, the bounds and the declared image, whether there is
/// anything to change, and whether one line alone can be rewritten.
pub proof fn repairs_are_judged_in_order(source: Seq<char>, image: Seq<char>)
    ensures
        ({
            let outcome = rendered(source, image);
            let bounded = vstd::utf8::encode_utf8(source).len() <= 262144 && !source.contains('\t')
                && image_lines(split::lines(source)) <= 32;
            let declared = yaml::yaml_text_at(source, "services"@, "it-tools"@, "image"@);
            let supported = bounded && declared is Some;
            &&& !is_pilot_image(image) ==> outcome == Err::<Seq<char>, RenderError>(
                RenderError::InvalidImage,
            )
            &&& is_pilot_image(image) && !supported ==> outcome == Err::<Seq<char>, RenderError>(
                RenderError::UnsupportedSource,
            )
            &&& is_pilot_image(image) && supported && declared == Some(image) ==> outcome == Err::<
                Seq<char>,
                RenderError,
            >(RenderError::NoChange)
            &&& is_pilot_image(image) && supported && declared != Some(image) ==> (outcome is Ok
                <==> exists|k: int| sole(source, image, k)) && (outcome is Err ==> outcome == Err::<
                Seq<char>,
                RenderError,
            >(RenderError::UnsupportedSource))
        }),
{
}

/// What a repair puts out is a rewriting that the parser takes for the same document with the new image,
/// and no other line could have been rewritten so.
pub proof fn repairs_are_the_only_accepted_rewriting(
    source: Seq<char>,
    image: Seq<char>,
    out: Seq<char>,
) -> (k: int)
    requires
        rendered(source, image) == Ok::<Seq<char>, RenderError>(out),
    ensures
        attempt(source, image, k) == Some(out),
        yaml::yaml_differs_only_at(source, out, "services"@, "it-tools"@, "image"@, image),
        forall|j: int|
            j != k ==> (#[trigger] attempt(source, image, j) matches Some(other)
                ==> !yaml::yaml_differs_only_at(
                source,
                other,
                "services"@,
                "it-tools"@,
                "image"@,
                image,
            )),
{
    let k = choose|k: int| sole(source, image, k);
    assert(accepts(source, image, k));
    assert forall|j: int| j != k implies (#[trigger] attempt(source, image, j) matches Some(other)
        ==> !yaml::yaml_differs_only_at(
        source,
        other,
        "services"@,
        "it-tools"@,
        "image"@,
        image,
    )) by {
        assert(!accepts(source, image, j));
    }
    k
}

/// An image line counts once.
pub proof fn image_lines_count_once(lines: Seq<Seq<char>>, line: Seq<char>)
    ensures
        image_lines(lines.push(line)) == image_lines(lines) + if "image:"@.is_prefix_of(
            trim::trim_start(line),
        ) {
            1nat
        } else {
            0nat
        },
        image_lines(Seq::empty()) == 0,
{
    assert(lines.push(line).drop_last() =~= lines);
}

proof fn lemma_skip_leading_run(n: nat, c: char, s: Seq<char>)
    requires
        s.len() == 0 || s[0] != c,
    ensures
        trim::skip_leading(Seq::new(n, |i: int| c) + s, c) == s,
    decreases n,
{
    let run = Seq::new(n, |i: int| c);
    if n == 0 {
        assert(run + s =~= s);
    } else {
        lemma_skip_leading_run((n - 1) as nat, c, s);
        assert((run + s).drop_first() =~= Seq::new((n - 1) as nat, |i: int| c) + s);
    }
}

/// The scalar of an `image:` line, indented by spaces, is what stands between the spaces behind the colon
/// and the first comment, or else the whitespace at the end of the line.
pub proof fn scalars_end_before_comments_and_whitespace(
    indent: nat,
    gap: nat,
    value: Seq<char>,
    tail: Seq<char>,
)
    requires
        value.len() > 0,
        value[0] != ' ',
        !value.contains('\n'),
        !value.contains('\r'),
    ensures
        ({
            let spaces = |n: nat| Seq::new(n, |i: int| ' ');
            let line = spaces(indent) + "image:"@ + spaces(gap) + value + tail;
            let start = indent + 6 + gap;
            let commented = tail.len() >= 2 && tail[0] == ' ' && tail[1] == '#' && forall|at: int|
                0 <= at < value.len() ==> !text::occurs_at(value + tail, " #"@, at);
            let bare = !text::has_part(value + tail, " #"@) && !trim::is_space(value.last()) && forall|
                i: int,
            |
                0 <= i < tail.len() ==> trim::is_space(#[trigger] tail[i]);
            commented || bare ==> scalar_span(line) == Some(
                (start as int, (start + value.len()) as int),
            )
        }),
{
    let spaces = |n: nat| Seq::new(n, |i: int| ' ');
    let scalar = value + tail;
    let rest = spaces(gap) + scalar;
    let body = "image:"@ + rest;
    let line = spaces(indent) + "image:"@ + spaces(gap) + value + tail;
    reveal_strlit("image:");
    reveal_strlit(" #");
    assert(line =~= spaces(indent) + body);
    assert(body[0] == 'i');
    lemma_skip_leading_run(indent, ' ', body);
    text::prefixes_are_cut_off("image:"@, rest, body);
    assert(scalar[0] == value[0]);
    lemma_skip_leading_run(gap, ' ', scalar);
    let commented = tail.len() >= 2 && tail[0] == ' ' && tail[1] == '#' && forall|at: int|
        0 <= at < value.len() ==> !text::occurs_at(scalar, " #"@, at);
    let bare = !text::has_part(scalar, " #"@) && !trim::is_space(value.last()) && forall|i: int|
        0 <= i < tail.len() ==> trim::is_space(#[trigger] tail[i]);
    let n = value.len() as int;
    if commented {
        assert(scalar.subrange(n, n + 2) =~= " #"@);
        assert(text::occurs_at(scalar, " #"@, n));
        let chosen = scalar_end(scalar);
        assert(text::occurs_at(scalar, " #"@, chosen) && (forall|j: int|
            0 <= j < chosen ==> !text::occurs_at(scalar, " #"@, j)));
        assert(chosen == n);
    }
    if bare {
        lemma_trim_end_tail(value, tail);
    }
    if commented || bare {
        assert(scalar_end(scalar) == n);
        assert(scalar.take(n) =~= value);
    }
}

proof fn lemma_trim_end_tail(value: Seq<char>, tail: Seq<char>)
    requires
        value.len() > 0,
        !trim::is_space(value.last()),
        forall|i: int| 0 <= i < tail.len() ==> trim::is_space(#[trigger] tail[i]),
    ensures
        trim::trim_end(value + tail) == value,
    decreases tail.len(),
{
    let s = value + tail;
    if tail.len() == 0 {
        assert(s =~= value);
    } else {
        assert(s.last() == tail[tail.len() - 1]);
        assert(s.drop_last() =~= value + tail.drop_last());
        assert forall|i: int| 0 <= i < tail.drop_last().len() implies trim::is_space(
            #[trigger] tail.drop_last()[i],
        ) by {
            assert(tail[i] == tail.drop_last()[i]);
        }
        lemma_trim_end_tail(value, tail.drop_last());
    }
}

/// The line whose rewriting alone gives the same document with the new image is the one rewritten, and
/// without such a line there is no repair.
pub proof fn a_sole_accepted_rewriting_is_the_repair(source: Seq<char>, image: Seq<char>, k: int)
    requires
        is_pilot_image(image),
        vstd::utf8::encode_utf8(source).len() <= 262144,
        !source.contains('\t'),
        image_lines(split::lines(source)) <= 32,
        yaml::yaml_text_at(source, "services"@, "it-tools"@, "image"@) is Some,
        yaml::yaml_text_at(source, "services"@, "it-tools"@, "image"@) != Some(image),
    ensures
        ({
            let taken = |j: int|
                attempt(source, image, j) is Some && yaml::yaml_differs_only_at(
                    source,
                    attempt(source, image, j)->0,
                    "services"@,
                    "it-tools"@,
                    "image"@,
                    image,
                );
            &&& taken(k) && (forall|j: int| #[trigger] taken(j) ==> j == k) ==> rendered(source, image)
                == Ok::<Seq<char>, RenderError>(attempt(source, image, k)->0)
            &&& forall|j: int|
                #[trigger] taken(j) && taken(k) && j != k ==> rendered(source, image) == Err::<
                    Seq<char>,
                    RenderError,
                >(RenderError::UnsupportedSource)
            &&& (forall|j: int| !#[trigger] taken(j)) ==> rendered(source, image) == Err::<
                Seq<char>,
                RenderError,
            >(RenderError::UnsupportedSource)
        }),
{
    let taken = |j: int|
        attempt(source, image, j) is Some && yaml::yaml_differs_only_at(
            source,
            attempt(source, image, j)->0,
            "services"@,
            "it-tools"@,
            "image"@,
            image,
        );
    assert forall|j: int| #[trigger] accepts(source, image, j) == taken(j) by {
    }
    if taken(k) && (forall|j: int| #[trigger] taken(j) ==> j == k) {
        assert(sole(source, image, k));
        let chosen = choose|k: int| sole(source, image, k);
        assert(accepts(source, image, chosen));
    }
    assert forall|j: int| #[trigger] taken(j) && taken(k) && j != k implies rendered(source, image)
        == Err::<Seq<char>, RenderError>(RenderError::UnsupportedSource) by {
        assert(accepts(source, image, j) && accepts(source, image, k));
    }
}

proof fn lemma_flatten_parts(lines: Seq<Seq<char>>, k: int)
    requires
        0 <= k <= lines.len(),
    ensures
        lines.flatten() == lines.take(k).flatten() + lines.skip(k).flatten(),
    decreases lines.len(),
{
    if k == 0 {
        assert(lines.skip(0) =~= lines);
        assert(lines.take(0).flatten() =~= Seq::empty());
        assert(lines.flatten() =~= lines.take(0).flatten() + lines.skip(0).flatten());
    } else {
        let rest = lines.drop_first();
        lemma_flatten_parts(rest, k - 1);
        assert(lines.take(k).drop_first() =~= rest.take(k - 1));
        assert(lines.skip(k) =~= rest.skip(k - 1));
        assert(lines.flatten() =~= lines.take(k).flatten() + lines.skip(k).flatten());
    }
}

/// Rewriting a line puts the image where its scalar stood and keeps every other line.
pub proof fn rewriting_keeps_every_other_line(source: Seq<char>, image: Seq<char>, k: int)
    ensures
        ({
            let lines = split::pieces(source);
            &&& attempt(source, image, k) is Some <==> 0 <= k < lines.len() && scalar_span(
                lines[k],
            ) is Some
            &&& attempt(source, image, k) is Some ==> attempt(source, image, k)->0
                == lines.take(k).flatten() + lines[k].take((scalar_span(lines[k])->0).0) + image
                + lines[k].skip((scalar_span(lines[k])->0).1) + lines.skip(k + 1).flatten()
        }),
{
    let lines = split::pieces(source);
    if attempt(source, image, k) is Some {
        let line = lines[k];
        let front = lines.take(k).flatten();
        let rear = lines.skip(k + 1).flatten();
        let offset = front.len() as int;
        let (start, end) = scalar_span(line)->0;
        split::lemma_pieces_flatten(source);
        lemma_span_in_line(line);
        lemma_piece_place(lines, k);
        lemma_beginning(lines, k);
        lemma_flatten_parts(lines, k);
        assert(lines.skip(k).drop_first() =~= lines.skip(k + 1));
        assert(source =~= front + line + rear);
        assert(source.take(offset + start) =~= front + line.take(start));
        assert(source.skip(offset + end) =~= line.skip(end) + rear);
        assert(attempt(source, image, k)->0 =~= front + line.take(start) + image + line.skip(end)
            + rear);
    }
}

} // verus!
