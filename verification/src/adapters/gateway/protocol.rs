//! Canonical framing and validation for the target gateway stub.
//!
//! This parser performs no network or process I/O. It rejects arbitrary shell
//! text, unknown operations, unknown targets, malformed framing, and replayed
//! attempt identifiers before a gateway adapter can dispatch anything.

use crate::text;
use crate::text::split;
use vstd::prelude::*;

verus! {

/// Operations exposed by the gateway protocol.
#[derive(Debug, Clone, Copy, PartialEq, Eq, Structural)]
pub enum GatewayOperation {
    /// Read a previously recorded target receipt.
    Receipt,
    /// Request a target-side execution.
    Execute,
}

/// Validated request handed to a gateway adapter.
#[derive(Debug, Clone, PartialEq, Eq)]
pub struct GatewayRequest {
    /// Requested gateway operation.
    pub operation: GatewayOperation,
    /// Unique identifier used to prevent replay.
    pub attempt_id: String,
    /// Allowlisted target name.
    pub target: String,
    /// Opaque, non-shell payload for the target adapter.
    pub payload: String,
}

/// A validated request.
pub struct RequestView {
    /// Requested gateway operation.
    pub operation: GatewayOperation,
    /// Unique identifier used to prevent replay.
    pub attempt_id: Seq<char>,
    /// Allowlisted target name.
    pub target: Seq<char>,
    /// Opaque, non-shell payload for the target adapter.
    pub payload: Seq<char>,
}

impl View for GatewayRequest {
    type V = RequestView;

    open spec fn view(&self) -> RequestView {
        RequestView {
            operation: self.operation,
            attempt_id: self.attempt_id@,
            target: self.target@,
            payload: self.payload@,
        }
    }
}

/// Reasons a gateway request cannot cross the protocol boundary.
#[derive(Debug, Clone, Copy, PartialEq, Eq, Structural)]
pub enum GatewayError {
    /// The version, field count, or required field framing is invalid.
    InvalidFraming,
    /// The operation, target, or payload violates the allowlist.
    NotAllowed,
    /// The attempt identifier was already reserved by this protocol instance.
    Replay,
}

/// A character that could end or join a shell command.
pub open spec fn is_shell_text(c: char) -> bool {
    c == '\n' || c == '\r' || c == ';' || c == '|' || c == '&'
}

/// A payload without shell text.
pub open spec fn is_plain(payload: Seq<char>) -> bool {
    forall|i: int| 0 <= i < payload.len() ==> !is_shell_text(#[trigger] payload[i])
}

/// The operation that a word names.
pub open spec fn operation_of(word: Seq<char>) -> Option<GatewayOperation> {
    if word == "receipt"@ {
        Some(GatewayOperation::Receipt)
    } else if word == "execute"@ {
        Some(GatewayOperation::Execute)
    } else {
        None
    }
}

/// Five nonempty fields between tabs, the first of which is the version.
pub open spec fn is_framed(parts: Seq<Seq<char>>) -> bool {
    &&& parts.len() == 5
    &&& parts[0] == "AI-SRE/1"@
    &&& forall|i: int| 0 <= i < parts.len() ==> (#[trigger] parts[i]).len() > 0
}

/// What a canonical request asks for, before its attempt identifier is looked up.
pub open spec fn requested(input: Seq<char>) -> Result<RequestView, GatewayError> {
    let parts = split::fields(input, '\t');
    if !is_framed(parts) {
        Err(GatewayError::InvalidFraming)
    } else {
        match operation_of(parts[1]) {
            Some(operation) if parts[3] == "homelab-target"@ && is_plain(parts[4]) => Ok(
                RequestView {
                    operation,
                    attempt_id: parts[2],
                    target: parts[3],
                    payload: parts[4],
                },
            ),
            _ => Err(GatewayError::NotAllowed),
        }
    }
}

/// The reserved identifiers and the outcome after one more request.
pub open spec fn gateway_next(
    reserved: Set<Seq<char>>,
    input: Seq<char>,
) -> (Set<Seq<char>>, Result<RequestView, GatewayError>) {
    match requested(input) {
        Err(error) => (reserved, Err(error)),
        Ok(request) => if reserved.contains(request.attempt_id) {
            (reserved, Err(GatewayError::Replay))
        } else {
            (reserved.insert(request.attempt_id), Ok(request))
        },
    }
}

/// Stateful parser that reserves each accepted attempt identifier once.
#[derive(Debug, Clone)]
pub struct GatewayProtocol {
    seen_attempts: Vec<String>,
}

impl View for GatewayProtocol {
    type V = Set<Seq<char>>;

    closed spec fn view(&self) -> Set<Seq<char>> {
        text::texts(self.seen_attempts@).to_set()
    }
}

impl Default for GatewayProtocol {
    fn default() -> (r: Self)
        ensures
            r@ == Set::<Seq<char>>::empty(),
    {
        let protocol = GatewayProtocol { seen_attempts: Vec::new() };
        assert(protocol@ =~= Set::<Seq<char>>::empty());
        protocol
    }
}

fn plain(payload: &str) -> (r: bool)
    ensures
        r == is_plain(payload@),
{
    let chars = text::chars_of(payload);
    let mut i: usize = 0;
    while i < chars.len()
        invariant
            i <= chars.len(),
            chars@ == payload@,
            forall|j: int| 0 <= j < i ==> !is_shell_text(#[trigger] payload@[j]),
        decreases chars.len() - i,
    {
        let c = chars[i];
        if c == '\n' || c == '\r' || c == ';' || c == '|' || c == '&' {
            assert(is_shell_text(payload@[i as int]));
            return false;
        }
        i += 1;
    }
    true
}

/// Reads a request without looking up its attempt identifier.
fn read_request(input: &str) -> (r: Result<GatewayRequest, GatewayError>)
    ensures
        match r {
            Ok(request) => requested(input@) == Ok::<RequestView, GatewayError>(request@),
            Err(error) => requested(input@) == Err::<RequestView, GatewayError>(error),
        },
{
    let parts = split::split_fields(input, '\t');
    let ghost views = split::fields(input@, '\t');
    assert(text::texts(parts@) == views);
    assert(text::texts(parts@).len() == parts@.len());
    if parts.len() != 5 {
        return Err(GatewayError::InvalidFraming);
    }
    proof {
        assert forall|i: int| 0 <= i < 5 implies views[i] == parts@[i]@ by {}
    }
    if !text::text_eq(parts[0].as_str(), "AI-SRE/1") || parts[0].as_str().is_empty()
        || parts[1].as_str().is_empty() || parts[2].as_str().is_empty()
        || parts[3].as_str().is_empty() || parts[4].as_str().is_empty() {
        return Err(GatewayError::InvalidFraming);
    }
    assert(is_framed(views));
    let operation = if text::text_eq(parts[1].as_str(), "receipt") {
        GatewayOperation::Receipt
    } else if text::text_eq(parts[1].as_str(), "execute") {
        GatewayOperation::Execute
    } else {
        return Err(GatewayError::NotAllowed);
    };
    if !text::text_eq(parts[3].as_str(), "homelab-target") || !plain(parts[4].as_str()) {
        return Err(GatewayError::NotAllowed);
    }
    Ok(
        GatewayRequest {
            operation,
            attempt_id: parts[2].clone(),
            target: parts[3].clone(),
            payload: parts[4].clone(),
        },
    )
}

impl GatewayProtocol {
    /// Parse one canonical request and reserve its attempt identifier.
    pub fn parse(&mut self, input: &str) -> (r: Result<GatewayRequest, GatewayError>)
        ensures
            final(self)@ == gateway_next(old(self)@, input@).0,
            match r {
                Ok(request) => gateway_next(old(self)@, input@).1 == Ok::<
                    RequestView,
                    GatewayError,
                >(request@),
                Err(error) => gateway_next(old(self)@, input@).1 == Err::<
                    RequestView,
                    GatewayError,
                >(error),
            },
    {
        let request = match read_request(input) {
            Ok(request) => request,
            Err(error) => return Err(error),
        };
        if text::listed(&self.seen_attempts, request.attempt_id.as_str()) {
            return Err(GatewayError::Replay);
        }
        let ghost before = text::texts(self.seen_attempts@);
        let attempt = request.attempt_id.clone();
        self.seen_attempts.push(attempt);
        proof {
            let after = text::texts(self.seen_attempts@);
            assert(after =~= before.push(request.attempt_id@));
            assert(after.to_set() =~= before.to_set().insert(request.attempt_id@)) by {
                assert forall|d: Seq<char>| after.contains(d) <==> before.contains(d) || d
                    == request.attempt_id@ by {
                    if before.contains(d) {
                        let k = before.index_of(d);
                        assert(after[k] == d);
                    }
                    assert(after[before.len() as int] == request.attempt_id@);
                }
            }
        }
        Ok(request)
    }
}

/// The reserved identifiers after a sequence of requests.
pub open spec fn gateway_all(reserved: Set<Seq<char>>, inputs: Seq<Seq<char>>) -> Set<Seq<char>>
    decreases inputs.len(),
{
    if inputs.len() == 0 {
        reserved
    } else {
        gateway_next(gateway_all(reserved, inputs.drop_last()), inputs.last()).0
    }
}

/// A request that was accepted once is refused as a replay ever after, whatever came between.
pub proof fn accepted_attempts_are_never_accepted_again(
    reserved: Set<Seq<char>>,
    input: Seq<char>,
    between: Seq<Seq<char>>,
)
    requires
        gateway_next(reserved, input).1 is Ok,
    ensures
        ({
            let later = gateway_all(gateway_next(reserved, input).0, between);
            gateway_next(later, input) == (later, Err::<RequestView, GatewayError>(
                GatewayError::Replay,
            ))
        }),
{
    lemma_reserved_stay(
        gateway_next(reserved, input).0,
        between,
        requested(input)->Ok_0.attempt_id,
    );
}

proof fn lemma_reserved_stay(
    reserved: Set<Seq<char>>,
    inputs: Seq<Seq<char>>,
    attempt: Seq<char>,
)
    requires
        reserved.contains(attempt),
    ensures
        gateway_all(reserved, inputs).contains(attempt),
    decreases inputs.len(),
{
    if inputs.len() > 0 {
        lemma_reserved_stay(reserved, inputs.drop_last(), attempt);
    }
}

/// A refused request reserves nothing.
pub proof fn refused_requests_reserve_nothing(reserved: Set<Seq<char>>, input: Seq<char>)
    requires
        gateway_next(reserved, input).1 is Err,
    ensures
        gateway_next(reserved, input).0 == reserved,
{
}

/// The text of a request, as its sender writes it.
pub open spec fn request_line(
    word: Seq<char>,
    attempt_id: Seq<char>,
    payload: Seq<char>,
) -> Seq<char> {
    "AI-SRE/1\t"@ + word + "\t"@ + attempt_id + "\thomelab-target\t"@ + payload
}

proof fn lemma_request_line(word: Seq<char>, attempt_id: Seq<char>, payload: Seq<char>)
    ensures
        split::rejoined(
            seq!["AI-SRE/1"@, word, attempt_id, "homelab-target"@, payload],
            '\t',
        ) == request_line(word, attempt_id, payload),
{
    let list = seq!["AI-SRE/1"@, word, attempt_id, "homelab-target"@, payload];
    reveal_strlit("AI-SRE/1\t");
    reveal_strlit("AI-SRE/1");
    reveal_strlit("\t");
    reveal_strlit("\thomelab-target\t");
    reveal_strlit("homelab-target");
    assert("AI-SRE/1\t"@ =~= "AI-SRE/1"@.push('\t'));
    assert("\t"@ =~= seq!['\t']);
    assert("\thomelab-target\t"@ =~= seq!['\t'] + "homelab-target"@ + seq!['\t']);
    let four = list.drop_last();
    let three = four.drop_last();
    let two = three.drop_last();
    let one = two.drop_last();
    assert(split::rejoined(one, '\t') == "AI-SRE/1"@);
    assert(split::rejoined(two, '\t') =~= "AI-SRE/1\t"@ + word);
    assert(split::rejoined(three, '\t') =~= "AI-SRE/1\t"@ + word + "\t"@ + attempt_id);
    assert(split::rejoined(four, '\t') =~= ("AI-SRE/1\t"@ + word + "\t"@ + attempt_id).push('\t')
        + "homelab-target"@);
    assert(split::rejoined(list, '\t') =~= request_line(word, attempt_id, payload));
}

/// A request is read exactly from one line that names the protocol, one of the two operations, an
/// attempt, the one target and a payload without line breaks, `;`, `|` and `&`; what is read is what
/// the line says.
pub proof fn requests_are_exactly_what_their_line_says(
    input: Seq<char>,
    operation: GatewayOperation,
    attempt_id: Seq<char>,
    payload: Seq<char>,
)
    ensures
        ({
            let word = if operation == GatewayOperation::Receipt {
                "receipt"@
            } else {
                "execute"@
            };
            let sayable = attempt_id.len() > 0 && payload.len() > 0 && !attempt_id.contains('\t')
                && !payload.contains('\t') && !payload.contains('\n') && !payload.contains('\r')
                && !payload.contains(';') && !payload.contains('|') && !payload.contains('&');
            &&& sayable ==> requested(request_line(word, attempt_id, payload)) == Ok::<
                RequestView,
                GatewayError,
            >(RequestView { operation, attempt_id, target: "homelab-target"@, payload })
            &&& requested(input) == Ok::<RequestView, GatewayError>(
                RequestView { operation, attempt_id, target: "homelab-target"@, payload },
            ) ==> sayable && input == request_line(word, attempt_id, payload)
            &&& requested(input) matches Ok(request) ==> request.target == "homelab-target"@
        }),
{
    let word = if operation == GatewayOperation::Receipt {
        "receipt"@
    } else {
        "execute"@
    };
    reveal_strlit("AI-SRE/1");
    reveal_strlit("receipt");
    reveal_strlit("execute");
    reveal_strlit("homelab-target");
    assert("receipt"@[0] != "execute"@[0]);
    let list = seq!["AI-SRE/1"@, word, attempt_id, "homelab-target"@, payload];
    if attempt_id.len() > 0 && payload.len() > 0 && !attempt_id.contains('\t') && !payload.contains(
        '\t',
    ) && !payload.contains('\n') && !payload.contains('\r') && !payload.contains(';')
        && !payload.contains('|') && !payload.contains('&') {
        lemma_request_line(word, attempt_id, payload);
        assert(!"AI-SRE/1"@.contains('\t'));
        assert(!word.contains('\t'));
        assert(!"homelab-target"@.contains('\t'));
        split::fields_split_what_was_joined(list, '\t');
        assert forall|i: int| 0 <= i < payload.len() implies !is_shell_text(#[trigger] payload[i]) by {
            assert(payload.contains(payload[i]));
        }
    }
    if requested(input) == Ok::<RequestView, GatewayError>(
        RequestView { operation, attempt_id, target: "homelab-target"@, payload },
    ) {
        let parts = split::fields(input, '\t');
        split::fields_rejoin_to_the_whole(input, '\t');
        assert(parts =~= list);
        lemma_request_line(word, attempt_id, payload);
        assert(!parts[2].contains('\t'));
        assert(!parts[4].contains('\t'));
        assert forall|c: char| payload.contains(c) implies !is_shell_text(c) by {
            let i = choose|i: int| 0 <= i < payload.len() && payload[i] == c;
            assert(!is_shell_text(payload[i]));
        }
    }
}

/// A line that is not in five fields of the protocol is refused as such, and one that is but asks
/// for something else is not allowed.
pub proof fn refusals_tell_framing_from_permission(input: Seq<char>)
    ensures
        ({
            let parts = split::fields(input, '\t');
            let framed = parts.len() == 5 && parts[0] == "AI-SRE/1"@ && parts[1].len() > 0
                && parts[2].len() > 0 && parts[3].len() > 0 && parts[4].len() > 0;
            &&& requested(input) == Err::<RequestView, GatewayError>(GatewayError::InvalidFraming)
                <==> !framed
            &&& requested(input) != Err::<RequestView, GatewayError>(GatewayError::Replay)
        }),
{
    reveal_strlit("AI-SRE/1");
    let parts = split::fields(input, '\t');
    if parts.len() == 5 && parts[0] == "AI-SRE/1"@ && parts[1].len() > 0 && parts[2].len() > 0
        && parts[3].len() > 0 && parts[4].len() > 0 {
        assert(is_framed(parts));
    }
    if is_framed(parts) {
        assert(parts[1].len() > 0 && parts[2].len() > 0 && parts[3].len() > 0 && parts[4].len() > 0);
    }
}

/// An attempt is accepted exactly once: a fresh one is reserved and answered, a reserved one is a
/// replay, and a refused request changes nothing.
pub proof fn attempts_are_reserved_exactly_once(reserved: Set<Seq<char>>, input: Seq<char>)
    ensures
        ({
            let (after, answer) = gateway_next(reserved, input);
            match requested(input) {
                Ok(request) => if reserved.contains(request.attempt_id) {
                    answer == Err::<RequestView, GatewayError>(GatewayError::Replay) && after
                        == reserved
                } else {
                    answer == Ok::<RequestView, GatewayError>(request) && after == reserved.insert(
                        request.attempt_id,
                    )
                },
                Err(error) => answer == Err::<RequestView, GatewayError>(error) && after == reserved,
            }
        }),
{
}

} // verus!
