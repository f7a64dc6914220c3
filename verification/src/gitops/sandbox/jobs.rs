//! Launch intent of one worker, and the decisions that keep its durable state exclusive.

use super::SandboxError;
use crate::digest;
use crate::files;
use crate::files::FileFacts;
use crate::json;
use crate::text;
use crate::text::number;
use vstd::prelude::*;

verus! {

/// Largest number of remembered requests. Bounded retention fails closed rather than
/// silently forgetting replay protection.
pub const MAX_REQUESTS: i64 = 4096;

/// The snapshot directory that a launched job owns.
pub struct SnapshotLease {
    /// Canonical path.
    pub root: String,
    /// Device.
    pub device: u64,
    /// Inode.
    pub inode: u64,
    /// Owner.
    pub uid: u32,
}

/// One recorded launch.
pub struct PendingJob {
    /// Container name.
    pub name: String,
    /// Ownership label.
    pub token: String,
    /// Snapshot that the launch owns.
    pub snapshot: SnapshotLease,
    /// Container identity, once it is known.
    pub container_id: Option<String>,
}

/// Where a snapshot directory stands.
pub struct LeaseLocation {
    /// Parent of its path.
    pub parent: Option<String>,
    /// Last part of its path.
    pub file_name: Option<String>,
    /// Canonical directory for temporary files.
    pub temporary: String,
}

/// What was found at the path of a snapshot directory.
#[derive(Debug, Clone, Copy, PartialEq, Eq, Structural)]
pub enum Found {
    /// Nothing is there.
    Absent,
    /// Something is there.
    Present(FileFacts),
    /// The path could not be observed.
    Unreadable,
}

/// What removal has to do.
#[derive(Debug, Clone, Copy, PartialEq, Eq, Structural)]
pub enum Removal {
    /// The directory is gone; only its parent is to be made durable.
    SyncParent,
    /// The directory is the leased one; remove it, then make its parent durable.
    Remove,
}

/// A name that snapshots are created under.
pub open spec fn is_snapshot_name(name: Seq<char>) -> bool {
    "ai-sre-u9-snapshot-"@.is_prefix_of(name) && text::Alphabet::JobName.spells(name)
}

impl LeaseLocation {
    /// A snapshot name directly below the directory for temporary files.
    pub open spec fn expected(self) -> bool {
        &&& (self.parent matches Some(parent) && parent@ == self.temporary@)
        &&& (self.file_name matches Some(name) && is_snapshot_name(name@))
    }

    /// Decides [`LeaseLocation::expected`].
    pub fn check(&self) -> (r: Result<(), SandboxError>)
        ensures
            self.expected() ==> r is Ok,
            !self.expected() ==> r == Err::<(), SandboxError>(SandboxError::Unavailable),
    {
        match (&self.parent, &self.file_name) {
            (Some(parent), Some(name)) => {
                if text::text_eq(parent.as_str(), self.temporary.as_str()) && text::starts_with(
                    name.as_str(),
                    "ai-sre-u9-snapshot-",
                ) && text::Alphabet::JobName.spelled(name.as_str()) {
                    Ok(())
                } else {
                    Err(SandboxError::Unavailable)
                }
            },
            _ => Err(SandboxError::Unavailable),
        }
    }
}

impl SnapshotLease {
    /// The directory found is the leased one, still private.
    pub open spec fn is_leased(self, facts: FileFacts) -> bool {
        &&& facts.is_dir
        &&& facts.private()
        &&& facts.dev == self.device
        &&& facts.ino == self.inode
        &&& facts.uid == self.uid
    }

    /// The lease as JSON, members in declaration order.
    pub open spec fn json(self) -> Seq<char> {
        json::object_text(
            seq![
                json::member("root"@, json::json_string(self.root@)),
                json::member("device"@, number::decimal(self.device as nat)),
                json::member("inode"@, number::decimal(self.inode as nat)),
                json::member("uid"@, number::decimal(self.uid as nat)),
            ],
        )
    }

    /// Writes the lease as JSON.
    pub fn json_text(&self) -> (r: String)
        ensures
            r@ == self.json(),
    {
        let m = vec![
            json::text_member("root", self.root.as_str()),
            json::number_member("device", self.device),
            json::number_member("inode", self.inode),
            json::number_member("uid", self.uid as u64),
        ];
        let out = json::object(&m);
        assert(text::texts(m@) =~= seq![m@[0]@, m@[1]@, m@[2]@, m@[3]@]);
        out
    }

    /// Leases a private directory at an expected place, by its canonical path.
    pub fn capture(facts: &FileFacts, canonical: String, location: &LeaseLocation) -> (r: Result<
        Self,
        SandboxError,
    >)
        ensures
            match r {
                Ok(lease) => facts.is_dir && facts.private() && location.expected() && lease.root
                    == canonical && lease.is_leased(*facts),
                Err(error) => !(facts.is_dir && facts.private() && location.expected()) && error
                    == SandboxError::Unavailable,
            },
    {
        if !facts.is_dir || !facts.is_private() || location.check().is_err() {
            return Err(SandboxError::Unavailable);
        }
        Ok(
            SnapshotLease {
                root: canonical,
                device: facts.dev,
                inode: facts.ino,
                uid: facts.uid,
            },
        )
    }

    /// Decides how a leased directory is removed. A replacement at its path never is.
    pub fn removal(&self, location: &LeaseLocation, found: Found) -> (r: Result<
        Removal,
        SandboxError,
    >)
        ensures
            r == (if !location.expected() {
                Err(SandboxError::Unavailable)
            } else {
                match found {
                    Found::Absent => Ok(Removal::SyncParent),
                    Found::Unreadable => Err(SandboxError::Unavailable),
                    Found::Present(facts) => if self.is_leased(facts) {
                        Ok(Removal::Remove)
                    } else {
                        Err(SandboxError::Unavailable)
                    },
                }
            }),
    {
        if location.check().is_err() {
            return Err(SandboxError::Unavailable);
        }
        match found {
            Found::Absent => Ok(Removal::SyncParent),
            Found::Unreadable => Err(SandboxError::Unavailable),
            Found::Present(facts) => {
                if !facts.is_dir || !facts.is_private() || facts.dev != self.device || facts.ino
                    != self.inode || facts.uid != self.uid {
                    Err(SandboxError::Unavailable)
                } else {
                    Ok(Removal::Remove)
                }
            },
        }
    }
}

/// A directory above durable state: root's or the owner's, and safe from other writers.
pub open spec fn is_safe_ancestor(ancestor: FileFacts, owner: u32) -> bool {
    (ancestor.uid == 0 || ancestor.uid == owner) && (ancestor.unshared() || ancestor.root_sticky())
}

/// A private absolute state directory below safe ancestors.
pub open spec fn is_state_directory(
    path: Seq<char>,
    facts: FileFacts,
    ancestors: Seq<FileFacts>,
) -> bool {
    &&& files::is_absolute(path)
    &&& facts.is_dir
    &&& facts.private()
    &&& forall|i: int|
        0 <= i < ancestors.len() ==> is_safe_ancestor(#[trigger] ancestors[i], facts.uid)
}

/// Decides [`is_state_directory`].
pub fn admit_state_directory(path: &str, facts: &FileFacts, ancestors: &Vec<FileFacts>) -> (r:
    Result<(), SandboxError>)
    ensures
        is_state_directory(path@, *facts, ancestors@) ==> r is Ok,
        !is_state_directory(path@, *facts, ancestors@) ==> r == Err::<(), SandboxError>(
            SandboxError::Unavailable,
        ),
{
    if !files::absolute(path) || !facts.is_dir || !facts.is_private() {
        return Err(SandboxError::Unavailable);
    }
    let mut i: usize = 0;
    while i < ancestors.len()
        invariant
            i <= ancestors.len(),
            forall|j: int| 0 <= j < i ==> is_safe_ancestor(#[trigger] ancestors@[j], facts.uid),
        decreases ancestors.len() - i,
    {
        let ancestor = ancestors[i];
        if (ancestor.uid != 0 && ancestor.uid != facts.uid) || (!ancestor.is_unshared()
            && !ancestor.is_root_sticky()) {
            assert(!is_safe_ancestor(ancestors@[i as int], facts.uid));
            return Err(SandboxError::Unavailable);
        }
        i += 1;
    }
    Ok(())
}

/// Accepts a database file: a private regular file of the owner with a single link.
pub fn admit_database(facts: &FileFacts, owner: u32) -> (r: Result<(), SandboxError>)
    ensures
        facts.is_file && facts.nlink == 1 && facts.uid == owner && facts.private() ==> r is Ok,
        !(facts.is_file && facts.nlink == 1 && facts.uid == owner && facts.private()) ==> r
            == Err::<(), SandboxError>(SandboxError::Unavailable),
{
    if !facts.is_file || facts.nlink != 1 || facts.uid != owner || !facts.is_private() {
        return Err(SandboxError::Unavailable);
    }
    Ok(())
}

/// Admits one more request while retention has room. The caller then records its nonce; one
/// that is recorded already makes the request fail.
pub fn admit_request(recorded: i64) -> (r: Result<(), SandboxError>)
    ensures
        recorded < MAX_REQUESTS ==> r is Ok,
        recorded >= MAX_REQUESTS ==> r == Err::<(), SandboxError>(SandboxError::Unavailable),
{
    if recorded >= MAX_REQUESTS {
        return Err(SandboxError::Unavailable);
    }
    Ok(())
}

/// What binding a runtime has to record.
#[derive(Debug, Clone, Copy, PartialEq, Eq, Structural)]
pub enum Binding {
    /// The same identity is recorded already.
    Keep,
    /// Nothing is recorded; record the identity.
    Record,
}

/// Binds durable state to one runtime storage: the first one, and only while no launch is
/// pending; never another one.
pub fn bind_runtime(stored: Option<&str>, identity: &str, pending: bool) -> (r: Result<
    Binding,
    SandboxError,
>)
    ensures
        r == (match stored {
            Some(stored) => if stored@ == identity@ {
                Ok(Binding::Keep)
            } else {
                Err(SandboxError::Unavailable)
            },
            None => if pending {
                Err(SandboxError::Unavailable)
            } else {
                Ok(Binding::Record)
            },
        }),
{
    match stored {
        Some(stored) => {
            if text::text_eq(stored, identity) {
                Ok(Binding::Keep)
            } else {
                Err(SandboxError::Unavailable)
            }
        },
        None => {
            if pending {
                Err(SandboxError::Unavailable)
            } else {
                Ok(Binding::Record)
            }
        },
    }
}

/// The name of a launch.
pub open spec fn job_name(namespace: Seq<char>, sequence: int) -> Seq<char> {
    "u9-"@ + namespace + "-"@ + number::signed_decimal(sequence)
}

/// Allocates the next launch: its sequence number and name.
pub fn next_job(namespace: &str, sequence: i64) -> (r: Result<(i64, String), SandboxError>)
    ensures
        match r {
            Ok((next, name)) => 0 <= sequence < i64::MAX && next == sequence + 1 && name@
                == job_name(namespace@, next as int),
            Err(error) => !(0 <= sequence < i64::MAX) && error == SandboxError::Unavailable,
        },
{
    let next: i64 = match sequence.checked_add(1) {
        Some(next) => next,
        None => return Err(SandboxError::Unavailable),
    };
    if next <= 0 {
        return Err(SandboxError::Unavailable);
    }
    let mut name = "u9-".to_owned();
    name.append(namespace);
    name.append("-");
    let digits = number::signed_decimal_text(next);
    name.append(digits.as_str());
    Ok((next, name))
}

/// An opaque identity drawn from entropy: 64 lowercase hexadecimal digits.
pub fn nonce(entropy: &[u8]) -> (r: String)
    ensures
        r@ == number::hex(digest::sha256(entropy@)),
        r@.len() == 64,
        text::Alphabet::LowerHex.spells(r@),
{
    let hash = digest::sha256_bytes(entropy);
    proof {
        number::lemma_hex_shape(digest::sha256(entropy@));
    }
    number::hex_text(hash.as_slice())
}

/// A change of a recorded launch counts only where it changed exactly one record.
pub fn changed_one(count: usize) -> (r: Result<(), SandboxError>)
    ensures
        count == 1 ==> r is Ok,
        count != 1 ==> r == Err::<(), SandboxError>(SandboxError::Unavailable),
{
    if count != 1 {
        return Err(SandboxError::Unavailable);
    }
    Ok(())
}

/// Launches of one namespace never share a name.
pub proof fn job_names_are_unique(namespace: Seq<char>, first: int, second: int)
    requires
        first > 0,
        second > 0,
        job_name(namespace, first) == job_name(namespace, second),
    ensures
        first == second,
{
    let front = "u9-"@ + namespace + "-"@;
    let a = number::signed_decimal(first);
    let b = number::signed_decimal(second);
    assert((front + a).skip(front.len() as int) =~= a);
    assert((front + b).skip(front.len() as int) =~= b);
    number::lemma_decimal_value(first as nat);
    number::lemma_decimal_value(second as nat);
}

/// The JSON of a lease says every field of it.
pub proof fn leases_say_every_field(lease: SnapshotLease)
    ensures
        ({
            let text = lease.json();
            &&& text[0] == '{' && text.last() == '}'
            &&& text::has_part(text, "\"root\":"@ + json::json_string(lease.root@))
            &&& text::has_part(text, "\"device\":"@ + number::decimal(lease.device as nat))
            &&& text::has_part(text, "\"inode\":"@ + number::decimal(lease.inode as nat))
            &&& text::has_part(text, "\"uid\":"@ + number::decimal(lease.uid as nat))
        }),
{
    let items = seq![
        json::member("root"@, json::json_string(lease.root@)),
        json::member("device"@, number::decimal(lease.device as nat)),
        json::member("inode"@, number::decimal(lease.inode as nat)),
        json::member("uid"@, number::decimal(lease.uid as nat)),
    ];
    json::objects_hold_their_members(items);
    assert(lease.json() == json::object_text(items));
    reveal_strlit("\"");
    reveal_strlit("\":");
    reveal_strlit("root");
    reveal_strlit("\"root\":");
    assert(items[0] =~= "\"root\":"@ + json::json_string(lease.root@));
    reveal_strlit("device");
    reveal_strlit("\"device\":");
    assert(items[1] =~= "\"device\":"@ + number::decimal(lease.device as nat));
    reveal_strlit("inode");
    reveal_strlit("\"inode\":");
    assert(items[2] =~= "\"inode\":"@ + number::decimal(lease.inode as nat));
    reveal_strlit("uid");
    reveal_strlit("\"uid\":");
    assert(items[3] =~= "\"uid\":"@ + number::decimal(lease.uid as nat));
}

/// A snapshot directory is leased where it stands in the temporary directory under a snapshot name,
/// and stays leased where it is still the same private directory of the same owner.
pub proof fn leases_hold_one_private_directory(
    lease: SnapshotLease,
    facts: FileFacts,
    location: LeaseLocation,
)
    ensures
        lease.is_leased(facts) <==> facts.is_dir && facts.mode & 0o077 == 0 && facts.dev
            == lease.device && facts.ino == lease.inode && facts.uid == lease.uid,
        location.expected() <==> location.parent is Some && location.parent->0@
            == location.temporary@ && location.file_name is Some && is_snapshot_name(
            location.file_name->0@,
        ),
{
}

/// A snapshot name is the fixed beginning and letters, digits and hyphens.
pub proof fn snapshot_names_are_plain(rest: Seq<char>, name: Seq<char>)
    ensures
        is_snapshot_name("ai-sre-u9-snapshot-"@ + rest) ==> forall|i: int|
            0 <= i < rest.len() ==> ('0' <= #[trigger] rest[i] <= '9') || ('a' <= rest[i] <= 'z')
                || ('A' <= rest[i] <= 'Z') || rest[i] == '-',
        is_snapshot_name(name) ==> name == "ai-sre-u9-snapshot-"@ + name.skip(19),
{
    let front = "ai-sre-u9-snapshot-"@;
    reveal_strlit("ai-sre-u9-snapshot-");
    if is_snapshot_name(front + rest) {
        assert forall|i: int| 0 <= i < rest.len() implies ('0' <= #[trigger] rest[i] <= '9') || ('a'
            <= rest[i] <= 'z') || ('A' <= rest[i] <= 'Z') || rest[i] == '-' by {
            assert((front + rest)[19 + i] == rest[i]);
            assert(text::Alphabet::JobName.holds((front + rest)[19 + i]));
        }
    }
    if is_snapshot_name(name) {
        assert(name =~= front + name.skip(19));
    }
}

/// Durable state lies in an absolute private directory whose ancestors are root's or the owner's,
/// and which nobody else may write to unless it is a sticky directory of root.
pub proof fn state_directories_are_private(
    path: Seq<char>,
    facts: FileFacts,
    ancestors: Seq<FileFacts>,
)
    ensures
        is_state_directory(path, facts, ancestors) <==> path.len() >= 1 && path[0] == '/'
            && facts.is_dir && facts.mode & 0o077 == 0 && forall|i: int|
            0 <= i < ancestors.len() ==> ((#[trigger] ancestors[i]).uid == 0 || ancestors[i].uid
                == facts.uid) && (ancestors[i].mode & 0o022 == 0 || (ancestors[i].uid == 0
                && ancestors[i].mode & 0o1000 != 0)),
{
    assert forall|i: int| 0 <= i < ancestors.len() implies is_safe_ancestor(
        #[trigger] ancestors[i],
        facts.uid,
    ) == ((ancestors[i].uid == 0 || ancestors[i].uid == facts.uid) && (ancestors[i].mode & 0o022 == 0
        || (ancestors[i].uid == 0 && ancestors[i].mode & 0o1000 != 0))) by {}
}

/// A job is named by its namespace and sequence number, and can be named in a container.
pub proof fn job_names_carry_namespace_and_number(namespace: Seq<char>, sequence: int)
    requires
        sequence >= 0,
    ensures
        job_name(namespace, sequence).take(3) == "u9-"@,
        job_name(namespace, sequence).skip(3) == namespace + "-"@ + number::decimal(
            sequence as nat,
        ),
{
    reveal_strlit("u9-");
    assert(job_name(namespace, sequence).take(3) =~= "u9-"@);
    assert(job_name(namespace, sequence).skip(3) =~= namespace + "-"@ + number::decimal(
        sequence as nat,
    ));
}

/// How many requests durable state retains.
pub proof fn retained_requests_are_bounded()
    ensures
        MAX_REQUESTS == 4096,
{
}

} // verus!
