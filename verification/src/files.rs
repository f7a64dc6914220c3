//! Decisions on observed file metadata.
//!
//! Nothing here touches a filesystem: callers observe paths without following links and
//! pass on what they saw.

use crate::text;
use crate::text::split;
use vstd::prelude::*;

verus! {

/// What one observation of a path reported.
#[derive(Debug, Clone, Copy, PartialEq, Eq, Structural)]
pub struct FileFacts {
    /// Owner.
    pub uid: u32,
    /// Permission and type bits.
    pub mode: u32,
    /// Whether it is a directory.
    pub is_dir: bool,
    /// Whether it is a regular file.
    pub is_file: bool,
    /// Whether it is a symbolic link.
    pub is_symlink: bool,
    /// Length in bytes.
    pub len: u64,
    /// Number of hard links.
    pub nlink: u64,
    /// Device.
    pub dev: u64,
    /// Inode.
    pub ino: u64,
}

impl FileFacts {
    /// Neither group nor others may write.
    pub open spec fn unshared(self) -> bool {
        self.mode & 0o022 == 0
    }

    /// Neither group nor others have any access.
    pub open spec fn private(self) -> bool {
        self.mode & 0o077 == 0
    }

    /// A root-owned directory in which only owners may replace their entries.
    pub open spec fn root_sticky(self) -> bool {
        self.uid == 0 && self.mode & 0o1000 != 0
    }

    /// The same file as another observation.
    pub open spec fn same_file(self, other: FileFacts) -> bool {
        self.dev == other.dev && self.ino == other.ino
    }

    /// Decides [`FileFacts::unshared`].
    pub fn is_unshared(&self) -> (r: bool)
        ensures
            r == self.unshared(),
    {
        self.mode & 0o022 == 0
    }

    /// Decides [`FileFacts::private`].
    pub fn is_private(&self) -> (r: bool)
        ensures
            r == self.private(),
    {
        self.mode & 0o077 == 0
    }

    /// Decides [`FileFacts::root_sticky`].
    pub fn is_root_sticky(&self) -> (r: bool)
        ensures
            r == self.root_sticky(),
    {
        self.uid == 0 && self.mode & 0o1000 != 0
    }
}

/// A path from the root.
pub open spec fn is_absolute(path: Seq<char>) -> bool {
    path.len() > 0 && path[0] == '/'
}

/// A path with a `..` part.
pub open spec fn climbs(path: Seq<char>) -> bool {
    split::fields(path, '/').contains(".."@)
}

/// Decides [`is_absolute`].
pub fn absolute(path: &str) -> (r: bool)
    ensures
        r == is_absolute(path@),
{
    let chars = text::chars_of(path);
    chars.len() > 0 && chars[0] == '/'
}

/// Decides [`climbs`].
pub fn climbing(path: &str) -> (r: bool)
    ensures
        r == climbs(path@),
{
    let parts = split::split_fields(path, '/');
    text::listed(&parts, "..")
}

/// What the permission bits say: nobody else may write, nobody else has any access.
pub proof fn permission_bits_say_who_has_access(facts: FileFacts)
    ensures
        facts.unshared() <==> (facts.mode / 16) % 2 == 0 && (facts.mode / 2) % 2 == 0,
        facts.private() <==> facts.mode % 64 == 0,
        facts.root_sticky() <==> facts.uid == 0 && (facts.mode / 512) % 2 == 1,
{
    let mode = facts.mode;
    assert((mode & 0o022 == 0) == ((mode / 16) % 2 == 0 && (mode / 2) % 2 == 0)) by (bit_vector);
    assert((mode & 0o077 == 0) == (mode % 64 == 0)) by (bit_vector);
    assert((mode & 0o1000 != 0) == ((mode / 512) % 2 == 1)) by (bit_vector);
}

/// A path is absolute where it begins with a slash, and climbs where a part of it is two dots.
pub proof fn paths_are_judged_by_their_parts(path: Seq<char>)
    ensures
        is_absolute(path) <==> path.len() > 0 && path[0] == '/',
        climbs(path) <==> exists|i: int|
            0 <= i < split::fields(path, '/').len() && #[trigger] split::fields(path, '/')[i]
                == ".."@,
{
    let parts = split::fields(path, '/');
    assert(parts.contains(".."@) == exists|i: int| 0 <= i < parts.len() && #[trigger] parts[i] == ".."@);
}

} // verus!
