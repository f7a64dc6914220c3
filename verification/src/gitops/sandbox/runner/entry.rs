//! Admission of one forced-command invocation of the worker: its command, its protected
//! configuration file and the size of what it reads.

use crate::files;
use crate::files::FileFacts;
use crate::text;
use vstd::prelude::*;

verus! {

/// Largest configuration file, in bytes.
pub const MAX_CONFIG_BYTES: usize = 16384;

/// Why an invocation is refused.
#[derive(Debug, Clone, Copy, PartialEq, Eq, Structural)]
pub enum EntryError {
    /// The command is not the worker's.
    UnsupportedCommand,
    /// The configuration path is relative.
    InvalidPath,
    /// Someone but root can change the configuration.
    NotProtected,
    /// The configuration is too large.
    ExceedsLimit,
}

/// Admits the command that the client asked for.
pub fn admit_command(command: Option<&str>) -> (r: Result<(), EntryError>)
    ensures
        r == (if (command matches Some(word) && word@ == "ai-sre-validator-v1"@) {
            Ok(())
        } else {
            Err(EntryError::UnsupportedCommand)
        }),
{
    match command {
        Some(word) => {
            if text::text_eq(word, "ai-sre-validator-v1") {
                Ok(())
            } else {
                Err(EntryError::UnsupportedCommand)
            }
        },
        None => Err(EntryError::UnsupportedCommand),
    }
}

/// Only root can change it, and it is no symbolic link.
pub open spec fn is_root_owned(facts: FileFacts) -> bool {
    facts.uid == 0 && facts.unshared() && !facts.is_symlink
}

/// Admits the configuration file by its path and what stands at and above it.
pub fn admit_config(path: &str, ancestors: &Vec<FileFacts>) -> (r: Result<(), EntryError>)
    ensures
        r == (if !files::is_absolute(path@) {
            Err(EntryError::InvalidPath)
        } else if forall|i: int| 0 <= i < ancestors@.len() ==> is_root_owned(#[trigger] ancestors@[i]) {
            Ok(())
        } else {
            Err(EntryError::NotProtected)
        }),
{
    if !files::absolute(path) {
        return Err(EntryError::InvalidPath);
    }
    let mut i: usize = 0;
    while i < ancestors.len()
        invariant
            i <= ancestors.len(),
            files::is_absolute(path@),
            forall|j: int| 0 <= j < i ==> is_root_owned(#[trigger] ancestors@[j]),
        decreases ancestors.len() - i,
    {
        let facts = &ancestors[i];
        if facts.uid != 0 || !facts.is_unshared() || facts.is_symlink {
            assert(!is_root_owned(ancestors@[i as int]));
            return Err(EntryError::NotProtected);
        }
        i += 1;
    }
    Ok(())
}

/// Admits the configuration by how much of it was read, up to one byte more than the limit.
pub fn admit_config_size(length: usize) -> (r: Result<(), EntryError>)
    ensures
        r == (if length > MAX_CONFIG_BYTES {
            Err(EntryError::ExceedsLimit)
        } else {
            Ok(())
        }),
{
    if length > MAX_CONFIG_BYTES {
        Err(EntryError::ExceedsLimit)
    } else {
        Ok(())
    }
}

/// A part of the configuration's path counts where it is root's, written by root alone, and no link.
pub proof fn root_owned_parts_are_no_links(facts: FileFacts)
    ensures
        is_root_owned(facts) <==> facts.uid == 0 && facts.mode & 0o022 == 0 && !facts.is_symlink,
{
}

/// How much is read of the worker's configuration.
pub proof fn worker_configurations_are_bounded()
    ensures
        MAX_CONFIG_BYTES == 16 * 1024,
{
}

} // verus!
