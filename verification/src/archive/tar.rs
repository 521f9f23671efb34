//! The rules by which a directory tree becomes an archive.
//!
//! The tree is walked without following symbolic links. Every directory and
//! every file below the source directory is recorded under a path that
//! starts with the name of the source directory itself, so that unpacking
//! recreates one directory of that name. Walking and writing are left to the
//! caller; what to do with each entry is decided here.

use crate::error::{ErrorKind, ResqryptError};
use std::path::PathBuf;
use vstd::prelude::*;

verus! {

/// What the walk found at a path.
#[derive(Debug, Clone, Copy, PartialEq, Eq, Structural)]
pub enum EntryKind {
    /// A directory.
    Directory,
    /// A regular file.
    File,
    /// Anything else, such as a symbolic link.
    Other,
}

/// What is done with one entry of the walk.
#[derive(Debug, Clone, Copy, PartialEq, Eq, Structural)]
pub enum ArchiveStep {
    /// Nothing is recorded.
    Skip,
    /// The directory is recorded.
    AppendDir,
    /// The file is recorded with its contents.
    AppendFile,
}

/// The step for an entry: the source directory itself is not recorded, nor
/// is anything that is neither a directory nor a file.
pub open spec fn spec_plan_entry(is_source: bool, kind: EntryKind) -> ArchiveStep {
    if is_source {
        ArchiveStep::Skip
    } else {
        match kind {
            EntryKind::Directory => ArchiveStep::AppendDir,
            EntryKind::File => ArchiveStep::AppendFile,
            EntryKind::Other => ArchiveStep::Skip,
        }
    }
}

/// The text of a path, as its `display` gives it, behind `prefix`.
#[verifier::external_body]
fn path_text(prefix: &str, path: &PathBuf) -> String {
    format!("{}{}", prefix, path.display())
}

/// Checks that the source of an archive is a directory; anything else is an
/// invalid argument.
pub fn check_source(source: &PathBuf, is_directory: bool) -> (res: Result<(), ResqryptError>)
    ensures
        is_directory ==> res is Ok,
        !is_directory ==> res is Err && res->Err_0.kind() == ErrorKind::InvalidArgument,
{
    if !is_directory {
        return Err(
            ResqryptError::InvalidArgument(path_text("Source is not a directory: ", source)),
        );
    }
    Ok(())
}

/// The name of the directory at the top of the archive: the name of the
/// source directory, or `archive` where its path ends in none.
pub fn archive_root(file_name: Option<String>) -> (root: String)
    ensures
        match file_name {
            Some(name) => root == name,
            None => root@ == "archive"@,
        },
{
    match file_name {
        Some(name) => name,
        None => "archive".to_string(),
    }
}

/// Decides what is done with one entry of the walk. `is_source` tells
/// whether the entry is the source directory itself, whose path relative to
/// the source is empty.
pub fn plan_entry(is_source: bool, kind: EntryKind) -> (step: ArchiveStep)
    ensures
        step == spec_plan_entry(is_source, kind),
{
    if is_source {
        return ArchiveStep::Skip;
    }
    match kind {
        EntryKind::Directory => ArchiveStep::AppendDir,
        EntryKind::File => ArchiveStep::AppendFile,
        EntryKind::Other => ArchiveStep::Skip,
    }
}

} // verus!
