//! Archiving a directory tree: what is recorded, and under which name.

pub mod tar;

pub use tar::{archive_root, check_source, plan_entry, ArchiveStep, EntryKind};
