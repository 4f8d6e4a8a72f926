use vstd::prelude::*;

verus! {

/// Every failure the index tool can report. All errors are terminal for the
/// current invocation: callers surface a diagnostic and stop.
#[derive(Debug)]
pub enum IndexError {
    /// The local store does not exist yet, so the operation cannot proceed.
    NotInitialized,
    /// The local store already exists; `init` is one-way and cannot re-run.
    AlreadyInitialized,
    /// Cloning the fork failed (network, auth, or path problems).
    CloneFailed,
    /// The package file could not be opened or is not a valid archive.
    ArchiveUnreadable,
    /// The archive holds no metadata entry under the expected name.
    MetadataMissing,
    /// The metadata entry is not a valid structured document.
    MetadataMalformed,
    /// A required metadata field is absent; carries the field name.
    FieldMissing(String),
    /// A required metadata field is present but not a string; carries the field name.
    FieldTypeMismatch(String),
    /// The derived major version is empty after stripping.
    InvalidVersion,
    /// The package path handed to an export does not exist.
    SourceNotFound,
    /// No stored entry directory matches the given name; carries that name.
    EntryNotFound(String),
    /// The repository head is not a named branch.
    DetachedState,
    /// A staging, tree-write, or commit primitive failed.
    VcsOperationFailed,
}

} // verus!
