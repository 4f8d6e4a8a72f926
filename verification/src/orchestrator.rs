use vstd::prelude::*;

use crate::errors::IndexError;
use crate::metadata::{read_metadata, resolved_metadata, MetadataOutcome};
use crate::store::{
    entry_name, entry_name_spec, export_transition, remove_transition, EntryDir, IndexStore,
};

verus! {

/// The four commands of the tool. Commands carry the plain data the
/// surrounding program gathered for them: `Init` the outcome of cloning the
/// fork (`None` when the clone failed), `Export` the bytes of the package
/// archive (`None` when the given path does not exist).
pub enum Indexer {
    /// Set the store up from a clone of the fork.
    Init { cloned: Option<(Vec<EntryDir>, u64)> },
    /// Enumerate the stored entries.
    List,
    /// Remove the entry whose directory name is exactly `id`.
    Remove { id: String },
    /// Add or update the entry for a package archive.
    Export { package: Option<Vec<u8>> },
}

/// What a successful command reports back, for the surrounding program to
/// print: mutating commands hand out the squash commit message they used.
pub enum CommandOutcome {
    Initialized,
    Listing(Vec<String>),
    Removed { message: String },
    Exported { entry: String, message: String },
}

/// How an export of archive `bytes` against an initialized store must come
/// out: the store transition and reported entry name on a resolved archive,
/// or the exact error and an untouched store otherwise.
pub open spec fn export_decided(
    pre: IndexStore,
    post: IndexStore,
    bytes: Seq<u8>,
    r: Result<CommandOutcome, IndexError>,
) -> bool {
    match resolved_metadata(bytes) {
        MetadataOutcome::Resolved { id, major } => (r matches Ok(o) && (
        o matches CommandOutcome::Exported { entry, message } && entry@ == entry_name_spec(
            id,
            major,
        ) && message@ == "Add/Update "@ + id)) && export_transition(pre, post, id, major, bytes),
        MetadataOutcome::BadArchive => r matches Err(e) && e is ArchiveUnreadable && post == pre,
        MetadataOutcome::NoMetadata => r matches Err(e) && e is MetadataMissing && post == pre,
        MetadataOutcome::Malformed => r matches Err(e) && e is MetadataMalformed && post == pre,
        MetadataOutcome::MissingField(f) => (r matches Err(e) && (
        e matches IndexError::FieldMissing(n) && n@ == f)) && post == pre,
        MetadataOutcome::NotStringField(f) => (r matches Err(e) && (
        e matches IndexError::FieldTypeMismatch(n) && n@ == f)) && post == pre,
        MetadataOutcome::EmptyMajor => r matches Err(e) && e is InvalidVersion && post == pre,
    }
}

/// Sequence one command against the store: the dispatcher of the tool. Every
/// failure of a lower component is terminal for the invocation and is handed
/// back unchanged.
pub fn subcommand(store: &mut IndexStore, cmd: Indexer) -> (r: Result<CommandOutcome, IndexError>)
    requires
        old(store).wf(),
        cmd matches Indexer::Init { cloned: Some(c) } ==> ((forall|i: int, j: int|
            0 <= i < j < c.0@.len() ==> c.0@[i].name@ != c.0@[j].name@) && c.1 >= 1),
    ensures
        final(store).wf(),
        match cmd {
            Indexer::Init { cloned } => {
                &&& old(store).initialized ==> (r matches Err(e) && e is AlreadyInitialized
                    && *final(store) == *old(store))
                &&& (!old(store).initialized && cloned is None) ==> (r matches Err(e) && e
                    is CloneFailed && *final(store) == *old(store))
                &&& !old(store).initialized ==> (cloned matches Some(c) ==> (r matches Ok(o) && o
                    is Initialized && final(store).initialized && final(store).dirs == c.0
                    && final(store).history_len == c.1))
            },
            Indexer::List => {
                &&& *final(store) == *old(store)
                &&& match r {
                    Ok(o) => old(store).initialized && (o matches CommandOutcome::Listing(names)
                        && old(store).lists_exactly(names@)),
                    Err(e) => !old(store).initialized && e is NotInitialized,
                }
            },
            Indexer::Remove { id } => {
                &&& !old(store).initialized ==> (r matches Err(e) && e is NotInitialized && *final(store) == *old(store))
                &&& (old(store).initialized && !old(store).contains_dir(id@)) ==> ((
                r matches Err(e) && (e matches IndexError::EntryNotFound(n) && n@ == id@))
                    && *final(store) == *old(store))
                &&& (old(store).initialized && old(store).contains_dir(id@)) ==> ((r matches Ok(o)
                    && (o matches CommandOutcome::Removed { message } && message@ == "Remove "@
                    + id@)) && remove_transition(*old(store), *final(store), id@))
            },
            Indexer::Export { package } => {
                &&& !old(store).initialized ==> (r matches Err(e) && e is NotInitialized && *final(store) == *old(store))
                &&& (old(store).initialized && package is None) ==> (r matches Err(e) && e
                    is SourceNotFound && *final(store) == *old(store))
                &&& old(store).initialized ==> (package matches Some(bytes) ==> export_decided(
                    *old(store),
                    *final(store),
                    bytes@,
                    r,
                ))
            },
        },
{
    match cmd {
        Indexer::Init { cloned } => match store.init(cloned) {
            Ok(()) => Ok(CommandOutcome::Initialized),
            Err(e) => Err(e),
        },
        Indexer::List => match store.list() {
            Ok(names) => Ok(CommandOutcome::Listing(names)),
            Err(e) => Err(e),
        },
        Indexer::Remove { id } => match store.remove_entry(&id) {
            Ok(message) => Ok(CommandOutcome::Removed { message }),
            Err(e) => Err(e),
        },
        Indexer::Export { package } => {
            if !store.initialized {
                return Err(IndexError::NotInitialized);
            }
            let bytes = match package {
                None => {
                    return Err(IndexError::SourceNotFound);
                },
                Some(bytes) => bytes,
            };
            let (id, major) = match read_metadata(&bytes) {
                Err(e) => {
                    return Err(e);
                },
                Ok(p) => p,
            };
            let message = match store.export_entry(&id, &major, &bytes) {
                Err(e) => {
                    return Err(e);
                },
                Ok(message) => message,
            };
            let entry = entry_name(&id, &major);
            Ok(CommandOutcome::Exported { entry, message })
        },
    }
}

} // verus!
