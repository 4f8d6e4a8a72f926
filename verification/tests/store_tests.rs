use indexer::errors::IndexError;
use indexer::store::{EntryDir, IndexStore};
use indexer::{subcommand, CommandOutcome, Indexer};

fn dir(name: &str, artifact: Option<&[u8]>) -> EntryDir {
    EntryDir { name: name.to_string(), artifact: artifact.map(|b| b.to_vec()) }
}

fn snapshot(store: &IndexStore) -> Vec<(String, Option<Vec<u8>>)> {
    store.dirs.iter().map(|d| (d.name.clone(), d.artifact.clone())).collect()
}

fn initialized_store(dirs: Vec<EntryDir>, history: u64) -> IndexStore {
    let mut store = IndexStore::new();
    let r = subcommand(&mut store, Indexer::Init { cloned: Some((dirs, history)) });
    assert!(matches!(r, Ok(CommandOutcome::Initialized)));
    store
}

#[test]
fn init_is_one_way() {
    let mut store = initialized_store(Vec::new(), 1);
    let r = subcommand(&mut store, Indexer::Init { cloned: Some((Vec::new(), 1)) });
    assert!(matches!(r, Err(IndexError::AlreadyInitialized)));
}

#[test]
fn init_reports_clone_failure() {
    let mut store = IndexStore::new();
    let r = subcommand(&mut store, Indexer::Init { cloned: None });
    assert!(matches!(r, Err(IndexError::CloneFailed)));
    assert!(!store.initialized);
}

#[test]
fn list_requires_initialized_store() {
    let mut store = IndexStore::new();
    let r = subcommand(&mut store, Indexer::List);
    assert!(matches!(r, Err(IndexError::NotInitialized)));
}

#[test]
fn list_reports_exactly_the_directories_with_artifacts() {
    let dirs = vec![
        dir("alpha@1", Some(b"one")),
        dir("stray", None),
        dir("beta@2", Some(b"two")),
    ];
    let mut store = initialized_store(dirs, 3);
    let r = subcommand(&mut store, Indexer::List);
    let mut names = match r {
        Ok(CommandOutcome::Listing(names)) => names,
        other => panic!("unexpected outcome: {:?}", other.err()),
    };
    names.sort();
    assert_eq!(names, vec!["alpha@1".to_string(), "beta@2".to_string()]);
}

#[test]
fn remove_requires_initialized_store() {
    let mut store = IndexStore::new();
    let r = subcommand(&mut store, Indexer::Remove { id: "alpha@1".to_string() });
    assert!(matches!(r, Err(IndexError::NotInitialized)));
}

#[test]
fn remove_of_missing_entry_changes_nothing() {
    let dirs = vec![dir("alpha@1", Some(b"one")), dir("stray", None)];
    let mut store = initialized_store(dirs, 5);
    let before = snapshot(&store);
    let history_before = store.history_len;

    let r = subcommand(&mut store, Indexer::Remove { id: "missing".to_string() });
    match r {
        Err(IndexError::EntryNotFound(name)) => assert_eq!(name, "missing"),
        other => panic!("unexpected outcome: {:?}", other.err()),
    }
    assert_eq!(snapshot(&store), before);
    assert_eq!(store.history_len, history_before);
    assert!(store.initialized);
}

#[test]
fn remove_matches_the_literal_directory_name() {
    // Entries are stored as `{id}@{major}`: a bare id must not match.
    let dirs = vec![dir("alpha@1", Some(b"one"))];
    let mut store = initialized_store(dirs, 1);
    let r = subcommand(&mut store, Indexer::Remove { id: "alpha".to_string() });
    assert!(matches!(r, Err(IndexError::EntryNotFound(_))));

    let r = subcommand(&mut store, Indexer::Remove { id: "alpha@1".to_string() });
    match r {
        Ok(CommandOutcome::Removed { message }) => assert_eq!(message, "Remove alpha@1"),
        other => panic!("unexpected outcome: {:?}", other.err()),
    }
    assert!(snapshot(&store).is_empty());
}

#[test]
fn remove_squashes_history_to_two_commits() {
    let dirs = vec![dir("alpha@1", Some(b"one")), dir("beta@2", Some(b"two"))];
    let mut store = initialized_store(dirs, 9);
    let r = subcommand(&mut store, Indexer::Remove { id: "beta@2".to_string() });
    assert!(r.is_ok());
    assert_eq!(store.history_len, 2);
    assert_eq!(snapshot(&store), vec![("alpha@1".to_string(), Some(b"one".to_vec()))]);
}
