use indexer::errors::IndexError;
use indexer::git::open_store_repo;

#[test]
fn opening_a_missing_repository_fails() {
    let r = open_store_repo("/nonexistent/indexer-store");
    assert!(matches!(r, Err(IndexError::VcsOperationFailed)));
}
