use vstd::prelude::*;

use crate::errors::IndexError;

verus! {

#[verifier::external_type_specification]
#[verifier::external_body]
pub struct ExRepository(git2::Repository);

#[verifier::external_type_specification]
#[verifier::external_body]
pub struct ExGitError(git2::Error);

#[verifier::external_type_specification]
#[verifier::external_body]
pub struct ExOid(git2::Oid);

#[verifier::external_type_specification]
#[verifier::external_body]
pub struct ExIndex(git2::Index);

/// The message and identity of one commit, as the model tracks them.
pub struct CommitMeta {
    pub message: Seq<char>,
    pub author_name: Seq<char>,
    pub author_email: Seq<char>,
}

/// The model of a repository handle: whether its head is a named branch; the
/// first-parent chain of commit ids from the branch tip (position 0) down to
/// the root commit (the last position, the one commit without a parent); and
/// the message and identity of the tip commit.
pub struct RepoModel {
    pub head_is_branch: bool,
    pub chain: Seq<git2::Oid>,
    pub tip_meta: CommitMeta,
}

impl RepoModel {
    /// A first-parent chain never repeats a commit: every commit names its
    /// parent by hash, so the chain is acyclic.
    pub open spec fn wf(self) -> bool {
        forall|i: int, j: int| 0 <= i < j < self.chain.len() ==> self.chain[i] != self.chain[j]
    }
}

/// What the repository behind this handle holds on disk. The trusted
/// wrappers below state their results and effects over this model; that
/// reading holds as long as this process is the store's only mutator
/// (simultaneous invocations against one store are unsupported).
pub uninterp spec fn repo_model(repo: git2::Repository) -> RepoModel;

/// Relies on git2's `Repository::open`: opens the repository at `path`. Its
/// history is a hash chain, so the model is well-formed.
#[verifier::external_body]
fn repo_open(path: &str) -> (r: Result<git2::Repository, git2::Error>)
    ensures
        r matches Ok(repo) ==> repo_model(repo).wf(),
{
    git2::Repository::open(path)
}

/// Relies on git2's `Repository::clone`: clones the remote at `url` into
/// `path`. Its history is a hash chain, so the model is well-formed.
#[verifier::external_body]
fn repo_clone(url: &str, path: &str) -> (r: Result<git2::Repository, git2::Error>)
    ensures
        r matches Ok(repo) ==> repo_model(repo).wf(),
{
    git2::Repository::clone(url, path)
}

/// Relies on git2's `Repository::head`, `Reference::is_branch` and
/// `Reference::peel_to_commit`: `Some` exactly when the head is a named
/// branch, and then the id handed back is the branch tip — the model
/// chain's first commit.
#[verifier::external_body]
fn head_branch_tip(repo: &git2::Repository) -> (r: Result<Option<git2::Oid>, git2::Error>)
    ensures
        r matches Ok(o) ==> ((o is Some) == repo_model(*repo).head_is_branch),
        r matches Ok(o) ==> (o matches Some(tip) ==> repo_model(*repo).chain.len() > 0 && tip
            == repo_model(*repo).chain[0]),
{
    let head = repo.head()?;
    if !head.is_branch() {
        return Ok(None);
    }
    Ok(Some(head.peel_to_commit()?.id()))
}

/// Relies on git2's `Repository::find_commit` and `Commit::parent_count`:
/// how many parents the commit has. Along the model chain, the one commit
/// without a parent is the last — the root.
#[verifier::external_body]
fn commit_parent_count(repo: &git2::Repository, commit: &git2::Oid) -> (r: Result<
    usize,
    git2::Error,
>)
    ensures
        repo_model(*repo).wf() ==> (r matches Ok(n) ==> (forall|i: int|
            #![trigger repo_model(*repo).chain[i]]
            0 <= i < repo_model(*repo).chain.len() && *commit == repo_model(*repo).chain[i] ==> ((n
                == 0) == (i == repo_model(*repo).chain.len() - 1)))),
{
    Ok(repo.find_commit(*commit)?.parent_count())
}

/// Relies on git2's `Repository::find_commit` and `Commit::parent_id`: the
/// id of the commit's first parent — the model chain's next commit.
#[verifier::external_body]
fn commit_first_parent(repo: &git2::Repository, commit: &git2::Oid) -> (r: Result<
    git2::Oid,
    git2::Error,
>)
    ensures
        repo_model(*repo).wf() ==> (r matches Ok(p) ==> (forall|i: int|
            #![trigger repo_model(*repo).chain[i]]
            0 <= i < repo_model(*repo).chain.len() - 1 && *commit == repo_model(*repo).chain[i]
                ==> p == repo_model(*repo).chain[i + 1])),
{
    Ok(repo.find_commit(*commit)?.parent_id(0)?)
}

/// Relies on git2's `Repository::reset` with `ResetType::Soft`: moves the
/// branch pointer and the staged state to `target` while leaving the working
/// tree untouched. Resetting to a commit of the chain truncates the chain to
/// start there; the head stays on its branch.
#[verifier::external_body]
fn soft_reset_to(repo: &mut git2::Repository, target: &git2::Oid) -> (r: Result<(), git2::Error>)
    ensures
        repo_model(*old(repo)).wf() ==> (r is Ok ==> (forall|i: int|
            #![trigger repo_model(*old(repo)).chain[i]]
            0 <= i < repo_model(*old(repo)).chain.len() && *target == repo_model(
                *old(repo),
            ).chain[i] ==> (repo_model(*final(repo)).chain == repo_model(*old(repo)).chain.skip(i)
                && repo_model(*final(repo)).head_is_branch == repo_model(
                *old(repo),
            ).head_is_branch && repo_model(*final(repo)).wf()))),
{
    let commit = repo.find_commit(*target)?;
    repo.reset(commit.as_object(), git2::ResetType::Soft, None)
}

/// Relies on git2's `Repository::index`: the repository's staging area.
#[verifier::external_body]
fn repo_index(repo: &git2::Repository) -> (r: Result<git2::Index, git2::Error>) {
    repo.index()
}

/// Relies on git2's `Index::add_all` over the whole working directory:
/// stages every add, modification and delete relative to the index baseline.
#[verifier::external_body]
fn index_add_all(index: &mut git2::Index) -> (r: Result<(), git2::Error>) {
    index.add_all(["."].iter(), git2::IndexAddOption::DEFAULT, None)
}

/// Relies on git2's `Index::write`: writes the staged state to disk.
#[verifier::external_body]
fn index_write(index: &mut git2::Index) -> (r: Result<(), git2::Error>) {
    index.write()
}

/// Relies on git2's `Index::write_tree`: writes the staged state as a tree
/// and returns its id.
#[verifier::external_body]
fn index_write_tree(index: &mut git2::Index) -> (r: Result<git2::Oid, git2::Error>) {
    index.write_tree()
}

/// Relies on git2's `Signature::now`, `Repository::find_tree`,
/// `Repository::find_commit` and `Repository::commit`: creates a commit with
/// the given message, tree and sole parent, authored and committed under the
/// given identity, and points the current branch (via `HEAD`) at it. When
/// the parent is the branch tip, the chain grows by the new commit, which
/// the model's tip metadata then describes.
#[verifier::external_body]
fn create_commit(
    repo: &mut git2::Repository,
    message: &str,
    tree: &git2::Oid,
    parent: &git2::Oid,
    author_name: &str,
    author_email: &str,
) -> (r: Result<git2::Oid, git2::Error>)
    ensures
        (repo_model(*old(repo)).wf() && repo_model(*old(repo)).head_is_branch && repo_model(
            *old(repo),
        ).chain.len() > 0 && *parent == repo_model(*old(repo)).chain[0]) ==> (r matches Ok(c) ==> (
        repo_model(*final(repo)).head_is_branch && repo_model(*final(repo)).chain == seq![c]
            + repo_model(*old(repo)).chain && repo_model(*final(repo)).tip_meta == (CommitMeta {
            message: message@,
            author_name: author_name@,
            author_email: author_email@,
        }))),
{
    let sig = git2::Signature::now(author_name, author_email)?;
    let tree = repo.find_tree(*tree)?;
    let parent = repo.find_commit(*parent)?;
    repo.commit(Some("HEAD"), &sig, &sig, message, &tree, &[&parent])
}

/// Open the repository that backs the store.
pub fn open_store_repo(path: &str) -> (r: Result<git2::Repository, IndexError>)
    ensures
        r matches Err(e) ==> e is VcsOperationFailed,
        r matches Ok(repo) ==> repo_model(repo).wf(),
{
    match repo_open(path) {
        Ok(repo) => Ok(repo),
        Err(_) => Err(IndexError::VcsOperationFailed),
    }
}

/// Clone the fork at `url` into `path`; any clone failure (network, auth,
/// path) is reported as `CloneFailed`.
pub fn clone_fork(url: &str, path: &str) -> (r: Result<git2::Repository, IndexError>)
    ensures
        r matches Err(e) ==> e is CloneFailed,
        r matches Ok(repo) ==> repo_model(repo).wf(),
{
    match repo_clone(url, path) {
        Ok(repo) => Ok(repo),
        Err(_) => Err(IndexError::CloneFailed),
    }
}

/// Collapse the current branch onto its root commit and commit the working
/// tree as the root's sole child, with `message`, under the fixed bot
/// identity given as `author_name` / `author_email`.
///
/// The steps: resolve the branch tip (`DetachedState` when the head is not a
/// named branch, in which case nothing is touched), walk first-parent
/// ancestry to the root, soft-reset to the root, stage every working-tree
/// change, and commit the staged tree with the root as sole parent. On
/// success the branch history is exactly two commits: the old root, and a
/// new tip carrying `message` and the given identity. Any failing repository
/// primitive aborts the whole operation as `VcsOperationFailed`; a failure
/// after staging leaves staged but uncommitted changes behind for manual
/// inspection.
pub fn squash(
    repo: &mut git2::Repository,
    message: &str,
    author_name: &str,
    author_email: &str,
) -> (r: Result<(), IndexError>)
    requires
        repo_model(*old(repo)).wf(),
    ensures
        r matches Err(e) ==> (e is DetachedState || e is VcsOperationFailed),
        r matches Err(e) && e is DetachedState ==> (!repo_model(*old(repo)).head_is_branch
            && *final(repo) == *old(repo)),
        !repo_model(*old(repo)).head_is_branch ==> r is Err,
        r is Ok ==> ({
            let pre = repo_model(*old(repo));
            let post = repo_model(*final(repo));
            &&& pre.head_is_branch
            &&& post.head_is_branch
            &&& pre.chain.len() > 0
            &&& post.chain.len() == 2
            &&& post.chain[1] == pre.chain[pre.chain.len() - 1]
            &&& post.tip_meta.message == message@
            &&& post.tip_meta.author_name == author_name@
            &&& post.tip_meta.author_email == author_email@
        }),
{
    let ghost m0 = repo_model(*repo);
    let tip = match head_branch_tip(&*repo) {
        Ok(Some(tip)) => tip,
        Ok(None) => {
            return Err(IndexError::DetachedState);
        },
        Err(_) => {
            return Err(IndexError::VcsOperationFailed);
        },
    };
    proof {
        assert(m0.head_is_branch);
    }
    // Walk the first-parent ancestry from the tip to the root commit: a full
    // history replay, linear in the history's depth. It ends because the
    // chain of distinct commits is finite.
    let mut current = tip;
    let ghost mut gi: int = 0;
    loop
        invariant
            m0.wf(),
            m0 == repo_model(*repo),
            0 <= gi < m0.chain.len(),
            current == m0.chain[gi],
        ensures
            m0 == repo_model(*repo),
            0 <= gi < m0.chain.len(),
            current == m0.chain[gi],
            gi == m0.chain.len() - 1,
        decreases m0.chain.len() - gi,
    {
        let count = match commit_parent_count(&*repo, &current) {
            Ok(count) => count,
            Err(_) => {
                return Err(IndexError::VcsOperationFailed);
            },
        };
        if count == 0 {
            break;
        }
        let parent = match commit_first_parent(&*repo, &current) {
            Ok(parent) => parent,
            Err(_) => {
                return Err(IndexError::VcsOperationFailed);
            },
        };
        proof {
            gi = gi + 1;
        }
        current = parent;
    }
    let root = current;
    if soft_reset_to(repo, &root).is_err() {
        return Err(IndexError::VcsOperationFailed);
    }
    proof {
        assert(repo_model(*repo).chain =~= seq![m0.chain[m0.chain.len() - 1]]);
    }
    let ghost m1 = repo_model(*repo);
    let mut index = match repo_index(&*repo) {
        Ok(index) => index,
        Err(_) => {
            return Err(IndexError::VcsOperationFailed);
        },
    };
    if index_add_all(&mut index).is_err() {
        return Err(IndexError::VcsOperationFailed);
    }
    if index_write(&mut index).is_err() {
        return Err(IndexError::VcsOperationFailed);
    }
    let tree = match index_write_tree(&mut index) {
        Ok(tree) => tree,
        Err(_) => {
            return Err(IndexError::VcsOperationFailed);
        },
    };
    match create_commit(repo, message, &tree, &root, author_name, author_email) {
        Ok(_) => {
            proof {
                assert(repo_model(*repo).chain[1] == m1.chain[0]);
            }
            Ok(())
        },
        Err(_) => Err(IndexError::VcsOperationFailed),
    }
}

} // verus!
