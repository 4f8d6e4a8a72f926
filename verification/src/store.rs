use vstd::prelude::*;

use crate::errors::IndexError;

verus! {

/// One entry directory of the store: a directory name (`{id}@{major}` for
/// entries this tool created) and the artifact file it holds, if any. A
/// directory without an artifact can occur (a stray folder in the clone) and
/// is never listed.
pub struct EntryDir {
    pub name: String,
    pub artifact: Option<Vec<u8>>,
}

/// The local mirror of the package index: the set of entry directories plus
/// the shape of the backing branch history. `history_len` counts the commits
/// from the root to the branch tip, inclusive; every mutating operation
/// squashes the branch, so it is exactly 2 afterwards.
pub struct IndexStore {
    pub initialized: bool,
    pub dirs: Vec<EntryDir>,
    pub history_len: u64,
}

/// The directory name under which an entry is stored: `{id}@{major}`.
pub open spec fn entry_name_spec(id: Seq<char>, major: Seq<char>) -> Seq<char> {
    id + seq!['@'] + major
}

/// Build the `{id}@{major}` directory name of an entry.
pub fn entry_name(id: &String, major: &String) -> (r: String)
    ensures
        r@ == entry_name_spec(id@, major@),
{
    let mut s = id.clone();
    s.push('@');
    s.append(major.as_str());
    proof {
        assert(s@ =~= entry_name_spec(id@, major@));
    }
    s
}

impl IndexStore {
    /// Well-formedness: directory names are unique, an initialized store has
    /// at least the root commit, and an uninitialized store holds nothing.
    pub open spec fn wf(self) -> bool {
        &&& forall|i: int, j: int|
            0 <= i < j < self.dirs@.len() ==> self.dirs@[i].name@ != self.dirs@[j].name@
        &&& (self.initialized ==> self.history_len >= 1)
        &&& (!self.initialized ==> self.dirs@.len() == 0)
    }

    /// Whether some entry directory carries this exact name.
    pub open spec fn contains_dir(self, name: Seq<char>) -> bool {
        exists|i: int| 0 <= i < self.dirs@.len() && self.dirs@[i].name@ == name
    }

    /// The position of the directory with this name (meaningful only when
    /// `contains_dir` holds; unique once `wf` holds).
    pub open spec fn index_of(self, name: Seq<char>) -> int {
        choose|i: int| 0 <= i < self.dirs@.len() && self.dirs@[i].name@ == name
    }

    /// The artifact stored under this directory name, if any.
    pub open spec fn artifact_of(self, name: Seq<char>) -> Option<Seq<u8>> {
        match self.dirs@[self.index_of(name)].artifact {
            Some(v) => Some(v@),
            None => None,
        }
    }

    /// A directory that both exists and holds an artifact: exactly what
    /// `list` reports.
    pub open spec fn has_artifact(self, name: Seq<char>) -> bool {
        self.contains_dir(name) && self.artifact_of(name) is Some
    }

    /// `names` is exactly the set of directories holding an artifact: sound,
    /// complete, and free of repetitions — so order-insensitive by
    /// construction.
    pub open spec fn lists_exactly(self, names: Seq<String>) -> bool {
        &&& forall|j: int| 0 <= j < names.len() ==> self.has_artifact(names[j]@)
        &&& forall|n: Seq<char>|
            self.has_artifact(n) ==> exists|j: int| 0 <= j < names.len() && names[j]@ == n
        &&& forall|j: int, k: int| 0 <= j < k < names.len() ==> names[j]@ != names[k]@
    }

    pub proof fn lemma_index_of(self, name: Seq<char>)
        requires
            self.contains_dir(name),
        ensures
            0 <= self.index_of(name) < self.dirs@.len(),
            self.dirs@[self.index_of(name)].name@ == name,
    {
        let i = choose|i: int| 0 <= i < self.dirs@.len() && self.dirs@[i].name@ == name;
        assert(0 <= i < self.dirs@.len() && self.dirs@[i].name@ == name);
    }

    /// With unique names, any position holding `name` is `index_of(name)`.
    pub proof fn lemma_index_unique(self, i: int, name: Seq<char>)
        requires
            self.wf(),
            0 <= i < self.dirs@.len(),
            self.dirs@[i].name@ == name,
        ensures
            self.contains_dir(name),
            self.index_of(name) == i,
    {
        assert(self.contains_dir(name));
        self.lemma_index_of(name);
    }
}

/// The effect of a successful removal of the directory named `name`: that
/// directory is gone, every other directory and its artifact are untouched,
/// and the branch history is squashed to root plus one commit.
pub open spec fn remove_transition(pre: IndexStore, post: IndexStore, name: Seq<char>) -> bool {
    &&& pre.initialized && post.initialized
    &&& pre.contains_dir(name)
    &&& !post.contains_dir(name)
    &&& forall|n: Seq<char>| n != name ==> post.contains_dir(n) == pre.contains_dir(n)
    &&& forall|n: Seq<char>|
        n != name && pre.contains_dir(n) ==> post.artifact_of(n) == pre.artifact_of(n)
    &&& post.history_len == 2
}

/// The effect of a successful export of `artifact` under id `id` and major
/// version `major`: the `{id}@{major}` directory exists and holds exactly
/// `artifact`, every other directory and its artifact are untouched, and the
/// branch history is squashed to root plus one commit.
pub open spec fn export_transition(
    pre: IndexStore,
    post: IndexStore,
    id: Seq<char>,
    major: Seq<char>,
    artifact: Seq<u8>,
) -> bool {
    &&& pre.initialized && post.initialized
    &&& post.contains_dir(entry_name_spec(id, major))
    &&& post.artifact_of(entry_name_spec(id, major)) == Some(artifact)
    &&& forall|n: Seq<char>|
        n != entry_name_spec(id, major) ==> post.contains_dir(n) == pre.contains_dir(n)
    &&& forall|n: Seq<char>|
        n != entry_name_spec(id, major) && pre.contains_dir(n) ==> post.artifact_of(n)
            == pre.artifact_of(n)
    &&& post.history_len == 2
}

/// Find the position of the directory whose name equals `name` exactly.
fn find_dir(dirs: &Vec<EntryDir>, name: &String) -> (r: Option<usize>)
    ensures
        match r {
            Some(i) => 0 <= i < dirs@.len() && dirs@[i as int].name@ == name@,
            None => forall|j: int| 0 <= j < dirs@.len() ==> dirs@[j].name@ != name@,
        },
{
    let mut k: usize = 0;
    while k < dirs.len()
        invariant
            k <= dirs@.len(),
            forall|j: int| 0 <= j < k ==> dirs@[j].name@ != name@,
        decreases dirs@.len() - k,
    {
        if dirs[k].name == *name {
            return Some(k);
        }
        k += 1;
    }
    None
}

impl IndexStore {
    /// A fresh, uninitialized store.
    pub fn new() -> (r: IndexStore)
        ensures
            r.wf(),
            !r.initialized,
            r.dirs@.len() == 0,
    {
        IndexStore { initialized: false, dirs: Vec::new(), history_len: 0 }
    }

    /// Initialize the store from a clone of the fork. `cloned` is the clone
    /// outcome: `None` when cloning failed, otherwise the entry directories
    /// the fork already held and the depth of its history. One-way: a store
    /// that already exists is never re-initialized.
    pub fn init(&mut self, cloned: Option<(Vec<EntryDir>, u64)>) -> (r: Result<(), IndexError>)
        requires
            old(self).wf(),
            cloned matches Some(c) ==> (forall|i: int, j: int|
                0 <= i < j < c.0@.len() ==> c.0@[i].name@ != c.0@[j].name@) && c.1 >= 1,
        ensures
            final(self).wf(),
            old(self).initialized ==> (r matches Err(e) && e is AlreadyInitialized && *final(self)
                == *old(self)),
            !old(self).initialized && cloned is None ==> (r matches Err(e) && e is CloneFailed
                && *final(self) == *old(self)),
            !old(self).initialized ==> (cloned matches Some(c) ==> (r is Ok
                && final(self).initialized && final(self).dirs == c.0 && final(self).history_len
                == c.1)),
    {
        if self.initialized {
            return Err(IndexError::AlreadyInitialized);
        }
        match cloned {
            None => Err(IndexError::CloneFailed),
            Some((dirs, history)) => {
                self.initialized = true;
                self.dirs = dirs;
                self.history_len = history;
                Ok(())
            },
        }
    }

    /// Enumerate the entries: exactly the directories that hold an artifact,
    /// each exactly once, in no promised order. A stray directory without an
    /// artifact is never reported.
    #[verifier::rlimit(50)]
    pub fn list(&self) -> (r: Result<Vec<String>, IndexError>)
        requires
            self.wf(),
        ensures
            match r {
                Ok(names) => self.initialized && self.lists_exactly(names@),
                Err(e) => !self.initialized && e is NotInitialized,
            },
    {
        if !self.initialized {
            return Err(IndexError::NotInitialized);
        }
        let mut names: Vec<String> = Vec::new();
        let mut m: usize = 0;
        while m < self.dirs.len()
            invariant
                self.wf(),
                m <= self.dirs@.len(),
                forall|j: int|
                    #![trigger names@[j]]
                    0 <= j < names@.len() ==> self.has_artifact(names@[j]@),
                forall|j: int|
                    #![trigger names@[j]]
                    0 <= j < names@.len() ==> exists|i: int|
                        #![trigger self.dirs@[i]]
                        0 <= i < m && names@[j]@ == self.dirs@[i].name@,
                forall|i: int|
                    #![trigger self.dirs@[i]]
                    0 <= i < m && self.dirs@[i].artifact is Some ==> exists|j: int|
                        #![trigger names@[j]]
                        0 <= j < names@.len() && names@[j]@ == self.dirs@[i].name@,
                forall|j: int, k: int| 0 <= j < k < names@.len() ==> names@[j]@ != names@[k]@,
            decreases self.dirs@.len() - m,
        {
            let ghost pre_names = names@;
            if self.dirs[m].artifact.is_some() {
                proof {
                    self.lemma_index_unique(m as int, self.dirs@[m as int].name@);
                    assert(self.has_artifact(self.dirs@[m as int].name@));
                    assert forall|j: int| 0 <= j < names@.len() implies names@[j]@
                        != self.dirs@[m as int].name@ by {
                        let i = choose|i: int|
                            #![trigger self.dirs@[i]]
                            0 <= i < m && names@[j]@ == self.dirs@[i].name@;
                        assert(self.dirs@[i].name@ != self.dirs@[m as int].name@);
                    }
                }
                names.push(self.dirs[m].name.clone());
                proof {
                    assert forall|i: int|
                        #![trigger self.dirs@[i]]
                        0 <= i <= m && self.dirs@[i].artifact is Some implies exists|j: int|
                        #![trigger names@[j]]
                        0 <= j < names@.len() && names@[j]@ == self.dirs@[i].name@ by {
                        if i < m {
                            let j = choose|j: int|
                                #![trigger pre_names[j]]
                                0 <= j < pre_names.len() && pre_names[j]@ == self.dirs@[i].name@;
                            assert(names@[j]@ == self.dirs@[i].name@);
                        } else {
                            assert(names@[names@.len() - 1]@ == self.dirs@[i].name@);
                        }
                    }
                }
            }
            m += 1;
        }
        proof {
            assert forall|n: Seq<char>| self.has_artifact(n) implies exists|j: int|
                0 <= j < names@.len() && names@[j]@ == n by {
                self.lemma_index_of(n);
                assert(self.dirs@[self.index_of(n)].artifact is Some);
            }
            assert(forall|j: int| 0 <= j < names@.len() ==> self.has_artifact(names@[j]@));
            assert(forall|j: int, k: int| 0 <= j < k < names@.len() ==> names@[j]@ != names@[k]@);
            assert(self.lists_exactly(names@));
        }
        Ok(names)
    }

    /// Remove the entry whose directory name equals `id` exactly (callers
    /// that store entries as `{id}@{major}` must pass that full name). On
    /// success the directory is deleted and the history squashed; the commit
    /// message `Remove {id}` is returned for the squasher. A miss changes
    /// nothing at all.
    pub fn remove_entry(&mut self, id: &String) -> (r: Result<String, IndexError>)
        requires
            old(self).wf(),
        ensures
            final(self).wf(),
            !old(self).initialized ==> (r matches Err(e) && e is NotInitialized && *final(self)
                == *old(self)),
            old(self).initialized && !old(self).contains_dir(id@) ==> ((r matches Err(e) && (
            e matches IndexError::EntryNotFound(n) && n@ == id@)) && *final(self) == *old(self)),
            old(self).initialized && old(self).contains_dir(id@) ==> ((r matches Ok(msg) && msg@
                == "Remove "@ + id@) && remove_transition(*old(self), *final(self), id@)),
    {
        if !self.initialized {
            return Err(IndexError::NotInitialized);
        }
        match find_dir(&self.dirs, id) {
            None => Err(IndexError::EntryNotFound(id.clone())),
            Some(i) => {
                proof {
                    old(self).lemma_index_unique(i as int, id@);
                }
                let ghost pre = *self;
                self.dirs.remove(i);
                self.history_len = 2;
                proof {
                    self.lemma_remove_effect(pre, i as int, id@);
                }
                Ok(String::from_str("Remove ").concat(id.as_str()))
            },
        }
    }

    /// What deleting position `i` (holding `name`) does to the directory set:
    /// `name` is gone, everything else keeps its place and artifact.
    proof fn lemma_remove_effect(self, pre: IndexStore, i: int, name: Seq<char>)
        requires
            pre.wf(),
            pre.initialized,
            0 <= i < pre.dirs@.len(),
            pre.dirs@[i].name@ == name,
            self.dirs@ == pre.dirs@.remove(i),
            self.initialized == pre.initialized,
            self.history_len >= 1,
        ensures
            self.wf(),
            !self.contains_dir(name),
            forall|n: Seq<char>| n != name ==> self.contains_dir(n) == pre.contains_dir(n),
            forall|n: Seq<char>|
                n != name && pre.contains_dir(n) ==> self.artifact_of(n) == pre.artifact_of(n),
    {
        assert forall|a: int, b: int|
            0 <= a < b < self.dirs@.len() implies self.dirs@[a].name@ != self.dirs@[b].name@ by {
            let pa = if a < i { a } else { a + 1 };
            let pb = if b < i { b } else { b + 1 };
            assert(self.dirs@[a] == pre.dirs@[pa]);
            assert(self.dirs@[b] == pre.dirs@[pb]);
        }
        assert(self.wf());
        assert forall|k: int| 0 <= k < self.dirs@.len() implies self.dirs@[k].name@ != name by {
            let pk = if k < i { k } else { k + 1 };
            assert(self.dirs@[k] == pre.dirs@[pk]);
        }
        assert forall|n: Seq<char>| n != name implies self.contains_dir(n) == pre.contains_dir(
            n,
        ) by {
            if pre.contains_dir(n) {
                pre.lemma_index_of(n);
                let pi = pre.index_of(n);
                let si = if pi < i { pi } else { pi - 1 };
                assert(pi != i);
                assert(self.dirs@[si] == pre.dirs@[pi]);
                assert(self.contains_dir(n));
            }
            if self.contains_dir(n) {
                self.lemma_index_of(n);
                let si = self.index_of(n);
                let pi = if si < i { si } else { si + 1 };
                assert(self.dirs@[si] == pre.dirs@[pi]);
                assert(pre.contains_dir(n));
            }
        }
        assert forall|n: Seq<char>|
            n != name && pre.contains_dir(n) implies self.artifact_of(n) == pre.artifact_of(n) by {
            pre.lemma_index_of(n);
            let pi = pre.index_of(n);
            let si = if pi < i { pi } else { pi - 1 };
            assert(self.dirs@[si] == pre.dirs@[pi]);
            self.lemma_index_unique(si, n);
        }
    }

    /// Export `artifact` as the entry `{id}@{major}`: create the directory if
    /// it is new, otherwise overwrite its artifact in place, then squash the
    /// history. The commit message `Add/Update {id}` is returned for the
    /// squasher.
    pub fn export_entry(&mut self, id: &String, major: &String, artifact: &Vec<u8>) -> (r: Result<
        String,
        IndexError,
    >)
        requires
            old(self).wf(),
        ensures
            final(self).wf(),
            !old(self).initialized ==> (r matches Err(e) && e is NotInitialized && *final(self)
                == *old(self)),
            old(self).initialized ==> ((r matches Ok(msg) && msg@ == "Add/Update "@ + id@)
                && export_transition(*old(self), *final(self), id@, major@, artifact@)),
    {
        if !self.initialized {
            return Err(IndexError::NotInitialized);
        }
        let name = entry_name(id, major);
        let ghost pre = *self;
        match find_dir(&self.dirs, &name) {
            Some(i) => {
                proof {
                    old(self).lemma_index_unique(i as int, name@);
                }
                self.dirs.remove(i);
                proof {
                    self.lemma_remove_effect(pre, i as int, name@);
                }
            },
            None => {},
        }
        let ghost mid = *self;
        let mut bytes: Vec<u8> = Vec::new();
        let mut b: usize = 0;
        while b < artifact.len()
            invariant
                b <= artifact@.len(),
                bytes@ == artifact@.take(b as int),
            decreases artifact@.len() - b,
        {
            bytes.push(artifact[b]);
            proof {
                assert(bytes@ =~= artifact@.take(b + 1));
            }
            b += 1;
        }
        proof {
            assert(bytes@ =~= artifact@);
        }
        self.dirs.push(EntryDir { name, artifact: Some(bytes) });
        self.history_len = 2;
        proof {
            self.lemma_push_effect(mid, pre, id@, major@, artifact@);
        }
        Ok(String::from_str("Add/Update ").concat(id.as_str()))
    }

    /// What appending the fresh `{id}@{major}` directory does, given that no
    /// directory of that name is present: the new entry holds `artifact`,
    /// everything else keeps its artifact.
    proof fn lemma_push_effect(
        self,
        mid: IndexStore,
        pre: IndexStore,
        id: Seq<char>,
        major: Seq<char>,
        artifact: Seq<u8>,
    )
        requires
            mid.wf(),
            !mid.contains_dir(entry_name_spec(id, major)),
            self.dirs@.len() == mid.dirs@.len() + 1,
            forall|k: int| 0 <= k < mid.dirs@.len() ==> self.dirs@[k] == mid.dirs@[k],
            self.dirs@.last().name@ == entry_name_spec(id, major),
            self.dirs@.last().artifact matches Some(v) && v@ == artifact,
            self.initialized == mid.initialized,
            pre.initialized == mid.initialized,
            forall|n: Seq<char>|
                n != entry_name_spec(id, major) ==> mid.contains_dir(n) == pre.contains_dir(n),
            forall|n: Seq<char>|
                n != entry_name_spec(id, major) && pre.contains_dir(n) ==> mid.artifact_of(n)
                    == pre.artifact_of(n),
            self.history_len == 2,
            pre.initialized,
        ensures
            self.wf(),
            export_transition(pre, self, id, major, artifact),
    {
        let name = entry_name_spec(id, major);
        let last = self.dirs@.len() - 1;
        assert forall|k: int| 0 <= k < mid.dirs@.len() implies mid.dirs@[k].name@ != name by {
            if mid.dirs@[k].name@ == name {
                assert(mid.contains_dir(name));
            }
        }
        assert forall|a: int, b: int|
            0 <= a < b < self.dirs@.len() implies self.dirs@[a].name@ != self.dirs@[b].name@ by {
            if b == last {
                assert(self.dirs@[a] == mid.dirs@[a]);
            }
        }
        self.lemma_index_unique(last, name);
        assert(self.artifact_of(name) == Some(artifact));
        assert forall|n: Seq<char>| n != name implies self.contains_dir(n) == mid.contains_dir(
            n,
        ) by {
            if mid.contains_dir(n) {
                mid.lemma_index_of(n);
                assert(self.dirs@[mid.index_of(n)] == mid.dirs@[mid.index_of(n)]);
                assert(self.contains_dir(n));
            }
            if self.contains_dir(n) {
                self.lemma_index_of(n);
                let si = self.index_of(n);
                assert(si != last);
                assert(self.dirs@[si] == mid.dirs@[si]);
                assert(mid.contains_dir(n));
            }
        }
        assert forall|n: Seq<char>|
            n != name && mid.contains_dir(n) implies self.artifact_of(n) == mid.artifact_of(n) by {
            mid.lemma_index_of(n);
            let mi = mid.index_of(n);
            assert(self.dirs@[mi] == mid.dirs@[mi]);
            self.lemma_index_unique(mi, n);
        }
    }
}

/// Removing or exporting always leaves the branch history at exactly two
/// commits: the immutable root and the one new tip, no matter how many
/// operations came before.
pub proof fn lemma_history_always_squashed(
    pre: IndexStore,
    post: IndexStore,
    name: Seq<char>,
    id: Seq<char>,
    major: Seq<char>,
    artifact: Seq<u8>,
)
    requires
        remove_transition(pre, post, name) || export_transition(pre, post, id, major, artifact),
    ensures
        post.history_len == 2,
{
}

/// Exporting the same artifact under the same id and major version twice is
/// idempotent: after either export the store holds the same directories with
/// the same artifacts, and each export leaves the history at exactly two
/// commits.
pub proof fn lemma_export_idempotent(
    s0: IndexStore,
    s1: IndexStore,
    s2: IndexStore,
    id: Seq<char>,
    major: Seq<char>,
    artifact: Seq<u8>,
)
    requires
        export_transition(s0, s1, id, major, artifact),
        export_transition(s1, s2, id, major, artifact),
    ensures
        forall|n: Seq<char>| s2.contains_dir(n) == s1.contains_dir(n),
        forall|n: Seq<char>| s1.contains_dir(n) ==> s2.artifact_of(n) == s1.artifact_of(n),
        s1.history_len == 2,
        s2.history_len == 2,
{
    let name = entry_name_spec(id, major);
    assert forall|n: Seq<char>| s2.contains_dir(n) == s1.contains_dir(n) by {
        if n != name {
            assert(s2.contains_dir(n) == s1.contains_dir(n));
        }
    }
}

} // verus!
