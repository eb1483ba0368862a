//! Whether the staging area holds anything to commit, and on what the commit is built.

use vstd::prelude::*;
use super::error::GitError;

verus! {

/// What a commit does, given the staging area and the last commit.
#[derive(Clone, Copy, Debug, PartialEq, Eq, Structural)]
pub enum CommitPlan {
    /// The staging area holds what the last commit holds: there is nothing to commit.
    Nothing,
    /// The branch has no commit yet: the new commit has no parent.
    Root,
    /// The new commit has the current `HEAD` commit as its one parent.
    Child,
}

/// The bytes of an identifier that may be absent.
pub open spec fn id_view(id: Option<Vec<u8>>) -> Option<Seq<u8>> {
    match id {
        Some(bytes) => Some(bytes@),
        None => None,
    }
}

impl CommitPlan {
    /// The plan for a staging area whose tree is `staged`.
    ///
    /// On a branch without commits (`head_tree` is `None`) there is nothing to commit iff
    /// the staging area is empty. Otherwise there is nothing to commit iff the staged tree
    /// is the tree of the `HEAD` commit.
    pub open spec fn of(
        index_empty: bool,
        staged: Seq<u8>,
        head_tree: Option<Seq<u8>>,
    ) -> CommitPlan {
        match head_tree {
            None => if index_empty {
                CommitPlan::Nothing
            } else {
                CommitPlan::Root
            },
            Some(tree) => if tree == staged {
                CommitPlan::Nothing
            } else {
                CommitPlan::Child
            },
        }
    }

    /// What the commit reports where the plan needs no commit: `NothingToCommit` for
    /// `Nothing`. What a commit that is made reports depends on the engine.
    pub open spec fn settled(self) -> Option<Result<(), GitError>> {
        match self {
            CommitPlan::Nothing => Some(Err(GitError::NothingToCommit)),
            CommitPlan::Root => None,
            CommitPlan::Child => None,
        }
    }

    /// Whether the commit that the plan asks for is built on the `HEAD` commit.
    pub open spec fn has_parent(self) -> bool {
        self is Child
    }

    /// The commit's report where the plan settles it; `None` where a commit has to be made.
    pub fn settle(self) -> (r: Option<Result<(), GitError>>)
        ensures
            r == self.settled(),
    {
        match self {
            CommitPlan::Nothing => Some(Err(GitError::NothingToCommit)),
            CommitPlan::Root => None,
            CommitPlan::Child => None,
        }
    }

    /// Decides what a commit does. `staged` is the identifier of the tree written from the
    /// staging area, `head_tree` that of the tree of the `HEAD` commit where there is one.
    pub fn decide(index_empty: bool, staged: &Vec<u8>, head_tree: &Option<Vec<u8>>) -> (r:
        CommitPlan)
        ensures
            r == CommitPlan::of(index_empty, staged@, id_view(*head_tree)),
            r.has_parent() ==> head_tree is Some,
            r is Root ==> head_tree is None,
    {
        match head_tree {
            None => if index_empty {
                CommitPlan::Nothing
            } else {
                CommitPlan::Root
            },
            Some(tree) => if same_bytes(tree, staged) {
                CommitPlan::Nothing
            } else {
                CommitPlan::Child
            },
        }
    }
}

/// Whether two byte strings are equal.
pub fn same_bytes(a: &Vec<u8>, b: &Vec<u8>) -> (r: bool)
    ensures
        r == (a@ == b@),
{
    if a.len() != b.len() {
        return false;
    }
    let mut i: usize = 0;
    while i < a.len()
        invariant
            a.len() == b.len(),
            i <= a.len(),
            forall|k: int| 0 <= k < i ==> a@[k] == b@[k],
        decreases a.len() - i,
    {
        if a[i] != b[i] {
            return false;
        }
        i = i + 1;
    }
    assert(a@ =~= b@);
    true
}

/// Where the staging area holds what the `HEAD` commit holds, no commit is made and
/// `NothingToCommit` is reported; so it is on a branch without commits where the staging
/// area is empty.
pub proof fn law_nothing_staged(index_empty: bool, staged: Seq<u8>, head_tree: Option<Seq<u8>>)
    requires
        match head_tree {
            Some(tree) => tree == staged,
            None => index_empty,
        },
    ensures
        CommitPlan::of(index_empty, staged, head_tree) == CommitPlan::Nothing,
        CommitPlan::of(index_empty, staged, head_tree).settled() == Some(
            Err::<(), GitError>(GitError::NothingToCommit),
        ),
{
}

/// A commit that is made has the `HEAD` commit as its parent exactly where there is one.
pub proof fn law_parent_is_head(index_empty: bool, staged: Seq<u8>, head_tree: Option<Seq<u8>>)
    requires
        CommitPlan::of(index_empty, staged, head_tree) != CommitPlan::Nothing,
    ensures
        CommitPlan::of(index_empty, staged, head_tree).has_parent() <==> head_tree is Some,
        CommitPlan::of(index_empty, staged, head_tree).settled() is None,
{
}

} // verus!
