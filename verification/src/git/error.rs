//! The failures of repository operations.

use vstd::prelude::*;

verus! {

/// What the version-control engine reported when one of its calls failed.
#[derive(Debug)]
pub struct Cause {
    /// The engine's numeric error code.
    pub code: i32,
    /// The engine's numeric error class.
    pub class: i32,
    /// Whether the engine classified the failure as "not found".
    pub not_found: bool,
    /// The engine's message.
    pub message: String,
}

/// Why a repository operation failed.
///
/// The first fifteen kinds name the step in which the engine failed and carry what it
/// reported; the last four are conditions of the repository itself.
#[derive(Debug)]
pub enum GitError {
    OpenRepository(Cause),
    InitRepository(Cause),
    CloneRepository(Cause),
    GetRemotes(Cause),
    Commit(Cause),
    Status(Cause),
    Config(Cause),
    SetConfig(Cause),
    AddToIndex(Cause),
    Signature(Cause),
    FindReference(Cause),
    Remote(Cause),
    Fetch(Cause),
    Merge(Cause),
    Push(Cause),
    UncommittedChanges,
    NoRemote,
    MergeConflict,
    NothingToCommit,
}

impl GitError {
    /// The engine's report, for the kinds that carry one.
    pub open spec fn cause(self) -> Option<Cause> {
        match self {
            GitError::OpenRepository(c) => Some(c),
            GitError::InitRepository(c) => Some(c),
            GitError::CloneRepository(c) => Some(c),
            GitError::GetRemotes(c) => Some(c),
            GitError::Commit(c) => Some(c),
            GitError::Status(c) => Some(c),
            GitError::Config(c) => Some(c),
            GitError::SetConfig(c) => Some(c),
            GitError::AddToIndex(c) => Some(c),
            GitError::Signature(c) => Some(c),
            GitError::FindReference(c) => Some(c),
            GitError::Remote(c) => Some(c),
            GitError::Fetch(c) => Some(c),
            GitError::Merge(c) => Some(c),
            GitError::Push(c) => Some(c),
            GitError::UncommittedChanges => None,
            GitError::NoRemote => None,
            GitError::MergeConflict => None,
            GitError::NothingToCommit => None,
        }
    }

    /// The fixed part of the error's text: what failed, without the engine's message.
    pub open spec fn headline(self) -> Seq<char> {
        match self {
            GitError::OpenRepository(_) => "Failed to open repository: "@,
            GitError::InitRepository(_) => "Failed to initialize repository: "@,
            GitError::CloneRepository(_) => "Failed to clone repository: "@,
            GitError::GetRemotes(_) => "Failed to get remotes: "@,
            GitError::Commit(_) => "Failed to commit: "@,
            GitError::Status(_) => "Failed to get status: "@,
            GitError::Config(_) => "Failed to get config: "@,
            GitError::SetConfig(_) => "Failed to set config: "@,
            GitError::AddToIndex(_) => "Failed to add to index: "@,
            GitError::Signature(_) => "Failed to create signature: "@,
            GitError::FindReference(_) => "Failed to find reference: "@,
            GitError::Remote(_) => "Failed to get remote: "@,
            GitError::Fetch(_) => "Failed to fetch: "@,
            GitError::Merge(_) => "Failed to merge: "@,
            GitError::Push(_) => "Failed to push: "@,
            GitError::UncommittedChanges => "There are uncommitted changes"@,
            GitError::NoRemote => "No remote repository configured"@,
            GitError::MergeConflict => "Merge conflict detected"@,
            GitError::NothingToCommit => "Nothing to commit"@,
        }
    }

    /// The error's full text: the headline, followed by the engine's message where the
    /// kind carries one.
    pub open spec fn text(self) -> Seq<char> {
        match self.cause() {
            Some(c) => self.headline() + c.message@,
            None => self.headline(),
        }
    }

    fn headline_str(&self) -> (r: &'static str)
        ensures
            r@ == self.headline(),
    {
        match self {
            GitError::OpenRepository(_) => "Failed to open repository: ",
            GitError::InitRepository(_) => "Failed to initialize repository: ",
            GitError::CloneRepository(_) => "Failed to clone repository: ",
            GitError::GetRemotes(_) => "Failed to get remotes: ",
            GitError::Commit(_) => "Failed to commit: ",
            GitError::Status(_) => "Failed to get status: ",
            GitError::Config(_) => "Failed to get config: ",
            GitError::SetConfig(_) => "Failed to set config: ",
            GitError::AddToIndex(_) => "Failed to add to index: ",
            GitError::Signature(_) => "Failed to create signature: ",
            GitError::FindReference(_) => "Failed to find reference: ",
            GitError::Remote(_) => "Failed to get remote: ",
            GitError::Fetch(_) => "Failed to fetch: ",
            GitError::Merge(_) => "Failed to merge: ",
            GitError::Push(_) => "Failed to push: ",
            GitError::UncommittedChanges => "There are uncommitted changes",
            GitError::NoRemote => "No remote repository configured",
            GitError::MergeConflict => "Merge conflict detected",
            GitError::NothingToCommit => "Nothing to commit",
        }
    }

    fn cause_ref(&self) -> (r: Option<&Cause>)
        ensures
            match r {
                Some(c) => self.cause() == Some(*c),
                None => self.cause() is None,
            },
    {
        match self {
            GitError::OpenRepository(c) => Some(c),
            GitError::InitRepository(c) => Some(c),
            GitError::CloneRepository(c) => Some(c),
            GitError::GetRemotes(c) => Some(c),
            GitError::Commit(c) => Some(c),
            GitError::Status(c) => Some(c),
            GitError::Config(c) => Some(c),
            GitError::SetConfig(c) => Some(c),
            GitError::AddToIndex(c) => Some(c),
            GitError::Signature(c) => Some(c),
            GitError::FindReference(c) => Some(c),
            GitError::Remote(c) => Some(c),
            GitError::Fetch(c) => Some(c),
            GitError::Merge(c) => Some(c),
            GitError::Push(c) => Some(c),
            GitError::UncommittedChanges => None,
            GitError::NoRemote => None,
            GitError::MergeConflict => None,
            GitError::NothingToCommit => None,
        }
    }

    /// The error as text for a person to read.
    pub fn message(&self) -> (r: String)
        ensures
            r@ == self.text(),
    {
        let head = String::from_str(self.headline_str());
        match self.cause_ref() {
            Some(c) => head.concat(c.message.as_str()),
            None => head,
        }
    }
}

} // verus!
