//! The handle on one repository on disk, and the operations on it.
//!
//! Every operation here asks the engine, and the engine answers from the disk and the
//! network. So an operation's contract says what holds whatever the engine answered: which
//! kinds of failure it can report, and which run of the protocol its result belongs to. What
//! is decided from the engine's answers is decided by the functions of `merge`, `staging`
//! and `protocol`, and by `remote_presence`, `identity_or_default`, `remote_or_none`,
//! `remote_address`, `holds_any` and `RemoteChange::decide` below, whose contracts are exact.

use vstd::prelude::*;
use vstd::string::*;
use super::credential::Credential;
use super::engine;
use super::error::Cause;
use super::error::GitError;
use super::merge::MergeAnalysis;
use super::merge::MergePlan;
use super::protocol::advance;
use super::protocol::advanced;
use super::protocol::law_failures;
use super::protocol::plausible;
use super::protocol::run;
use super::protocol::Ending;
use super::protocol::Progress;
use super::protocol::Reports;
use super::protocol::Step;
use super::staging::CommitPlan;
use crate::config::string_view;
use crate::config::GitCredentials;

verus! {

/// One open repository.
pub struct RepositoryHandle {
    repo: git2::Repository,
}

/// The name that commits carry where the repository names no user.
pub open spec fn default_user_name() -> Seq<char> {
    "MarkWiki User"@
}

/// The address that commits carry where the repository names no user.
pub open spec fn default_user_email() -> Seq<char> {
    "user@markwiki.app"@
}

/// Whether a remote is configured, given how looking it up ended: it is there where the
/// lookup found it, it is not where the engine says "not found", and any other failure of
/// the lookup is a failure.
pub open spec fn presence(lookup: Result<(), Cause>) -> Result<bool, GitError> {
    match lookup {
        Ok(()) => Ok(true),
        Err(cause) => if cause.not_found {
            Ok(false)
        } else {
            Err(GitError::Remote(cause))
        },
    }
}

/// Decides whether a remote is configured from how looking it up ended.
pub fn remote_presence(lookup: Result<(), Cause>) -> (r: Result<bool, GitError>)
    ensures
        r == presence(lookup),
{
    match lookup {
        Ok(()) => Ok(true),
        Err(cause) => if cause.not_found {
            Ok(false)
        } else {
            Err(GitError::Remote(cause))
        },
    }
}

/// A remote counts as configured exactly where the lookup found it, and as not configured
/// exactly where the engine says that it found none.
pub proof fn law_presence(lookup: Result<(), Cause>)
    ensures
        presence(lookup) == Ok::<bool, GitError>(true) <==> lookup is Ok,
        presence(lookup) == Ok::<bool, GitError>(false) <==> (lookup matches Err(cause)
            && cause.not_found),
{
}

/// The identity that commits carry: the configured name and address, each replaced by its
/// default where the configuration has none.
pub fn identity_or_default(name: Option<String>, email: Option<String>) -> (r: (String, String))
    ensures
        r.0@ == match string_view(name) {
            Some(n) => n,
            None => default_user_name(),
        },
        r.1@ == match string_view(email) {
            Some(e) => e,
            None => default_user_email(),
        },
{
    let name = match name {
        Some(n) => n,
        None => String::from_str("MarkWiki User"),
    };
    let email = match email {
        Some(e) => e,
        None => String::from_str("user@markwiki.app"),
    };
    (name, email)
}

/// The reports of the steps that a run has taken so far, as reports of every step: a step
/// that was not taken is given a success that nothing depends on.
spec fn reports_of(seen: Map<Step, Result<bool, GitError>>) -> Reports {
    |step: Step|
        if seen.dom().contains(step) {
            seen[step]
        } else {
            Ok(true)
        }
}

/// A run that went from `start` to `last` step by step, and ended at `last` with `result`,
/// is the run that `run` describes.
proof fn lemma_run_follows(
    start: Step,
    last: Step,
    seen: Map<Step, Result<bool, GitError>>,
    result: Result<(), GitError>,
)
    requires
        last.rank() <= start.rank(),
        forall|s: Step| last.rank() <= s.rank() <= start.rank() ==> seen.dom().contains(s),
        forall|s: Step|
            last.rank() < s.rank() <= start.rank() ==> #[trigger] advanced(s, seen[s]) is Next,
        advanced(last, seen[last]) == Progress::Done(result),
    ensures
        run(start, reports_of(seen)).result == result,
        run(start, reports_of(seen)).steps.len() >= 1,
        run(start, reports_of(seen)).steps.last() == last,
    decreases start.rank(),
{
    let reports = reports_of(seen);
    assert(reports(start) == seen[start]);
    if start == last {
    } else {
        assert(advanced(start, seen[start]) is Next);
        let next = advanced(start, seen[start])->Next_0;
        assert(next.rank() + 1 == start.rank());
        lemma_run_follows(next, last, seen, result);
        let rest = run(next, reports).steps;
        assert(run(start, reports).steps =~= seq![start] + rest);
        assert((seq![start] + rest).last() == rest.last());
    }
}

impl RepositoryHandle {
    /// Opens the repository at `path`.
    ///
    /// Fails with `OpenRepository` where the engine finds no valid repository there.
    pub fn open(path: &str) -> (r: Result<RepositoryHandle, GitError>)
        ensures
            r matches Err(e) ==> e is OpenRepository,
    {
        match engine::open(path) {
            Ok(repo) => Ok(RepositoryHandle { repo }),
            Err(e) => Err(GitError::OpenRepository(engine::cause(&e))),
        }
    }

    /// Creates a repository at `path` and stores the identity that is given in its
    /// configuration, as `user.name` and `user.email`.
    ///
    /// Fails with `InitRepository` where the engine cannot create it, with `Config` or
    /// `SetConfig` where the identity cannot be stored.
    pub fn init(path: &str, username: Option<&str>, email: Option<&str>) -> (r: Result<
        RepositoryHandle,
        GitError,
    >)
        ensures
            r matches Err(e) ==> e is InitRepository || e is Config || e is SetConfig,
            r matches Err(e) && (e is Config || e is SetConfig) ==> username is Some || email
                is Some,
    {
        let repo = match engine::init(path) {
            Ok(repo) => repo,
            Err(e) => {
                return Err(GitError::InitRepository(engine::cause(&e)));
            },
        };
        let handle = RepositoryHandle { repo };
        match handle.store_identity(username, email) {
            Ok(()) => Ok(handle),
            Err(e) => Err(e),
        }
    }

    /// Clones the repository at `url` into `path` and stores the identity that is given.
    ///
    /// Where a user name is given, the remote is answered with the credential that
    /// `Credential::resolve` chooses for it and `password`; where none is given, with no
    /// credential at all.
    ///
    /// Fails with `CloneRepository` where the engine cannot clone, with `Config` or
    /// `SetConfig` where the identity cannot be stored.
    pub fn clone(
        url: &str,
        path: &str,
        username: Option<&str>,
        email: Option<&str>,
        password: Option<&str>,
    ) -> (r: Result<RepositoryHandle, GitError>)
        ensures
            r matches Err(e) ==> e is CloneRepository || e is Config || e is SetConfig,
            r matches Err(e) && (e is Config || e is SetConfig) ==> username is Some || email
                is Some,
    {
        let credential = match username {
            Some(user) => Some(Credential::resolve(user, password)),
            None => None,
        };
        let mut callbacks = engine::remote_callbacks();
        match &credential {
            Some(c) => engine::set_credentials(&mut callbacks, c),
            None => {},
        }
        let options = engine::fetch_options(callbacks);
        let repo = match engine::clone_repository(url, path, options) {
            Ok(repo) => repo,
            Err(e) => {
                return Err(GitError::CloneRepository(engine::cause(&e)));
            },
        };
        let handle = RepositoryHandle { repo };
        match handle.store_identity(username, email) {
            Ok(()) => Ok(handle),
            Err(e) => Err(e),
        }
    }

    /// Stores the parts of an identity that are given.
    fn store_identity(&self, username: Option<&str>, email: Option<&str>) -> (r: Result<
        (),
        GitError,
    >)
        ensures
            r matches Err(e) ==> e is Config || e is SetConfig,
            username is None && email is None ==> r is Ok,
    {
        match username {
            Some(name) => match self.set_config("user.name", name) {
                Ok(()) => {},
                Err(e) => {
                    return Err(e);
                },
            },
            None => {},
        }
        match email {
            Some(address) => self.set_config("user.email", address),
            None => Ok(()),
        }
    }

    /// Whether any remote is configured, under whatever name.
    ///
    /// `holds_any` reads the engine's list. Fails with `GetRemotes` where it cannot be had.
    pub fn has_remote_repo(&self) -> (r: Result<bool, GitError>)
        ensures
            r matches Err(e) ==> e is GetRemotes,
    {
        match engine::remote_count(&self.repo) {
            Ok(count) => Ok(holds_any(count)),
            Err(e) => Err(GitError::GetRemotes(engine::cause(&e))),
        }
    }

    /// Whether the working tree or the staging area differs from `HEAD` in any way.
    ///
    /// `holds_any` reads the engine's list. Fails with `Status` where the engine cannot tell.
    pub fn has_uncommitted_changes(&self) -> (r: Result<bool, GitError>)
        ensures
            r matches Err(e) ==> e is Status,
    {
        match engine::status_count(&self.repo) {
            Ok(count) => Ok(holds_any(count)),
            Err(e) => Err(GitError::Status(engine::cause(&e))),
        }
    }

    /// The identity that commits carry: name and address, as `identity_or_default` makes
    /// them from what the configuration holds.
    ///
    /// Fails with `Config` where the configuration cannot be opened; a value that is not
    /// there or cannot be read is replaced by its default.
    pub fn get_user_config(&self) -> (r: Result<(String, String), GitError>)
        ensures
            r matches Err(e) ==> e is Config,
    {
        let config = match engine::config(&self.repo) {
            Ok(config) => config,
            Err(e) => {
                return Err(GitError::Config(engine::cause(&e)));
            },
        };
        let name = match engine::config_get_string(&config, "user.name") {
            Ok(value) => Some(value),
            Err(_) => None,
        };
        let email = match engine::config_get_string(&config, "user.email") {
            Ok(value) => Some(value),
            Err(_) => None,
        };
        Ok(identity_or_default(name, email))
    }

    /// Stores the identity that commits carry, as `user.name` and `user.email`.
    ///
    /// Fails with `Config` where the configuration cannot be opened, with `SetConfig` where
    /// a value cannot be stored.
    pub fn set_user_config(&self, name: &str, email: &str) -> (r: Result<(), GitError>)
        ensures
            r matches Err(e) ==> e is Config || e is SetConfig,
    {
        let mut config = match engine::config(&self.repo) {
            Ok(config) => config,
            Err(e) => {
                return Err(GitError::Config(engine::cause(&e)));
            },
        };
        match engine::config_set_str(&mut config, "user.name", name) {
            Ok(()) => {},
            Err(e) => {
                return Err(GitError::SetConfig(engine::cause(&e)));
            },
        }
        match engine::config_set_str(&mut config, "user.email", email) {
            Ok(()) => Ok(()),
            Err(e) => Err(GitError::SetConfig(engine::cause(&e))),
        }
    }

    /// Stores one value in the repository's configuration.
    ///
    /// Fails with `Config` where the configuration cannot be opened, with `SetConfig` where
    /// the value cannot be stored.
    pub fn set_config(&self, key: &str, value: &str) -> (r: Result<(), GitError>)
        ensures
            r matches Err(e) ==> e is Config || e is SetConfig,
    {
        let mut config = match engine::config(&self.repo) {
            Ok(config) => config,
            Err(e) => {
                return Err(GitError::Config(engine::cause(&e)));
            },
        };
        match engine::config_set_str(&mut config, key, value) {
            Ok(()) => Ok(()),
            Err(e) => Err(GitError::SetConfig(engine::cause(&e))),
        }
    }

    /// Stages every change of the working tree, deletions included. The handle stays the
    /// handle it was: what changes is the staging area on disk.
    ///
    /// Fails with `AddToIndex` where the engine cannot read, fill or write the staging area.
    pub fn add_all(&mut self) -> (r: Result<(), GitError>)
        ensures
            *final(self) == *old(self),
            r matches Err(e) ==> e is AddToIndex,
    {
        self.stage()
    }

    /// Stages every change of the working tree.
    fn stage(&self) -> (r: Result<(), GitError>)
        ensures
            r matches Err(e) ==> e is AddToIndex,
    {
        let mut index = match engine::index(&self.repo) {
            Ok(index) => index,
            Err(e) => {
                return Err(GitError::AddToIndex(engine::cause(&e)));
            },
        };
        match engine::index_add_all(&mut index, "*") {
            Ok(()) => {},
            Err(e) => {
                return Err(GitError::AddToIndex(engine::cause(&e)));
            },
        }
        match engine::index_write(&mut index) {
            Ok(()) => Ok(()),
            Err(e) => Err(GitError::AddToIndex(engine::cause(&e))),
        }
    }

    /// The commit that `HEAD` leads to, where there is one.
    fn head_commit(&self) -> Option<git2::Commit<'_>> {
        match engine::head(&self.repo) {
            Ok(head) => match engine::peel_to_commit(&head) {
                Ok(commit) => Some(commit),
                Err(_) => None,
            },
            Err(_) => None,
        }
    }

    /// Commits what is staged, with `message`, signed with the identity of
    /// `get_user_config` at the current time.
    ///
    /// What is done is what `CommitPlan::decide` says for the staging area and the `HEAD`
    /// commit. Where the plan settles the report (`CommitPlan::settle`), no commit is made
    /// and `NothingToCommit` is reported. Else the commit gets the `HEAD` commit as its
    /// parent, or none on a branch without commits, and `HEAD` moves to it.
    ///
    /// Fails with `AddToIndex` where the staging area cannot be read or written as a tree,
    /// with `Config` or `Signature` where the identity cannot be had, with `Commit` where the
    /// engine cannot create the commit.
    pub fn commit(&self, message: &str) -> (r: Result<(), GitError>)
        ensures
            r matches Err(e) ==> Step::Commit.can_fail_with(e),
    {
        let mut index = match engine::index(&self.repo) {
            Ok(index) => index,
            Err(e) => {
                return Err(GitError::AddToIndex(engine::cause(&e)));
            },
        };
        let index_empty = engine::index_is_empty(&index);
        let parent = self.head_commit();
        let tree_id = match engine::index_write_tree(&mut index) {
            Ok(id) => id,
            Err(e) => {
                return Err(GitError::AddToIndex(engine::cause(&e)));
            },
        };
        let staged = engine::oid_bytes(&tree_id);
        let head_tree = match &parent {
            Some(commit) => Some(engine::oid_bytes(&engine::commit_tree_id(commit))),
            None => None,
        };
        let plan = CommitPlan::decide(index_empty, &staged, &head_tree);
        match plan.settle() {
            Some(report) => {
                return report;
            },
            None => {},
        }
        let identity = match self.get_user_config() {
            Ok(identity) => identity,
            Err(e) => {
                return Err(e);
            },
        };
        let signature = match engine::signature_now(identity.0.as_str(), identity.1.as_str()) {
            Ok(signature) => signature,
            Err(e) => {
                return Err(GitError::Signature(engine::cause(&e)));
            },
        };
        let tree = match engine::find_tree(&self.repo, tree_id) {
            Ok(tree) => tree,
            Err(e) => {
                return Err(GitError::AddToIndex(engine::cause(&e)));
            },
        };
        let made = match plan {
            CommitPlan::Child => engine::commit(
                &self.repo,
                "HEAD",
                &signature,
                message,
                &tree,
                parent.as_ref(),
            ),
            _ => engine::commit(&self.repo, "HEAD", &signature, message, &tree, None),
        };
        match made {
            Ok(_) => Ok(()),
            Err(e) => Err(GitError::Commit(engine::cause(&e))),
        }
    }

    /// Downloads the history of the remote's branch `master` from `origin`.
    ///
    /// Where `credentials` are given, the remote is answered with the credential that
    /// `Credential::of` chooses for them; where none are given, with no credential at all.
    ///
    /// Fails with `NoRemote` where no remote `origin` can be found, as `remote_or_none` reads
    /// the lookup, and with `Fetch` where the transfer fails or the remote refuses.
    pub fn fetch(&self, credentials: Option<&GitCredentials>) -> (r: Result<(), GitError>)
        ensures
            r matches Err(e) ==> Step::Fetch.can_fail_with(e),
    {
        let mut remote = match remote_or_none(engine::find_remote(&self.repo, "origin")) {
            Ok(remote) => remote,
            Err(e) => {
                return Err(e);
            },
        };
        let credential = match credentials {
            Some(c) => Some(Credential::of(c)),
            None => None,
        };
        let mut callbacks = engine::remote_callbacks();
        match &credential {
            Some(c) => engine::set_credentials(&mut callbacks, c),
            None => {},
        }
        let mut options = engine::fetch_options(callbacks);
        match engine::fetch(&mut remote, "master", &mut options) {
            Ok(()) => Ok(()),
            Err(e) => Err(GitError::Fetch(engine::cause(&e))),
        }
    }

    /// The commit that was fetched last.
    fn fetched_tip(&self) -> (r: Result<git2::AnnotatedCommit<'_>, GitError>)
        ensures
            r matches Err(e) ==> e is FindReference,
    {
        let fetch_head = match engine::find_reference(&self.repo, "FETCH_HEAD") {
            Ok(reference) => reference,
            Err(e) => {
                return Err(GitError::FindReference(engine::cause(&e)));
            },
        };
        match engine::reference_to_annotated_commit(&self.repo, &fetch_head) {
            Ok(commit) => Ok(commit),
            Err(e) => Err(GitError::FindReference(engine::cause(&e))),
        }
    }

    /// How `HEAD` relates to the commit that was fetched last, as `MergeAnalysis::classify`
    /// reads the engine's analysis; `None` where the analysis names no relationship.
    ///
    /// Fails with `FindReference` where what was fetched cannot be found, with `Merge` where
    /// the engine cannot analyse.
    pub fn merge_analysis(&self) -> (r: Result<Option<MergeAnalysis>, GitError>)
        ensures
            r matches Err(e) ==> e is FindReference || e is Merge,
    {
        let tip = match self.fetched_tip() {
            Ok(tip) => tip,
            Err(e) => {
                return Err(e);
            },
        };
        match engine::merge_analysis(&self.repo, &tip) {
            Ok(flags) => Ok(MergeAnalysis::classify(flags)),
            Err(e) => Err(GitError::Merge(engine::cause(&e))),
        }
    }

    /// Brings the local branch up to the commit that was fetched last, by fast-forward only.
    ///
    /// What is done is what `MergePlan::decide` says for the engine's analysis. Where the
    /// plan settles the report (`MergePlan::settle`), the repository is left as it is:
    /// `Ok(false)` is returned for `Nothing` and `MergeConflict` is reported for `Refuse`.
    /// For `FastForward` the branch `master` is moved to the fetched commit, `HEAD` is set
    /// to the branch and the working tree is made to match it, overwriting what differs; the
    /// report is what `MergePlan::after_fast_forward` makes of how that ended.
    ///
    /// Fails with `FindReference` where what was fetched or the branch cannot be found,
    /// with `Merge` where the engine cannot analyse or cannot carry the fast-forward out.
    pub fn merge(&self) -> (r: Result<bool, GitError>)
        ensures
            r matches Err(e) ==> Step::Merge.can_fail_with(e),
    {
        let tip = match self.fetched_tip() {
            Ok(tip) => tip,
            Err(e) => {
                return Err(e);
            },
        };
        let flags = match engine::merge_analysis(&self.repo, &tip) {
            Ok(flags) => flags,
            Err(e) => {
                return Err(GitError::Merge(engine::cause(&e)));
            },
        };
        match MergePlan::decide(MergeAnalysis::classify(flags)).settle() {
            Some(report) => report,
            None => MergePlan::after_fast_forward(self.fast_forward(&tip)),
        }
    }

    /// Moves the branch `master` to `tip` and checks it out, overwriting what differs.
    fn fast_forward(&self, tip: &git2::AnnotatedCommit<'_>) -> (r: Result<(), GitError>)
        ensures
            r matches Err(e) ==> e is FindReference || e is Merge,
    {
        let mut branch = match engine::find_reference(&self.repo, "refs/heads/master") {
            Ok(reference) => reference,
            Err(e) => {
                return Err(GitError::FindReference(engine::cause(&e)));
            },
        };
        match engine::reference_set_target(
            &mut branch,
            engine::annotated_commit_id(tip),
            "Fast-forward",
        ) {
            Ok(()) => {},
            Err(e) => {
                return Err(GitError::Merge(engine::cause(&e)));
            },
        }
        match engine::set_head(&self.repo, "refs/heads/master") {
            Ok(()) => {},
            Err(e) => {
                return Err(GitError::Merge(engine::cause(&e)));
            },
        }
        let mut checkout = engine::checkout_builder();
        engine::checkout_force(&mut checkout);
        match engine::checkout_head(&self.repo, &mut checkout) {
            Ok(()) => Ok(()),
            Err(e) => Err(GitError::Merge(engine::cause(&e))),
        }
    }

    /// Uploads the local branch `master` to the branch `master` of `origin`.
    ///
    /// The remote is answered as in `fetch`.
    ///
    /// Fails with `NoRemote` where no remote `origin` can be found, as `remote_or_none` reads
    /// the lookup, and with `Push` where the transfer fails or the remote refuses.
    pub fn push(&self, credentials: Option<&GitCredentials>) -> (r: Result<(), GitError>)
        ensures
            r matches Err(e) ==> Step::Push.can_fail_with(e),
    {
        let mut remote = match remote_or_none(engine::find_remote(&self.repo, "origin")) {
            Ok(remote) => remote,
            Err(e) => {
                return Err(e);
            },
        };
        let credential = match credentials {
            Some(c) => Some(Credential::of(c)),
            None => None,
        };
        let mut callbacks = engine::remote_callbacks();
        match &credential {
            Some(c) => engine::set_credentials(&mut callbacks, c),
            None => {},
        }
        let mut options = engine::push_options(callbacks);
        match engine::push(&mut remote, "refs/heads/master:refs/heads/master", &mut options) {
            Ok(()) => Ok(()),
            Err(e) => Err(GitError::Push(engine::cause(&e))),
        }
    }

    /// How looking the remote `name` up ends: found, or why not.
    fn look_up(&self, name: &str) -> Result<(), Cause> {
        match engine::find_remote(&self.repo, name) {
            Ok(_) => Ok(()),
            Err(e) => Err(engine::cause(&e)),
        }
    }

    /// Whether a remote called `name` is configured, as `remote_presence` reads the lookup.
    ///
    /// That the remote is not there is an answer, no failure: `Remote` is reported only where
    /// the lookup fails for another reason, so never with the engine's "not found" as cause.
    pub fn has_remote_named(&self, name: &str) -> (r: Result<bool, GitError>)
        ensures
            r matches Err(e) ==> (e matches GitError::Remote(cause) && !cause.not_found),
    {
        remote_presence(self.look_up(name))
    }

    /// Whether the remote `origin` is configured.
    ///
    /// That the remote is not there is an answer, no failure: `Remote` is reported only where
    /// the lookup fails for another reason, so never with the engine's "not found" as cause.
    pub fn has_remote(&self) -> (r: Result<bool, GitError>)
        ensures
            r matches Err(e) ==> Step::CheckRemote.can_fail_with(e),
    {
        self.has_remote_named("origin")
    }

    /// Makes `url` the URL of the remote `name`, as `RemoteChange::decide` says for whether
    /// the remote is there: it is added where it is not there yet, and changed where it is.
    ///
    /// Fails with `Remote` where the lookup fails for another reason than that the remote is
    /// not there, or where the engine cannot add or change it.
    pub fn set_remote(&self, name: &str, url: &str) -> (r: Result<(), GitError>)
        ensures
            r matches Err(e) ==> e is Remote,
    {
        let present = match self.has_remote_named(name) {
            Ok(present) => present,
            Err(e) => {
                return Err(e);
            },
        };
        let stored = match RemoteChange::decide(present) {
            RemoteChange::Replace => engine::remote_set_url(&self.repo, name, url),
            RemoteChange::Add => engine::remote_create(&self.repo, name, url),
        };
        match stored {
            Ok(()) => Ok(()),
            Err(e) => Err(GitError::Remote(engine::cause(&e))),
        }
    }

    /// The URL of the remote `name`, as `remote_address` reads the lookup: `None` where the
    /// remote is not there or its URL is not text.
    ///
    /// That the remote is not there is an answer, no failure: `Remote` is reported only where
    /// the lookup fails for another reason, so never with the engine's "not found" as cause.
    pub fn get_remote_url(&self, name: &str) -> (r: Result<Option<String>, GitError>)
        ensures
            r matches Err(e) ==> (e matches GitError::Remote(cause) && !cause.not_found),
    {
        let found = match engine::find_remote(&self.repo, name) {
            Ok(remote) => Ok(engine::remote_url(&remote)),
            Err(e) => Err(engine::cause(&e)),
        };
        remote_address(found)
    }

    /// Takes one step of the protocol and hands back what it reports: the answer of a step
    /// that asks, the merge's word on whether the branch moved, and for every other step
    /// that it was taken.
    fn perform(&self, step: Step, message: &str, credentials: Option<&GitCredentials>) -> (r:
        Result<bool, GitError>)
        ensures
            r matches Err(e) ==> step.can_fail_with(e),
            r matches Ok(flag) ==> flag || step.only_reads() || step is Merge,
    {
        match step {
            Step::CheckStatus => self.has_uncommitted_changes(),
            Step::Stage => match self.stage() {
                Ok(()) => Ok(true),
                Err(e) => Err(e),
            },
            Step::Commit => match self.commit(message) {
                Ok(()) => Ok(true),
                Err(e) => Err(e),
            },
            Step::CheckRemote => self.has_remote(),
            Step::Fetch => match self.fetch(credentials) {
                Ok(()) => Ok(true),
                Err(e) => Err(e),
            },
            Step::Merge => self.merge(),
            Step::Push => match self.push(credentials) {
                Ok(()) => Ok(true),
                Err(e) => Err(e),
            },
        }
    }

    /// Takes the steps of the protocol from `start` on, each as `advance` asks for it, and
    /// tells how the run ended. `message` is the message of the commit, where the run makes
    /// one.
    ///
    /// The ending is that of a run of the protocol from `start` in which every step fails
    /// only in its own ways: its result is that run's, and its last step is the last that
    /// the run took, which is the step that failed where the run failed.
    pub fn run_from(&self, start: Step, message: &str, credentials: Option<&GitCredentials>) -> (r:
        Ending)
        ensures
            exists|reports: Reports|
                plausible(reports) && r.result == run(start, reports).result && r.last == run(
                    start,
                    reports,
                ).steps.last(),
    {
        let mut step = start;
        let ghost mut seen: Map<Step, Result<bool, GitError>> = Map::empty();
        loop
            invariant
                step.rank() <= start.rank(),
                forall|s: Step|
                    seen.dom().contains(s) <==> step.rank() < s.rank() <= start.rank(),
                forall|s: Step|
                    step.rank() < s.rank() <= start.rank() ==> #[trigger] advanced(s, seen[s])
                        is Next,
                forall|s: Step, e: GitError|
                    seen.dom().contains(s) && seen[s] == Err::<bool, GitError>(e)
                        ==> #[trigger] s.can_fail_with(e),
            decreases step.rank(),
        {
            let report = self.perform(step, message, credentials);
            proof {
                seen = seen.insert(step, report);
            }
            match advance(step, report) {
                Progress::Done(result) => {
                    proof {
                        lemma_run_follows(start, step, seen, result);
                        assert(plausible(reports_of(seen)));
                    }
                    return Ending { last: step, result };
                },
                Progress::Next(next) => {
                    step = next;
                },
            }
        }
    }

    /// Synchronises the repository with `origin`: checks that the remote is there, fetches,
    /// merges by fast-forward only, and pushes.
    ///
    /// The result is that of a run of the protocol from `CheckRemote` in which every step
    /// fails only in its own ways. So a failure is `Remote` or `NoRemote` from asking for the
    /// remote, `Fetch`, `FindReference`, `Merge` or `MergeConflict` from fetching and merging,
    /// or `Push`.
    pub fn sync(&self, credentials: Option<&GitCredentials>) -> (r: Result<(), GitError>)
        ensures
            exists|reports: Reports|
                plausible(reports) && r == run(Step::CheckRemote, reports).result,
            r matches Err(e) ==> e is Remote || e is NoRemote || e is Fetch || e is FindReference
                || e is Merge || e is MergeConflict || e is Push,
    {
        let ending = self.run_from(Step::CheckRemote, "", credentials);
        proof {
            let reports = choose|reports: Reports|
                plausible(reports) && ending.result == run(Step::CheckRemote, reports).result
                    && ending.last == run(Step::CheckRemote, reports).steps.last();
            law_failures(Step::CheckRemote, reports);
        }
        ending.result
    }

    /// Commits every change of the working tree with `message` and then synchronises:
    /// checks that there are changes, stages them, commits, and goes on as `sync` does.
    ///
    /// The result is that of a run of the protocol from `CheckStatus` in which every step
    /// fails only in its own ways. A working tree without changes ends the run with
    /// `NothingToCommit`; a failure is otherwise `Status`, `AddToIndex`, `Config`,
    /// `Signature` or `Commit` from the steps before the remote is asked, or one of the
    /// failures of `sync`.
    pub fn commit_and_sync(&self, message: &str, credentials: Option<&GitCredentials>) -> (r:
        Result<(), GitError>)
        ensures
            exists|reports: Reports|
                plausible(reports) && r == run(Step::CheckStatus, reports).result,
            r matches Err(e) ==> e is Status || e is NothingToCommit || e is AddToIndex
                || e is Config || e is Signature || e is Commit || e is Remote || e is NoRemote
                || e is Fetch || e is FindReference || e is Merge || e is MergeConflict
                || e is Push,
    {
        let ending = self.run_from(Step::CheckStatus, message, credentials);
        proof {
            let reports = choose|reports: Reports|
                plausible(reports) && ending.result == run(Step::CheckStatus, reports).result
                    && ending.last == run(Step::CheckStatus, reports).steps.last();
            law_failures(Step::CheckStatus, reports);
        }
        ending.result
    }
}

/// The URL of a remote, given how looking the remote up ended: the URL that was found, where
/// the remote has one that is text; none where the engine says that the remote is not
/// there; and any other failure of the lookup is a failure.
pub open spec fn address(found: Result<Option<String>, Cause>) -> Result<
    Option<String>,
    GitError,
> {
    match found {
        Ok(url) => Ok(url),
        Err(cause) => if cause.not_found {
            Ok(None)
        } else {
            Err(GitError::Remote(cause))
        },
    }
}

/// Decides what is told of a remote's URL from how looking the remote up ended.
pub fn remote_address(found: Result<Option<String>, Cause>) -> (r: Result<
    Option<String>,
    GitError,
>)
    ensures
        r == address(found),
{
    match found {
        Ok(url) => Ok(url),
        Err(cause) => if cause.not_found {
            Ok(None)
        } else {
            Err(GitError::Remote(cause))
        },
    }
}

/// The remote that a transfer goes to, given how looking it up ended: the remote that was
/// found, and `NoRemote` where the lookup failed, for whatever reason.
pub fn remote_or_none<'a>(found: Result<git2::Remote<'a>, git2::Error>) -> (r: Result<
    git2::Remote<'a>,
    GitError,
>)
    ensures
        r == match found {
            Ok(remote) => Ok::<git2::Remote<'a>, GitError>(remote),
            Err(_) => Err(GitError::NoRemote),
        },
{
    match found {
        Ok(remote) => Ok(remote),
        Err(_) => Err(GitError::NoRemote),
    }
}

/// What is done to give a remote its URL.
#[derive(Clone, Copy, Debug, PartialEq, Eq, Structural)]
pub enum RemoteChange {
    /// The remote is not there yet: it is added with the URL.
    Add,
    /// The remote is there: its URL is replaced.
    Replace,
}

impl RemoteChange {
    /// Decides what is done to give a remote its URL from whether the remote is there.
    pub fn decide(present: bool) -> (r: RemoteChange)
        ensures
            r == (if present {
                RemoteChange::Replace
            } else {
                RemoteChange::Add
            }),
    {
        if present {
            RemoteChange::Replace
        } else {
            RemoteChange::Add
        }
    }
}

/// Whether a list holds anything, given how many entries the engine counted in it.
pub fn holds_any(entries: usize) -> (r: bool)
    ensures
        r == (entries > 0),
{
    entries != 0
}

} // verus!
