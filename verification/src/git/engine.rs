//! The calls into the version-control engine, the `git2` crate.
//!
//! Everything in this file is believed, not proved. The engine works on the repository on
//! disk and on the network, so no contract here promises what a call returns: each item only
//! makes the call available to verified code, which has to cope with every outcome.

use vstd::prelude::*;
use super::credential::make_cred;
use super::credential::Credential;
use super::error::Cause;
use super::merge::AnalysisFlags;

verus! {

/// `git2::Error`, the engine's error value. Opaque here; `cause` reads it.
#[verifier::external_type_specification]
#[verifier::external_body]
pub struct ExError(git2::Error);

/// `git2::Repository`, an open repository. Opaque here.
#[verifier::external_type_specification]
#[verifier::external_body]
pub struct ExRepository(git2::Repository);

/// `git2::Config`, a repository's configuration. Opaque here.
#[verifier::external_type_specification]
#[verifier::external_body]
pub struct ExConfig(git2::Config);

/// `git2::Index`, a repository's staging area. Opaque here.
#[verifier::external_type_specification]
#[verifier::external_body]
pub struct ExIndex(git2::Index);

/// `git2::Oid`, the identifier of an object. Opaque here; `oid_bytes` reads it.
#[verifier::external_type_specification]
#[verifier::external_body]
pub struct ExOid(git2::Oid);

/// `git2::Tree`, a tree object of a repository. Opaque here.
#[verifier::external_type_specification]
#[verifier::external_body]
pub struct ExTree<'a>(git2::Tree<'a>);

/// `git2::Commit`, a commit object of a repository. Opaque here.
#[verifier::external_type_specification]
#[verifier::external_body]
pub struct ExCommit<'a>(git2::Commit<'a>);

/// `git2::Reference`, a reference of a repository. Opaque here.
#[verifier::external_type_specification]
#[verifier::external_body]
pub struct ExReference<'a>(git2::Reference<'a>);

/// `git2::AnnotatedCommit`, a commit together with where it was looked up from. Opaque here.
#[verifier::external_type_specification]
#[verifier::external_body]
pub struct ExAnnotatedCommit<'a>(git2::AnnotatedCommit<'a>);

/// `git2::Signature`, the author or committer of a commit with a time. Opaque here.
#[verifier::external_type_specification]
#[verifier::external_body]
pub struct ExSignature<'a>(git2::Signature<'a>);

/// `git2::Remote`, a configured remote of a repository. Opaque here.
#[verifier::external_type_specification]
#[verifier::external_body]
pub struct ExRemote<'a>(git2::Remote<'a>);

/// `git2::Cred`, a credential handed to the transport. Opaque here.
#[verifier::external_type_specification]
#[verifier::external_body]
pub struct ExCred(git2::Cred);

/// `git2::RemoteCallbacks`, the callbacks of a network operation. Opaque here.
#[verifier::external_type_specification]
#[verifier::external_body]
pub struct ExRemoteCallbacks<'a>(git2::RemoteCallbacks<'a>);

/// `git2::FetchOptions`, the options of a fetch. Opaque here.
#[verifier::external_type_specification]
#[verifier::external_body]
pub struct ExFetchOptions<'a>(git2::FetchOptions<'a>);

/// `git2::PushOptions`, the options of a push. Opaque here.
#[verifier::external_type_specification]
#[verifier::external_body]
pub struct ExPushOptions<'a>(git2::PushOptions<'a>);

/// `git2::build::CheckoutBuilder`, the options of a checkout. Opaque here.
#[verifier::external_type_specification]
#[verifier::external_body]
pub struct ExCheckoutBuilder<'a>(git2::build::CheckoutBuilder<'a>);

/// Reads a `git2::Error` into a `Cause`, field by field: `raw_code`, `raw_class`, whether
/// `code` is `ErrorCode::NotFound`, and `message`. Nothing is promised of the values.
#[verifier::external_body]
pub(crate) fn cause(e: &git2::Error) -> Cause {
    Cause {
        code: e.raw_code() as i32,
        class: e.raw_class() as i32,
        not_found: e.code() == git2::ErrorCode::NotFound,
        message: e.message().to_string(),
    }
}

/// `git2::Repository::open`: opens the repository at `path`. The outcome depends on what
/// is on disk; nothing is promised of it.
#[verifier::external_body]
pub(crate) fn open(path: &str) -> Result<git2::Repository, git2::Error> {
    git2::Repository::open(path)
}

/// `git2::Repository::init`: creates a repository at `path`, with the directories that
/// lead to it. Nothing is promised of the outcome.
#[verifier::external_body]
pub(crate) fn init(path: &str) -> Result<git2::Repository, git2::Error> {
    git2::Repository::init(path)
}

/// `git2::build::RepoBuilder::clone`, on a fresh builder given `options` through
/// `RepoBuilder::fetch_options`: clones `url` into `path`. Nothing is promised of the outcome.
#[verifier::external_body]
pub(crate) fn clone_repository(
    url: &str,
    path: &str,
    options: git2::FetchOptions<'_>,
) -> Result<git2::Repository, git2::Error> {
    let mut builder = git2::build::RepoBuilder::new();
    builder.fetch_options(options);
    builder.clone(url, std::path::Path::new(path))
}

/// `git2::Repository::remotes`, reduced to the number of names in the list it returns.
/// Nothing is promised of the outcome.
#[verifier::external_body]
pub(crate) fn remote_count(repo: &git2::Repository) -> Result<usize, git2::Error> {
    repo.remotes().map(|names| names.len())
}

/// `git2::Repository::statuses` with default options, reduced to the number of entries in
/// the list it returns. Nothing is promised of the outcome.
#[verifier::external_body]
pub(crate) fn status_count(repo: &git2::Repository) -> Result<usize, git2::Error> {
    repo.statuses(None).map(|entries| entries.len())
}

/// `git2::Repository::config`: the repository's configuration. Nothing is promised of the
/// outcome.
#[verifier::external_body]
pub(crate) fn config(repo: &git2::Repository) -> Result<git2::Config, git2::Error> {
    repo.config()
}

/// `git2::Config::get_string`: the value stored under `key`. Nothing is promised of the
/// outcome.
#[verifier::external_body]
pub(crate) fn config_get_string(config: &git2::Config, key: &str) -> Result<String, git2::Error> {
    config.get_string(key)
}

/// `git2::Config::set_str`: stores `value` under `key`. Nothing is promised of the outcome.
#[verifier::external_body]
pub(crate) fn config_set_str(config: &mut git2::Config, key: &str, value: &str) -> Result<
    (),
    git2::Error,
> {
    config.set_str(key, value)
}

/// `git2::Repository::index`: the repository's staging area. Nothing is promised of the
/// outcome.
#[verifier::external_body]
pub(crate) fn index(repo: &git2::Repository) -> Result<git2::Index, git2::Error> {
    repo.index()
}

/// `git2::Index::add_all` with the one path pattern `pattern`, the default flags and no
/// callback. Nothing is promised of the outcome.
#[verifier::external_body]
pub(crate) fn index_add_all(index: &mut git2::Index, pattern: &str) -> Result<(), git2::Error> {
    index.add_all([pattern].iter(), git2::IndexAddOption::DEFAULT, None)
}

/// `git2::Index::write`: writes the staging area to disk. Nothing is promised of the outcome.
#[verifier::external_body]
pub(crate) fn index_write(index: &mut git2::Index) -> Result<(), git2::Error> {
    index.write()
}

/// `git2::Index::is_empty`: whether the staging area holds no entry. Nothing is promised of
/// the answer.
#[verifier::external_body]
pub(crate) fn index_is_empty(index: &git2::Index) -> bool {
    index.is_empty()
}

/// `git2::Index::write_tree`: writes the staging area as a tree object and returns the
/// tree's identifier. Nothing is promised of the outcome.
#[verifier::external_body]
pub(crate) fn index_write_tree(index: &mut git2::Index) -> Result<git2::Oid, git2::Error> {
    index.write_tree()
}

/// `git2::Repository::find_tree`: looks a tree object up. Nothing is promised of the outcome.
#[verifier::external_body]
pub(crate) fn find_tree<'a>(repo: &'a git2::Repository, id: git2::Oid) -> Result<
    git2::Tree<'a>,
    git2::Error,
> {
    repo.find_tree(id)
}

/// `git2::Repository::head`: the reference that `HEAD` resolves to. Nothing is promised of
/// the outcome.
#[verifier::external_body]
pub(crate) fn head<'a>(repo: &'a git2::Repository) -> Result<git2::Reference<'a>, git2::Error> {
    repo.head()
}

/// `git2::Reference::peel_to_commit`: the commit that a reference leads to. Nothing is
/// promised of the outcome. (The call would panic if the engine, asked to peel to a commit,
/// handed back an object of another kind; its peeling reports a failure instead.)
#[verifier::external_body]
pub(crate) fn peel_to_commit<'a>(reference: &git2::Reference<'a>) -> Result<
    git2::Commit<'a>,
    git2::Error,
> {
    reference.peel_to_commit()
}

/// `git2::Commit::tree_id`: the identifier of a commit's tree. Nothing is promised of it.
#[verifier::external_body]
pub(crate) fn commit_tree_id(commit: &git2::Commit<'_>) -> git2::Oid {
    commit.tree_id()
}

/// `git2::Oid::as_bytes`, copied into a vector: the bytes of an identifier. Nothing is
/// promised of them.
#[verifier::external_body]
pub(crate) fn oid_bytes(id: &git2::Oid) -> Vec<u8> {
    id.as_bytes().to_vec()
}

/// `git2::Signature::now`: a signature for `name` and `email` with the current time.
/// Nothing is promised of the outcome.
#[verifier::external_body]
pub(crate) fn signature_now(name: &str, email: &str) -> Result<
    git2::Signature<'static>,
    git2::Error,
> {
    git2::Signature::now(name, email)
}

/// `git2::Repository::commit`, with `signature` as author and committer and with no parent
/// or the one given: creates a commit of `tree` and moves `update_ref` to it. Nothing is
/// promised of the outcome.
#[verifier::external_body]
pub(crate) fn commit(
    repo: &git2::Repository,
    update_ref: &str,
    signature: &git2::Signature<'_>,
    message: &str,
    tree: &git2::Tree<'_>,
    parent: Option<&git2::Commit<'_>>,
) -> Result<git2::Oid, git2::Error> {
    repo.commit(Some(update_ref), signature, signature, message, tree, parent.as_slice())
}

/// `git2::Repository::find_reference`: looks a reference up by name. Nothing is promised of
/// the outcome.
#[verifier::external_body]
pub(crate) fn find_reference<'a>(repo: &'a git2::Repository, name: &str) -> Result<
    git2::Reference<'a>,
    git2::Error,
> {
    repo.find_reference(name)
}

/// `git2::Repository::reference_to_annotated_commit`: the commit a reference points at,
/// annotated with the reference. Nothing is promised of the outcome.
#[verifier::external_body]
pub(crate) fn reference_to_annotated_commit<'a>(
    repo: &'a git2::Repository,
    reference: &git2::Reference<'_>,
) -> Result<git2::AnnotatedCommit<'a>, git2::Error> {
    repo.reference_to_annotated_commit(reference)
}

/// `git2::Repository::merge_analysis` for the one commit `theirs`; the flags it returns are
/// read with `is_up_to_date`, `is_fast_forward` and `is_normal`. Nothing is promised of the
/// outcome.
#[verifier::external_body]
pub(crate) fn merge_analysis(
    repo: &git2::Repository,
    theirs: &git2::AnnotatedCommit<'_>,
) -> Result<AnalysisFlags, git2::Error> {
    repo.merge_analysis(&[theirs]).map(|(analysis, _)| AnalysisFlags {
        up_to_date: analysis.is_up_to_date(),
        fast_forward: analysis.is_fast_forward(),
        normal: analysis.is_normal(),
    })
}

/// `git2::AnnotatedCommit::id`: the identifier of the commit. Nothing is promised of it.
#[verifier::external_body]
pub(crate) fn annotated_commit_id(commit: &git2::AnnotatedCommit<'_>) -> git2::Oid {
    commit.id()
}

/// `git2::Reference::set_target`: makes a direct reference point at `id`; the reference it
/// returns is dropped. Nothing is promised of the outcome.
#[verifier::external_body]
pub(crate) fn reference_set_target(
    reference: &mut git2::Reference<'_>,
    id: git2::Oid,
    reflog_message: &str,
) -> Result<(), git2::Error> {
    reference.set_target(id, reflog_message).map(|_| ())
}

/// `git2::Repository::set_head`: makes `HEAD` point at the reference named `name`. Nothing
/// is promised of the outcome.
#[verifier::external_body]
pub(crate) fn set_head(repo: &git2::Repository, name: &str) -> Result<(), git2::Error> {
    repo.set_head(name)
}

/// `git2::build::CheckoutBuilder::new`: checkout options that are the default, under which
/// a checkout changes nothing that it would have to overwrite.
#[verifier::external_body]
pub(crate) fn checkout_builder<'a>() -> git2::build::CheckoutBuilder<'a> {
    git2::build::CheckoutBuilder::new()
}

/// `git2::build::CheckoutBuilder::force`: asks the checkout to overwrite what differs.
#[verifier::external_body]
pub(crate) fn checkout_force(builder: &mut git2::build::CheckoutBuilder<'_>) {
    builder.force();
}

/// `git2::Repository::checkout_head` with the options of `builder`: makes the working tree
/// match `HEAD`. Nothing is promised of the outcome.
#[verifier::external_body]
pub(crate) fn checkout_head(
    repo: &git2::Repository,
    builder: &mut git2::build::CheckoutBuilder<'_>,
) -> Result<(), git2::Error> {
    repo.checkout_head(Some(builder))
}

/// `git2::Repository::find_remote`: looks a remote up by name. Nothing is promised of the
/// outcome.
#[verifier::external_body]
pub(crate) fn find_remote<'a>(repo: &'a git2::Repository, name: &str) -> Result<
    git2::Remote<'a>,
    git2::Error,
> {
    repo.find_remote(name)
}

/// `git2::Repository::remote`: adds a remote with the given name and URL; the remote it
/// returns is dropped. Nothing is promised of the outcome.
#[verifier::external_body]
pub(crate) fn remote_create(repo: &git2::Repository, name: &str, url: &str) -> Result<
    (),
    git2::Error,
> {
    repo.remote(name, url).map(|_| ())
}

/// `git2::Repository::remote_set_url`: changes the URL of the remote named `name`. Nothing
/// is promised of the outcome.
#[verifier::external_body]
pub(crate) fn remote_set_url(repo: &git2::Repository, name: &str, url: &str) -> Result<
    (),
    git2::Error,
> {
    repo.remote_set_url(name, url)
}

/// `git2::Remote::url`, copied into a `String`: the remote's URL, or `None` where it is not
/// UTF-8. Nothing is promised of the value.
#[verifier::external_body]
pub(crate) fn remote_url(remote: &git2::Remote<'_>) -> Option<String> {
    remote.url().map(|url| url.to_string())
}

/// `git2::Cred::userpass_plaintext`: a credential of a user name and a password. Nothing is
/// promised of the outcome.
#[verifier::external_body]
pub(crate) fn cred_userpass(username: &str, password: &str) -> Result<git2::Cred, git2::Error> {
    git2::Cred::userpass_plaintext(username, password)
}

/// `git2::Cred::ssh_key_from_agent`: a credential that asks the user's key agent. Nothing is
/// promised of the outcome.
#[verifier::external_body]
pub(crate) fn cred_from_agent(username: &str) -> Result<git2::Cred, git2::Error> {
    git2::Cred::ssh_key_from_agent(username)
}

/// `git2::RemoteCallbacks::new`: a set of callbacks with none installed.
#[verifier::external_body]
pub(crate) fn remote_callbacks<'a>() -> git2::RemoteCallbacks<'a> {
    git2::RemoteCallbacks::new()
}

/// `git2::RemoteCallbacks::credentials`: installs the callback that the transport asks for
/// a credential. The callback answers with `make_cred` of `credential`, whatever it is asked.
#[verifier::external_body]
pub(crate) fn set_credentials<'a>(
    callbacks: &mut git2::RemoteCallbacks<'a>,
    credential: &'a Credential,
) {
    callbacks.credentials(move |_url, _username, _allowed| make_cred(credential));
}

/// `git2::FetchOptions::new` and `git2::FetchOptions::remote_callbacks`: fetch options that
/// hold `callbacks` and are otherwise the default.
#[verifier::external_body]
pub(crate) fn fetch_options<'a>(callbacks: git2::RemoteCallbacks<'a>) -> git2::FetchOptions<'a> {
    let mut options = git2::FetchOptions::new();
    options.remote_callbacks(callbacks);
    options
}

/// `git2::PushOptions::new` and `git2::PushOptions::remote_callbacks`: push options that
/// hold `callbacks` and are otherwise the default.
#[verifier::external_body]
pub(crate) fn push_options<'a>(callbacks: git2::RemoteCallbacks<'a>) -> git2::PushOptions<'a> {
    let mut options = git2::PushOptions::new();
    options.remote_callbacks(callbacks);
    options
}

/// `git2::Remote::fetch` with the one refspec `refspec` and no reflog message: downloads
/// from the remote. Nothing is promised of the outcome.
#[verifier::external_body]
pub(crate) fn fetch(
    remote: &mut git2::Remote<'_>,
    refspec: &str,
    options: &mut git2::FetchOptions<'_>,
) -> Result<(), git2::Error> {
    remote.fetch(&[refspec], Some(options), None)
}

/// `git2::Remote::push` with the one refspec `refspec`: uploads to the remote. Nothing is
/// promised of the outcome.
#[verifier::external_body]
pub(crate) fn push(
    remote: &mut git2::Remote<'_>,
    refspec: &str,
    options: &mut git2::PushOptions<'_>,
) -> Result<(), git2::Error> {
    remote.push(&[refspec], Some(options))
}

} // verus!
