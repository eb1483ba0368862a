//! Finding, creating, listing and deleting wikis.

use vstd::prelude::*;
use vstd::string::*;
use crate::git::GitError;
use crate::git::RepositoryHandle;
use crate::text;
use crate::text::after_last;
use crate::text::before_last;
use crate::text::joined;

verus! {

/// A wiki: a named collection of documents in a repository of its own.
#[derive(Debug)]
pub struct Wiki {
    /// The wiki's name, which is the name of its directory.
    pub name: String,
    /// Whether the wiki had the remote `origin` when it was looked at.
    pub has_remote_repo: bool,
    /// The path of the wiki's directory.
    pub path: String,
}

/// A `Wiki` as mathematical values.
pub struct WikiView {
    pub name: Seq<char>,
    pub has_remote_repo: bool,
    pub path: Seq<char>,
}

impl View for Wiki {
    type V = WikiView;

    open spec fn view(&self) -> WikiView {
        WikiView { name: self.name@, has_remote_repo: self.has_remote_repo, path: self.path@ }
    }
}

/// Why an operation on a wiki failed.
#[derive(Debug)]
pub enum WikiError {
    /// The file system refused; the text says how.
    Io(String),
    /// The repository engine failed.
    Git(GitError),
    /// A name or a content is not UTF-8; the text says which.
    Utf8(String),
    /// A path cannot be used; the text says why.
    Path(String),
    /// There is something at the wiki's path already.
    AlreadyExists(String),
    /// There is nothing at the wiki's path.
    NotFound(String),
    /// What is at the wiki's path is no directory.
    NotADirectory(String),
    /// The storage directory cannot be had.
    StorageDir,
    /// The tree of files cannot be listed; the text says why.
    BuildFileTree(String),
}

impl WikiError {
    /// The error as text: what failed, followed by what the error carries.
    pub open spec fn text(self) -> Seq<char> {
        match self {
            WikiError::Io(why) => "IO error: "@ + why@,
            WikiError::Git(e) => "Git operation error: "@ + e.text(),
            WikiError::Utf8(why) => "UTF-8 conversion error: "@ + why@,
            WikiError::Path(why) => "Path conversion error: "@ + why@,
            WikiError::AlreadyExists(why) => "Wiki already exists: "@ + why@,
            WikiError::NotFound(why) => "Wiki not found: "@ + why@,
            WikiError::NotADirectory(why) => "Not a directory: "@ + why@,
            WikiError::StorageDir => "Failed to get wiki storage directory"@,
            WikiError::BuildFileTree(why) => "Failed to build file tree: "@ + why@,
        }
    }

    /// The error as text for a person to read.
    pub fn message(&self) -> (r: String)
        ensures
            r@ == self.text(),
    {
        match self {
            WikiError::Io(why) => String::from_str("IO error: ").concat(why.as_str()),
            WikiError::Git(e) => {
                let inner = e.message();
                String::from_str("Git operation error: ").concat(inner.as_str())
            },
            WikiError::Utf8(why) => String::from_str("UTF-8 conversion error: ").concat(
                why.as_str(),
            ),
            WikiError::Path(why) => String::from_str("Path conversion error: ").concat(
                why.as_str(),
            ),
            WikiError::AlreadyExists(why) => String::from_str("Wiki already exists: ").concat(
                why.as_str(),
            ),
            WikiError::NotFound(why) => String::from_str("Wiki not found: ").concat(why.as_str()),
            WikiError::NotADirectory(why) => String::from_str("Not a directory: ").concat(
                why.as_str(),
            ),
            WikiError::StorageDir => String::from_str("Failed to get wiki storage directory"),
            WikiError::BuildFileTree(why) => String::from_str("Failed to build file tree: ").concat(
                why.as_str(),
            ),
        }
    }
}

/// What the caller found at a path.
#[derive(Clone, Copy, Debug, PartialEq, Eq, Structural)]
pub enum Entry {
    /// Nothing is there.
    Missing,
    /// A directory is there.
    Directory,
    /// Something else is there, such as a file.
    Other,
}

/// One entry of the storage directory, as the caller read it.
#[derive(Debug)]
pub struct DirEntry {
    /// The entry's name; `None` where the name is not UTF-8.
    pub name: Option<String>,
    /// Whether the entry is a directory.
    pub is_dir: bool,
}

/// The leave to remove a wiki's directory with all that is below it.
#[derive(Debug)]
pub struct Removal {
    /// The directory to remove.
    pub path: String,
}

/// The path of the wiki `name` in the storage directory.
pub open spec fn wiki_path(storage_dir: Seq<char>, name: Seq<char>) -> Seq<char> {
    joined(storage_dir, name)
}

/// The name of the wiki that a clone of `url` becomes: the last segment of the URL without
/// its extension, which is what follows the segment's last dot.
pub open spec fn wiki_name(url: Seq<char>) -> Seq<char> {
    before_last(after_last(url, '/'), '.')
}

/// What `NotFound` says of a wiki whose path holds nothing.
pub open spec fn missing_path(path: Seq<char>) -> Seq<char> {
    "知识库路径不存在: "@ + path
}

/// What `AlreadyExists` says of a wiki whose path is taken.
pub open spec fn taken_path(path: Seq<char>) -> Seq<char> {
    "知识库已存在: "@ + path
}

/// What `NotFound` says of a wiki that was to be deleted and is not there.
pub open spec fn missing_wiki(name: Seq<char>) -> Seq<char> {
    "知识库不存在: "@ + name
}

/// What `NotADirectory` says of a path that holds something else.
pub open spec fn not_a_directory(path: Seq<char>) -> Seq<char> {
    "指定的路径不是一个目录: "@ + path
}

/// Whether a failed creation has left something behind that has to go: the failure came
/// from the engine, so after the path was found free, and the path is free no longer.
pub open spec fn calls_for_rollback(error: WikiError, left: Entry) -> bool {
    error is Git && left !is Missing
}

/// Whether `picked` names places in a list of `len` items, each behind the one before.
pub open spec fn ascending(picked: Seq<int>, len: int) -> bool {
    &&& forall|j: int| 0 <= j < picked.len() ==> 0 <= #[trigger] picked[j] < len
    &&& forall|i: int, j: int| 0 <= i < j < picked.len() ==> picked[i] < picked[j]
}

/// Whether `wiki` is the wiki of the directory entry `entry` in the storage directory.
pub open spec fn listed_from(wiki: Wiki, entry: DirEntry, storage_dir: Seq<char>) -> bool {
    &&& entry.is_dir
    &&& entry.name matches Some(name)
    &&& wiki@.name == name@
    &&& wiki@.path == wiki_path(storage_dir, name@)
}

impl Wiki {
    /// The path of the wiki `name` in the storage directory.
    pub fn path_of(storage_dir: &str, name: &str) -> (r: String)
        ensures
            r@ == wiki_path(storage_dir@, name@),
    {
        text::join(storage_dir, name)
    }

    /// The name of the wiki that a clone of `url` becomes.
    pub fn name_from_url(url: &str) -> (r: String)
        ensures
            r@ == wiki_name(url@),
    {
        let segment = text::segment_after_last(url, '/');
        text::part_before_last(segment.as_str(), '.')
    }

    /// The wiki `name`, where `entry` is what stands at its path.
    ///
    /// Fails with `NotFound` where nothing stands there, and with the engine's
    /// `OpenRepository` where what stands there is no repository. Whether the wiki has a
    /// remote is asked of the repository anew; where that cannot be told, it counts as none.
    pub fn from_name(name: &str, storage_dir: &str, entry: Entry) -> (r: Result<Wiki, WikiError>)
        ensures
            entry is Missing ==> (r matches Err(WikiError::NotFound(why)) && why@ == missing_path(
                wiki_path(storage_dir@, name@),
            )),
            entry !is Missing ==> match r {
                Ok(wiki) => wiki@.name == name@ && wiki@.path == wiki_path(storage_dir@, name@),
                Err(e) => e matches WikiError::Git(g) && g is OpenRepository,
            },
    {
        let path = Wiki::path_of(storage_dir, name);
        if entry == Entry::Missing {
            return Err(
                WikiError::NotFound(String::from_str("知识库路径不存在: ").concat(path.as_str())),
            );
        }
        let handle = match RepositoryHandle::open(path.as_str()) {
            Ok(handle) => handle,
            Err(e) => {
                return Err(WikiError::Git(e));
            },
        };
        Ok(Wiki::described(name, path, handle.has_remote()))
    }

    /// The wiki `name` at `path` as it is described once its repository is open: it has a
    /// remote where asking for `origin` said so, and none where the answer was no or could
    /// not be had.
    pub fn described(name: &str, path: String, remote: Result<bool, GitError>) -> (r: Wiki)
        ensures
            r@ == (WikiView {
                name: name@,
                has_remote_repo: remote == Ok::<bool, GitError>(true),
                path: path@,
            }),
    {
        let has_remote_repo = match remote {
            Ok(present) => present,
            Err(_) => false,
        };
        Wiki { name: String::from_str(name), has_remote_repo, path }
    }

    /// Whether the wiki `name` is there: whether `from_name` finds it, as `found` reads what
    /// `from_name` answers.
    pub fn is_present(name: &str, storage_dir: &str, entry: Entry) -> (r: bool)
        ensures
            entry is Missing ==> !r,
    {
        let outcome = Wiki::from_name(name, storage_dir, entry);
        Wiki::found(&outcome)
    }

    /// Whether a wiki was found, given what resolving its name answered.
    pub fn found(outcome: &Result<Wiki, WikiError>) -> (r: bool)
        ensures
            r == (*outcome is Ok),
    {
        match outcome {
            Ok(_) => true,
            Err(_) => false,
        }
    }

    /// What resolving one directory entry adds to the list: the wiki where it resolved, and
    /// nothing where it did not.
    pub fn kept(resolved: Result<Wiki, WikiError>) -> (r: Option<Wiki>)
        ensures
            r == match resolved {
                Ok(wiki) => Some(wiki),
                Err(_) => None,
            },
    {
        match resolved {
            Ok(wiki) => Some(wiki),
            Err(_) => None,
        }
    }

    /// Creates the wiki `name` as a new repository with the given identity, where `entry`
    /// is what stands at its path.
    ///
    /// Fails with `AlreadyExists` where anything stands there, and touches nothing then.
    /// Else the engine creates the directory and the repository in it; where it fails, the
    /// failure is handed on, and `needs_rollback` says whether a directory is left to remove.
    pub fn create_local_wiki(
        name: &str,
        storage_dir: &str,
        entry: Entry,
        username: &str,
        email: &str,
    ) -> (r: Result<Wiki, WikiError>)
        ensures
            entry !is Missing ==> (r matches Err(WikiError::AlreadyExists(why)) && why@
                == taken_path(wiki_path(storage_dir@, name@))),
            entry is Missing ==> match r {
                Ok(wiki) => wiki@ == (WikiView {
                    name: name@,
                    has_remote_repo: false,
                    path: wiki_path(storage_dir@, name@),
                }),
                Err(e) => e matches WikiError::Git(g) && (g is InitRepository || g is Config
                    || g is SetConfig),
            },
    {
        let path = Wiki::path_of(storage_dir, name);
        if entry != Entry::Missing {
            return Err(
                WikiError::AlreadyExists(String::from_str("知识库已存在: ").concat(path.as_str())),
            );
        }
        match RepositoryHandle::init(path.as_str(), Some(username), Some(email)) {
            Ok(_) => Ok(Wiki { name: String::from_str(name), has_remote_repo: false, path }),
            Err(e) => Err(WikiError::Git(e)),
        }
    }

    /// Creates the wiki `name` as a clone of the repository at `url`, with the given
    /// identity and, where there is one, password; `entry` is what stands at its path.
    ///
    /// Fails with `AlreadyExists` where anything stands there, and touches nothing then.
    /// Else the engine clones into the directory; where it fails, the failure is handed on,
    /// and `needs_rollback` says whether a directory is left to remove.
    pub fn create_remote_wiki(
        name: &str,
        url: &str,
        storage_dir: &str,
        entry: Entry,
        username: &str,
        email: &str,
        password: Option<&str>,
    ) -> (r: Result<Wiki, WikiError>)
        ensures
            entry !is Missing ==> (r matches Err(WikiError::AlreadyExists(why)) && why@
                == taken_path(wiki_path(storage_dir@, name@))),
            entry is Missing ==> match r {
                Ok(wiki) => wiki@ == (WikiView {
                    name: name@,
                    has_remote_repo: true,
                    path: wiki_path(storage_dir@, name@),
                }),
                Err(e) => e matches WikiError::Git(g) && (g is CloneRepository || g is Config
                    || g is SetConfig),
            },
    {
        let path = Wiki::path_of(storage_dir, name);
        if entry != Entry::Missing {
            return Err(
                WikiError::AlreadyExists(String::from_str("知识库已存在: ").concat(path.as_str())),
            );
        }
        match RepositoryHandle::clone(url, path.as_str(), Some(username), Some(email), password) {
            Ok(_) => Ok(Wiki { name: String::from_str(name), has_remote_repo: true, path }),
            Err(e) => Err(WikiError::Git(e)),
        }
    }

    /// Whether the caller has to remove the wiki's directory after a creation that failed
    /// with `error`; `left` is what stands at the wiki's path now.
    pub fn needs_rollback(error: &WikiError, left: Entry) -> (r: bool)
        ensures
            r == calls_for_rollback(*error, left),
    {
        match error {
            WikiError::Git(_) => left != Entry::Missing,
            _ => false,
        }
    }

    /// What a failed creation reports once the directory was to be removed: the failure of
    /// the removal where it failed too, else the failure of the creation.
    pub fn after_rollback(error: WikiError, removal: Result<(), String>) -> (r: WikiError)
        ensures
            r == match removal {
                Ok(()) => error,
                Err(why) => WikiError::Io(why),
            },
    {
        match removal {
            Ok(()) => error,
            Err(why) => WikiError::Io(why),
        }
    }

    /// Decides whether the wiki `name` may be deleted, where `entry` is what stands at its
    /// path. The leave names the directory that the caller then removes.
    ///
    /// Fails with `NotFound` where nothing stands there and with `NotADirectory` where
    /// something else than a directory does; no leave is given then.
    pub fn delete_wiki(name: &str, storage_dir: &str, entry: Entry) -> (r: Result<
        Removal,
        WikiError,
    >)
        ensures
            match entry {
                Entry::Missing => r matches Err(WikiError::NotFound(why)) && why@ == missing_wiki(
                    name@,
                ),
                Entry::Other => r matches Err(WikiError::NotADirectory(why)) && why@
                    == not_a_directory(wiki_path(storage_dir@, name@)),
                Entry::Directory => r matches Ok(removal) && removal.path@ == wiki_path(
                    storage_dir@,
                    name@,
                ),
            },
    {
        match entry {
            Entry::Missing => Err(
                WikiError::NotFound(String::from_str("知识库不存在: ").concat(name)),
            ),
            Entry::Other => {
                let path = Wiki::path_of(storage_dir, name);
                Err(
                    WikiError::NotADirectory(
                        String::from_str("指定的路径不是一个目录: ").concat(path.as_str()),
                    ),
                )
            },
            Entry::Directory => Ok(Removal { path: Wiki::path_of(storage_dir, name) }),
        }
    }

    /// The wikis among the entries of the storage directory, in the order of the entries.
    ///
    /// An entry that is no directory or has no UTF-8 name is passed over. Every other entry
    /// is resolved by `from_name`, and `kept` says what that adds: the wiki where the entry
    /// resolves, nothing where it does not. So every wiki in the list is the wiki of a
    /// directory entry, and the wikis stand in the order of their entries.
    pub fn list(storage_dir: &str, entries: &Vec<DirEntry>) -> (r: Vec<Wiki>)
        ensures
            exists|picked: Seq<int>|
                {
                    &&& picked.len() == r@.len()
                    &&& ascending(picked, entries@.len() as int)
                    &&& forall|j: int|
                        0 <= j < r@.len() ==> listed_from(
                            #[trigger] r@[j],
                            entries@[picked[j]],
                            storage_dir@,
                        )
                },
    {
        let mut wikis: Vec<Wiki> = Vec::new();
        let ghost mut picked: Seq<int> = Seq::empty();
        let mut i: usize = 0;
        while i < entries.len()
            invariant
                i <= entries.len(),
                picked.len() == wikis@.len(),
                ascending(picked, i as int),
                forall|j: int|
                    0 <= j < wikis@.len() ==> listed_from(
                        #[trigger] wikis@[j],
                        entries@[picked[j]],
                        storage_dir@,
                    ),
            decreases entries.len() - i,
        {
            let entry = &entries[i];
            if entry.is_dir {
                match &entry.name {
                    Some(name) => match Wiki::kept(
                        Wiki::from_name(name.as_str(), storage_dir, Entry::Directory),
                    ) {
                        Some(wiki) => {
                            let ghost before = wikis@;
                            let ghost picked_before = picked;
                            wikis.push(wiki);
                            proof {
                                picked = picked.push(i as int);
                                assert forall|j: int| 0 <= j < wikis@.len() implies listed_from(
                                    #[trigger] wikis@[j],
                                    entries@[picked[j]],
                                    storage_dir@,
                                ) by {
                                    if j < before.len() {
                                        assert(wikis@[j] == before[j]);
                                        assert(picked[j] == picked_before[j]);
                                    }
                                }
                            }
                        },
                        None => {},
                    },
                    None => {},
                }
            }
            i = i + 1;
        }
        wikis
    }
}

/// After a creation that failed in the engine, either the caller is told to remove what is
/// left, or nothing is left: no wiki stays half made.
pub proof fn law_no_wiki_half_made(error: WikiError, left: Entry)
    requires
        error is Git,
    ensures
        calls_for_rollback(error, left) || left is Missing,
{
}

} // verus!
