use std::io::Write;
use std::path::Path;

use markwiki::git::GitError;
use markwiki::git::RepositoryHandle;
use markwiki::wiki::DirEntry;
use markwiki::wiki::Entry;
use markwiki::wiki::Wiki;
use markwiki::wiki::WikiError;

fn text(path: &Path) -> String {
    path.to_str().unwrap().to_string()
}

fn write_file(dir: &Path, name: &str, content: &str) {
    let mut file = tempfile::NamedTempFile::new_in(dir).unwrap();
    file.write_all(content.as_bytes()).unwrap();
    file.persist(dir.join(name)).unwrap();
}

fn look(path: &Path) -> Entry {
    if !path.exists() {
        Entry::Missing
    } else if path.is_dir() {
        Entry::Directory
    } else {
        Entry::Other
    }
}

fn entry(name: &str, is_dir: bool) -> DirEntry {
    DirEntry { name: Some(name.to_string()), is_dir }
}

/// A bare repository with one commit on `master`.
fn seeded_remote(root: &Path, name: &str) -> String {
    let path = root.join(name);
    let mut options = git2::RepositoryInitOptions::new();
    options.bare(true).initial_head("master");
    let repo = git2::Repository::init_opts(&path, &options).unwrap();
    let blob = repo.blob(b"welcome").unwrap();
    let mut builder = repo.treebuilder(None).unwrap();
    builder.insert("index.md", blob, 0o100644).unwrap();
    let tree = repo.find_tree(builder.write().unwrap()).unwrap();
    let who = git2::Signature::now("Ada", "ada@example.com").unwrap();
    repo.commit(Some("HEAD"), &who, &who, "first page", &tree, &[]).unwrap();
    text(&path)
}

#[test]
fn wiki_name_is_the_last_segment_without_extension() {
    assert_eq!(Wiki::name_from_url("https://example.com/group/notes.git"), "notes");
    assert_eq!(Wiki::name_from_url("https://host/group/project.git"), "project");
    assert_eq!(Wiki::name_from_url("git@example.com:group/notes.git"), "notes");
    assert_eq!(Wiki::name_from_url("https://example.com/group/notes"), "notes");
    assert_eq!(Wiki::name_from_url("notes.git"), "notes");
}

#[test]
fn wiki_name_loses_only_its_extension() {
    assert_eq!(Wiki::name_from_url("https://example.com/group/my.wiki.git"), "my.wiki");
    assert_eq!(Wiki::name_from_url("https://host/group/my.wiki.git"), "my.wiki");
    assert_eq!(Wiki::name_from_url("https://example.com/v1.2/notes"), "notes");
    assert_eq!(Wiki::name_from_url("https://example.com/group/.git"), "");
    assert_eq!(Wiki::name_from_url("https://example.com/group/"), "");
    assert_eq!(Wiki::name_from_url(""), "");
}

#[test]
fn wiki_path_is_below_the_storage_directory() {
    assert_eq!(Wiki::path_of("/srv/wiki", "notes"), "/srv/wiki/notes");
    assert_eq!(Wiki::path_of("/srv/wiki/", "notes"), "/srv/wiki/notes");
}

#[test]
fn missing_wiki_is_not_found() {
    let root = tempfile::TempDir::new().unwrap();
    let storage = text(root.path());
    match Wiki::from_name("notes", &storage, Entry::Missing) {
        Err(WikiError::NotFound(why)) => {
            assert_eq!(why, format!("知识库路径不存在: {}/notes", storage));
        }
        other => panic!("unexpected outcome: {:?}", other),
    }
    assert!(!Wiki::is_present("notes", &storage, Entry::Missing));
}

#[test]
fn directory_without_repository_is_no_wiki() {
    let root = tempfile::TempDir::new().unwrap();
    let storage = text(root.path());
    let taken = tempfile::Builder::new().prefix("plain").tempdir_in(root.path()).unwrap();
    let name = taken.path().file_name().unwrap().to_str().unwrap().to_string();
    assert!(matches!(
        Wiki::from_name(&name, &storage, look(taken.path())),
        Err(WikiError::Git(GitError::OpenRepository(_)))
    ));
    assert!(!Wiki::is_present(&name, &storage, look(taken.path())));
}

#[test]
fn local_wiki_is_created_without_remote() {
    let root = tempfile::TempDir::new().unwrap();
    let storage = text(root.path());
    let path = root.path().join("notes");
    let wiki = Wiki::create_local_wiki("notes", &storage, look(&path), "Ada", "ada@example.com")
        .unwrap();
    assert_eq!(wiki.name, "notes");
    assert_eq!(wiki.has_remote_repo, false);
    assert_eq!(wiki.path, text(&path));
    assert_eq!(look(&path), Entry::Directory);
    let handle = RepositoryHandle::open(&wiki.path).unwrap();
    assert_eq!(handle.has_remote().unwrap(), false);
    assert_eq!(
        handle.get_user_config().unwrap(),
        ("Ada".to_string(), "ada@example.com".to_string())
    );
    let found = Wiki::from_name("notes", &storage, look(&path)).unwrap();
    assert_eq!(found.name, "notes");
    assert_eq!(found.has_remote_repo, false);
    assert_eq!(found.path, text(&path));
    assert!(Wiki::is_present("notes", &storage, look(&path)));
}

#[test]
fn wiki_shows_its_remote_once_it_is_set() {
    let root = tempfile::TempDir::new().unwrap();
    let storage = text(root.path());
    let path = root.path().join("notes");
    let wiki = Wiki::create_local_wiki("notes", &storage, look(&path), "Ada", "ada@example.com")
        .unwrap();
    assert_eq!(wiki.has_remote_repo, false);
    let handle = RepositoryHandle::open(&wiki.path).unwrap();
    handle.set_remote("origin", "https://example.com/group/notes.git").unwrap();
    let found = Wiki::from_name("notes", &storage, look(&path)).unwrap();
    assert_eq!(found.has_remote_repo, true);
}

#[test]
fn local_wiki_is_refused_where_the_path_is_taken() {
    let root = tempfile::TempDir::new().unwrap();
    let storage = text(root.path());
    let path = root.path().join("notes");
    Wiki::create_local_wiki("notes", &storage, look(&path), "Ada", "ada@example.com").unwrap();
    write_file(&path, "a.md", "one");
    match Wiki::create_local_wiki("notes", &storage, look(&path), "Eve", "eve@example.com") {
        Err(WikiError::AlreadyExists(why)) => {
            assert_eq!(why, format!("知识库已存在: {}/notes", storage));
        }
        other => panic!("unexpected outcome: {:?}", other),
    }
    let handle = RepositoryHandle::open(&text(&path)).unwrap();
    assert_eq!(
        handle.get_user_config().unwrap(),
        ("Ada".to_string(), "ada@example.com".to_string())
    );
    assert!(path.join("a.md").exists());
}

#[test]
fn local_wiki_is_refused_where_a_file_has_the_name() {
    let root = tempfile::TempDir::new().unwrap();
    let storage = text(root.path());
    write_file(root.path(), "notes", "not a directory");
    assert!(matches!(
        Wiki::create_local_wiki("notes", &storage, Entry::Other, "Ada", "ada@example.com"),
        Err(WikiError::AlreadyExists(_))
    ));
    assert_eq!(look(&root.path().join("notes")), Entry::Other);
}

#[test]
fn remote_wiki_is_a_clone_under_the_derived_name() {
    let root = tempfile::TempDir::new().unwrap();
    let url = seeded_remote(root.path(), "notes.git");
    let storage_dir = root.path().join("storage");
    let storage = text(&storage_dir);
    let name = Wiki::name_from_url(&url);
    assert_eq!(name, "notes");
    let path = storage_dir.join("notes");
    let wiki = Wiki::create_remote_wiki(
        &name,
        &url,
        &storage,
        look(&path),
        "Grace",
        "grace@example.com",
        None,
    )
    .unwrap();
    assert_eq!(wiki.name, "notes");
    assert_eq!(wiki.has_remote_repo, true);
    assert_eq!(wiki.path, text(&path));
    assert!(path.join("index.md").exists());
    let found = Wiki::from_name("notes", &storage, look(&path)).unwrap();
    assert_eq!(found.has_remote_repo, true);
    let handle = RepositoryHandle::open(&wiki.path).unwrap();
    assert_eq!(handle.get_remote_url("origin").unwrap(), Some(url));
}

#[test]
fn remote_wiki_is_refused_where_the_name_is_taken() {
    let root = tempfile::TempDir::new().unwrap();
    let url = seeded_remote(root.path(), "notes.git");
    let storage_dir = root.path().join("storage");
    let storage = text(&storage_dir);
    let path = storage_dir.join("notes");
    Wiki::create_local_wiki("notes", &storage, look(&path), "Ada", "ada@example.com").unwrap();
    let name = Wiki::name_from_url("https://example.com/group/notes.git");
    match Wiki::create_remote_wiki(
        &name,
        &url,
        &storage,
        look(&path),
        "Grace",
        "grace@example.com",
        Some("secret"),
    ) {
        Err(WikiError::AlreadyExists(why)) => {
            assert_eq!(why, format!("知识库已存在: {}/notes", storage));
        }
        other => panic!("unexpected outcome: {:?}", other),
    }
    assert!(!path.join("index.md").exists());
    let handle = RepositoryHandle::open(&text(&path)).unwrap();
    assert_eq!(handle.has_remote().unwrap(), false);
}

#[test]
fn failed_clone_leaves_no_wiki() {
    let root = tempfile::TempDir::new().unwrap();
    let storage = text(root.path());
    let path = root.path().join("notes");
    let url = text(&root.path().join("nowhere.git"));
    let error = match Wiki::create_remote_wiki(
        "notes",
        &url,
        &storage,
        look(&path),
        "Grace",
        "grace@example.com",
        None,
    ) {
        Err(error) => error,
        Ok(wiki) => panic!("cloned what is not there: {:?}", wiki),
    };
    assert!(matches!(error, WikiError::Git(GitError::CloneRepository(_))));
    assert_eq!(Wiki::needs_rollback(&error, look(&path)), look(&path) != Entry::Missing);
}

#[test]
fn rollback_is_for_what_the_engine_left_behind() {
    let engine = || {
        WikiError::Git(GitError::SetConfig(markwiki::git::Cause {
            code: -1,
            class: 7,
            not_found: false,
            message: "locked".to_string(),
        }))
    };
    assert!(Wiki::needs_rollback(&engine(), Entry::Directory));
    assert!(Wiki::needs_rollback(&engine(), Entry::Other));
    assert!(!Wiki::needs_rollback(&engine(), Entry::Missing));
    assert!(!Wiki::needs_rollback(&WikiError::AlreadyExists("x".to_string()), Entry::Directory));
    assert!(!Wiki::needs_rollback(&WikiError::StorageDir, Entry::Directory));
    assert!(!Wiki::needs_rollback(&WikiError::Io("x".to_string()), Entry::Directory));
}

#[test]
fn failed_rollback_is_reported_in_place_of_the_failure() {
    let failure = || WikiError::Git(GitError::NoRemote);
    assert!(matches!(Wiki::after_rollback(failure(), Ok(())), WikiError::Git(GitError::NoRemote)));
    match Wiki::after_rollback(failure(), Err("permission denied".to_string())) {
        WikiError::Io(why) => assert_eq!(why, "permission denied"),
        other => panic!("unexpected report: {:?}", other),
    }
}

#[test]
fn deleting_a_missing_wiki_is_refused() {
    match Wiki::delete_wiki("notes", "/srv/wiki", Entry::Missing) {
        Err(WikiError::NotFound(why)) => assert_eq!(why, "知识库不存在: notes"),
        other => panic!("unexpected outcome: {:?}", other),
    }
}

#[test]
fn deleting_what_is_no_directory_is_refused() {
    match Wiki::delete_wiki("notes", "/srv/wiki", Entry::Other) {
        Err(WikiError::NotADirectory(why)) => {
            assert_eq!(why, "指定的路径不是一个目录: /srv/wiki/notes");
        }
        other => panic!("unexpected outcome: {:?}", other),
    }
}

#[test]
fn deleting_a_directory_is_allowed() {
    let removal = Wiki::delete_wiki("notes", "/srv/wiki", Entry::Directory).unwrap();
    assert_eq!(removal.path, "/srv/wiki/notes");
}

#[test]
fn list_holds_the_wikis_in_the_order_of_the_entries() {
    let root = tempfile::TempDir::new().unwrap();
    let storage = text(root.path());
    for name in ["zeta", "alpha", "beta"] {
        let path = root.path().join(name);
        Wiki::create_local_wiki(name, &storage, look(&path), "Ada", "ada@example.com").unwrap();
    }
    RepositoryHandle::open(&text(&root.path().join("alpha")))
        .unwrap()
        .set_remote("origin", "https://example.com/alpha.git")
        .unwrap();
    let plain = tempfile::Builder::new().prefix("plain").tempdir_in(root.path()).unwrap();
    let plain_name = plain.path().file_name().unwrap().to_str().unwrap().to_string();
    write_file(root.path(), "config.json", "{}");
    let entries = vec![
        entry("zeta", true),
        entry("config.json", false),
        entry(&plain_name, true),
        DirEntry { name: None, is_dir: true },
        entry("alpha", true),
        entry("absent", true),
        entry("beta", true),
    ];
    let wikis = Wiki::list(&storage, &entries);
    let names: Vec<&str> = wikis.iter().map(|w| w.name.as_str()).collect();
    assert_eq!(names, vec!["zeta", "alpha", "beta"]);
    let remotes: Vec<bool> = wikis.iter().map(|w| w.has_remote_repo).collect();
    assert_eq!(remotes, vec![false, true, false]);
    assert_eq!(wikis[1].path, format!("{}/alpha", storage));
}

#[test]
fn list_of_nothing_is_empty() {
    assert!(Wiki::list("/srv/wiki", &Vec::new()).is_empty());
    assert!(Wiki::list("/srv/wiki", &vec![entry("file", false)]).is_empty());
}

#[test]
fn wiki_errors_are_told_in_text() {
    assert_eq!(WikiError::Io("disk full".to_string()).message(), "IO error: disk full");
    assert_eq!(
        WikiError::Git(GitError::NoRemote).message(),
        "Git operation error: No remote repository configured"
    );
    assert_eq!(
        WikiError::Git(GitError::Fetch(markwiki::git::Cause {
            code: -1,
            class: 12,
            not_found: false,
            message: "timed out".to_string(),
        }))
        .message(),
        "Git operation error: Failed to fetch: timed out"
    );
    assert_eq!(WikiError::Utf8("name".to_string()).message(), "UTF-8 conversion error: name");
    assert_eq!(WikiError::Path("p".to_string()).message(), "Path conversion error: p");
    assert_eq!(
        WikiError::AlreadyExists("/srv/wiki/notes".to_string()).message(),
        "Wiki already exists: /srv/wiki/notes"
    );
    assert_eq!(
        WikiError::NotFound("/srv/wiki/notes".to_string()).message(),
        "Wiki not found: /srv/wiki/notes"
    );
    assert_eq!(
        WikiError::NotADirectory("/srv/wiki/notes".to_string()).message(),
        "Not a directory: /srv/wiki/notes"
    );
    assert_eq!(WikiError::StorageDir.message(), "Failed to get wiki storage directory");
    assert_eq!(
        WikiError::BuildFileTree("unreadable".to_string()).message(),
        "Failed to build file tree: unreadable"
    );
}

#[test]
fn wiki_has_a_remote_only_where_the_answer_is_yes() {
    let yes = Wiki::described("notes", "/srv/wiki/notes".to_string(), Ok(true));
    assert_eq!(yes.name, "notes");
    assert_eq!(yes.path, "/srv/wiki/notes");
    assert!(yes.has_remote_repo);
    let no = Wiki::described("notes", "/srv/wiki/notes".to_string(), Ok(false));
    assert!(!no.has_remote_repo);
    let unknown = Wiki::described("notes", "/srv/wiki/notes".to_string(), Err(GitError::NoRemote));
    assert!(!unknown.has_remote_repo);
}

#[test]
fn entry_that_resolves_is_kept_and_one_that_does_not_is_passed_over() {
    let wiki = Wiki::described("notes", "/srv/wiki/notes".to_string(), Ok(true));
    match Wiki::kept(Ok(wiki)) {
        Some(kept) => {
            assert_eq!(kept.name, "notes");
            assert_eq!(kept.path, "/srv/wiki/notes");
            assert!(kept.has_remote_repo);
        }
        None => panic!("a wiki that resolved was passed over"),
    }
    assert!(Wiki::kept(Err(WikiError::NotFound("x".to_string()))).is_none());
    assert!(Wiki::kept(Err(WikiError::Git(GitError::NoRemote))).is_none());
}

#[test]
fn wiki_is_found_exactly_where_resolving_succeeds() {
    let wiki = Wiki::described("notes", "/srv/wiki/notes".to_string(), Ok(false));
    assert!(Wiki::found(&Ok(wiki)));
    assert!(!Wiki::found(&Err(WikiError::NotFound("x".to_string()))));
    assert!(!Wiki::found(&Err(WikiError::StorageDir)));
}

#[test]
fn directory_that_resolves_is_listed() {
    let root = tempfile::TempDir::new().unwrap();
    let storage = text(root.path());
    let path = root.path().join("notes");
    Wiki::create_local_wiki("notes", &storage, look(&path), "Ada", "ada@example.com").unwrap();
    assert!(Wiki::is_present("notes", &storage, look(&path)));
    let wikis = Wiki::list(&storage, &vec![entry("notes", true)]);
    assert_eq!(wikis.len(), 1);
    assert_eq!(wikis[0].name, "notes");
}
