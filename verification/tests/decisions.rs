use markwiki::config::entered_password;
use markwiki::config::AppConfig;
use markwiki::config::ConfigError;
use markwiki::git::handle::holds_any;
use markwiki::git::handle::identity_or_default;
use markwiki::git::handle::remote_address;
use markwiki::git::handle::remote_presence;
use markwiki::git::protocol::advance;
use markwiki::git::staging::same_bytes;
use markwiki::git::AnalysisFlags;
use markwiki::git::Cause;
use markwiki::git::CommitPlan;
use markwiki::git::Credential;
use markwiki::git::GitError;
use markwiki::git::MergeAnalysis;
use markwiki::git::MergePlan;
use markwiki::git::RemoteChange;
use markwiki::git::Progress;
use markwiki::git::Step;
use markwiki::text;

fn flags(up_to_date: bool, fast_forward: bool, normal: bool) -> AnalysisFlags {
    AnalysisFlags { up_to_date, fast_forward, normal }
}

fn cause(not_found: bool, message: &str) -> Cause {
    Cause { code: if not_found { -3 } else { -1 }, class: 0, not_found, message: message.to_string() }
}

/// Runs the protocol from `start` with the given reports and hands back the steps taken
/// and the result.
fn drive(
    start: Step,
    mut report: impl FnMut(Step) -> Result<bool, GitError>,
) -> (Vec<Step>, Result<(), GitError>) {
    let mut taken = Vec::new();
    let mut step = start;
    loop {
        taken.push(step);
        match advance(step, report(step)) {
            Progress::Next(next) => step = next,
            Progress::Done(result) => return (taken, result),
        }
    }
}

#[test]
fn analysis_is_classified_by_rank_of_flag() {
    assert_eq!(MergeAnalysis::classify(flags(true, false, false)), Some(MergeAnalysis::UpToDate));
    assert_eq!(MergeAnalysis::classify(flags(true, true, true)), Some(MergeAnalysis::UpToDate));
    assert_eq!(
        MergeAnalysis::classify(flags(false, true, false)),
        Some(MergeAnalysis::FastForwardable)
    );
    assert_eq!(
        MergeAnalysis::classify(flags(false, true, true)),
        Some(MergeAnalysis::FastForwardable)
    );
    assert_eq!(MergeAnalysis::classify(flags(false, false, true)), Some(MergeAnalysis::Diverged));
    assert_eq!(MergeAnalysis::classify(flags(false, false, false)), None);
}

#[test]
fn merge_plan_follows_the_analysis() {
    assert_eq!(MergePlan::decide(Some(MergeAnalysis::UpToDate)), MergePlan::Nothing);
    assert_eq!(MergePlan::decide(Some(MergeAnalysis::FastForwardable)), MergePlan::FastForward);
    assert_eq!(MergePlan::decide(Some(MergeAnalysis::Diverged)), MergePlan::Refuse);
    assert_eq!(MergePlan::decide(None), MergePlan::Nothing);
}

#[test]
fn commit_plan_on_a_branch_without_commits() {
    let tree = vec![1u8, 2, 3];
    assert_eq!(CommitPlan::decide(true, &tree, &None), CommitPlan::Nothing);
    assert_eq!(CommitPlan::decide(false, &tree, &None), CommitPlan::Root);
}

#[test]
fn commit_plan_on_a_branch_with_commits() {
    let tree = vec![1u8, 2, 3];
    assert_eq!(CommitPlan::decide(false, &tree, &Some(vec![1u8, 2, 3])), CommitPlan::Nothing);
    assert_eq!(CommitPlan::decide(true, &tree, &Some(vec![1u8, 2, 3])), CommitPlan::Nothing);
    assert_eq!(CommitPlan::decide(false, &tree, &Some(vec![1u8, 2, 4])), CommitPlan::Child);
    assert_eq!(CommitPlan::decide(true, &tree, &Some(vec![9u8])), CommitPlan::Child);
}

#[test]
fn bytes_are_compared_in_full() {
    assert!(same_bytes(&vec![], &vec![]));
    assert!(same_bytes(&vec![7u8, 8], &vec![7u8, 8]));
    assert!(!same_bytes(&vec![7u8, 8], &vec![7u8, 9]));
    assert!(!same_bytes(&vec![7u8, 8], &vec![7u8]));
    assert!(!same_bytes(&vec![7u8], &vec![7u8, 8]));
    assert!(!same_bytes(&vec![6u8, 8], &vec![7u8, 8]));
}

#[test]
fn remote_is_present_where_the_lookup_finds_it() {
    assert!(matches!(remote_presence(Ok(())), Ok(true)));
}

#[test]
fn remote_is_absent_where_the_engine_says_not_found() {
    assert!(matches!(remote_presence(Err(cause(true, "remote 'origin' does not exist"))), Ok(false)));
}

#[test]
fn another_lookup_failure_is_a_failure() {
    match remote_presence(Err(cause(false, "broken configuration"))) {
        Err(GitError::Remote(c)) => {
            assert_eq!(c.message, "broken configuration");
            assert_eq!(c.code, -1);
            assert!(!c.not_found);
        }
        other => panic!("unexpected outcome: {:?}", other),
    }
}

#[test]
fn identity_defaults_fill_what_is_missing() {
    assert_eq!(
        identity_or_default(None, None),
        ("MarkWiki User".to_string(), "user@markwiki.app".to_string())
    );
    assert_eq!(
        identity_or_default(Some("Ada".to_string()), None),
        ("Ada".to_string(), "user@markwiki.app".to_string())
    );
    assert_eq!(
        identity_or_default(None, Some("ada@example.com".to_string())),
        ("MarkWiki User".to_string(), "ada@example.com".to_string())
    );
    assert_eq!(
        identity_or_default(Some("Ada".to_string()), Some("ada@example.com".to_string())),
        ("Ada".to_string(), "ada@example.com".to_string())
    );
}

#[test]
fn credential_is_the_password_where_there_is_one() {
    match Credential::resolve("ada", Some("secret")) {
        Credential::Password { username, password } => {
            assert_eq!(username, "ada");
            assert_eq!(password, "secret");
        }
        other => panic!("unexpected credential: {:?}", other),
    }
    match Credential::resolve("ada", Some("")) {
        Credential::Password { username, password } => {
            assert_eq!(username, "ada");
            assert_eq!(password, "");
        }
        other => panic!("unexpected credential: {:?}", other),
    }
}

#[test]
fn credential_is_the_agent_where_there_is_no_password() {
    match Credential::resolve("ada", None) {
        Credential::Agent { username } => assert_eq!(username, "ada"),
        other => panic!("unexpected credential: {:?}", other),
    }
}

#[test]
fn credential_of_stored_credentials() {
    let with = AppConfig::new("ada", "ada@example.com", Some("secret"));
    assert!(matches!(
        Credential::of(&with.git_credentials),
        Credential::Password { username, password } if username == "ada" && password == "secret"
    ));
    let without = AppConfig::new("ada", "ada@example.com", None);
    assert!(matches!(
        Credential::of(&without.git_credentials),
        Credential::Agent { username } if username == "ada"
    ));
}

#[test]
fn config_holds_what_it_was_given() {
    let config = AppConfig::new("ada", "ada@example.com", Some("secret"));
    assert_eq!(config.git_credentials.username, "ada");
    assert_eq!(config.git_credentials.email, "ada@example.com");
    assert_eq!(config.git_credentials.password, Some("secret".to_string()));
    let config = AppConfig::new("", "", None);
    assert_eq!(config.git_credentials.username, "");
    assert_eq!(config.git_credentials.email, "");
    assert_eq!(config.git_credentials.password, None);
}

#[test]
fn config_path_is_in_the_storage_directory() {
    assert_eq!(AppConfig::get_config_path(Some("/opt/app/wiki")).unwrap(), "/opt/app/wiki/config.json");
    assert_eq!(AppConfig::get_config_path(Some("/opt/app/wiki/")).unwrap(), "/opt/app/wiki/config.json");
    assert_eq!(AppConfig::get_config_path(Some("")).unwrap(), "config.json");
}

#[test]
fn config_path_without_storage_directory_is_an_io_failure() {
    match AppConfig::get_config_path(None) {
        Err(ConfigError::Io(why)) => assert_eq!(why, "无法获取存储目录"),
        other => panic!("unexpected outcome: {:?}", other),
    }
}

#[test]
fn empty_password_counts_as_none() {
    assert_eq!(entered_password(""), None);
    assert_eq!(entered_password("secret"), Some("secret"));
    assert_eq!(entered_password(" "), Some(" "));
}

#[test]
fn paths_are_joined_with_one_separator() {
    assert_eq!(text::join("/srv/wiki", "notes"), "/srv/wiki/notes");
    assert_eq!(text::join("/srv/wiki/", "notes"), "/srv/wiki/notes");
    assert_eq!(text::join("", "notes"), "notes");
    assert_eq!(text::join("/srv/wiki", ""), "/srv/wiki/");
    assert_eq!(text::join("/srv/wiki", "/etc"), "/etc");
    assert_eq!(text::join("/", "notes"), "/notes");
    assert_eq!(text::join("/srv/维基", "笔记"), "/srv/维基/笔记");
}

#[test]
fn segment_after_the_last_separator() {
    assert_eq!(text::segment_after_last("a/b/c", '/'), "c");
    assert_eq!(text::segment_after_last("abc", '/'), "abc");
    assert_eq!(text::segment_after_last("a/b/", '/'), "");
    assert_eq!(text::segment_after_last("", '/'), "");
    assert_eq!(text::segment_after_last("/", '/'), "");
    assert_eq!(text::segment_after_last("é/ü", '/'), "ü");
}

#[test]
fn part_before_the_last_dot() {
    assert_eq!(text::part_before_last("notes.git", '.'), "notes");
    assert_eq!(text::part_before_last("my.wiki.git", '.'), "my.wiki");
    assert_eq!(text::part_before_last("notes", '.'), "notes");
    assert_eq!(text::part_before_last(".git", '.'), "");
    assert_eq!(text::part_before_last("notes.", '.'), "notes");
    assert_eq!(text::part_before_last("..", '.'), ".");
    assert_eq!(text::part_before_last("", '.'), "");
    assert_eq!(text::part_before_last("笔记.git", '.'), "笔记");
}

#[test]
fn protocol_advances_step_by_step() {
    assert!(matches!(advance(Step::CheckStatus, Ok(true)), Progress::Next(Step::Stage)));
    assert!(matches!(advance(Step::Stage, Ok(true)), Progress::Next(Step::Commit)));
    assert!(matches!(advance(Step::Stage, Ok(false)), Progress::Next(Step::Commit)));
    assert!(matches!(advance(Step::Commit, Ok(true)), Progress::Next(Step::CheckRemote)));
    assert!(matches!(advance(Step::CheckRemote, Ok(true)), Progress::Next(Step::Fetch)));
    assert!(matches!(advance(Step::Fetch, Ok(true)), Progress::Next(Step::Merge)));
    assert!(matches!(advance(Step::Merge, Ok(true)), Progress::Next(Step::Push)));
    assert!(matches!(advance(Step::Merge, Ok(false)), Progress::Next(Step::Push)));
    assert!(matches!(advance(Step::Push, Ok(true)), Progress::Done(Ok(()))));
}

#[test]
fn protocol_stops_where_a_check_says_no() {
    assert!(matches!(
        advance(Step::CheckStatus, Ok(false)),
        Progress::Done(Err(GitError::NothingToCommit))
    ));
    assert!(matches!(
        advance(Step::CheckRemote, Ok(false)),
        Progress::Done(Err(GitError::NoRemote))
    ));
}

#[test]
fn protocol_stops_at_a_failure_with_that_failure() {
    let steps = [
        Step::CheckStatus,
        Step::Stage,
        Step::Commit,
        Step::CheckRemote,
        Step::Fetch,
        Step::Merge,
        Step::Push,
    ];
    for step in steps {
        match advance(step, Err(GitError::Fetch(cause(false, "timed out")))) {
            Progress::Done(Err(GitError::Fetch(c))) => assert_eq!(c.message, "timed out"),
            other => panic!("unexpected progress: {:?}", other),
        }
        assert!(matches!(
            advance(step, Err(GitError::MergeConflict)),
            Progress::Done(Err(GitError::MergeConflict))
        ));
    }
}

#[test]
fn run_without_remote_takes_only_the_check() {
    let (taken, result) = drive(Step::CheckRemote, |_| Ok(false));
    assert_eq!(taken, vec![Step::CheckRemote]);
    assert!(matches!(result, Err(GitError::NoRemote)));
}

#[test]
fn run_of_a_sync_takes_four_steps() {
    let (taken, result) = drive(Step::CheckRemote, |_| Ok(true));
    assert_eq!(taken, vec![Step::CheckRemote, Step::Fetch, Step::Merge, Step::Push]);
    assert!(matches!(result, Ok(())));
    let (taken, result) = drive(Step::CheckRemote, |step| Ok(step != Step::Merge));
    assert_eq!(taken, vec![Step::CheckRemote, Step::Fetch, Step::Merge, Step::Push]);
    assert!(matches!(result, Ok(())));
}

#[test]
fn run_of_commit_and_sync_takes_seven_steps() {
    let (taken, result) = drive(Step::CheckStatus, |_| Ok(true));
    assert_eq!(
        taken,
        vec![
            Step::CheckStatus,
            Step::Stage,
            Step::Commit,
            Step::CheckRemote,
            Step::Fetch,
            Step::Merge,
            Step::Push,
        ]
    );
    assert!(matches!(result, Ok(())));
}

#[test]
fn run_with_a_conflict_does_not_push() {
    let (taken, result) = drive(Step::CheckRemote, |step| {
        if step == Step::Merge {
            Err(GitError::MergeConflict)
        } else {
            Ok(true)
        }
    });
    assert_eq!(taken, vec![Step::CheckRemote, Step::Fetch, Step::Merge]);
    assert!(matches!(result, Err(GitError::MergeConflict)));
}

#[test]
fn run_with_a_failed_commit_never_reaches_the_remote() {
    let (taken, result) = drive(Step::CheckStatus, |step| {
        if step == Step::Commit {
            Err(GitError::Commit(cause(false, "locked")))
        } else {
            Ok(true)
        }
    });
    assert_eq!(taken, vec![Step::CheckStatus, Step::Stage, Step::Commit]);
    assert!(matches!(result, Err(GitError::Commit(_))));
    let (taken, result) = drive(Step::CheckStatus, |_| Ok(false));
    assert_eq!(taken, vec![Step::CheckStatus]);
    assert!(matches!(result, Err(GitError::NothingToCommit)));
}

#[test]
fn run_with_a_failed_push_reports_the_push() {
    let (taken, result) = drive(Step::CheckRemote, |step| {
        if step == Step::Push {
            Err(GitError::Push(cause(false, "rejected")))
        } else {
            Ok(true)
        }
    });
    assert_eq!(taken, vec![Step::CheckRemote, Step::Fetch, Step::Merge, Step::Push]);
    assert!(matches!(result, Err(GitError::Push(c)) if c.message == "rejected"));
}

#[test]
fn messages_name_the_step_and_the_cause() {
    let c = || cause(false, "disk full");
    assert_eq!(GitError::OpenRepository(c()).message(), "Failed to open repository: disk full");
    assert_eq!(GitError::InitRepository(c()).message(), "Failed to initialize repository: disk full");
    assert_eq!(GitError::CloneRepository(c()).message(), "Failed to clone repository: disk full");
    assert_eq!(GitError::GetRemotes(c()).message(), "Failed to get remotes: disk full");
    assert_eq!(GitError::Commit(c()).message(), "Failed to commit: disk full");
    assert_eq!(GitError::Status(c()).message(), "Failed to get status: disk full");
    assert_eq!(GitError::Config(c()).message(), "Failed to get config: disk full");
    assert_eq!(GitError::SetConfig(c()).message(), "Failed to set config: disk full");
    assert_eq!(GitError::AddToIndex(c()).message(), "Failed to add to index: disk full");
    assert_eq!(GitError::Signature(c()).message(), "Failed to create signature: disk full");
    assert_eq!(GitError::FindReference(c()).message(), "Failed to find reference: disk full");
    assert_eq!(GitError::Remote(c()).message(), "Failed to get remote: disk full");
    assert_eq!(GitError::Fetch(c()).message(), "Failed to fetch: disk full");
    assert_eq!(GitError::Merge(c()).message(), "Failed to merge: disk full");
    assert_eq!(GitError::Push(c()).message(), "Failed to push: disk full");
}

#[test]
fn messages_of_conditions_stand_alone() {
    assert_eq!(GitError::UncommittedChanges.message(), "There are uncommitted changes");
    assert_eq!(GitError::NoRemote.message(), "No remote repository configured");
    assert_eq!(GitError::MergeConflict.message(), "Merge conflict detected");
    assert_eq!(GitError::NothingToCommit.message(), "Nothing to commit");
}

#[test]
fn config_errors_are_told_in_text() {
    assert_eq!(ConfigError::Io("disk full".to_string()).message(), "IO error: disk full");
    assert_eq!(ConfigError::Json("expected value".to_string()).message(), "JSON error: expected value");
    assert_eq!(ConfigError::ConfigNotFound.message(), "Config file not found");
}

#[test]
fn merge_report_is_settled_unless_the_branch_moves() {
    assert!(matches!(MergePlan::Nothing.settle(), Some(Ok(false))));
    assert!(matches!(MergePlan::Refuse.settle(), Some(Err(GitError::MergeConflict))));
    assert!(MergePlan::FastForward.settle().is_none());
}

#[test]
fn commit_report_is_settled_where_nothing_is_staged() {
    assert!(matches!(CommitPlan::Nothing.settle(), Some(Err(GitError::NothingToCommit))));
    assert!(CommitPlan::Root.settle().is_none());
    assert!(CommitPlan::Child.settle().is_none());
}

#[test]
fn list_holds_something_unless_it_is_empty() {
    assert!(!holds_any(0));
    assert!(holds_any(1));
    assert!(holds_any(2));
    assert!(holds_any(usize::MAX));
}

#[test]
fn url_that_was_found_is_handed_on() {
    let url = "https://example.com/group/notes.git".to_string();
    assert_eq!(remote_address(Ok(Some(url.clone()))).unwrap(), Some(url));
    assert_eq!(remote_address(Ok(None)).unwrap(), None);
}

#[test]
fn url_of_a_remote_that_is_not_there_is_none() {
    assert_eq!(remote_address(Err(cause(true, "remote 'origin' does not exist"))).unwrap(), None);
}

#[test]
fn url_lookup_that_fails_otherwise_is_a_failure() {
    match remote_address(Err(cause(false, "broken configuration"))) {
        Err(GitError::Remote(c)) => {
            assert_eq!(c.message, "broken configuration");
            assert!(!c.not_found);
        }
        other => panic!("unexpected outcome: {:?}", other),
    }
}

#[test]
fn remote_is_added_where_it_is_not_there_and_replaced_where_it_is() {
    assert_eq!(RemoteChange::decide(false), RemoteChange::Add);
    assert_eq!(RemoteChange::decide(true), RemoteChange::Replace);
}

#[test]
fn merge_reports_the_move_or_its_failure() {
    assert!(matches!(MergePlan::after_fast_forward(Ok(())), Ok(true)));
    assert!(matches!(
        MergePlan::after_fast_forward(Err(GitError::Merge(cause(false, "locked")))),
        Err(GitError::Merge(c)) if c.message == "locked"
    ));
    assert!(matches!(
        MergePlan::after_fast_forward(Err(GitError::FindReference(cause(true, "no branch")))),
        Err(GitError::FindReference(c)) if c.message == "no branch"
    ));
}
