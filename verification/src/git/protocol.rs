//! The order in which a synchronisation takes its steps, and when it stops.
//!
//! A run starts at one step and takes the steps that follow in their fixed order. After each
//! step the step's report decides whether the run goes on or ends, and with what result.
//! `advance` is that decision; `run` is the whole run as a function of what each step
//! reports.

use vstd::prelude::*;
use super::error::GitError;

verus! {

/// One step of committing and synchronising, in the order in which the steps are taken.
#[derive(Clone, Copy, Debug, PartialEq, Eq, Structural)]
pub enum Step {
    /// Ask whether the working tree or the staging area differs from `HEAD`.
    CheckStatus,
    /// Stage every change of the working tree.
    Stage,
    /// Commit what is staged.
    Commit,
    /// Ask whether the remote `origin` is configured.
    CheckRemote,
    /// Fetch the remote's branch.
    Fetch,
    /// Bring the local branch up to what was fetched, by fast-forward only.
    Merge,
    /// Push the local branch.
    Push,
}

/// Where a run stands after a step.
#[derive(Debug)]
pub enum Progress {
    /// The run goes on with this step.
    Next(Step),
    /// The run is over, with this result.
    Done(Result<(), GitError>),
}

/// How a run ended: the step that was taken last, and the result.
#[derive(Debug)]
pub struct Ending {
    /// The step whose report ended the run.
    pub last: Step,
    /// The result of the run.
    pub result: Result<(), GitError>,
}

/// What each step reports when it is taken. The flag of a successful report is the answer
/// of the two steps that ask (`CheckStatus`: there are changes; `CheckRemote`: the remote is
/// there) and of `Merge` (the branch moved); for the other steps it means nothing.
pub type Reports = spec_fn(Step) -> Result<bool, GitError>;

/// A run: the steps that were taken, in order, and the result.
pub ghost struct Run {
    pub steps: Seq<Step>,
    pub result: Result<(), GitError>,
}

impl Step {
    /// How many steps a run takes at most from this one on, itself included.
    pub open spec fn rank(self) -> nat {
        match self {
            Step::CheckStatus => 7,
            Step::Stage => 6,
            Step::Commit => 5,
            Step::CheckRemote => 4,
            Step::Fetch => 3,
            Step::Merge => 2,
            Step::Push => 1,
        }
    }

    /// The step that follows this one; none follows `Push`.
    pub open spec fn following(self) -> Option<Step> {
        match self {
            Step::CheckStatus => Some(Step::Stage),
            Step::Stage => Some(Step::Commit),
            Step::Commit => Some(Step::CheckRemote),
            Step::CheckRemote => Some(Step::Fetch),
            Step::Fetch => Some(Step::Merge),
            Step::Merge => Some(Step::Push),
            Step::Push => None,
        }
    }

    /// Whether the step only asks: it changes neither the repository nor the remote.
    pub open spec fn only_reads(self) -> bool {
        self is CheckStatus || self is CheckRemote
    }

    /// Whether the step talks to the remote.
    pub open spec fn uses_network(self) -> bool {
        self is Fetch || self is Push
    }

    /// The failures that the step itself can report. That the remote is not there is no
    /// failure of asking for it: `CheckRemote` reports `Remote` only with a cause that is not
    /// the engine's "not found".
    pub open spec fn can_fail_with(self, e: GitError) -> bool {
        match self {
            Step::CheckStatus => e is Status,
            Step::Stage => e is AddToIndex,
            Step::Commit => e is AddToIndex || e is Config || e is Signature || e is Commit
                || e is NothingToCommit,
            Step::CheckRemote => (e matches GitError::Remote(cause) && !cause.not_found),
            Step::Fetch => e is NoRemote || e is Fetch,
            Step::Merge => e is FindReference || e is Merge || e is MergeConflict,
            Step::Push => e is NoRemote || e is Push,
        }
    }
}

/// Where a run stands after `step` has reported `report`.
///
/// A failure ends the run with that failure. `CheckStatus` without changes ends it with
/// `NothingToCommit`, `CheckRemote` without the remote with `NoRemote`. After `Push` the run
/// has succeeded. In every other case the following step is next.
pub open spec fn advanced(step: Step, report: Result<bool, GitError>) -> Progress {
    match report {
        Err(e) => Progress::Done(Err(e)),
        Ok(flag) => match step {
            Step::CheckStatus => if flag {
                Progress::Next(Step::Stage)
            } else {
                Progress::Done(Err(GitError::NothingToCommit))
            },
            Step::Stage => Progress::Next(Step::Commit),
            Step::Commit => Progress::Next(Step::CheckRemote),
            Step::CheckRemote => if flag {
                Progress::Next(Step::Fetch)
            } else {
                Progress::Done(Err(GitError::NoRemote))
            },
            Step::Fetch => Progress::Next(Step::Merge),
            Step::Merge => Progress::Next(Step::Push),
            Step::Push => Progress::Done(Ok(())),
        },
    }
}

/// The run that starts at `start` where the steps report as `reports` says.
pub open spec fn run(start: Step, reports: Reports) -> Run
    decreases start.rank(),
{
    match advanced(start, reports(start)) {
        Progress::Done(result) => Run { steps: seq![start], result },
        Progress::Next(next) => {
            let rest = run(next, reports);
            Run { steps: seq![start] + rest.steps, result: rest.result }
        },
    }
}

/// Whether every step fails only in the ways that are its own.
pub open spec fn plausible(reports: Reports) -> bool {
    forall|step: Step, e: GitError|
        reports(step) == Err::<bool, GitError>(e) ==> #[trigger] step.can_fail_with(e)
}

/// Decides where a run stands after `step` has reported `report`.
pub fn advance(step: Step, report: Result<bool, GitError>) -> (r: Progress)
    ensures
        r == advanced(step, report),
        r matches Progress::Next(next) ==> Some(next) == step.following() && next.rank() + 1
            == step.rank(),
{
    match report {
        Err(e) => Progress::Done(Err(e)),
        Ok(flag) => match step {
            Step::CheckStatus => if flag {
                Progress::Next(Step::Stage)
            } else {
                Progress::Done(Err(GitError::NothingToCommit))
            },
            Step::Stage => Progress::Next(Step::Commit),
            Step::Commit => Progress::Next(Step::CheckRemote),
            Step::CheckRemote => if flag {
                Progress::Next(Step::Fetch)
            } else {
                Progress::Done(Err(GitError::NoRemote))
            },
            Step::Fetch => Progress::Next(Step::Merge),
            Step::Merge => Progress::Next(Step::Push),
            Step::Push => Progress::Done(Ok(())),
        },
    }
}

/// The shape of a run: its steps are the first step and those that follow it in the order,
/// every step but the last is one after which the run goes on, and the last is the one
/// whose report ends the run with its result.
proof fn lemma_run(start: Step, reports: Reports)
    ensures
        run(start, reports).steps.len() >= 1,
        run(start, reports).steps.len() <= start.rank(),
        forall|i: int|
            0 <= i < run(start, reports).steps.len() ==> (#[trigger] run(
                start,
                reports,
            ).steps[i]).rank() == start.rank() - i,
        forall|i: int|
            0 <= i < run(start, reports).steps.len() - 1 ==> advanced(
                #[trigger] run(start, reports).steps[i],
                reports(run(start, reports).steps[i]),
            ) is Next,
        advanced(run(start, reports).steps.last(), reports(run(start, reports).steps.last()))
            == Progress::Done(run(start, reports).result),
    decreases start.rank(),
{
    match advanced(start, reports(start)) {
        Progress::Done(result) => {},
        Progress::Next(next) => {
            lemma_run(next, reports);
            let rest = run(next, reports);
            let whole = run(start, reports);
            assert(whole.steps =~= seq![start] + rest.steps);
            assert forall|i: int| 0 <= i < whole.steps.len() implies (
            #[trigger] whole.steps[i]).rank() == start.rank() - i by {
                if i > 0 {
                    assert(whole.steps[i] == rest.steps[i - 1]);
                }
            }
            assert forall|i: int| 0 <= i < whole.steps.len() - 1 implies advanced(
                #[trigger] whole.steps[i],
                reports(whole.steps[i]),
            ) is Next by {
                if i > 0 {
                    assert(whole.steps[i] == rest.steps[i - 1]);
                }
            }
            assert(whole.steps.last() == rest.steps.last());
        },
    }
}

/// A run takes its steps in the fixed order, from the first on, none twice: the step at
/// place `i` is the `i`-th after the start.
pub proof fn law_steps_in_order(start: Step, reports: Reports)
    ensures
        run(start, reports).steps.len() >= 1,
        run(start, reports).steps[0] == start,
        forall|i: int|
            0 <= i < run(start, reports).steps.len() - 1 ==> (#[trigger] run(
                start,
                reports,
            ).steps[i]).following() == Some(run(start, reports).steps[i + 1]),
{
    lemma_run(start, reports);
    let steps = run(start, reports).steps;
    assert(steps[0].rank() == start.rank());
    assert forall|i: int| 0 <= i < steps.len() - 1 implies (#[trigger] steps[i]).following()
        == Some(steps[i + 1]) by {
        assert(steps[i].rank() == start.rank() - i);
        assert(steps[i + 1].rank() == start.rank() - (i + 1));
    }
}

/// A run goes on only after success: every step but the last has reported success, a step
/// among them that asks has answered yes, and the result of the run is what `advanced`
/// makes of the last step's report.
pub proof fn law_run_ends_at_first_failure(start: Step, reports: Reports)
    ensures
        forall|i: int|
            0 <= i < run(start, reports).steps.len() - 1 ==> reports(
                #[trigger] run(start, reports).steps[i],
            ) is Ok,
        forall|i: int|
            0 <= i < run(start, reports).steps.len() - 1 && (#[trigger] run(
                start,
                reports,
            ).steps[i]).only_reads() ==> reports(run(start, reports).steps[i]) == Ok::<
                bool,
                GitError,
            >(true),
        advanced(run(start, reports).steps.last(), reports(run(start, reports).steps.last()))
            == Progress::Done(run(start, reports).result),
{
    lemma_run(start, reports);
    let steps = run(start, reports).steps;
    assert forall|i: int| 0 <= i < steps.len() - 1 implies reports(#[trigger] steps[i]) is Ok by {
        assert(advanced(steps[i], reports(steps[i])) is Next);
    }
    assert forall|i: int|
        0 <= i < steps.len() - 1 && (#[trigger] steps[i]).only_reads() implies reports(steps[i])
        == Ok::<bool, GitError>(true) by {
        assert(advanced(steps[i], reports(steps[i])) is Next);
    }
}

/// A run succeeds exactly when every step from its first to `Push` reports success and
/// the steps among them that ask answer yes.
pub proof fn law_success(start: Step, reports: Reports)
    ensures
        run(start, reports).result is Ok <==> (forall|step: Step|
            step.rank() <= start.rank() ==> #[trigger] reports(step) is Ok && (step.only_reads()
                ==> reports(step) == Ok::<bool, GitError>(true))),
    decreases start.rank(),
{
    match advanced(start, reports(start)) {
        Progress::Done(result) => {
            if result is Ok {
                assert(start == Step::Push);
                assert forall|step: Step| step.rank() <= start.rank() implies #[trigger] reports(
                    step,
                ) is Ok && (step.only_reads() ==> reports(step) == Ok::<bool, GitError>(true)) by {
                    assert(step == Step::Push);
                }
            } else {
                assert(!(reports(start) is Ok && (start.only_reads() ==> reports(start) == Ok::<
                    bool,
                    GitError,
                >(true))));
            }
        },
        Progress::Next(next) => {
            law_success(next, reports);
            assert(next.rank() + 1 == start.rank());
            if run(next, reports).result is Ok {
                assert forall|step: Step| step.rank() <= start.rank() implies #[trigger] reports(
                    step,
                ) is Ok && (step.only_reads() ==> reports(step) == Ok::<bool, GitError>(true)) by {
                    if step.rank() == start.rank() {
                        assert(step == start);
                    }
                }
            }
        },
    }
}

/// A run in which every step fails only in its own ways ends in success, in a failure of
/// one of the steps from its first on, in `NothingToCommit` where it began with the status,
/// or in `NoRemote` where it came to ask for the remote.
pub proof fn law_failures(start: Step, reports: Reports)
    requires
        plausible(reports),
    ensures
        run(start, reports).result matches Err(e) ==> (e is NothingToCommit
            && start is CheckStatus) || (e is NoRemote && Step::CheckRemote.rank() <= start.rank())
            || (exists|step: Step| step.rank() <= start.rank() && #[trigger] step.can_fail_with(e)),
{
    lemma_run(start, reports);
    let last = run(start, reports).steps.last();
    let i = run(start, reports).steps.len() - 1;
    assert(run(start, reports).steps[i].rank() == start.rank() - i);
    match run(start, reports).result {
        Err(e) => {
            if reports(last) == Err::<bool, GitError>(e) {
                assert(last.can_fail_with(e));
            }
        },
        Ok(()) => {},
    }
}

/// Synchronising without the remote `origin` ends at once with `NoRemote`: the one step
/// taken is the one that asks for the remote, which only reads.
pub proof fn law_sync_without_remote(reports: Reports)
    requires
        reports(Step::CheckRemote) == Ok::<bool, GitError>(false),
    ensures
        run(Step::CheckRemote, reports).steps == seq![Step::CheckRemote],
        run(Step::CheckRemote, reports).result == Err::<(), GitError>(GitError::NoRemote),
        Step::CheckRemote.only_reads(),
{
}

/// Synchronising where the remote is there, the fetch succeeds and the merge succeeds,
/// whether it moved the branch or found it up to date, goes on to push, and its result is
/// the push's.
pub proof fn law_sync_pushes_after_merge(reports: Reports)
    requires
        reports(Step::CheckRemote) == Ok::<bool, GitError>(true),
        reports(Step::Fetch) is Ok,
        reports(Step::Merge) is Ok,
    ensures
        run(Step::CheckRemote, reports).steps == seq![
            Step::CheckRemote,
            Step::Fetch,
            Step::Merge,
            Step::Push,
        ],
        run(Step::CheckRemote, reports).result == match reports(Step::Push) {
            Ok(_) => Ok::<(), GitError>(()),
            Err(e) => Err(e),
        },
{
    reveal_with_fuel(run, 5);
    assert(run(Step::CheckRemote, reports).steps =~= seq![
        Step::CheckRemote,
        Step::Fetch,
        Step::Merge,
        Step::Push,
    ]);
}

/// Synchronising where the merge fails, as it does with `MergeConflict` on diverged
/// branches, ends with that failure after the merge: nothing is pushed.
pub proof fn law_failed_merge_is_not_pushed(reports: Reports, e: GitError)
    requires
        reports(Step::CheckRemote) == Ok::<bool, GitError>(true),
        reports(Step::Fetch) is Ok,
        reports(Step::Merge) == Err::<bool, GitError>(e),
    ensures
        run(Step::CheckRemote, reports).steps == seq![Step::CheckRemote, Step::Fetch, Step::Merge],
        run(Step::CheckRemote, reports).result == Err::<(), GitError>(e),
{
    reveal_with_fuel(run, 4);
    assert(run(Step::CheckRemote, reports).steps =~= seq![
        Step::CheckRemote,
        Step::Fetch,
        Step::Merge,
    ]);
}

/// Committing and synchronising where the status, the staging or the commit does not
/// succeed ends before any step that talks to the remote.
pub proof fn law_local_failure_stays_local(reports: Reports)
    requires
        reports(Step::CheckStatus) != Ok::<bool, GitError>(true) || reports(Step::Stage) is Err
            || reports(Step::Commit) is Err,
    ensures
        forall|i: int|
            0 <= i < run(Step::CheckStatus, reports).steps.len() ==> !(#[trigger] run(
                Step::CheckStatus,
                reports,
            ).steps[i]).uses_network(),
        run(Step::CheckStatus, reports).result is Err,
{
    reveal_with_fuel(run, 4);
}

} // verus!
