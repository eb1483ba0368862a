//! How the local branch relates to what was fetched, and what a merge does about it.

use vstd::prelude::*;
use super::error::GitError;

verus! {

/// What the engine's merge analysis reported: one flag for each opportunity it names.
/// More than one may be set.
#[derive(Clone, Copy, Debug, PartialEq, Eq, Structural)]
pub struct AnalysisFlags {
    /// Everything fetched is already reachable from `HEAD`.
    pub up_to_date: bool,
    /// What was fetched is a descendant of `HEAD`.
    pub fast_forward: bool,
    /// `HEAD` and what was fetched have both advanced from their common ancestor.
    pub normal: bool,
}

/// The relationship between the local `HEAD` and the fetched tip of the remote.
#[derive(Clone, Copy, Debug, PartialEq, Eq, Structural)]
pub enum MergeAnalysis {
    /// The local branch already holds everything that was fetched.
    UpToDate,
    /// The local branch is behind and can be advanced to the fetched tip.
    FastForwardable,
    /// Both sides hold commits that the other lacks.
    Diverged,
}

/// What a merge does once the relationship is known.
#[derive(Clone, Copy, Debug, PartialEq, Eq, Structural)]
pub enum MergePlan {
    /// Leave the repository as it is and report that nothing changed.
    Nothing,
    /// Move the local branch to the fetched tip and check it out.
    FastForward,
    /// Leave the repository as it is and report a conflict.
    Refuse,
}

impl MergeAnalysis {
    /// The relationship that a set of flags stands for. "Up to date" outranks "fast-forward",
    /// which outranks "normal"; flags that name none of the three stand for no relationship.
    pub open spec fn of_flags(flags: AnalysisFlags) -> Option<MergeAnalysis> {
        if flags.up_to_date {
            Some(MergeAnalysis::UpToDate)
        } else if flags.fast_forward {
            Some(MergeAnalysis::FastForwardable)
        } else if flags.normal {
            Some(MergeAnalysis::Diverged)
        } else {
            None
        }
    }

    /// Classifies what the engine's analysis reported.
    pub fn classify(flags: AnalysisFlags) -> (r: Option<MergeAnalysis>)
        ensures
            r == MergeAnalysis::of_flags(flags),
    {
        if flags.up_to_date {
            Some(MergeAnalysis::UpToDate)
        } else if flags.fast_forward {
            Some(MergeAnalysis::FastForwardable)
        } else if flags.normal {
            Some(MergeAnalysis::Diverged)
        } else {
            None
        }
    }
}

impl MergePlan {
    /// What a merge does for each relationship; where the analysis names none, nothing.
    pub open spec fn of_analysis(analysis: Option<MergeAnalysis>) -> MergePlan {
        match analysis {
            Some(MergeAnalysis::UpToDate) => MergePlan::Nothing,
            Some(MergeAnalysis::FastForwardable) => MergePlan::FastForward,
            Some(MergeAnalysis::Diverged) => MergePlan::Refuse,
            None => MergePlan::Nothing,
        }
    }

    /// Whether carrying the plan out moves a reference or touches the working tree.
    pub open spec fn changes_repository(self) -> bool {
        self is FastForward
    }

    /// What the merge reports where the plan needs nothing from the engine: `Ok(false)`,
    /// "nothing changed", for `Nothing`, and the conflict for `Refuse`. What a fast-forward
    /// reports depends on the engine.
    pub open spec fn settled(self) -> Option<Result<bool, GitError>> {
        match self {
            MergePlan::Nothing => Some(Ok(false)),
            MergePlan::Refuse => Some(Err(GitError::MergeConflict)),
            MergePlan::FastForward => None,
        }
    }

    /// The merge's report where the plan settles it; `None` where the branch has to be
    /// moved first.
    pub fn settle(self) -> (r: Option<Result<bool, GitError>>)
        ensures
            r == self.settled(),
            r is None <==> self.changes_repository(),
    {
        match self {
            MergePlan::Nothing => Some(Ok(false)),
            MergePlan::Refuse => Some(Err(GitError::MergeConflict)),
            MergePlan::FastForward => None,
        }
    }

    /// What the merge reports once the branch had to be moved: that something changed where
    /// the move succeeded, and the move's failure where it did not.
    pub open spec fn moved(carried_out: Result<(), GitError>) -> Result<bool, GitError> {
        match carried_out {
            Ok(()) => Ok(true),
            Err(e) => Err(e),
        }
    }

    /// The merge's report after the fast-forward was tried, from how that ended.
    pub fn after_fast_forward(carried_out: Result<(), GitError>) -> (r: Result<bool, GitError>)
        ensures
            r == MergePlan::moved(carried_out),
    {
        match carried_out {
            Ok(()) => Ok(true),
            Err(e) => Err(e),
        }
    }

    /// Decides what a merge does about a classified relationship.
    pub fn decide(analysis: Option<MergeAnalysis>) -> (r: MergePlan)
        ensures
            r == MergePlan::of_analysis(analysis),
            r.changes_repository() <==> analysis == Some(MergeAnalysis::FastForwardable),
    {
        match analysis {
            Some(MergeAnalysis::UpToDate) => MergePlan::Nothing,
            Some(MergeAnalysis::FastForwardable) => MergePlan::FastForward,
            Some(MergeAnalysis::Diverged) => MergePlan::Refuse,
            None => MergePlan::Nothing,
        }
    }
}

/// Where the analysis finds the branch up to date, whatever else it reports, the merge
/// changes nothing and says so.
pub proof fn law_up_to_date_changes_nothing(flags: AnalysisFlags)
    requires
        flags.up_to_date,
    ensures
        MergeAnalysis::of_flags(flags) == Some(MergeAnalysis::UpToDate),
        !MergePlan::of_analysis(MergeAnalysis::of_flags(flags)).changes_repository(),
        MergePlan::of_analysis(MergeAnalysis::of_flags(flags)).settled() == Some(
            Ok::<bool, GitError>(false),
        ),
{
}

/// Where the analysis finds the branch behind what was fetched, and not up to date, the
/// merge moves the branch.
pub proof fn law_behind_is_fast_forwarded(flags: AnalysisFlags)
    requires
        !flags.up_to_date,
        flags.fast_forward,
    ensures
        MergeAnalysis::of_flags(flags) == Some(MergeAnalysis::FastForwardable),
        MergePlan::of_analysis(MergeAnalysis::of_flags(flags)) == MergePlan::FastForward,
        MergePlan::of_analysis(MergeAnalysis::of_flags(flags)).changes_repository(),
{
}

/// Where the analysis finds that only a true merge would do, the merge changes nothing and
/// reports the conflict.
pub proof fn law_diverged_is_refused(flags: AnalysisFlags)
    requires
        !flags.up_to_date,
        !flags.fast_forward,
        flags.normal,
    ensures
        MergeAnalysis::of_flags(flags) == Some(MergeAnalysis::Diverged),
        !MergePlan::of_analysis(MergeAnalysis::of_flags(flags)).changes_repository(),
        MergePlan::of_analysis(MergeAnalysis::of_flags(flags)).settled() == Some(
            Err::<bool, GitError>(GitError::MergeConflict),
        ),
{
}

} // verus!
