//! Repositories and their synchronisation with a remote counterpart.

pub mod credential;
mod engine;
pub mod error;
pub mod handle;
pub mod merge;
pub mod protocol;
pub mod staging;

pub use credential::Credential;
pub use error::Cause;
pub use error::GitError;
pub use handle::RemoteChange;
pub use handle::RepositoryHandle;
pub use merge::AnalysisFlags;
pub use merge::MergeAnalysis;
pub use merge::MergePlan;
pub use protocol::Ending;
pub use protocol::Progress;
pub use protocol::Step;
pub use staging::CommitPlan;
