//! The wikis under the storage directory: each a directory that is a repository.
//!
//! The functions here decide, and they call the repository engine, which makes and fills a
//! wiki's directory. Directories are otherwise left to the caller: where a decision rests on
//! what stands at a wiki's path, the caller looks and hands the answer in as an `Entry`;
//! where a directory has to go, the caller is told so and removes it.

pub mod documents;
pub mod registry;
pub mod tree;

pub use registry::DirEntry;
pub use registry::Entry;
pub use registry::Removal;
pub use registry::Wiki;
pub use registry::WikiError;
pub use registry::WikiView;
pub use tree::FileNode;
