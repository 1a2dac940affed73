//! Diffs between commits of a git repository, and the files that two commits
//! both modified, computed through libgit2.
pub mod error;
pub mod files;
mod outside;
pub mod repository;
pub mod text;

pub use error::GitDiffError;
pub use repository::GitDiffWrapper;
