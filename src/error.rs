//! The errors of the library.
use vstd::prelude::*;

verus! {

/// Why an operation on a repository failed.
#[derive(Debug)]
pub enum GitDiffError {
    /// libgit2 failed while reading trees, parents or diffs.
    Git(git2::Error),
    /// A revision string did not name a commit; it holds that string.
    InvalidCommit(String),
    /// No repository could be opened; it holds libgit2's message.
    Repository(String),
}

/// Carries a libgit2 result over, its error as `GitDiffError::Git`.
pub(crate) fn git_result<T>(r: Result<T, git2::Error>) -> (o: Result<T, GitDiffError>)
    ensures
        match r {
            Ok(v) => o == Ok::<T, GitDiffError>(v),
            Err(e) => o == Err::<T, GitDiffError>(GitDiffError::Git(e)),
        },
{
    match r {
        Ok(v) => Ok(v),
        Err(e) => Err(GitDiffError::Git(e)),
    }
}

} // verus!
