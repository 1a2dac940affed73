//! Diffs between the commits of one open repository.
use vstd::prelude::*;
use vstd::string::*;

use crate::error::{git_result, GitDiffError};
use crate::files::{common_files, modified_file_set, path_views};
use crate::outside::{delta_paths, open_repository, patch_lines};
use crate::text::{head_ancestor, iterative_diff_specs, render_patch};

verus! {

/// A repository opened for diffing.
pub struct GitDiffWrapper {
    repo: git2::Repository,
}

impl GitDiffWrapper {
    /// Opens the repository at `repo_path`; any failure is a
    /// `Repository` error.
    pub fn new(repo_path: &str) -> (r: Result<Self, GitDiffError>)
        ensures
            r is Err ==> r matches Err(GitDiffError::Repository(_)),
    {
        match open_repository(repo_path) {
            Ok(repo) => Ok(GitDiffWrapper { repo }),
            Err(e) => Err(GitDiffError::Repository(e.to_string())),
        }
    }

    /// The commit that a revision string names; any failure to resolve it
    /// is `InvalidCommit` with that string.
    fn resolve_commit<'a>(&'a self, spec: &str) -> (r: Result<git2::Commit<'a>, GitDiffError>)
        ensures
            r is Err ==> (r matches Err(GitDiffError::InvalidCommit(s)) && s@ == spec@),
    {
        let obj = match self.repo.revparse_single(spec) {
            Ok(o) => o,
            Err(_) => return Err(GitDiffError::InvalidCommit(String::from_str(spec))),
        };
        match obj.peel_to_commit() {
            Ok(c) => Ok(c),
            Err(_) => Err(GitDiffError::InvalidCommit(String::from_str(spec))),
        }
    }

    /// The patch text from the tree of `commit1` to the tree of `commit2`,
    /// or to the tree of HEAD when `commit2` is absent.
    pub fn get_diff(&self, commit1: &str, commit2: Option<&str>) -> (r: Result<String, GitDiffError>)
        ensures
            r matches Err(GitDiffError::InvalidCommit(s)) ==> s@ == commit1@ || (commit2 matches Some(c) && s@ == c@),
            !(r matches Err(GitDiffError::Repository(_))),
    {
        let c1 = self.resolve_commit(commit1)?;
        let c2 = match commit2 {
            Some(c) => Some(self.resolve_commit(c)?),
            None => None,
        };
        let t1 = git_result(c1.tree())?;
        let t2 = match c2 {
            Some(c) => git_result(c.tree())?,
            None => {
                let head = git_result(self.repo.head())?;
                git_result(head.peel_to_tree())?
            },
        };
        let mut opts = git2::DiffOptions::new();
        let diff = git_result(self.repo.diff_tree_to_tree(Some(&t1), Some(&t2), Some(&mut opts)))?;
        let lines = git_result(patch_lines(&diff))?;
        Ok(render_patch(&lines))
    }

    /// The patches of the last `num_commits` commits, oldest first: entry
    /// `k` is the diff from `HEAD~(num_commits-k)` to `HEAD~(num_commits-k-1)`.
    /// Any failing step fails the whole.
    pub fn get_iterative_diffs(&self, num_commits: u32) -> (r: Result<Vec<String>, GitDiffError>)
        ensures
            r matches Ok(v) ==> v@.len() == num_commits,
            num_commits == 0 ==> (r matches Ok(v) && v@.len() == 0),
            r matches Err(GitDiffError::InvalidCommit(s)) ==> exists|i: int|
                0 <= i <= num_commits && s@ == #[trigger] head_ancestor(i as nat),
            !(r matches Err(GitDiffError::Repository(_))),
    {
        let steps = iterative_diff_specs(num_commits);
        let mut diffs: Vec<String> = Vec::new();
        let mut k: usize = 0;
        while k < steps.len()
            invariant
                k <= steps@.len(),
                steps@.len() == num_commits,
                diffs@.len() == k,
                forall|j: int|
                    0 <= j < num_commits ==> (#[trigger] steps@[j]).0@ == head_ancestor((num_commits - j) as nat)
                        && steps@[j].1@ == head_ancestor((num_commits - j - 1) as nat),
            decreases steps@.len() - k,
        {
            let step = &steps[k];
            match self.get_diff(step.0.as_str(), Some(step.1.as_str())) {
                Ok(text) => diffs.push(text),
                Err(e) => {
                    proof {
                        if let GitDiffError::InvalidCommit(s) = &e {
                            assert(steps@[k as int].0@ == head_ancestor((num_commits - k) as nat));
                            if s@ == step.0@ {
                                assert(s@ == head_ancestor((num_commits - k) as nat));
                            } else {
                                assert(s@ == head_ancestor((num_commits - k - 1) as nat));
                            }
                        }
                    }
                    return Err(e);
                },
            }
            k = k + 1;
        }
        Ok(diffs)
    }

    /// The files that both commits modified relative to their first
    /// parents, each once.
    pub fn find_common_files(&self, commit1: &str, commit2: &str) -> (r: Result<Vec<String>, GitDiffError>)
        ensures
            r matches Ok(v) ==> path_views(v@).no_duplicates(),
            r matches Err(GitDiffError::InvalidCommit(s)) ==> s@ == commit1@ || s@ == commit2@,
            !(r matches Err(GitDiffError::Repository(_))),
    {
        let c1 = self.resolve_commit(commit1)?;
        let c2 = self.resolve_commit(commit2)?;
        let files1 = self.get_modified_files(&c1)?;
        let files2 = self.get_modified_files(&c2)?;
        Ok(common_files(&files1, &files2))
    }

    /// The paths that `commit` changed relative to its first parent, each
    /// once; a commit without parents is an error of libgit2.
    fn get_modified_files(&self, commit: &git2::Commit<'_>) -> (r: Result<Vec<String>, GitDiffError>)
        ensures
            r matches Ok(v) ==> path_views(v@).no_duplicates(),
            r is Err ==> r matches Err(GitDiffError::Git(_)),
    {
        let parent = git_result(commit.parent(0))?;
        let t1 = git_result(parent.tree())?;
        let t2 = git_result(commit.tree())?;
        let mut opts = git2::DiffOptions::new();
        let diff = git_result(self.repo.diff_tree_to_tree(Some(&t1), Some(&t2), Some(&mut opts)))?;
        let paths = git_result(delta_paths(&diff))?;
        Ok(modified_file_set(&paths))
    }
}

} // verus!
