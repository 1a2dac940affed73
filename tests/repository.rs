use git_cdiff::{GitDiffError, GitDiffWrapper};
use tempfile::TempDir;

struct Fixture {
    _dir: TempDir,
    path: String,
    commits: Vec<String>,
}

/// A repository whose history is one commit per entry, each holding exactly
/// the files listed, each commit the first parent of the next.
fn linear_repo(snapshots: &[&[(&str, &[u8])]]) -> Fixture {
    let dir = TempDir::new().unwrap();
    let path = dir.path().to_str().unwrap().to_string();
    let repo = git2::Repository::init(&path).unwrap();
    let sig = git2::Signature::new("Tester", "tester@example.com", &git2::Time::new(1_700_000_000, 0)).unwrap();
    let mut commits = Vec::new();
    let mut parent: Option<git2::Oid> = None;
    for (n, files) in snapshots.iter().enumerate() {
        let mut builder = repo.treebuilder(None).unwrap();
        for (name, content) in files.iter() {
            let blob = repo.blob(content).unwrap();
            builder.insert(name, blob, 0o100644).unwrap();
        }
        let tree = repo.find_tree(builder.write().unwrap()).unwrap();
        let parents: Vec<git2::Commit> = parent.iter().map(|p| repo.find_commit(*p).unwrap()).collect();
        let parent_refs: Vec<&git2::Commit> = parents.iter().collect();
        let message = format!("commit {}", n);
        let id = repo.commit(Some("HEAD"), &sig, &sig, &message, &tree, &parent_refs).unwrap();
        commits.push(id.to_string());
        parent = Some(id);
    }
    Fixture { _dir: dir, path, commits }
}

/// C0 holds a README; C1 adds a.txt; C2 changes a.txt and adds b.txt.
fn three_commits() -> Fixture {
    linear_repo(&[
        &[("README", b"readme\n")],
        &[("README", b"readme\n"), ("a.txt", b"first line\n")],
        &[("README", b"readme\n"), ("a.txt", b"second line\n"), ("b.txt", b"bee\n")],
    ])
}

fn sorted(mut v: Vec<String>) -> Vec<String> {
    v.sort();
    v
}

fn is_invalid_commit(e: &GitDiffError, spec: &str) -> bool {
    matches!(e, GitDiffError::InvalidCommit(s) if s == spec)
}

#[test]
fn scenario_common_files_of_linear_history() {
    let fx = three_commits();
    let git = GitDiffWrapper::new(&fx.path).unwrap();
    let common = git.find_common_files(&fx.commits[1], &fx.commits[2]).unwrap();
    assert_eq!(common, vec!["a.txt".to_string()]);
}

#[test]
fn scenario_iterative_diffs_of_linear_history() {
    let fx = three_commits();
    let git = GitDiffWrapper::new(&fx.path).unwrap();
    let diffs = git.get_iterative_diffs(2).unwrap();
    assert_eq!(diffs.len(), 2);
    assert!(diffs[0].contains("a.txt"));
    assert!(diffs[0].contains("new file mode"));
    assert!(diffs[0].contains("first line"));
    assert!(!diffs[0].contains("b.txt"));
    assert!(diffs[1].contains("first line"));
    assert!(diffs[1].contains("second line"));
    assert!(diffs[1].contains("b.txt"));
    assert!(diffs[1].contains("bee"));
}

#[test]
fn scenario_diff_across_two_commits() {
    let fx = three_commits();
    let git = GitDiffWrapper::new(&fx.path).unwrap();
    let text = git.get_diff(&fx.commits[0], Some(&fx.commits[2])).unwrap();
    assert!(text.contains("a.txt"));
    assert!(text.contains("second line"));
    assert!(text.contains("b.txt"));
    assert!(text.contains("bee"));
    assert!(text.find("a.txt").unwrap() < text.find("b.txt").unwrap());
    assert!(!text.contains("README"));
}

#[test]
fn diff_both_ways_completes() {
    let fx = three_commits();
    let git = GitDiffWrapper::new(&fx.path).unwrap();
    let forward = git.get_diff(&fx.commits[1], Some(&fx.commits[2])).unwrap();
    let backward = git.get_diff(&fx.commits[2], Some(&fx.commits[1])).unwrap();
    assert!(!forward.is_empty());
    assert!(!backward.is_empty());
}

#[test]
fn diff_is_empty_exactly_for_identical_trees() {
    let fx = linear_repo(&[
        &[("a.txt", b"same\n")],
        &[("a.txt", b"same\n")],
        &[("a.txt", b"other\n")],
    ]);
    let git = GitDiffWrapper::new(&fx.path).unwrap();
    assert_eq!(git.get_diff(&fx.commits[0], Some(&fx.commits[1])).unwrap(), "");
    assert_eq!(git.get_diff(&fx.commits[1], Some(&fx.commits[0])).unwrap(), "");
    assert_eq!(git.get_diff(&fx.commits[2], Some(&fx.commits[2])).unwrap(), "");
    assert!(!git.get_diff(&fx.commits[0], Some(&fx.commits[2])).unwrap().is_empty());
}

#[test]
fn diff_without_second_commit_goes_to_head() {
    let fx = three_commits();
    let git = GitDiffWrapper::new(&fx.path).unwrap();
    for c in fx.commits.iter() {
        assert_eq!(git.get_diff(c, None).unwrap(), git.get_diff(c, Some("HEAD")).unwrap());
    }
    assert_eq!(git.get_diff("HEAD~2", None).unwrap(), git.get_diff("HEAD~2", Some(&fx.commits[2])).unwrap());
}

#[test]
fn iterative_diffs_match_single_diffs() {
    let fx = three_commits();
    let git = GitDiffWrapper::new(&fx.path).unwrap();
    let diffs = git.get_iterative_diffs(2).unwrap();
    assert_eq!(diffs[0], git.get_diff("HEAD~2", Some("HEAD~1")).unwrap());
    assert_eq!(diffs[1], git.get_diff("HEAD~1", Some("HEAD~0")).unwrap());
    let one = git.get_iterative_diffs(1).unwrap();
    assert_eq!(one, vec![git.get_diff(&fx.commits[1], Some(&fx.commits[2])).unwrap()]);
}

#[test]
fn iterative_diffs_of_zero_commits_is_empty() {
    let fx = three_commits();
    let git = GitDiffWrapper::new(&fx.path).unwrap();
    assert!(git.get_iterative_diffs(0).unwrap().is_empty());
}

#[test]
fn iterative_diffs_beyond_history_fail_whole() {
    let fx = three_commits();
    let git = GitDiffWrapper::new(&fx.path).unwrap();
    let err = git.get_iterative_diffs(3).unwrap_err();
    assert!(is_invalid_commit(&err, "HEAD~3"));
    let err = git.get_iterative_diffs(5).unwrap_err();
    assert!(is_invalid_commit(&err, "HEAD~5"));
}

#[test]
fn common_files_is_symmetric() {
    let fx = linear_repo(&[
        &[("a", b"1\n"), ("b", b"1\n"), ("c", b"1\n")],
        &[("a", b"2\n"), ("b", b"2\n"), ("c", b"1\n")],
        &[("a", b"3\n"), ("b", b"2\n"), ("c", b"3\n"), ("d", b"3\n")],
        &[("a", b"4\n"), ("b", b"4\n"), ("c", b"4\n"), ("d", b"3\n")],
    ]);
    let git = GitDiffWrapper::new(&fx.path).unwrap();
    for x in fx.commits[1..].iter() {
        for y in fx.commits[1..].iter() {
            let xy = sorted(git.find_common_files(x, y).unwrap());
            let yx = sorted(git.find_common_files(y, x).unwrap());
            assert_eq!(xy, yx);
        }
    }
    assert_eq!(sorted(git.find_common_files(&fx.commits[2], &fx.commits[3]).unwrap()), vec!["a", "c"]);
    assert_eq!(sorted(git.find_common_files(&fx.commits[1], &fx.commits[2]).unwrap()), vec!["a"]);
}

#[test]
fn common_files_with_itself_is_modified_set() {
    let fx = three_commits();
    let git = GitDiffWrapper::new(&fx.path).unwrap();
    let own = sorted(git.find_common_files(&fx.commits[2], &fx.commits[2]).unwrap());
    assert_eq!(own, vec!["a.txt".to_string(), "b.txt".to_string()]);
    let own = git.find_common_files("HEAD~1", "HEAD~1").unwrap();
    assert_eq!(own, vec!["a.txt".to_string()]);
}

#[test]
fn common_files_empty_intersection() {
    let fx = linear_repo(&[&[("a", b"1\n")], &[("a", b"2\n")], &[("a", b"2\n"), ("b", b"1\n")]]);
    let git = GitDiffWrapper::new(&fx.path).unwrap();
    assert!(git.find_common_files(&fx.commits[1], &fx.commits[2]).unwrap().is_empty());
}

#[test]
fn common_files_of_root_commit_fails_in_libgit2() {
    let fx = three_commits();
    let git = GitDiffWrapper::new(&fx.path).unwrap();
    let err = git.find_common_files(&fx.commits[0], &fx.commits[2]).unwrap_err();
    assert!(matches!(err, GitDiffError::Git(_)));
}

#[test]
fn missing_reference_is_invalid_commit() {
    let fx = three_commits();
    let git = GitDiffWrapper::new(&fx.path).unwrap();
    let missing = "0123456789abcdef0123456789abcdef01234567";
    let err = git.get_diff(missing, Some("HEAD")).unwrap_err();
    assert!(is_invalid_commit(&err, missing));
    let err = git.get_diff("HEAD", Some(missing)).unwrap_err();
    assert!(is_invalid_commit(&err, missing));
    let err = git.find_common_files("HEAD", missing).unwrap_err();
    assert!(is_invalid_commit(&err, missing));
    let err = git.get_diff("no-such-branch", None).unwrap_err();
    assert!(is_invalid_commit(&err, "no-such-branch"));
}

#[test]
fn reference_to_a_tree_is_invalid_commit() {
    let fx = three_commits();
    let git = GitDiffWrapper::new(&fx.path).unwrap();
    let err = git.get_diff("HEAD^{tree}", None).unwrap_err();
    assert!(is_invalid_commit(&err, "HEAD^{tree}"));
}

#[test]
fn opening_a_non_repository_fails() {
    let dir = TempDir::new().unwrap();
    let path = dir.path().join("nothing-here");
    let err = GitDiffWrapper::new(path.to_str().unwrap()).err().unwrap();
    assert!(matches!(err, GitDiffError::Repository(m) if !m.is_empty()));
}

#[test]
fn non_utf8_lines_are_dropped_from_patch() {
    let fx = linear_repo(&[
        &[("latin.txt", b"plain\n")],
        &[("latin.txt", b"caf\xe9 au lait\nplain\n"), ("ok.txt", b"fine\n")],
    ]);
    let git = GitDiffWrapper::new(&fx.path).unwrap();
    let text = git.get_diff(&fx.commits[0], Some(&fx.commits[1])).unwrap();
    assert!(!text.contains("au lait"));
    assert!(text.contains("latin.txt"));
    assert!(text.contains("fine"));
}
