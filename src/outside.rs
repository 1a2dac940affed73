//! The items of git2 and std that the library calls, with what it relies on
//! of each.
use vstd::prelude::*;

verus! {

/// `git2::Repository`, an open repository, carried through opaque.
#[verifier::external_type_specification]
#[verifier::external_body]
pub struct ExRepository(git2::Repository);

/// `git2::Error`, a failure reported by libgit2, carried through opaque.
#[verifier::external_type_specification]
#[verifier::external_body]
pub struct ExError(git2::Error);

/// `git2::Object`, what a revision string resolves to.
#[verifier::external_type_specification]
#[verifier::external_body]
pub struct ExObject<'repo>(git2::Object<'repo>);

/// `git2::Commit`, a commit of the repository.
#[verifier::external_type_specification]
#[verifier::external_body]
pub struct ExCommit<'repo>(git2::Commit<'repo>);

/// `git2::Tree`, the snapshot of files recorded by a commit.
#[verifier::external_type_specification]
#[verifier::external_body]
pub struct ExTree<'repo>(git2::Tree<'repo>);

/// `git2::Reference`, here the one that HEAD is.
#[verifier::external_type_specification]
#[verifier::external_body]
pub struct ExReference<'repo>(git2::Reference<'repo>);

/// `git2::Diff`, the changes from one tree to another.
#[verifier::external_type_specification]
#[verifier::external_body]
pub struct ExDiff<'repo>(git2::Diff<'repo>);

/// `git2::DiffOptions`, the settings of a tree-to-tree diff.
#[verifier::external_type_specification]
#[verifier::external_body]
pub struct ExDiffOptions(git2::DiffOptions);

/// Relies on `git2::Repository::revparse_single` to resolve a revision
/// string to an object; nothing is assumed of the outcome.
pub assume_specification<'r, 's>[ git2::Repository::revparse_single ](
    repo: &'r git2::Repository,
    spec: &'s str,
) -> Result<git2::Object<'r>, git2::Error>;

/// Relies on `git2::Object::peel_to_commit` to reach the commit an object
/// points to; nothing is assumed of the outcome.
pub assume_specification<'repo>[ git2::Object::<'repo>::peel_to_commit ](
    obj: &git2::Object<'repo>,
) -> Result<git2::Commit<'repo>, git2::Error>;

/// Relies on `git2::Commit::tree` to load a commit's tree; nothing is
/// assumed of the outcome.
pub assume_specification<'repo>[ git2::Commit::<'repo>::tree ](
    commit: &git2::Commit<'repo>,
) -> Result<git2::Tree<'repo>, git2::Error>;

/// Relies on `git2::Commit::parent` to load the `i`-th parent, failing where
/// there is none; nothing is assumed of the outcome.
pub assume_specification<'repo>[ git2::Commit::<'repo>::parent ](
    commit: &git2::Commit<'repo>,
    i: usize,
) -> Result<git2::Commit<'repo>, git2::Error>;

/// Relies on `git2::Repository::head` to read HEAD; nothing is assumed of
/// the outcome.
pub assume_specification[ git2::Repository::head ](
    repo: &git2::Repository,
) -> Result<git2::Reference<'_>, git2::Error>;

/// Relies on `git2::Reference::peel_to_tree` to reach the tree a reference
/// points to; nothing is assumed of the outcome.
pub assume_specification<'repo>[ git2::Reference::<'repo>::peel_to_tree ](
    r: &git2::Reference<'repo>,
) -> Result<git2::Tree<'repo>, git2::Error>;

/// Relies on `git2::DiffOptions::new` for libgit2's default diff settings.
pub assume_specification[ git2::DiffOptions::new ]() -> git2::DiffOptions;

/// Relies on `git2::Repository::diff_tree_to_tree` to compute the changes
/// from the old tree to the new one; nothing is assumed of the outcome.
pub assume_specification<'r, 'a, 'b, 'c, 'd, 'e>[ git2::Repository::diff_tree_to_tree ](
    repo: &'r git2::Repository,
    old_tree: Option<&'a git2::Tree<'b>>,
    new_tree: Option<&'c git2::Tree<'d>>,
    opts: Option<&'e mut git2::DiffOptions>,
) -> Result<git2::Diff<'r>, git2::Error>;

} // verus!

verus! {

/// What `std::str::from_utf8` makes of a byte sequence: the text when the
/// bytes are valid UTF-8, nothing otherwise.
pub uninterp spec fn utf8_decoded(bytes: Seq<u8>) -> Option<Seq<char>>;

/// Relies on `std::str::from_utf8`: it succeeds exactly on valid UTF-8 and the
/// text depends on the bytes alone.
#[verifier::external_body]
pub(crate) fn decode_utf8(bytes: &[u8]) -> (r: Option<String>)
    ensures
        match r {
            Some(t) => utf8_decoded(bytes@) == Some(t@),
            None => utf8_decoded(bytes@) is None,
        },
{
    std::str::from_utf8(bytes).ok().map(|t| t.to_string())
}

/// Relies on `String::push`: the character is appended at the end.
#[verifier::external_body]
pub(crate) fn push_char(s: &mut String, c: char)
    ensures
        final(s)@ == old(s)@.push(c),
{
    s.push(c)
}

} // verus!

verus! {

/// Relies on `git2::Repository::open`: opens the repository at a path, or
/// fails.
#[verifier::external_body]
pub(crate) fn open_repository(path: &str) -> (r: Result<git2::Repository, git2::Error>) {
    git2::Repository::open(path)
}

/// Relies on `git2::Diff::print` in patch format: hands out the content of
/// every line of the patch, in the order libgit2 emits them.
#[verifier::external_body]
pub(crate) fn patch_lines(diff: &git2::Diff<'_>) -> (r: Result<Vec<Vec<u8>>, git2::Error>) {
    let mut lines: Vec<Vec<u8>> = Vec::new();
    diff.print(git2::DiffFormat::Patch, |_delta, _hunk, line| {
        lines.push(line.content().to_vec());
        true
    })?;
    Ok(lines)
}

/// Relies on `git2::Diff::foreach`: hands out the new-side path of every
/// delta, as text where the path is valid Unicode.
#[verifier::external_body]
pub(crate) fn delta_paths(diff: &git2::Diff<'_>) -> (r: Result<Vec<Option<String>>, git2::Error>) {
    let mut paths: Vec<Option<String>> = Vec::new();
    diff.foreach(
        &mut |delta, _| {
            paths.push(delta.new_file().path().and_then(|p| p.to_str()).map(|p| p.to_string()));
            true
        },
        None,
        None,
        None,
    )?;
    Ok(paths)
}

} // verus!
