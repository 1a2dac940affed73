//! Sets of modified file paths, held as lists without duplicates, and their
//! intersection.
use vstd::prelude::*;

verus! {

/// The paths of a list of strings.
pub open spec fn path_views(v: Seq<String>) -> Seq<Seq<char>> {
    v.map_values(|s: String| s@)
}

/// The path of one delta, if it has one that is text.
pub open spec fn delta_view(o: Option<String>) -> Option<Seq<char>> {
    match o {
        Some(s) => Some(s@),
        None => None,
    }
}

/// The paths that a list of delta paths names; an entry without a path
/// names none.
pub open spec fn named_paths(paths: Seq<Option<String>>) -> Set<Seq<char>> {
    Set::new(|p: Seq<char>| paths.map_values(|o: Option<String>| delta_view(o)).contains(Some(p)))
}

/// The paths that occur in both lists.
pub open spec fn common_set(a: Seq<Seq<char>>, b: Seq<Seq<char>>) -> Set<Seq<char>> {
    a.to_set().intersect(b.to_set())
}

fn contains_path(v: &Vec<String>, p: &String) -> (b: bool)
    ensures
        b == path_views(v@).contains(p@),
{
    let mut j: usize = 0;
    while j < v.len()
        invariant
            j <= v@.len(),
            forall|k: int| 0 <= k < j ==> v@[k]@ != p@,
        decreases v@.len() - j,
    {
        if v[j] == *p {
            assert(path_views(v@)[j as int] == p@);
            return true;
        }
        j = j + 1;
    }
    proof {
        if path_views(v@).contains(p@) {
            let k = choose|k: int| 0 <= k < path_views(v@).len() && path_views(v@)[k] == p@;
            assert(v@[k]@ == p@);
        }
    }
    false
}

proof fn lemma_push_new_path(v: Seq<String>, s: String)
    requires
        path_views(v).no_duplicates(),
        !path_views(v).contains(s@),
    ensures
        path_views(v.push(s)) == path_views(v).push(s@),
        path_views(v.push(s)).no_duplicates(),
        path_views(v.push(s)).to_set() == path_views(v).to_set().insert(s@),
{
    assert(path_views(v.push(s)) =~= path_views(v).push(s@));
    let w = path_views(v).push(s@);
    assert forall|i: int, j: int| 0 <= i < w.len() && 0 <= j < w.len() && i != j implies w[i] != w[j] by {
        if i < w.len() - 1 && j < w.len() - 1 {
        } else if i == w.len() - 1 {
            assert(path_views(v)[j] == w[j]);
        } else {
            assert(path_views(v)[i] == w[i]);
        }
    }
    assert(w.to_set() =~= path_views(v).to_set().insert(s@)) by {
        assert forall|x: Seq<char>| w.contains(x) <==> path_views(v).contains(x) || x == s@ by {
            if w.contains(x) {
                let i = choose|i: int| 0 <= i < w.len() && w[i] == x;
                if i < w.len() - 1 {
                    assert(path_views(v)[i] == x);
                }
            }
            if path_views(v).contains(x) {
                let i = choose|i: int| 0 <= i < path_views(v).len() && path_views(v)[i] == x;
                assert(w[i] == x);
            }
            if x == s@ {
                assert(w[w.len() - 1] == x);
            }
        }
    }
}

proof fn lemma_named_paths_push(paths: Seq<Option<String>>, o: Option<String>)
    ensures
        named_paths(paths.push(o)) == match delta_view(o) {
            Some(p) => named_paths(paths).insert(p),
            None => named_paths(paths),
        },
{
    let f = |o: Option<String>| delta_view(o);
    let m = paths.map_values(f);
    assert(paths.push(o).map_values(f) =~= m.push(delta_view(o)));
    let w = m.push(delta_view(o));
    assert forall|x: Option<Seq<char>>| w.contains(x) <==> m.contains(x) || x == delta_view(o) by {
        if w.contains(x) {
            let i = choose|i: int| 0 <= i < w.len() && w[i] == x;
            if i < w.len() - 1 {
                assert(m[i] == x);
            }
        }
        if m.contains(x) {
            let i = choose|i: int| 0 <= i < m.len() && m[i] == x;
            assert(w[i] == x);
        }
        if x == delta_view(o) {
            assert(w[w.len() - 1] == x);
        }
    }
    match delta_view(o) {
        Some(p) => {
            assert(named_paths(paths.push(o)) =~= named_paths(paths).insert(p));
        },
        None => {
            assert(named_paths(paths.push(o)) =~= named_paths(paths));
        },
    }
}

/// The set of paths that a list of delta paths names, each once: the
/// modified-file set of a diff, from the new-side path of each delta.
pub fn modified_file_set(paths: &Vec<Option<String>>) -> (r: Vec<String>)
    ensures
        path_views(r@).no_duplicates(),
        path_views(r@).to_set() == named_paths(paths@),
{
    let mut files: Vec<String> = Vec::new();
    let mut i: usize = 0;
    while i < paths.len()
        invariant
            i <= paths@.len(),
            path_views(files@).no_duplicates(),
            path_views(files@).to_set() == named_paths(paths@.take(i as int)),
        decreases paths@.len() - i,
    {
        let ghost before = files@;
        assert(paths@.take(i + 1) =~= paths@.take(i as int).push(paths@[i as int]));
        proof {
            lemma_named_paths_push(paths@.take(i as int), paths@[i as int]);
        }
        match &paths[i] {
            Some(p) => {
                if !contains_path(&files, p) {
                    let q = p.clone();
                    proof {
                        lemma_push_new_path(files@, q);
                    }
                    files.push(q);
                } else {
                    assert(path_views(files@).to_set().contains(p@));
                    assert(path_views(files@).to_set().insert(p@) =~= path_views(files@).to_set());
                }
            },
            None => {},
        }
        i = i + 1;
    }
    assert(paths@.take(paths@.len() as int) =~= paths@);
    files
}

/// The paths that occur in both lists, each once, in the order of their
/// first occurrence in `a`.
pub fn common_files(a: &Vec<String>, b: &Vec<String>) -> (r: Vec<String>)
    ensures
        path_views(r@).no_duplicates(),
        path_views(r@).to_set() == common_set(path_views(a@), path_views(b@)),
{
    let ghost sb = path_views(b@).to_set();
    let mut common: Vec<String> = Vec::new();
    let mut i: usize = 0;
    while i < a.len()
        invariant
            i <= a@.len(),
            sb == path_views(b@).to_set(),
            path_views(common@).no_duplicates(),
            path_views(common@).to_set() == path_views(a@.take(i as int)).to_set().intersect(sb),
        decreases a@.len() - i,
    {
        let ghost prefix = path_views(a@.take(i as int));
        assert(path_views(a@.take(i + 1)) =~= prefix.push(a@[i as int]@));
        assert(prefix.push(a@[i as int]@).to_set() =~= prefix.to_set().insert(a@[i as int]@)) by {
            let w = prefix.push(a@[i as int]@);
            assert forall|x: Seq<char>| w.contains(x) <==> prefix.contains(x) || x == a@[i as int]@ by {
                if w.contains(x) {
                    let j = choose|j: int| 0 <= j < w.len() && w[j] == x;
                    if j < w.len() - 1 {
                        assert(prefix[j] == x);
                    }
                }
                if prefix.contains(x) {
                    let j = choose|j: int| 0 <= j < prefix.len() && prefix[j] == x;
                    assert(w[j] == x);
                }
                if x == a@[i as int]@ {
                    assert(w[w.len() - 1] == x);
                }
            }
        }
        let in_b = contains_path(b, &a[i]);
        let seen = contains_path(&common, &a[i]);
        if in_b && !seen {
            let q = a[i].clone();
            proof {
                lemma_push_new_path(common@, q);
            }
            common.push(q);
            assert(path_views(common@).to_set() =~= path_views(a@.take(i + 1)).to_set().intersect(sb));
        } else {
            assert(path_views(common@).to_set() =~= path_views(a@.take(i + 1)).to_set().intersect(sb));
        }
        i = i + 1;
    }
    assert(a@.take(a@.len() as int) =~= a@);
    common
}

/// Intersection does not depend on the order of its arguments: the files
/// that `a` and `b` both modified are those that `b` and `a` both modified.
pub proof fn common_files_symmetric(a: Seq<Seq<char>>, b: Seq<Seq<char>>)
    ensures
        common_set(a, b) == common_set(b, a),
{
    assert(common_set(a, b) =~= common_set(b, a));
}

/// The files that a commit modified in common with itself are all the files
/// that it modified.
pub proof fn common_files_with_itself(a: Seq<Seq<char>>)
    ensures
        common_set(a, a) == a.to_set(),
{
    assert(common_set(a, a) =~= a.to_set());
}

} // verus!
