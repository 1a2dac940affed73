//! Revision strings relative to HEAD, the plan of the iterative diffs, and
//! the rendering of patch lines as text.
use vstd::prelude::*;
use vstd::string::*;

use crate::outside::{decode_utf8, push_char, utf8_decoded};

verus! {

/// The decimal digit `d` as a character.
pub open spec fn digit_char(d: nat) -> char {
    seq!['0', '1', '2', '3', '4', '5', '6', '7', '8', '9'][d as int]
}

/// The decimal representation of `n`, without leading zeros.
pub open spec fn decimal(n: nat) -> Seq<char>
    decreases n,
{
    if n < 10 {
        seq![digit_char(n)]
    } else {
        decimal(n / 10).push(digit_char(n % 10))
    }
}

/// The revision `HEAD~i`: the `i`-th first-parent ancestor of HEAD.
pub open spec fn head_ancestor(i: nat) -> Seq<char> {
    seq!['H', 'E', 'A', 'D', '~'] + decimal(i)
}

/// The pair of revisions diffed at step `k` of the last `n` commits: from
/// `HEAD~(n-k)` to `HEAD~(n-k-1)`, oldest step first.
pub open spec fn iterative_step(n: nat, k: nat) -> (Seq<char>, Seq<char>) {
    (head_ancestor((n - k) as nat), head_ancestor((n - k - 1) as nat))
}

fn digit(d: u32) -> (c: char)
    requires
        d < 10,
    ensures
        c == digit_char(d as nat),
{
    match d {
        0 => '0',
        1 => '1',
        2 => '2',
        3 => '3',
        4 => '4',
        5 => '5',
        6 => '6',
        7 => '7',
        8 => '8',
        _ => '9',
    }
}

fn push_decimal(s: &mut String, n: u32)
    ensures
        final(s)@ == old(s)@ + decimal(n as nat),
    decreases n,
{
    if n >= 10 {
        push_decimal(s, n / 10);
    }
    push_char(s, digit(n % 10));
    assert(s@ =~= old(s)@ + decimal(n as nat));
}

/// The revision string `HEAD~i`.
pub fn head_ancestor_revision(i: u32) -> (r: String)
    ensures
        r@ == head_ancestor(i as nat),
{
    let mut s = String::new();
    push_char(&mut s, 'H');
    push_char(&mut s, 'E');
    push_char(&mut s, 'A');
    push_char(&mut s, 'D');
    push_char(&mut s, '~');
    push_decimal(&mut s, i);
    assert(s@ =~= head_ancestor(i as nat));
    s
}

/// The revision pairs that the diffs of the last `n` commits compare, one
/// per step and oldest first: entry `k` goes from `HEAD~(n-k)` to
/// `HEAD~(n-k-1)`, so the last one goes from `HEAD~1` to `HEAD~0`.
pub fn iterative_diff_specs(n: u32) -> (r: Vec<(String, String)>)
    ensures
        r@.len() == n,
        forall|k: int|
            0 <= k < n ==> (#[trigger] r@[k]).0@ == iterative_step(n as nat, k as nat).0
                && r@[k].1@ == iterative_step(n as nat, k as nat).1,
{
    let mut steps: Vec<(String, String)> = Vec::new();
    let mut i: u32 = n;
    while i > 0
        invariant
            i <= n,
            steps@.len() == n - i,
            forall|k: int|
                0 <= k < n - i ==> (#[trigger] steps@[k]).0@ == iterative_step(n as nat, k as nat).0
                    && steps@[k].1@ == iterative_step(n as nat, k as nat).1,
        decreases i,
    {
        let older = head_ancestor_revision(i);
        let newer = head_ancestor_revision(i - 1);
        steps.push((older, newer));
        i = i - 1;
    }
    steps
}

/// The text of one patch line: its bytes decoded, or nothing when they are
/// not UTF-8.
pub open spec fn line_text(line: Seq<u8>) -> Seq<char> {
    match utf8_decoded(line) {
        Some(t) => t,
        None => Seq::empty(),
    }
}

/// The patch text of a sequence of lines: their texts in order.
pub open spec fn patch_of(lines: Seq<Seq<u8>>) -> Seq<char>
    decreases lines.len(),
{
    if lines.len() == 0 {
        Seq::empty()
    } else {
        patch_of(lines.drop_last()) + line_text(lines.last())
    }
}

/// The byte contents of a list of lines.
pub open spec fn byte_lines(lines: Seq<Vec<u8>>) -> Seq<Seq<u8>> {
    lines.map_values(|l: Vec<u8>| l@)
}

/// Concatenates the lines of a patch, in order, into one text; a line whose
/// bytes are not UTF-8 contributes nothing.
pub fn render_patch(lines: &Vec<Vec<u8>>) -> (r: String)
    ensures
        r@ == patch_of(byte_lines(lines@)),
{
    let mut text = String::new();
    let mut i: usize = 0;
    while i < lines.len()
        invariant
            i <= lines@.len(),
            text@ == patch_of(byte_lines(lines@).take(i as int)),
        decreases lines@.len() - i,
    {
        let ghost before = byte_lines(lines@).take(i as int);
        assert(byte_lines(lines@).take(i + 1).drop_last() =~= before);
        match decode_utf8(lines[i].as_slice()) {
            Some(t) => text.append(t.as_str()),
            None => {
                assert(text@ + Seq::<char>::empty() =~= text@);
            },
        }
        i = i + 1;
    }
    assert(byte_lines(lines@).take(lines@.len() as int) =~= byte_lines(lines@));
    text
}

} // verus!
