//! Startup argument scanning: which process arguments name PDF files.
//!
//! An argument qualifies when its lowercase form ends in `.pdf` and a
//! filesystem entry exists at that path. The existence check is I/O, so the
//! caller performs it and hands the verdicts in as one `bool` per argument;
//! everything else — the suffix test, skipping the executable path, keeping
//! the original order — is decided and proved here.

use vstd::prelude::*;
use vstd::string::StrSliceExecFns;

verus! {

/// The lowercase form of `s` ends in `.pdf`: the last four characters are
/// `.`, `p`, `d`, `f`, each letter in either case.
pub open spec fn is_pdf_path(s: Seq<char>) -> bool {
    &&& s.len() >= 4
    &&& s[s.len() - 4] == '.'
    &&& (s[s.len() - 3] == 'p' || s[s.len() - 3] == 'P')
    &&& (s[s.len() - 2] == 'd' || s[s.len() - 2] == 'D')
    &&& (s[s.len() - 1] == 'f' || s[s.len() - 1] == 'F')
}

/// Does this argument end in `.pdf`, ignoring the case of the suffix?
pub fn has_pdf_suffix(s: &str) -> (b: bool)
    ensures
        b == is_pdf_path(s@),
{
    let n = s.unicode_len();
    if n < 4 {
        return false;
    }
    let dot = s.get_char(n - 4);
    let p = s.get_char(n - 3);
    let d = s.get_char(n - 2);
    let f = s.get_char(n - 1);
    dot == '.' && (p == 'p' || p == 'P') && (d == 'd' || d == 'D') && (f == 'f' || f == 'F')
}

/// The arguments that the scanner keeps, in their original order: those
/// `args[i]` with the `.pdf` suffix for which `exists[i]` holds.
pub open spec fn selected_paths(args: Seq<Seq<char>>, exists: Seq<bool>) -> Seq<Seq<char>>
    recommends
        args.len() == exists.len(),
    decreases args.len(),
{
    if args.len() == 0 {
        Seq::empty()
    } else {
        let kept = selected_paths(args.drop_last(), exists.drop_last());
        if is_pdf_path(args.last()) && exists.last() {
            kept.push(args.last())
        } else {
            kept
        }
    }
}

/// Every path the scanner keeps comes from the arguments: the element at
/// position `j` of the result ends in `.pdf` and equals some argument that
/// existed on disk.
pub proof fn lemma_selected_paths_sound(args: Seq<Seq<char>>, on_disk: Seq<bool>, j: int)
    requires
        args.len() == on_disk.len(),
        0 <= j < selected_paths(args, on_disk).len(),
    ensures
        is_pdf_path(selected_paths(args, on_disk)[j]),
        exists|i: int|
            0 <= i < args.len() && args[i] == selected_paths(args, on_disk)[j] && on_disk[i],
    decreases args.len(),
{
    let kept = selected_paths(args.drop_last(), on_disk.drop_last());
    if is_pdf_path(args.last()) && on_disk.last() && j == kept.len() {
        assert(args[args.len() - 1] == selected_paths(args, on_disk)[j] && on_disk[args.len()
            - 1]);
    } else {
        lemma_selected_paths_sound(args.drop_last(), on_disk.drop_last(), j);
        let i = choose|i: int|
            0 <= i < args.drop_last().len() && args.drop_last()[i] == kept[j]
                && on_disk.drop_last()[i];
        assert(args[i] == selected_paths(args, on_disk)[j] && on_disk[i]);
    }
}

/// Every argument that ends in `.pdf` and exists on disk is kept by the
/// scanner: nothing that qualifies is dropped.
pub proof fn lemma_selected_paths_complete(args: Seq<Seq<char>>, on_disk: Seq<bool>, i: int)
    requires
        args.len() == on_disk.len(),
        0 <= i < args.len(),
        is_pdf_path(args[i]),
        on_disk[i],
    ensures
        selected_paths(args, on_disk).contains(args[i]),
    decreases args.len(),
{
    let kept = selected_paths(args.drop_last(), on_disk.drop_last());
    if i == args.len() - 1 {
        assert(selected_paths(args, on_disk)[kept.len() as int] == args[i]);
    } else {
        lemma_selected_paths_complete(args.drop_last(), on_disk.drop_last(), i);
        let j = choose|j: int| 0 <= j < kept.len() && kept[j] == args.drop_last()[i];
        assert(selected_paths(args, on_disk)[j] == args[i]);
    }
}

/// `sub` can be read out of `sup` left to right without reordering: either
/// it is empty, or its last element is `sup`'s last and the rest nests in
/// the rest of `sup`, or all of it nests there already.
pub open spec fn is_subsequence_of(sub: Seq<Seq<char>>, sup: Seq<Seq<char>>) -> bool
    decreases sup.len(),
{
    if sub.len() == 0 {
        true
    } else if sup.len() == 0 {
        false
    } else {
        ||| (sub.last() == sup.last() && is_subsequence_of(sub.drop_last(), sup.drop_last()))
        ||| is_subsequence_of(sub, sup.drop_last())
    }
}

/// The scanner preserves the original relative order: what it keeps is a
/// subsequence of the argument list.
pub proof fn lemma_selected_paths_ordered(args: Seq<Seq<char>>, on_disk: Seq<bool>)
    requires
        args.len() == on_disk.len(),
    ensures
        is_subsequence_of(selected_paths(args, on_disk), args),
    decreases args.len(),
{
    if args.len() > 0 {
        lemma_selected_paths_ordered(args.drop_last(), on_disk.drop_last());
        let kept = selected_paths(args.drop_last(), on_disk.drop_last());
        if is_pdf_path(args.last()) && on_disk.last() {
            assert(kept.push(args.last()).drop_last() =~= kept);
            assert(kept.push(args.last()).last() == args.last());
        }
    }
}

/// Scan a raw argument list, whose first element is the executable path.
///
/// `exists[i]` reports whether a filesystem entry exists at `args[i]`; the
/// caller fills it in at the moment of the scan. The result is exactly the
/// arguments after the first whose lowercase form ends in `.pdf` and which
/// exist, in their original order.
pub fn scan_startup_args(args: &Vec<String>, exists: &Vec<bool>) -> (r: Vec<String>)
    requires
        args@.len() >= 1,
        args@.len() == exists@.len(),
    ensures
        r.deep_view() == selected_paths(args.deep_view().skip(1), exists@.skip(1)),
{
    let ghost all_args: Seq<Seq<char>> = args.deep_view();
    let mut r: Vec<String> = Vec::new();
    let mut i: usize = 1;
    while i < args.len()
        invariant
            1 <= i <= args@.len(),
            args@.len() == exists@.len(),
            all_args == args.deep_view(),
            r.deep_view() =~= selected_paths(
                all_args.subrange(1, i as int),
                exists@.subrange(1, i as int),
            ),
        decreases args@.len() - i,
    {
        let ghost prev = r.deep_view();
        let keep = has_pdf_suffix(args[i].as_str()) && exists[i];
        if keep {
            r.push(args[i].clone());
        }
        proof {
            let a_now = all_args.subrange(1, i + 1);
            let e_now = exists@.subrange(1, i + 1);
            assert(a_now.drop_last() =~= all_args.subrange(1, i as int));
            assert(e_now.drop_last() =~= exists@.subrange(1, i as int));
            assert(a_now.last() == all_args[i as int]);
            if keep {
                assert(r.deep_view() =~= prev.push(all_args[i as int]));
            }
        }
        i += 1;
    }
    proof {
        assert(all_args.subrange(1, args@.len() as int) =~= all_args.skip(1));
        assert(exists@.subrange(1, exists@.len() as int) =~= exists@.skip(1));
    }
    r
}

} // verus!
