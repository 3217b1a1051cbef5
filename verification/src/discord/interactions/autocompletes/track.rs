//! Suggesting track names while the `track` option of `/play` is typed.
use vstd::prelude::*;
use crate::text::{contains, unicode_lower};

verus! {

/// The most suggestions that one answer can hold.
pub const MAX_CHOICES: usize = 25;

/// The names among the first `k` whose lowercase form contains `typed_lower`, in order.
pub open spec fn matching_names(names: Seq<String>, typed_lower: Seq<char>, k: int) -> Seq<Seq<char>>
    decreases k,
{
    if k <= 0 || k > names.len() {
        Seq::empty()
    } else {
        let before = matching_names(names, typed_lower, k - 1);
        if contains(unicode_lower(names[k - 1]@), typed_lower) {
            before.push(names[k - 1]@)
        } else {
            before
        }
    }
}

/// The suggestions for a typed text: the first names, at most
/// `MAX_CHOICES` of them, whose lowercase form contains the typed text's lowercase form.
pub open spec fn suggestions(names: Seq<String>, typed: Seq<char>) -> Seq<Seq<char>> {
    let all = matching_names(names, unicode_lower(typed), names.len() as int);
    if all.len() <= MAX_CHOICES {
        all
    } else {
        all.subrange(0, MAX_CHOICES as int)
    }
}

/// The matches among fewer names are the first of the matches among more.
proof fn lemma_matching_prefix(names: Seq<String>, t: Seq<char>, j: int, k: int)
    requires
        0 <= j <= k <= names.len(),
    ensures
        matching_names(names, t, j).len() <= matching_names(names, t, k).len(),
        matching_names(names, t, j) == matching_names(names, t, k).subrange(
            0,
            matching_names(names, t, j).len() as int,
        ),
    decreases k - j,
{
    if j < k {
        lemma_matching_prefix(names, t, j, k - 1);
        let a = matching_names(names, t, j);
        let b = matching_names(names, t, k - 1);
        let c = matching_names(names, t, k);
        assert(c.subrange(0, b.len() as int) =~= b);
        assert(c.subrange(0, a.len() as int) =~= b.subrange(0, a.len() as int));
    } else {
        let a = matching_names(names, t, j);
        assert(a.subrange(0, a.len() as int) =~= a);
    }
}

/// The suggestions for the typed text: the track names, in order, whose
/// lowercase form contains the typed text's, at most `MAX_CHOICES` of them.
pub fn choices(track_names: &Vec<String>, typed: &str) -> (r: Vec<String>)
    ensures
        r@.map_values(|s: String| s@) == suggestions(track_names@, typed@),
{
    let typed_lower = crate::text::to_lowercase(typed);
    let t = crate::text::chars_of(typed_lower.as_str());
    let mut out: Vec<String> = Vec::new();
    let mut i: usize = 0;
    while i < track_names.len() && out.len() < MAX_CHOICES
        invariant
            i <= track_names@.len(),
            t@ == unicode_lower(typed@),
            out@.map_values(|s: String| s@) == matching_names(track_names@, t@, i as int),
            out@.len() <= MAX_CHOICES,
        decreases track_names@.len() - i,
    {
        let lower = crate::text::to_lowercase(track_names[i].as_str());
        let l = crate::text::chars_of(lower.as_str());
        let ghost before = out@;
        if crate::text::contains_chars(&l, &t) {
            out.push(track_names[i].clone());
            assert(out@.map_values(|s: String| s@) =~= before.map_values(|s: String| s@).push(
                track_names@[i as int]@,
            ));
        }
        i = i + 1;
    }
    proof {
        let n = track_names@.len() as int;
        lemma_matching_prefix(track_names@, t@, i as int, n);
        let all = matching_names(track_names@, t@, n);
        if i < n {
            assert(out@.len() == MAX_CHOICES);
            assert(all.subrange(0, MAX_CHOICES as int) =~= out@.map_values(|s: String| s@));
        }
    }
    out
}

} // verus!
