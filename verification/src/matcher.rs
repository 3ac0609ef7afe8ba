use vstd::prelude::*;
use crate::document::Document;
use crate::pattern::{Pattern, regex_match};

verus! {

/// The match set of the first `n` lines of `doc`: the indices `i < n`
/// with `regex_match(pat, doc[i])`, in ascending order.
pub open spec fn match_indices_up_to(doc: Seq<Seq<char>>, pat: Seq<char>, n: int) -> Seq<int>
    decreases n,
{
    if n <= 0 {
        Seq::empty()
    } else if regex_match(pat, doc[n - 1]) {
        match_indices_up_to(doc, pat, n - 1).push(n - 1)
    } else {
        match_indices_up_to(doc, pat, n - 1)
    }
}

/// The match set of `doc` under `pat`: the line indices where the pattern
/// matches, in ascending order.
pub open spec fn match_indices(doc: Seq<Seq<char>>, pat: Seq<char>) -> Seq<int> {
    match_indices_up_to(doc, pat, doc.len() as int)
}

proof fn lemma_match_indices_up_to_props(doc: Seq<Seq<char>>, pat: Seq<char>, n: int)
    requires
        0 <= n <= doc.len(),
    ensures
        forall|k: int|
            0 <= k < match_indices_up_to(doc, pat, n).len() ==> 0 <= #[trigger] match_indices_up_to(
                doc,
                pat,
                n,
            )[k] < n && regex_match(pat, doc[match_indices_up_to(doc, pat, n)[k]]),
        forall|k: int, l: int|
            0 <= k < l < match_indices_up_to(doc, pat, n).len() ==> #[trigger] match_indices_up_to(
                doc,
                pat,
                n,
            )[k] < #[trigger] match_indices_up_to(doc, pat, n)[l],
        forall|i: int|
            0 <= i < n && regex_match(pat, doc[i]) ==> match_indices_up_to(doc, pat, n).contains(i),
    decreases n,
{
    if n > 0 {
        lemma_match_indices_up_to_props(doc, pat, n - 1);
        let prev = match_indices_up_to(doc, pat, n - 1);
        let cur = match_indices_up_to(doc, pat, n);
        if regex_match(pat, doc[n - 1]) {
            assert(cur == prev.push(n - 1));
            assert forall|i: int| 0 <= i < n && regex_match(pat, doc[i]) implies cur.contains(
                i,
            ) by {
                if i == n - 1 {
                    assert(cur[cur.len() - 1] == i);
                } else {
                    assert(prev.contains(i));
                    let k = choose|k: int| 0 <= k < prev.len() && prev[k] == i;
                    assert(cur[k] == i);
                }
            }
        } else {
            assert(cur == prev);
        }
    }
}

/// The match set is a strictly increasing sequence of valid indices into
/// the document; it names every matching line, only matching lines, and
/// is empty exactly when no line matches the pattern.
pub proof fn lemma_match_set_properties(doc: Seq<Seq<char>>, pat: Seq<char>)
    ensures
        forall|k: int|
            0 <= k < match_indices(doc, pat).len() ==> 0 <= #[trigger] match_indices(doc, pat)[k]
                < doc.len() && regex_match(pat, doc[match_indices(doc, pat)[k]]),
        forall|k: int, l: int|
            0 <= k < l < match_indices(doc, pat).len() ==> #[trigger] match_indices(doc, pat)[k]
                < #[trigger] match_indices(doc, pat)[l],
        forall|i: int|
            0 <= i < doc.len() && regex_match(pat, doc[i]) ==> match_indices(doc, pat).contains(i),
        match_indices(doc, pat).len() == 0 <==> (forall|i: int|
            0 <= i < doc.len() ==> !(#[trigger] regex_match(pat, doc[i]))),
{
    lemma_match_indices_up_to_props(doc, pat, doc.len() as int);
    let s = match_indices(doc, pat);
    if s.len() == 0 {
        assert forall|i: int| 0 <= i < doc.len() implies !(#[trigger] regex_match(pat, doc[i])) by {
            if regex_match(pat, doc[i]) {
                assert(s.contains(i));
            }
        }
    }
    if s.len() > 0 {
        assert(regex_match(pat, doc[s[0]]));
    }
}

/// Tests every line of the document against the pattern exactly once, in
/// index order, and returns the match set. Neither input is mutated; zero
/// matches is a valid, non-error outcome (an empty vector).
pub fn find_matches(doc: &Document, pat: &Pattern) -> (markers: Vec<usize>)
    ensures
        markers@.map_values(|m: usize| m as int) == match_indices(doc@, pat@),
{
    let n = doc.len();
    let mut markers: Vec<usize> = Vec::new();
    let mut i: usize = 0;
    while i < n
        invariant
            i <= n,
            n == doc@.len(),
            markers@.map_values(|m: usize| m as int) == match_indices_up_to(doc@, pat@, i as int),
        decreases n - i,
    {
        if pat.is_match(doc.line(i).as_str()) {
            markers.push(i);
            proof {
                assert(markers@.map_values(|m: usize| m as int) =~= match_indices_up_to(
                    doc@,
                    pat@,
                    i + 1,
                ));
            }
        }
        i = i + 1;
    }
    markers
}

} // verus!
