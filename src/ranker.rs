//! Fuzzy ranking of text candidates against a query.
//!
//! The affinity score of one candidate comes from `nucleo_matcher`; which
//! candidates are kept and the order they come out in are decided here.

use vstd::prelude::*;
use crate::text::{is_blank, text_is_blank};
use nucleo_matcher::pattern::{CaseMatching, Normalization, Pattern};
use nucleo_matcher::{Config, Matcher, Utf32Str};

verus! {

#[verifier::external_type_specification]
#[verifier::external_body]
pub struct ExMatcher(Matcher);

/// The score that `nucleo_matcher` gives `haystack` for the pattern parsed from
/// `query`, or `None` where it does not match at all.
pub uninterp spec fn match_score(query: Seq<char>, haystack: Seq<char>) -> Option<u32>;

/// Relies on `nucleo_matcher::Matcher::new`: scratch space for scoring.
#[verifier::external_body]
fn new_matcher() -> Matcher {
    Matcher::new(Config::DEFAULT)
}

/// Relies on `nucleo_matcher::pattern::Pattern::parse` (case ignored, smart
/// normalisation) and `Pattern::score` under the default configuration: the
/// score depends on the query and the haystack alone.
#[verifier::external_body]
fn fuzzy_score(matcher: &mut Matcher, query: &str, haystack: &str) -> (r: Option<u32>)
    ensures
        r == match_score(query@, haystack@),
{
    matcher.config = Config::DEFAULT;
    let pattern = Pattern::parse(query, CaseMatching::Ignore, Normalization::Smart);
    let mut buf = Vec::new();
    pattern.score(Utf32Str::new(haystack, &mut buf), matcher)
}

/// How well `haystack` answers `query`; zero means no match at all.
pub open spec fn affinity(query: Seq<char>, haystack: Seq<char>) -> nat {
    match match_score(query, haystack) {
        Some(s) => s as nat,
        None => 0,
    }
}

/// Whether the candidate at index `i` with affinity `a` comes strictly before
/// the one at index `j` with affinity `b`: higher affinity first, then lower index.
pub open spec fn ranks_before(a: nat, i: int, b: nat, j: int) -> bool {
    a > b || (a == b && i < j)
}

/// `r` lists exactly the indices of the candidates that match `query`, best
/// first, ties in candidate order.
pub open spec fn is_ranking(query: Seq<char>, hay: Seq<Seq<char>>, r: Seq<usize>) -> bool {
    &&& forall|k: int|
        0 <= k < r.len() ==> #[trigger] r[k] < hay.len() && affinity(query, hay[r[k] as int]) > 0
    &&& forall|i: int|
        0 <= i < hay.len() && affinity(query, #[trigger] hay[i]) > 0 ==> r.contains(i as usize)
    &&& forall|a: int, b: int|
        0 <= a < b < r.len() ==> ranks_before(
            affinity(query, hay[r[a] as int]),
            r[a] as int,
            affinity(query, hay[r[b] as int]),
            r[b] as int,
        )
}

/// The indices `0, 1, ..., n - 1`.
pub open spec fn all_indices(n: nat) -> Seq<usize> {
    Seq::new(n, |i: int| i as usize)
}

/// What ranking `hay` against `query` yields: every index in order for a
/// blank query, else the ranking of the matching candidates.
pub open spec fn ranked(query: Seq<char>, hay: Seq<Seq<char>>, r: Seq<usize>) -> bool {
    if is_blank(query) {
        r == all_indices(hay.len())
    } else {
        is_ranking(query, hay, r)
    }
}

/// The views of a list of strings.
pub open spec fn texts(v: Seq<String>) -> Seq<Seq<char>> {
    v.map_values(|s: String| s@)
}

/// Ranks `haystacks` against `query` and returns the indices of the kept
/// candidates, best first.
pub fn fuzzy_rank_indices(query: &str, haystacks: &Vec<String>) -> (r: Vec<usize>)
    ensures
        ranked(query@, texts(haystacks@), r@),
{
    let ghost hay = texts(haystacks@);
    let n = haystacks.len();
    let mut r: Vec<usize> = Vec::new();
    if text_is_blank(query) {
        let mut i: usize = 0;
        while i < n
            invariant
                n == haystacks@.len(),
                i <= n,
                r@ == all_indices(i as nat),
            decreases n - i,
        {
            r.push(i);
            i = i + 1;
            assert(r@ =~= all_indices(i as nat));
        }
        return r;
    }
    let mut matcher = new_matcher();
    let mut keys: Vec<u32> = Vec::new();
    let mut i: usize = 0;
    while i < n
        invariant
            n == haystacks@.len(),
            hay == texts(haystacks@),
            i <= n,
            keys@.len() == r@.len(),
            forall|k: int|
                0 <= k < r@.len() ==> #[trigger] r@[k] < i && keys@[k] as nat == affinity(
                    query@,
                    hay[r@[k] as int],
                ) && keys@[k] > 0,
            forall|j: int|
                0 <= j < i && affinity(query@, #[trigger] hay[j]) > 0 ==> r@.contains(j as usize),
            forall|a: int, b: int|
                0 <= a < b < r@.len() ==> ranks_before(
                    keys@[a] as nat,
                    r@[a] as int,
                    keys@[b] as nat,
                    r@[b] as int,
                ),
        decreases n - i,
    {
        let score = fuzzy_score(&mut matcher, query, haystacks[i].as_str());
        assert(hay[i as int] == haystacks@[i as int]@);
        if let Some(s) = score {
            if s > 0 {
                let mut p: usize = 0;
                while p < r.len() && keys[p] >= s
                    invariant
                        keys@.len() == r@.len(),
                        p <= r@.len(),
                        forall|k: int| 0 <= k < p ==> keys@[k] >= s,
                    decreases r@.len() - p,
                {
                    p = p + 1;
                }
                let ghost old_r = r@;
                let ghost old_keys = keys@;
                r.insert(p, i);
                keys.insert(p, s);
                assert forall|k: int| 0 <= k < r@.len() implies #[trigger] r@[k] < i + 1
                    && keys@[k] as nat == affinity(query@, hay[r@[k] as int]) && keys@[k] > 0 by {
                    if k > p {
                        assert(r@[k] == old_r[k - 1]);
                    }
                }
                assert forall|j: int|
                    0 <= j < i + 1 && affinity(query@, #[trigger] hay[j]) > 0 implies r@.contains(
                    j as usize,
                ) by {
                    if j < i {
                        let t = choose|t: int| 0 <= t < old_r.len() && old_r[t] == j as usize;
                        if t < p {
                            assert(r@[t] == j as usize);
                        } else {
                            assert(r@[t + 1] == j as usize);
                        }
                    } else {
                        assert(r@[p as int] == j as usize);
                    }
                }
                assert forall|a: int, b: int| 0 <= a < b < r@.len() implies ranks_before(
                    keys@[a] as nat,
                    r@[a] as int,
                    keys@[b] as nat,
                    r@[b] as int,
                ) by {
                    if b < p {
                    } else if b == p {
                        assert(old_keys[a] >= s);
                    } else if a < p {
                        assert(old_keys[a] >= old_keys[b - 1] || ranks_before(
                            old_keys[a] as nat,
                            old_r[a] as int,
                            old_keys[b - 1] as nat,
                            old_r[b - 1] as int,
                        ));
                    } else if a == p {
                        assert(!(old_keys[p as int] >= s));
                        if b - 1 > p {
                            assert(ranks_before(
                                old_keys[p as int] as nat,
                                old_r[p as int] as int,
                                old_keys[b - 1] as nat,
                                old_r[b - 1] as int,
                            ));
                        }
                    } else {
                        assert(ranks_before(
                            old_keys[a - 1] as nat,
                            old_r[a - 1] as int,
                            old_keys[b - 1] as nat,
                            old_r[b - 1] as int,
                        ));
                    }
                }
            }
        }
        i = i + 1;
    }
    r
}


/// Every index that a ranking yields names a candidate.
pub proof fn lemma_ranked_in_bounds(query: Seq<char>, hay: Seq<Seq<char>>, r: Seq<usize>, k: int)
    requires
        ranked(query, hay, r),
        0 <= k < r.len(),
    ensures
        r[k] < hay.len(),
{
    if !is_blank(query) {
        assert(r[k] < hay.len());
    }
}

/// Whether index `i` ranks strictly before index `j` for `query`.
pub open spec fn index_before(query: Seq<char>, hay: Seq<Seq<char>>, i: usize, j: usize) -> bool {
    ranks_before(affinity(query, hay[i as int]), i as int, affinity(query, hay[j as int]), j as int)
}

/// `r` runs strictly upwards in rank order.
pub open spec fn strictly_ranked(query: Seq<char>, hay: Seq<Seq<char>>, r: Seq<usize>) -> bool {
    forall|a: int, b: int| 0 <= a < b < r.len() ==> index_before(query, hay, r[a], r[b])
}

/// Two runs in strict rank order over the same indices are the same run.
proof fn lemma_strictly_ranked_unique(
    query: Seq<char>,
    hay: Seq<Seq<char>>,
    a: Seq<usize>,
    b: Seq<usize>,
)
    requires
        strictly_ranked(query, hay, a),
        strictly_ranked(query, hay, b),
        forall|x: usize| a.contains(x) <==> b.contains(x),
    ensures
        a == b,
    decreases a.len(),
{
    if a.len() == 0 {
        if b.len() > 0 {
            assert(b.contains(b[0]));
        }
        assert(a =~= b);
    } else {
        assert(a.contains(a[0]));
        let j = choose|j: int| 0 <= j < b.len() && b[j] == a[0];
        assert(b.contains(b[0]));
        let m = choose|m: int| 0 <= m < a.len() && a[m] == b[0];
        if j > 0 {
            assert(index_before(query, hay, b[0], b[j]));
            if m == 0 {
                assert(false);
            } else {
                assert(index_before(query, hay, a[0], a[m]));
                assert(false);
            }
        }
        let ta = a.drop_first();
        let tb = b.drop_first();
        assert forall|x: usize| ta.contains(x) <==> tb.contains(x) by {
            if ta.contains(x) {
                let k = choose|k: int| 0 <= k < ta.len() && ta[k] == x;
                assert(a[k + 1] == x);
                assert(index_before(query, hay, a[0], a[k + 1]));
                assert(a.contains(x));
                let t = choose|t: int| 0 <= t < b.len() && b[t] == x;
                assert(t != 0);
                assert(tb[t - 1] == x);
            }
            if tb.contains(x) {
                let k = choose|k: int| 0 <= k < tb.len() && tb[k] == x;
                assert(b[k + 1] == x);
                assert(index_before(query, hay, b[0], b[k + 1]));
                assert(b.contains(x));
                let t = choose|t: int| 0 <= t < a.len() && a[t] == x;
                assert(t != 0);
                assert(ta[t - 1] == x);
            }
        }
        lemma_strictly_ranked_unique(query, hay, ta, tb);
        assert(b[0] == a[0]);
        assert forall|k: int| 0 <= k < a.len() implies a[k] == b[k] by {
            if k > 0 {
                assert(a[k] == ta[k - 1]);
                assert(b[k] == tb[k - 1]);
            }
        }
        assert(a =~= b);
    }
}

/// Ranking is deterministic: for the same query and candidates there is
/// exactly one ranking, ties broken by candidate order.
pub proof fn lemma_ranking_is_unique(
    query: Seq<char>,
    hay: Seq<Seq<char>>,
    r1: Seq<usize>,
    r2: Seq<usize>,
)
    requires
        ranked(query, hay, r1),
        ranked(query, hay, r2),
    ensures
        r1 == r2,
{
    if !is_blank(query) {
        assert forall|x: usize| r1.contains(x) <==> r2.contains(x) by {
            if r1.contains(x) {
                let k = choose|k: int| 0 <= k < r1.len() && r1[k] == x;
                assert(x < hay.len() && affinity(query, hay[x as int]) > 0);
                assert(r2.contains((x as int) as usize));
            }
            if r2.contains(x) {
                let k = choose|k: int| 0 <= k < r2.len() && r2[k] == x;
                assert(x < hay.len() && affinity(query, hay[x as int]) > 0);
                assert(r1.contains((x as int) as usize));
            }
        }
        lemma_strictly_ranked_unique(query, hay, r1, r2);
    }
}

} // verus!
