//! Collections of the icon catalog, and the filters and merges over them.

use vstd::prelude::*;
use vstd::string::*;
use crate::ranker::{fuzzy_rank_indices, ranked, texts};

verus! {

/// One collection of the catalog as the browser lists it.
#[derive(Debug, Clone)]
pub struct IconifyCollectionListItem {
    pub prefix: String,
    pub name: String,
    pub total: Option<u32>,
}

/// The text a collection is ranked by: its prefix and its display name.
pub open spec fn collection_text(item: IconifyCollectionListItem) -> Seq<char> {
    item.prefix@ + seq![' '] + item.name@
}

/// The ranking texts of a list of collections.
pub open spec fn collection_texts(v: Seq<IconifyCollectionListItem>) -> Seq<Seq<char>> {
    v.map_values(|c: IconifyCollectionListItem| collection_text(c))
}

/// The items of `v` at the indices `r`, in that order.
pub open spec fn pick<T>(v: Seq<T>, r: Seq<usize>) -> Seq<T> {
    r.map_values(|k: usize| v[k as int])
}

/// `out` is `items` ranked against `query`, as `fuzzy_rank_indices` orders them.
pub open spec fn is_filtered<T>(
    query: Seq<char>,
    hay: Seq<Seq<char>>,
    items: Seq<T>,
    out: Seq<T>,
) -> bool {
    exists|r: Seq<usize>| ranked(query, hay, r) && out == pick(items, r)
}

/// Ranking with a blank query keeps every candidate, in the order given.
pub proof fn lemma_blank_query_keeps_candidates<T>(
    query: Seq<char>,
    hay: Seq<Seq<char>>,
    items: Seq<T>,
    out: Seq<T>,
)
    requires
        crate::text::is_blank(query),
        hay.len() == items.len(),
        items.len() <= usize::MAX,
        is_filtered(query, hay, items, out),
    ensures
        out == items,
{
    let r = choose|r: Seq<usize>| ranked(query, hay, r) && out == pick(items, r);
    assert(r == crate::ranker::all_indices(hay.len()));
    assert(out.len() == items.len());
    assert forall|i: int| 0 <= i < items.len() implies out[i] == items[i] by {
        assert(r[i] as int == i);
    }
    assert(out =~= items);
}

impl IconifyCollectionListItem {
    /// A copy with the same fields.
    pub fn duplicate(&self) -> (r: Self)
        ensures
            r == *self,
    {
        IconifyCollectionListItem {
            prefix: self.prefix.clone(),
            name: self.name.clone(),
            total: self.total,
        }
    }
}

/// A copy of a list of strings.
pub fn copy_strings(v: &[String]) -> (r: Vec<String>)
    ensures
        r@ == v@,
{
    let mut r: Vec<String> = Vec::new();
    let mut i: usize = 0;
    while i < v.len()
        invariant
            i <= v@.len(),
            r@ == v@.subrange(0, i as int),
        decreases v@.len() - i,
    {
        r.push(v[i].clone());
        i = i + 1;
        assert(r@ =~= v@.subrange(0, i as int));
    }
    assert(r@ =~= v@);
    r
}

/// A copy of a list of collections.
pub fn copy_collections(v: &[IconifyCollectionListItem]) -> (r: Vec<IconifyCollectionListItem>)
    ensures
        r@ == v@,
{
    let mut r: Vec<IconifyCollectionListItem> = Vec::new();
    let mut i: usize = 0;
    while i < v.len()
        invariant
            i <= v@.len(),
            r@ == v@.subrange(0, i as int),
        decreases v@.len() - i,
    {
        r.push(v[i].duplicate());
        i = i + 1;
        assert(r@ =~= v@.subrange(0, i as int));
    }
    assert(r@ =~= v@);
    r
}

/// The ranking text of one collection.
fn collection_haystack(item: &IconifyCollectionListItem) -> (r: String)
    ensures
        r@ == collection_text(*item),
{
    let mut s = item.prefix.clone();
    s.append(" ");
    s.append(item.name.as_str());
    proof {
        reveal_strlit(" ");
    }
    assert(s@ =~= collection_text(*item));
    s
}

/// The collections that match `query`, best first; all of them, in order,
/// for a blank query.
pub fn fuzzy_filter_collections(
    collections: &[IconifyCollectionListItem],
    query: &str,
) -> (r: Vec<IconifyCollectionListItem>)
    ensures
        is_filtered(query@, collection_texts(collections@), collections@, r@),
{
    let mut hay: Vec<String> = Vec::new();
    let mut i: usize = 0;
    while i < collections.len()
        invariant
            i <= collections@.len(),
            hay@.len() == i,
            forall|k: int| 0 <= k < i ==> #[trigger] hay@[k]@ == collection_text(collections@[k]),
        decreases collections@.len() - i,
    {
        let h = collection_haystack(&collections[i]);
        hay.push(h);
        i = i + 1;
    }
    assert(texts(hay@) =~= collection_texts(collections@));
    let idx = fuzzy_rank_indices(query, &hay);
    let mut out: Vec<IconifyCollectionListItem> = Vec::new();
    let mut k: usize = 0;
    while k < idx.len()
        invariant
            k <= idx@.len(),
            ranked(query@, collection_texts(collections@), idx@),
            out@ == pick(collections@, idx@.subrange(0, k as int)),
        decreases idx@.len() - k,
    {
        let j = idx[k];
        proof {
            crate::ranker::lemma_ranked_in_bounds(query@, collection_texts(collections@), idx@, k as int);
        }
        out.push(collections[j].duplicate());
        k = k + 1;
        assert(out@ =~= pick(collections@, idx@.subrange(0, k as int)));
    }
    assert(idx@.subrange(0, idx@.len() as int) =~= idx@);
    out
}

/// The icon names that match `query`, best first; all of them, in order,
/// for a blank query.
pub fn fuzzy_filter_icons(icons: &[String], query: &str) -> (r: Vec<String>)
    ensures
        is_filtered(query@, texts(icons@), icons@, r@),
{
    let hay = copy_strings(icons);
    let idx = fuzzy_rank_indices(query, &hay);
    let mut out: Vec<String> = Vec::new();
    let mut k: usize = 0;
    while k < idx.len()
        invariant
            k <= idx@.len(),
            ranked(query@, texts(icons@), idx@),
            out@ == pick(icons@, idx@.subrange(0, k as int)),
        decreases idx@.len() - k,
    {
        let j = idx[k];
        proof {
            crate::ranker::lemma_ranked_in_bounds(query@, texts(icons@), idx@, k as int);
        }
        out.push(icons[j].clone());
        k = k + 1;
        assert(out@ =~= pick(icons@, idx@.subrange(0, k as int)));
    }
    assert(idx@.subrange(0, idx@.len() as int) =~= idx@);
    out
}

/// `s` with every repeat of an earlier item left out.
pub open spec fn first_occurrences(s: Seq<Seq<char>>) -> Seq<Seq<char>>
    decreases s.len(),
{
    if s.len() == 0 {
        Seq::empty()
    } else {
        let d = first_occurrences(s.drop_last());
        if d.contains(s.last()) {
            d
        } else {
            d.push(s.last())
        }
    }
}

/// The lists of `cs` one after another.
pub open spec fn concat_all(cs: Seq<Seq<String>>) -> Seq<String>
    decreases cs.len(),
{
    if cs.len() == 0 {
        Seq::empty()
    } else {
        concat_all(cs.drop_last()) + cs.last()
    }
}

/// The icon names of a collection as the catalog lists them: its icons, then
/// the uncategorised ones, then each category's, each name once.
pub open spec fn merged_icons(
    icons: Seq<String>,
    uncategorized: Option<Seq<String>>,
    categories: Option<Seq<Seq<String>>>,
) -> Seq<Seq<char>> {
    let extra = match uncategorized {
        Some(u) => u,
        None => Seq::empty(),
    };
    let grouped = match categories {
        Some(c) => concat_all(c),
        None => Seq::empty(),
    };
    first_occurrences(texts(icons + extra + grouped))
}

/// Appends the names of `src` not yet in `out`.
fn absorb(out: &mut Vec<String>, seen: Ghost<Seq<String>>, src: &[String])
    requires
        texts(old(out)@) == first_occurrences(texts(seen@)),
    ensures
        texts(final(out)@) == first_occurrences(texts(seen@ + src@)),
{
    let mut j: usize = 0;
    while j < src.len()
        invariant
            j <= src@.len(),
            texts(out@) == first_occurrences(texts(seen@ + src@.take(j as int))),
        decreases src@.len() - j,
    {
        let ghost before = seen@ + src@.take(j as int);
        let ghost after = seen@ + src@.take(j + 1);
        assert(after =~= before.push(src@[j as int]));
        assert(texts(after) =~= texts(before).push(src@[j as int]@));
        assert(texts(after).drop_last() =~= texts(before));
        let mut found = false;
        let mut k: usize = 0;
        while k < out.len()
            invariant
                k <= out@.len(),
                j < src@.len(),
                found == exists|i: int| 0 <= i < k && out@[i]@ == src@[j as int]@,
            decreases out@.len() - k,
        {
            if out[k] == src[j] {
                found = true;
            }
            k = k + 1;
        }
        proof {
            let d = texts(out@);
            if found {
                let i = choose|i: int| 0 <= i < out@.len() && out@[i]@ == src@[j as int]@;
                assert(d[i] == src@[j as int]@);
            } else {
                assert forall|i: int| 0 <= i < d.len() implies d[i] != src@[j as int]@ by {
                    assert(d[i] == out@[i]@);
                }
            }
        }
        if !found {
            out.push(src[j].clone());
            assert(texts(out@) =~= first_occurrences(texts(after)));
        }
        j = j + 1;
    }
    assert(src@.take(src@.len() as int) =~= src@);
}

/// Merges a collection's icon lists into one, keeping the first occurrence
/// of each name.
pub fn merge_collection_icons(
    icons: Vec<String>,
    uncategorized: Option<&Vec<String>>,
    categories: Option<&Vec<Vec<String>>>,
) -> (r: Vec<String>)
    ensures
        texts(r@) == merged_icons(
            icons@,
            match uncategorized {
                Some(u) => Some(u@),
                None => None,
            },
            match categories {
                Some(c) => Some(c@.map_values(|v: Vec<String>| v@)),
                None => None,
            },
        ),
{
    let mut out: Vec<String> = Vec::new();
    assert(texts(out@) =~= first_occurrences(texts(Seq::<String>::empty())));
    absorb(&mut out, Ghost(Seq::empty()), icons.as_slice());
    let ghost seen = Seq::<String>::empty() + icons@;
    let ghost extra = match uncategorized {
        Some(u) => u@,
        None => Seq::<String>::empty(),
    };
    match uncategorized {
        Some(u) => {
            absorb(&mut out, Ghost(seen), u.as_slice());
        },
        None => {
            assert(seen + extra =~= seen);
        },
    }
    let ghost seen2 = seen + extra;
    match categories {
        Some(cs) => {
            let ghost cv = cs@.map_values(|v: Vec<String>| v@);
            let mut c: usize = 0;
            while c < cs.len()
                invariant
                    c <= cs@.len(),
                    cv == cs@.map_values(|v: Vec<String>| v@),
                    texts(out@) == first_occurrences(texts(seen2 + concat_all(cv.take(c as int)))),
                decreases cs@.len() - c,
            {
                let ghost before = seen2 + concat_all(cv.take(c as int));
                absorb(&mut out, Ghost(before), cs[c].as_slice());
                assert(cv.take(c + 1).drop_last() =~= cv.take(c as int));
                assert(before + cs@[c as int]@ =~= seen2 + concat_all(cv.take(c + 1)));
                c = c + 1;
            }
            assert(cv.take(cs@.len() as int) =~= cv);
        },
        None => {
            assert(seen2 + Seq::<String>::empty() =~= seen2);
        },
    }
    assert(Seq::<String>::empty() + icons@ =~= icons@);
    out
}

/// What the catalog says of one collection.
#[derive(Debug, Clone, Default)]
pub struct IconifyCollectionMeta {
    pub name: Option<String>,
    pub title: Option<String>,
    pub total: Option<u32>,
}

impl IconifyCollectionMeta {
    /// The name to show: the collection's name, else its title, else `fallback`.
    pub fn display_name(&self, fallback: &str) -> (r: String)
        ensures
            r@ == match (self.name, self.title) {
                (Some(n), _) => n@,
                (None, Some(t)) => t@,
                (None, None) => fallback@,
            },
    {
        match &self.name {
            Some(name) => name.clone(),
            None => match &self.title {
                Some(title) => title.clone(),
                None => String::from_str(fallback),
            },
        }
    }
}

/// The icons of one collection: its prefix, the icon names without it, and
/// those the catalog lists outside any category.
#[derive(Debug, Clone)]
pub struct IconifyCollectionResponse {
    pub prefix: String,
    pub icons: Vec<String>,
    pub uncategorized: Option<Vec<String>>,
}

/// `a` comes no later than `b` in lexicographic order of characters.
pub open spec fn lex_le(a: Seq<char>, b: Seq<char>) -> bool
    decreases a.len(),
{
    if a.len() == 0 {
        true
    } else if b.len() == 0 {
        false
    } else if (a[0] as u32) < (b[0] as u32) {
        true
    } else if (a[0] as u32) > (b[0] as u32) {
        false
    } else {
        lex_le(a.drop_first(), b.drop_first())
    }
}

/// Any two texts are ordered one way or the other.
proof fn lemma_lex_total(a: Seq<char>, b: Seq<char>)
    ensures
        lex_le(a, b) || lex_le(b, a),
    decreases a.len(),
{
    if a.len() > 0 && b.len() > 0 && a[0] as u32 == b[0] as u32 {
        lemma_lex_total(a.drop_first(), b.drop_first());
    }
}

/// Lexicographic order is transitive.
proof fn lemma_lex_trans(a: Seq<char>, b: Seq<char>, c: Seq<char>)
    requires
        lex_le(a, b),
        lex_le(b, c),
    ensures
        lex_le(a, c),
    decreases a.len(),
{
    if a.len() > 0 && b.len() > 0 && c.len() > 0 && a[0] as u32 == b[0] as u32 && b[0] as u32
        == c[0] as u32 {
        lemma_lex_trans(a.drop_first(), b.drop_first(), c.drop_first());
    }
}

/// Whether `a` comes no later than `b` in lexicographic order.
fn text_le(a: &str, b: &str) -> (r: bool)
    ensures
        r == lex_le(a@, b@),
{
    let n = a.unicode_len();
    let m = b.unicode_len();
    let mut i: usize = 0;
    assert(a@.skip(0) =~= a@);
    assert(b@.skip(0) =~= b@);
    while i < n && i < m
        invariant
            n == a@.len(),
            m == b@.len(),
            i <= n,
            i <= m,
            lex_le(a@, b@) == lex_le(a@.skip(i as int), b@.skip(i as int)),
        decreases n - i,
    {
        let x = a.get_char(i) as u32;
        let y = b.get_char(i) as u32;
        assert(a@.skip(i as int)[0] == a@[i as int]);
        assert(b@.skip(i as int)[0] == b@[i as int]);
        if x < y {
            return true;
        }
        if x > y {
            return false;
        }
        assert(a@.skip(i as int).drop_first() =~= a@.skip(i + 1));
        assert(b@.skip(i as int).drop_first() =~= b@.skip(i + 1));
        i = i + 1;
    }
    i == n
}

/// `v` is in ascending order of prefix.
pub open spec fn sorted_by_prefix(v: Seq<IconifyCollectionListItem>) -> bool {
    forall|i: int, j: int| 0 <= i < j < v.len() ==> lex_le(v[i].prefix@, v[j].prefix@)
}

/// The collections in ascending order of prefix; those with equal prefixes
/// keep their order.
pub fn sort_collections_by_prefix(items: Vec<IconifyCollectionListItem>) -> (r: Vec<
    IconifyCollectionListItem,
>)
    ensures
        sorted_by_prefix(r@),
        r@.to_multiset() == items@.to_multiset(),
{
    let mut out: Vec<IconifyCollectionListItem> = Vec::new();
    let mut i: usize = 0;
    assert(out@ =~= items@.take(0));
    while i < items.len()
        invariant
            i <= items@.len(),
            sorted_by_prefix(out@),
            out@.to_multiset() == items@.take(i as int).to_multiset(),
        decreases items@.len() - i,
    {
        let x = items[i].duplicate();
        let mut p: usize = 0;
        while p < out.len() && text_le(out[p].prefix.as_str(), x.prefix.as_str())
            invariant
                p <= out@.len(),
                forall|k: int| 0 <= k < p ==> lex_le(out@[k].prefix@, x.prefix@),
            decreases out@.len() - p,
        {
            p = p + 1;
        }
        let ghost before = out@;
        proof {
            if p < before.len() {
                lemma_lex_total(before[p as int].prefix@, x.prefix@);
            }
        }
        out.insert(p, x);
        proof {
            assert forall|a: int, b: int| 0 <= a < b < out@.len() implies lex_le(
                out@[a].prefix@,
                out@[b].prefix@,
            ) by {
                if b < p {
                } else if b == p {
                } else if a < p {
                    lemma_lex_trans(before[a].prefix@, x.prefix@, before[p as int].prefix@);
                    if b - 1 > p {
                        lemma_lex_trans(
                            before[a].prefix@,
                            before[p as int].prefix@,
                            before[b - 1].prefix@,
                        );
                    }
                } else if a == p {
                    if b - 1 > p {
                        lemma_lex_trans(x.prefix@, before[p as int].prefix@, before[b - 1].prefix@);
                    }
                } else {
                }
            }
            vstd::seq_lib::to_multiset_insert(before, p as int, x);
            assert(items@.take(i + 1) =~= items@.take(i as int).push(items@[i as int]));
            items@.take(i as int).to_multiset_ensures();
        }
        i = i + 1;
    }
    assert(items@.take(items@.len() as int) =~= items@);
    out
}

/// The full names `prefix:icon` of a collection's icons, in order.
pub fn qualified_icon_names(prefix: &str, icons: &[String]) -> (r: Vec<String>)
    ensures
        r@.len() == icons@.len(),
        forall|i: int| 0 <= i < icons@.len() ==> #[trigger] r@[i]@ == prefix@ + seq![':'] + icons@[i]@,
{
    let mut r: Vec<String> = Vec::new();
    let mut i: usize = 0;
    while i < icons.len()
        invariant
            i <= icons@.len(),
            r@.len() == i,
            forall|k: int| 0 <= k < i ==> #[trigger] r@[k]@ == prefix@ + seq![':'] + icons@[k]@,
        decreases icons@.len() - i,
    {
        let mut name = String::from_str(prefix);
        name.append(":");
        name.append(icons[i].as_str());
        proof {
            reveal_strlit(":");
        }
        assert(name@ =~= prefix@ + seq![':'] + icons@[i as int]@);
        r.push(name);
        i = i + 1;
    }
    r
}

/// The list entry for the collection `prefix` that `meta` describes.
pub fn collection_list_item(prefix: String, meta: &IconifyCollectionMeta) -> (r:
    IconifyCollectionListItem)
    ensures
        r.prefix == prefix,
        r.name@ == match (meta.name, meta.title) {
            (Some(n), _) => n@,
            (None, Some(t)) => t@,
            (None, None) => prefix@,
        },
        r.total == meta.total,
{
    let name = meta.display_name(prefix.as_str());
    IconifyCollectionListItem { prefix, name, total: meta.total }
}

} // verus!
