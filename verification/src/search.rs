//! Case-insensitive substring search over item titles, shared by the select
//! menu and the suggestion popup.

use vstd::prelude::*;

use crate::text::{has_substring, lowercase, str_contains, to_lowercase};

verus! {

/// The character sequences of a sequence of strings.
pub open spec fn strs(v: Seq<String>) -> Seq<Seq<char>> {
    v.map_values(|s: String| s@)
}

/// Whether an item, whose lowercase form is `item_lower`, matches a query
/// whose lowercase form is `query_lower`: the query occurs in the item.
pub open spec fn lowered_match(item_lower: Seq<char>, query_lower: Seq<char>) -> bool {
    has_substring(item_lower, query_lower)
}

/// The items whose lowercase forms (`lowered`, position by position) contain
/// `query_lower`, in the order they came.
pub open spec fn filter_lowered_spec(
    items: Seq<Seq<char>>,
    lowered: Seq<Seq<char>>,
    query_lower: Seq<char>,
) -> Seq<Seq<char>>
    decreases items.len(),
{
    if items.len() == 0 {
        seq![]
    } else {
        let n = items.len() - 1;
        let rest = filter_lowered_spec(items.take(n), lowered, query_lower);
        if lowered_match(lowered[n], query_lower) {
            rest.push(items[n])
        } else {
            rest
        }
    }
}

/// The lowercase forms of the items.
pub open spec fn lowercase_all(items: Seq<Seq<char>>) -> Seq<Seq<char>> {
    items.map_values(|s: Seq<char>| lowercase(s))
}

/// The items that match a search query: all of them when the lowercased
/// query is empty, otherwise those whose lowercase form contains it.
pub open spec fn search_spec(items: Seq<Seq<char>>, query: Seq<char>) -> Seq<Seq<char>> {
    if lowercase(query).len() == 0 {
        items
    } else {
        filter_lowered_spec(items, lowercase_all(items), lowercase(query))
    }
}

/// A copy of a list of strings.
pub fn copy_strings(v: &Vec<String>) -> (r: Vec<String>)
    ensures
        strs(r@) == strs(v@),
        r@.len() == v@.len(),
{
    let mut out: Vec<String> = Vec::new();
    for i in 0..v.len()
        invariant
            out@.len() == i,
            forall|j: int| 0 <= j < i ==> out@[j]@ == v@[j]@,
    {
        out.push(v[i].clone());
    }
    assert(strs(out@) =~= strs(v@));
    out
}

/// Keep the items whose lowercase form (given position by position in
/// `lowered`) contains `query_lower`.
pub fn filter_lowered(items: &Vec<String>, lowered: &Vec<String>, query_lower: &str) -> (r: Vec<String>)
    requires
        lowered@.len() == items@.len(),
    ensures
        strs(r@) == filter_lowered_spec(strs(items@), strs(lowered@), query_lower@),
{
    let mut out: Vec<String> = Vec::new();
    let n = items.len();
    for i in 0..n
        invariant
            n == items@.len(),
            lowered@.len() == n,
            strs(out@) == filter_lowered_spec(strs(items@).take(i as int), strs(lowered@), query_lower@),
    {
        let keep = str_contains(lowered[i].as_str(), query_lower);
        let ghost before = strs(out@);
        if keep {
            out.push(items[i].clone());
        }
        proof {
            let t = strs(items@).take(i + 1);
            assert(t.take(i as int) =~= strs(items@).take(i as int));
            assert(t[i as int] == items@[i as int]@);
            if keep {
                assert(strs(out@) =~= before.push(items@[i as int]@));
            } else {
                assert(strs(out@) =~= before);
            }
        }
    }
    assert(strs(items@).take(n as int) =~= strs(items@));
    out
}

/// The lowercase forms of the items, position by position.
pub fn lowercase_each(items: &Vec<String>) -> (r: Vec<String>)
    ensures
        r@.len() == items@.len(),
        strs(r@) == lowercase_all(strs(items@)),
{
    let mut out: Vec<String> = Vec::new();
    for i in 0..items.len()
        invariant
            out@.len() == i,
            forall|j: int| 0 <= j < i ==> out@[j]@ == lowercase(items@[j]@),
    {
        out.push(to_lowercase(items[i].as_str()));
    }
    assert(strs(out@) =~= lowercase_all(strs(items@)));
    out
}

/// The items that match `query` (see [`search_spec`]); all of them, in
/// order, for the empty query.
pub fn search(items: &Vec<String>, query: &str) -> (r: Vec<String>)
    ensures
        strs(r@) == search_spec(strs(items@), query@),
        query@.len() == 0 ==> strs(r@) == strs(items@),
{
    let query_lower = to_lowercase(query);
    if query_lower.as_str().is_empty() {
        copy_strings(items)
    } else {
        let lowered = lowercase_each(items);
        filter_lowered(items, &lowered, query_lower.as_str())
    }
}

/// The kept items are exactly the items whose lowercase form contains the
/// query: every kept item is one of the items and matches, and every
/// matching item is kept.
pub proof fn lemma_filter_lowered_keeps_exactly_matches(
    items: Seq<Seq<char>>,
    lowered: Seq<Seq<char>>,
    query_lower: Seq<char>,
)
    requires
        lowered.len() == items.len(),
    ensures
        forall|x: Seq<char>|
            #[trigger] filter_lowered_spec(items, lowered, query_lower).contains(x) ==> exists|i: int|
                0 <= i < items.len() && items[i] == x && lowered_match(lowered[i], query_lower),
        forall|i: int|
            0 <= i < items.len() && lowered_match(lowered[i], query_lower)
                ==> filter_lowered_spec(items, lowered, query_lower).contains(#[trigger] items[i]),
    decreases items.len(), 1int,
{
    if items.len() > 0 {
        let n = items.len() - 1;
        let t = items.take(n);
        lemma_filter_lowered_prefix(items, lowered, query_lower, n as nat);
        let rest = filter_lowered_spec(t, lowered, query_lower);
        let here = filter_lowered_spec(items, lowered, query_lower);
        assert forall|x: Seq<char>| #[trigger] here.contains(x) implies exists|i: int|
            0 <= i < items.len() && items[i] == x && lowered_match(lowered[i], query_lower) by {
            if rest.contains(x) {
                let i = choose|i: int|
                    0 <= i < t.len() && t[i] == x && lowered_match(lowered[i], query_lower);
                assert(items[i] == x);
            } else {
                let k = choose|k: int| 0 <= k < here.len() && here[k] == x;
                assert(lowered_match(lowered[n], query_lower));
                assert(here == rest.push(items[n]));
                assert(k == rest.len());
            }
        }
        assert forall|i: int|
            0 <= i < items.len() && lowered_match(lowered[i], query_lower) implies here.contains(
            #[trigger] items[i],
        ) by {
            if i < n {
                assert(t[i] == items[i]);
                assert(rest.contains(t[i]));
                let k = choose|k: int| 0 <= k < rest.len() && rest[k] == t[i];
                if lowered_match(lowered[n], query_lower) {
                    assert(here == rest.push(items[n]));
                    assert(here[k] == items[i]);
                } else {
                    assert(here == rest);
                }
            } else {
                assert(here == rest.push(items[n]));
                assert(here[rest.len() as int] == items[i]);
            }
        }
    }
}

/// The induction step: the filter of a prefix, described by the same
/// lowercase forms.
proof fn lemma_filter_lowered_prefix(
    items: Seq<Seq<char>>,
    lowered: Seq<Seq<char>>,
    query_lower: Seq<char>,
    n: nat,
)
    requires
        lowered.len() == items.len(),
        n < items.len(),
    ensures
        forall|x: Seq<char>|
            #[trigger] filter_lowered_spec(items.take(n as int), lowered, query_lower).contains(x)
                ==> exists|i: int|
                0 <= i < n && items.take(n as int)[i] == x && lowered_match(lowered[i], query_lower),
        forall|i: int|
            0 <= i < n && lowered_match(lowered[i], query_lower) ==> filter_lowered_spec(
                items.take(n as int),
                lowered,
                query_lower,
            ).contains(#[trigger] items.take(n as int)[i]),
    decreases n + 1, 0int,
{
    let t = items.take(n as int);
    let l = lowered.take(n as int);
    lemma_filter_lowered_reindex(t, lowered, l, query_lower);
    lemma_filter_lowered_keeps_exactly_matches(t, l, query_lower);
    assert forall|i: int| 0 <= i < n implies l[i] == lowered[i] by {}
}

/// Only the first `items.len()` lowercase forms matter.
proof fn lemma_filter_lowered_reindex(
    items: Seq<Seq<char>>,
    a: Seq<Seq<char>>,
    b: Seq<Seq<char>>,
    query_lower: Seq<char>,
)
    requires
        a.len() >= items.len(),
        b.len() >= items.len(),
        forall|i: int| 0 <= i < items.len() ==> a[i] == b[i],
    ensures
        filter_lowered_spec(items, a, query_lower) == filter_lowered_spec(items, b, query_lower),
    decreases items.len(),
{
    if items.len() > 0 {
        let n = items.len() - 1;
        lemma_filter_lowered_reindex(items.take(n), a, b, query_lower);
    }
}

/// A search shows every item for a query whose lowercase form is empty;
/// otherwise it shows exactly the items whose lowercase form contains the
/// lowercased query.
pub proof fn lemma_search_matches_ignoring_case(items: Seq<Seq<char>>, query: Seq<char>)
    ensures
        lowercase(query).len() == 0 ==> search_spec(items, query) == items,
        lowercase(query).len() != 0 ==> {
            &&& forall|x: Seq<char>|
                #[trigger] search_spec(items, query).contains(x) ==> exists|i: int|
                    0 <= i < items.len() && items[i] == x && has_substring(
                        lowercase(items[i]),
                        lowercase(query),
                    )
            &&& forall|i: int|
                0 <= i < items.len() && has_substring(lowercase(items[i]), lowercase(query))
                    ==> search_spec(items, query).contains(#[trigger] items[i])
        },
{
    lemma_filter_lowered_keeps_exactly_matches(items, lowercase_all(items), lowercase(query));
}

} // verus!
