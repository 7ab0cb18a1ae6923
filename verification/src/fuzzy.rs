//! Fuzzy filtering of lists: items whose text matches a query, best matches
//! first.

use vstd::prelude::*;

verus! {

/// An item that passed a filter, with its position in the unfiltered list and
/// its match score.
#[derive(Debug)]
pub struct FilteredItem<T> {
    pub item: T,
    pub original_index: usize,
    pub score: u32,
}

impl<T: Clone> Clone for FilteredItem<T> {
    fn clone(&self) -> (r: Self)
        ensures
            r.original_index == self.original_index,
            r.score == self.score,
            cloned::<T>(self.item, r.item),
    {
        FilteredItem {
            item: self.item.clone(),
            original_index: self.original_index,
            score: self.score,
        }
    }
}

/// The score that `nucleo_matcher` gives `text` for the query `query`, or
/// `None` when it does not match.
pub uninterp spec fn fuzzy_score(query: Seq<char>, text: Seq<char>) -> Option<u32>;

/// Matches `text` against `query` with `nucleo_matcher`: the query is parsed by
/// `Pattern::parse` ignoring case with smart normalization, and scored by
/// `Pattern::score` with a matcher of the default configuration. The scoring
/// algorithm is not restated; its result is named `fuzzy_score`.
#[verifier::external_body]
fn match_score(query: &str, text: &str) -> (r: Option<u32>)
    ensures
        r == fuzzy_score(query@, text@),
{
    let mut matcher = nucleo_matcher::Matcher::new(nucleo_matcher::Config::DEFAULT);
    let pattern = nucleo_matcher::pattern::Pattern::parse(
        query,
        nucleo_matcher::pattern::CaseMatching::Ignore,
        nucleo_matcher::pattern::Normalization::Smart,
    );
    let mut buf = Vec::new();
    pattern.score(nucleo_matcher::Utf32Str::new(text, &mut buf), &mut matcher)
}

/// `e` = (index, score) inserted after every entry whose score is at least
/// as high.
pub open spec fn insert_ranked(s: Seq<(usize, u32)>, e: (usize, u32)) -> Seq<(usize, u32)>
    decreases s.len(),
{
    if s.len() == 0 {
        seq![e]
    } else if s.last().1 >= e.1 {
        s.push(e)
    } else {
        insert_ranked(s.drop_last(), e).push(s.last())
    }
}

/// The (index, score) pairs of the items that match, best score first; items
/// with equal scores keep their order.
pub open spec fn ranked(scores: Seq<Option<u32>>) -> Seq<(usize, u32)>
    decreases scores.len(),
{
    if scores.len() == 0 {
        Seq::empty()
    } else {
        let prev = ranked(scores.drop_last());
        match scores.last() {
            Some(s) => insert_ranked(prev, ((scores.len() - 1) as usize, s)),
            None => prev,
        }
    }
}

/// The (index, score) pairs of a filter's result.
pub open spec fn pairs<T>(r: Seq<FilteredItem<T>>) -> Seq<(usize, u32)> {
    r.map_values(|f: FilteredItem<T>| (f.original_index, f.score))
}

/// The (index, score) pairs a filter yields for items with the given texts:
/// every item with score 0 in order for an empty query, else the matching
/// items ranked by score.
pub open spec fn filtered_pairs(texts: Seq<Seq<char>>, query: Seq<char>) -> Seq<(usize, u32)> {
    if query.len() == 0 {
        Seq::new(texts.len(), |i: int| (i as usize, 0u32))
    } else {
        ranked(Seq::new(texts.len(), |i: int| fuzzy_score(query, texts[i])))
    }
}

proof fn lemma_insert_ranked_shape(s: Seq<(usize, u32)>, e: (usize, u32), p: int)
    requires
        0 <= p <= s.len(),
        p > 0 ==> s[p - 1].1 >= e.1,
        forall|j: int| p <= j < s.len() ==> s[j].1 < e.1,
    ensures
        insert_ranked(s, e) == s.take(p).push(e) + s.skip(p),
    decreases s.len(),
{
    if s.len() == 0 {
        assert(s.take(p).push(e) + s.skip(p) =~= seq![e]);
    } else if p == s.len() {
        assert(s.take(p).push(e) + s.skip(p) =~= s.push(e));
    } else {
        let t = s.drop_last();
        assert forall|j: int| p <= j < t.len() implies t[j].1 < e.1 by {
            assert(t[j] == s[j]);
        }
        lemma_insert_ranked_shape(t, e, p);
        assert(t.take(p).push(e) + t.skip(p) + seq![s.last()] =~= s.take(p).push(e) + s.skip(p));
    }
}

fn insert_item<T>(v: &mut Vec<FilteredItem<T>>, f: FilteredItem<T>)
    ensures
        pairs(final(v)@) == insert_ranked(pairs(old(v)@), (f.original_index, f.score)),
        forall|k: int|
            0 <= k < final(v)@.len() ==> (#[trigger] final(v)@[k] == f || old(v)@.contains(
                final(v)@[k],
            )),
{
    let ghost s = pairs(v@);
    let ghost e = (f.original_index, f.score);
    let ghost old_v = v@;
    let mut p = v.len();
    while p > 0 && v[p - 1].score < f.score
        invariant
            p <= v.len(),
            s == pairs(v@),
            e == (f.original_index, f.score),
            forall|j: int| p <= j < s.len() ==> s[j].1 < e.1,
        decreases p,
    {
        assert(s[p - 1].1 == v@[p - 1].score);
        assert(v@[p - 1].score < e.1);
        p = p - 1;
        assert(s[p as int].1 < e.1);
    }
    proof {
        if p > 0 {
            assert(s[p - 1].1 == v@[p - 1].score);
        }
        lemma_insert_ranked_shape(s, e, p as int);
    }
    v.insert(p, f);
    assert(pairs(v@) =~= s.take(p as int).push(e) + s.skip(p as int));
    assert forall|k: int| 0 <= k < v@.len() implies (#[trigger] v@[k] == f || old_v.contains(
        v@[k],
    )) by {
        if k < p {
            assert(v@[k] == old_v[k]);
        } else if k > p {
            assert(v@[k] == old_v[k - 1]);
        }
    }
}

/// Whether `r` holds copies of the items at the positions its entries name.
pub open spec fn items_cloned<T: Clone>(items: Seq<T>, r: Seq<FilteredItem<T>>) -> bool {
    forall|k: int|
        0 <= k < r.len() ==> #[trigger] r[k].original_index < items.len() && cloned::<T>(
            items[r[k].original_index as int],
            r[k].item,
        )
}

/// Filters `items` by `query`, matching the text `get_text` gives each item.
/// An empty query keeps every item, in order, with score 0. Otherwise the
/// items whose text matches are kept, highest score first; items with equal
/// scores keep their order.
pub fn filter_items<T: Clone, F: Fn(&T) -> String>(items: &[T], query: &str, get_text: F) -> (r:
    Vec<FilteredItem<T>>)
    requires
        forall|i: int| 0 <= i < items@.len() ==> call_requires(get_text, (&items@[i],)),
    ensures
        items_cloned(items@, r@),
        query@.len() == 0 ==> pairs(r@) == Seq::new(
            items@.len(),
            |i: int| (i as usize, 0u32),
        ),
        query@.len() > 0 ==> exists|texts: Seq<String>|
            #![trigger texts.len()]
            texts.len() == items@.len() && (forall|i: int|
                0 <= i < items@.len() ==> call_ensures(get_text, (&items@[i],), #[trigger] texts[i]))
                && pairs(r@) == ranked(
                Seq::new(items@.len(), |i: int| fuzzy_score(query@, texts[i]@)),
            ),
{
    let n = items.len();
    let mut out: Vec<FilteredItem<T>> = Vec::new();
    if query.is_empty() {
        for i in 0..n
            invariant
                n == items@.len(),
                pairs(out@) == Seq::new(i as nat, |j: int| (j as usize, 0u32)),
                items_cloned(items@, out@),
        {
            let ghost before = out@;
            out.push(FilteredItem { item: items[i].clone(), original_index: i, score: 0 });
            assert(pairs(out@) =~= pairs(before).push((i, 0u32)));
            assert(pairs(out@) =~= Seq::new((i + 1) as nat, |j: int| (j as usize, 0u32)));
        }
        return out;
    }
    let ghost mut texts: Seq<String> = Seq::empty();
    for i in 0..n
        invariant
            n == items@.len(),
            forall|j: int| 0 <= j < items@.len() ==> call_requires(get_text, (&items@[j],)),
            texts.len() == i,
            forall|j: int| 0 <= j < i ==> call_ensures(get_text, (&items@[j],), #[trigger] texts[j]),
            pairs(out@) == ranked(Seq::new(i as nat, |j: int| fuzzy_score(query@, texts[j]@))),
            items_cloned(items@, out@),
            forall|k: int| 0 <= k < out@.len() ==> (#[trigger] out@[k]).original_index < i,
    {
        let text = get_text(&items[i]);
        let ghost scores = Seq::new((i + 1) as nat, |j: int| fuzzy_score(query@, texts.push(text)[j]@));
        let ghost prev_scores = Seq::new(i as nat, |j: int| fuzzy_score(query@, texts[j]@));
        assert(scores.drop_last() =~= prev_scores);
        let sc = match_score(query, text.as_str());
        let ghost old_out = out@;
        match sc {
            Some(s) => {
                let f = FilteredItem { item: items[i].clone(), original_index: i, score: s };
                insert_item(&mut out, f);
                assert forall|k: int| 0 <= k < out@.len() implies #[trigger] out@[k].original_index
                    < items@.len() && cloned::<T>(
                    items@[out@[k].original_index as int],
                    out@[k].item,
                ) by {
                    if out@[k] != f {
                        let m = choose|m: int| 0 <= m < old_out.len() && old_out[m] == out@[k];
                    }
                }
                assert forall|k: int| 0 <= k < out@.len() implies (#[trigger] out@[k]).original_index
                    < i + 1 by {
                    if out@[k] != f {
                        let m = choose|m: int| 0 <= m < old_out.len() && old_out[m] == out@[k];
                    }
                }
            },
            None => {},
        }
        proof {
            texts = texts.push(text);
        }
        assert(scores =~= Seq::new((i + 1) as nat, |j: int| fuzzy_score(query@, texts[j]@)));
    }
    assert(Seq::new(n as nat, |j: int| fuzzy_score(query@, texts[j]@)) =~= Seq::new(
        items@.len(),
        |j: int| fuzzy_score(query@, texts[j]@),
    ));
    out
}

} // verus!

verus! {

/// Whether ranked pairs are in order: higher scores first, equal scores by
/// position.
pub open spec fn rank_ordered(s: Seq<(usize, u32)>) -> bool {
    forall|j: int, k: int|
        0 <= j < k < s.len() ==> #[trigger] s[j].1 > #[trigger] s[k].1 || (s[j].1 == s[k].1 && s[j].0
            < s[k].0)
}

proof fn lemma_insert_ranked(s: Seq<(usize, u32)>, e: (usize, u32))
    requires
        rank_ordered(s),
        forall|k: int| 0 <= k < s.len() ==> #[trigger] s[k].0 < e.0,
    ensures
        rank_ordered(insert_ranked(s, e)),
        insert_ranked(s, e).len() == s.len() + 1,
        forall|x: (usize, u32)| #[trigger] insert_ranked(s, e).contains(x) <==> (s.contains(x) || x == e),
    decreases s.len(),
{
    let t = insert_ranked(s, e);
    if s.len() == 0 {
        assert(t =~= seq![e]);
        assert forall|x: (usize, u32)| #[trigger] t.contains(x) <==> (s.contains(x) || x == e) by {
            if x == e {
                assert(t[0] == x);
            }
        }
    } else if s.last().1 >= e.1 {
        assert(t =~= s.push(e));
        assert forall|j: int, k: int| 0 <= j < k < t.len() implies #[trigger] t[j].1 > #[trigger] t[k].1
            || (t[j].1 == t[k].1 && t[j].0 < t[k].0) by {
            if k == s.len() {
                if j < s.len() - 1 {
                    assert(s[j].1 > s[s.len() - 1].1 || (s[j].1 == s[s.len() - 1].1));
                }
                assert(s[j].0 < e.0);
            }
        }
        assert forall|x: (usize, u32)| #[trigger] t.contains(x) <==> (s.contains(x) || x == e) by {
            if t.contains(x) {
                let i = choose|i: int| 0 <= i < t.len() && t[i] == x;
                if i < s.len() {
                    assert(s[i] == x);
                }
            }
            if s.contains(x) {
                let i = choose|i: int| 0 <= i < s.len() && s[i] == x;
                assert(t[i] == x);
            }
            if x == e {
                assert(t[s.len() as int] == x);
            }
        }
    } else {
        let d = s.drop_last();
        let last = s.last();
        assert forall|j: int, k: int| 0 <= j < k < d.len() implies #[trigger] d[j].1 > #[trigger] d[k].1
            || (d[j].1 == d[k].1 && d[j].0 < d[k].0) by {
            assert(d[j] == s[j] && d[k] == s[k]);
        }
        assert forall|k: int| 0 <= k < d.len() implies #[trigger] d[k].0 < e.0 by {
            assert(d[k] == s[k]);
        }
        lemma_insert_ranked(d, e);
        let u = insert_ranked(d, e);
        assert(t == u.push(last));
        assert forall|j: int, k: int| 0 <= j < k < t.len() implies #[trigger] t[j].1 > #[trigger] t[k].1
            || (t[j].1 == t[k].1 && t[j].0 < t[k].0) by {
            if k == u.len() {
                assert(t[k] == last);
                assert(u.contains(u[j]));
                if u[j] == e {
                } else {
                    let i = choose|i: int| 0 <= i < d.len() && d[i] == u[j];
                    assert(s[i] == d[i]);
                    assert(s[i].1 > s[s.len() - 1].1 || (s[i].1 == s[s.len() - 1].1 && s[i].0
                        < s[s.len() - 1].0));
                }
            } else {
                assert(t[j] == u[j] && t[k] == u[k]);
            }
        }
        assert forall|x: (usize, u32)| #[trigger] t.contains(x) <==> (s.contains(x) || x == e) by {
            if t.contains(x) {
                let i = choose|i: int| 0 <= i < t.len() && t[i] == x;
                if i < u.len() {
                    assert(u[i] == x);
                    assert(u.contains(x));
                    if d.contains(x) {
                        let m = choose|m: int| 0 <= m < d.len() && d[m] == x;
                        assert(s[m] == x);
                    }
                } else {
                    assert(s[s.len() - 1] == x);
                }
            }
            if s.contains(x) {
                let i = choose|i: int| 0 <= i < s.len() && s[i] == x;
                if i < d.len() {
                    assert(d[i] == x);
                    assert(d.contains(x));
                    assert(u.contains(x));
                    let m = choose|m: int| 0 <= m < u.len() && u[m] == x;
                    assert(t[m] == x);
                } else {
                    assert(t[u.len() as int] == x);
                }
            }
            if x == e {
                assert(u.contains(x));
                let m = choose|m: int| 0 <= m < u.len() && u[m] == x;
                assert(t[m] == x);
            }
        }
    }
}

/// Ranking puts higher scores first and equal scores in their list
/// order, and it holds exactly the positions that have a score, each with
/// its score.
pub proof fn ranked_is_ordered_and_exact(scores: Seq<Option<u32>>)
    requires
        scores.len() <= usize::MAX,
    ensures
        rank_ordered(ranked(scores)),
        forall|x: (usize, u32)|
            #[trigger] ranked(scores).contains(x) <==> (x.0 < scores.len() && scores[x.0 as int]
                == Some(x.1)),
    decreases scores.len(),
{
    if scores.len() == 0 {
        assert forall|x: (usize, u32)| #[trigger] ranked(scores).contains(x) <==> (x.0 < scores.len()
            && scores[x.0 as int] == Some(x.1)) by {}
    } else {
        let prev_scores = scores.drop_last();
        ranked_is_ordered_and_exact(prev_scores);
        let prev = ranked(prev_scores);
        let n = (scores.len() - 1) as usize;
        match scores.last() {
            Some(s) => {
                assert forall|k: int| 0 <= k < prev.len() implies #[trigger] prev[k].0 < n by {
                    assert(prev.contains(prev[k]));
                }
                lemma_insert_ranked(prev, (n, s));
            },
            None => {},
        }
        assert forall|x: (usize, u32)| #[trigger] ranked(scores).contains(x) <==> (x.0 < scores.len()
            && scores[x.0 as int] == Some(x.1)) by {
            assert(prev.contains(x) <==> (x.0 < prev_scores.len() && prev_scores[x.0 as int] == Some(
                x.1,
            )));
            if x.0 < prev_scores.len() {
                assert(prev_scores[x.0 as int] == scores[x.0 as int]);
            }
        }
    }
}

/// A non-empty query keeps exactly the items whose text matches it, each
/// with its match score, highest score first and equal scores in list order.
pub proof fn filter_keeps_matches_best_first(texts: Seq<Seq<char>>, query: Seq<char>)
    requires
        texts.len() <= usize::MAX,
        query.len() > 0,
    ensures
        rank_ordered(filtered_pairs(texts, query)),
        forall|x: (usize, u32)|
            #[trigger] filtered_pairs(texts, query).contains(x) <==> (x.0 < texts.len()
                && fuzzy_score(query, texts[x.0 as int]) == Some(x.1)),
{
    let scores = Seq::new(texts.len(), |i: int| fuzzy_score(query, texts[i]));
    ranked_is_ordered_and_exact(scores);
}

/// An empty query keeps every item, in order, with score 0.
pub proof fn empty_query_keeps_everything(texts: Seq<Seq<char>>)
    ensures
        filtered_pairs(texts, Seq::empty()) == Seq::new(texts.len(), |i: int| (i as usize, 0u32)),
{
}

} // verus!
