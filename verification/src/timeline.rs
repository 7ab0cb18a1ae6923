//! An issue's activity timeline: comments and the status and assignee
//! changes of its history, merged and ordered by time.

use crate::text::{chars_of, owned};
use crate::types::{
    event_time, opt_view, time_of, Comment, EventView, IssueHistory, TimelineEvent, User,
};
use vstd::prelude::*;

verus! {

// ---------------------------------------------------------------------------
// Ordering of timestamps
// ---------------------------------------------------------------------------

/// Lexicographic order of texts by character code, the order of `str`'s `Ord`.
pub open spec fn lex_le(a: Seq<char>, b: Seq<char>) -> bool
    decreases a.len(),
{
    if a.len() == 0 {
        true
    } else if b.len() == 0 {
        false
    } else if a[0] != b[0] {
        a[0] < b[0]
    } else {
        lex_le(a.drop_first(), b.drop_first())
    }
}

pub proof fn lemma_lex_total(a: Seq<char>, b: Seq<char>)
    ensures
        lex_le(a, b) || lex_le(b, a),
    decreases a.len(),
{
    if a.len() > 0 && b.len() > 0 && a[0] == b[0] {
        lemma_lex_total(a.drop_first(), b.drop_first());
    }
}

pub proof fn lemma_lex_trans(a: Seq<char>, b: Seq<char>, c: Seq<char>)
    requires
        lex_le(a, b),
        lex_le(b, c),
    ensures
        lex_le(a, c),
    decreases a.len(),
{
    if a.len() > 0 && b.len() > 0 && c.len() > 0 && a[0] == b[0] && b[0] == c[0] {
        lemma_lex_trans(a.drop_first(), b.drop_first(), c.drop_first());
    }
}

/// Whether `a` sorts no later than `b`.
pub fn str_le(a: &str, b: &str) -> (r: bool)
    ensures
        r == lex_le(a@, b@),
{
    let ac = chars_of(a);
    let bc = chars_of(b);
    let mut i: usize = 0;
    assert(a@.skip(0) == a@ && b@.skip(0) == b@);
    while i < ac.len() && i < bc.len() && ac[i] == bc[i]
        invariant
            ac@ == a@,
            bc@ == b@,
            i <= ac.len(),
            i <= bc.len(),
            lex_le(a@, b@) == lex_le(a@.skip(i as int), b@.skip(i as int)),
        decreases ac.len() - i,
    {
        proof {
            let sa = a@.skip(i as int);
            let sb = b@.skip(i as int);
            assert(sa.drop_first() == a@.skip(i + 1));
            assert(sb.drop_first() == b@.skip(i + 1));
        }
        i = i + 1;
    }
    if i == ac.len() {
        assert(a@.skip(i as int).len() == 0);
        true
    } else if i == bc.len() {
        assert(b@.skip(i as int).len() == 0);
        false
    } else {
        assert(a@.skip(i as int)[0] == a@[i as int]);
        assert(b@.skip(i as int)[0] == b@[i as int]);
        ac[i] < bc[i]
    }
}

// ---------------------------------------------------------------------------
// Stable ordering by time
// ---------------------------------------------------------------------------

/// `e` inserted into `s` after every entry that is no later than it.
pub open spec fn insert_by_time(s: Seq<EventView>, e: EventView) -> Seq<EventView>
    decreases s.len(),
{
    if s.len() == 0 {
        seq![e]
    } else if lex_le(time_of(s.last()), time_of(e)) {
        s.push(e)
    } else {
        insert_by_time(s.drop_last(), e).push(s.last())
    }
}

/// The entries ordered by time; entries with the same time keep their order.
pub open spec fn sort_by_time(s: Seq<EventView>) -> Seq<EventView>
    decreases s.len(),
{
    if s.len() == 0 {
        Seq::empty()
    } else {
        insert_by_time(sort_by_time(s.drop_last()), s.last())
    }
}

/// Whether the entries are in time order.
pub open spec fn time_sorted(s: Seq<EventView>) -> bool {
    forall|i: int, j: int| 0 <= i < j < s.len() ==> lex_le(time_of(s[i]), time_of(s[j]))
}

proof fn lemma_insert_shape(s: Seq<EventView>, e: EventView, p: int)
    requires
        0 <= p <= s.len(),
        p > 0 ==> lex_le(time_of(s[p - 1]), time_of(e)),
        forall|j: int| p <= j < s.len() ==> !lex_le(time_of(s[j]), time_of(e)),
    ensures
        insert_by_time(s, e) == s.take(p).push(e) + s.skip(p),
    decreases s.len(),
{
    if s.len() == 0 {
        assert(s.take(p).push(e) + s.skip(p) =~= seq![e]);
    } else if p == s.len() {
        assert(s.take(p).push(e) + s.skip(p) =~= s.push(e));
    } else {
        let t = s.drop_last();
        assert forall|j: int| p <= j < t.len() implies !lex_le(time_of(t[j]), time_of(e)) by {
            assert(t[j] == s[j]);
        }
        lemma_insert_shape(t, e, p);
        assert(t.take(p).push(e) + t.skip(p) + seq![s.last()] =~= s.take(p).push(e) + s.skip(p));
    }
}

/// Inserting into a time-ordered sequence keeps it ordered and adds exactly
/// the new entry.
pub proof fn lemma_insert_sorted(s: Seq<EventView>, e: EventView)
    requires
        time_sorted(s),
    ensures
        time_sorted(insert_by_time(s, e)),
        insert_by_time(s, e).to_multiset() == s.to_multiset().insert(e),
        insert_by_time(s, e).len() == s.len() + 1,
    decreases s.len(),
{
    broadcast use vstd::seq_lib::group_to_multiset_ensures;

    if s.len() == 0 {
        assert(seq![e] =~= s.push(e));
    } else if lex_le(time_of(s.last()), time_of(e)) {
        let r = s.push(e);
        assert forall|i: int, j: int| 0 <= i < j < r.len() implies lex_le(
            time_of(r[i]),
            time_of(r[j]),
        ) by {
            if j == s.len() && i < s.len() - 1 {
                lemma_lex_trans(time_of(s[i]), time_of(s.last()), time_of(e));
            }
        }
    } else {
        let t = s.drop_last();
        let l = s.last();
        lemma_insert_sorted(t, e);
        let u = insert_by_time(t, e);
        let r = u.push(l);
        lemma_lex_total(time_of(l), time_of(e));
        assert forall|k: int| 0 <= k < u.len() implies lex_le(time_of(u[k]), time_of(l)) by {
            assert(u.to_multiset().count(u[k]) > 0);
            assert(u.contains(u[k]));
            if u[k] != e {
                assert(t.to_multiset().count(u[k]) > 0);
                assert(t.contains(u[k]));
                let m = choose|m: int| 0 <= m < t.len() && t[m] == u[k];
                assert(s[m] == t[m]);
            }
        }
        assert forall|i: int, j: int| 0 <= i < j < r.len() implies lex_le(
            time_of(r[i]),
            time_of(r[j]),
        ) by {
            if j == u.len() {
                assert(r[i] == u[i]);
            } else {
                assert(r[i] == u[i] && r[j] == u[j]);
            }
        }
        assert(s =~= t.push(l));
        assert(t.push(l).to_multiset() == t.to_multiset().insert(l));
    }
}

/// Ordering by time yields an ordered sequence holding exactly the same
/// entries.
pub proof fn sort_by_time_sorted_permutation(s: Seq<EventView>)
    ensures
        time_sorted(sort_by_time(s)),
        sort_by_time(s).to_multiset() == s.to_multiset(),
        sort_by_time(s).len() == s.len(),
    decreases s.len(),
{
    broadcast use vstd::seq_lib::group_to_multiset_ensures;

    if s.len() > 0 {
        sort_by_time_sorted_permutation(s.drop_last());
        lemma_insert_sorted(sort_by_time(s.drop_last()), s.last());
        assert(s =~= s.drop_last().push(s.last()));
        assert(s.drop_last().push(s.last()).to_multiset() == s.drop_last().to_multiset().insert(
            s.last(),
        ));
    }
}

// ---------------------------------------------------------------------------
// Merging comments and history
// ---------------------------------------------------------------------------

/// A user's name, or the given fallback when there is no user.
pub open spec fn name_or(u: Option<User>, fallback: Seq<char>) -> Seq<char> {
    match u {
        Some(u) => u.name@,
        None => fallback,
    }
}

/// The timeline entry of a comment; a comment without author is by `Unknown`.
pub open spec fn comment_entry(c: Comment) -> EventView {
    EventView::Comment { user: name_or(c.user, "Unknown"@), body: c.body@, created_at: c.created_at@ }
}

/// The timeline entries of one history record: a status change when a state
/// is set, then an assignee change when an assignee is set. A record without
/// actor is by `System`; a missing state shows as `None`.
pub open spec fn history_entries(h: IssueHistory) -> Seq<EventView> {
    let actor = name_or(h.actor, "System"@);
    let status: Seq<EventView> = if h.from_state is Some || h.to_state is Some {
        seq![
            EventView::StatusChange {
                actor: actor,
                from: match h.from_state {
                    Some(s) => s.name@,
                    None => "None"@,
                },
                to: match h.to_state {
                    Some(s) => s.name@,
                    None => "None"@,
                },
                created_at: h.created_at@,
            },
        ]
    } else {
        Seq::empty()
    };
    let assignee: Seq<EventView> = if h.from_assignee is Some || h.to_assignee is Some {
        seq![
            EventView::AssigneeChange {
                actor: actor,
                from: match h.from_assignee {
                    Some(u) => Some(u.name@),
                    None => None,
                },
                to: match h.to_assignee {
                    Some(u) => Some(u.name@),
                    None => None,
                },
                created_at: h.created_at@,
            },
        ]
    } else {
        Seq::empty()
    };
    status + assignee
}

/// The entries of all comments, in order.
pub open spec fn comment_entries(cs: Seq<Comment>) -> Seq<EventView> {
    cs.map_values(|c: Comment| comment_entry(c))
}

/// The entries of all history records, in order.
pub open spec fn all_history_entries(hs: Seq<IssueHistory>) -> Seq<EventView>
    decreases hs.len(),
{
    if hs.len() == 0 {
        Seq::empty()
    } else {
        all_history_entries(hs.drop_last()) + history_entries(hs.last())
    }
}

/// The timeline of an issue: the entries of its comments, then of its
/// history, ordered by time with ties kept in that order.
pub open spec fn merged_timeline(cs: Seq<Comment>, hs: Seq<IssueHistory>) -> Seq<EventView> {
    sort_by_time(comment_entries(cs) + all_history_entries(hs))
}

/// The views of a sequence of timeline entries.
pub open spec fn event_views(s: Seq<TimelineEvent>) -> Seq<EventView> {
    s.map_values(|e: TimelineEvent| e@)
}

fn insert_event(v: &mut Vec<TimelineEvent>, e: TimelineEvent)
    ensures
        event_views(final(v)@) == insert_by_time(event_views(old(v)@), e@),
{
    let ghost s = event_views(v@);
    let mut p = v.len();
    while p > 0 && !str_le(v[p - 1].created_at(), e.created_at())
        invariant
            p <= v.len(),
            s == event_views(v@),
            forall|j: int| p <= j < s.len() ==> !lex_le(time_of(s[j]), time_of(e@)),
        decreases p,
    {
        p = p - 1;
    }
    proof {
        lemma_insert_shape(s, e@, p as int);
    }
    v.insert(p, e);
    assert(event_views(v@) =~= s.take(p as int).push(e@) + s.skip(p as int));
}

fn user_name_or(u: &Option<User>, fallback: &str) -> (r: String)
    ensures
        r@ == name_or(*u, fallback@),
{
    match u {
        Some(u) => u.name.clone(),
        None => owned(fallback),
    }
}

/// Merges the comments and the history of an issue into its timeline: each
/// comment becomes an entry, each history record gives a status change and/or
/// an assignee change (other history records are left out), and the entries
/// are ordered by time, oldest first, entries with equal times keeping their
/// order.
pub fn merge_timeline_events(comments: Vec<Comment>, history: Vec<IssueHistory>) -> (r: Vec<
    TimelineEvent,
>)
    ensures
        event_views(r@) == merged_timeline(comments@, history@),
{
    let mut events: Vec<TimelineEvent> = Vec::new();
    let ghost ce = comment_entries(comments@);
    for i in 0..comments.len()
        invariant
            ce == comment_entries(comments@),
            event_views(events@) == sort_by_time(ce.take(i as int)),
    {
        let c = &comments[i];
        let e = TimelineEvent::Comment {
            user: user_name_or(&c.user, "Unknown"),
            body: c.body.clone(),
            created_at: c.created_at.clone(),
        };
        assert(ce.take(i + 1).drop_last() == ce.take(i as int));
        insert_event(&mut events, e);
    }
    assert(ce.take(comments.len() as int) == ce);
    let ghost he = all_history_entries(history@);
    for i in 0..history.len()
        invariant
            ce == comment_entries(comments@),
            he == all_history_entries(history@),
            event_views(events@) == sort_by_time(ce + all_history_entries(history@.take(i as int))),
    {
        let h = &history[i];
        let ghost before = ce + all_history_entries(history@.take(i as int));
        assert(history@.take(i + 1).drop_last() == history@.take(i as int));
        let actor = user_name_or(&h.actor, "System");
        let ghost mid = before;
        if h.from_state.is_some() || h.to_state.is_some() {
            let from = match &h.from_state {
                Some(s) => s.name.clone(),
                None => owned("None"),
            };
            let to = match &h.to_state {
                Some(s) => s.name.clone(),
                None => owned("None"),
            };
            let e = TimelineEvent::StatusChange {
                actor: actor.clone(),
                from,
                to,
                created_at: h.created_at.clone(),
            };
            assert((before.push(e@)).drop_last() == before);
            assert(sort_by_time(before.push(e@)) == insert_by_time(sort_by_time(before), e@));
            insert_event(&mut events, e);
            proof {
                mid = before.push(e@);
            }
        }
        if h.from_assignee.is_some() || h.to_assignee.is_some() {
            let from = match &h.from_assignee {
                Some(u) => Some(u.name.clone()),
                None => None,
            };
            let to = match &h.to_assignee {
                Some(u) => Some(u.name.clone()),
                None => None,
            };
            let e = TimelineEvent::AssigneeChange {
                actor: actor,
                from,
                to,
                created_at: h.created_at.clone(),
            };
            assert((mid.push(e@)).drop_last() == mid);
            assert(sort_by_time(mid.push(e@)) == insert_by_time(sort_by_time(mid), e@));
            insert_event(&mut events, e);
            proof {
                mid = mid.push(e@);
            }
        }
        assert(history@.take(i + 1).last() == history@[i as int]);
        assert(all_history_entries(history@.take(i + 1)) == all_history_entries(
            history@.take(i as int),
        ) + history_entries(history@[i as int]));
        assert(mid =~= ce + all_history_entries(history@.take(i + 1)));
    }
    assert(history@.take(history.len() as int) == history@);
    events
}

} // verus!
