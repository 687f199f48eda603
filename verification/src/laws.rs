//! The guarantees of the service, stated and proved once and for all: what a
//! rejected credential yields, what an accepted one yields, that a repeated
//! read of the same store matches the same records, and the two boundary
//! queries (an empty query, a query nothing matches).

use vstd::prelude::*;
use crate::auth::bearer_token_of;
use crate::json::json_tasks;
use crate::matching::{contains_ci, lower, matches_at};
use crate::pipeline::{ResponseView, run_model};
use crate::task::{TaskView, matching_views, task_matches};

verus! {

/// The empty string is contained in every string, whatever the case folding.
pub proof fn lemma_contains_ci_empty(hay: Seq<char>, q: Seq<char>)
    requires
        q.len() == 0,
    ensures
        contains_ci(hay, q),
{
    assert(lower(q).len() == 0);
    assert(matches_at(lower(hay), lower(q), 0)) by {
        assert(lower(hay).subrange(0, 0) =~= lower(q));
    }
}

/// The matched records are exactly the stored records whose title or
/// description contains the query, case-insensitively: nothing is invented
/// and nothing that matches is dropped.
pub proof fn lemma_matching_membership(ts: Seq<TaskView>, q: Seq<char>, t: TaskView)
    ensures
        matching_views(ts, q).contains(t) <==> ts.contains(t) && task_matches(t, q),
    decreases ts.len(),
{
    reveal(Seq::filter);
    if ts.len() == 0 {
    } else {
        let prior = ts.drop_last();
        let last = ts.last();
        lemma_matching_membership(prior, q, t);
        let rest = matching_views(prior, q);
        let all = matching_views(ts, q);
        if task_matches(last, q) {
            assert(all == rest.push(last));
            if all.contains(t) {
                let i = choose|i: int| 0 <= i < all.len() && all[i] == t;
                if i < rest.len() {
                    assert(rest[i] == t);
                    assert(prior.contains(t));
                    let j = choose|j: int| 0 <= j < prior.len() && prior[j] == t;
                    assert(ts[j] == t);
                } else {
                    assert(t == last);
                    assert(ts[ts.len() - 1] == t);
                }
            }
            if ts.contains(t) && task_matches(t, q) {
                let i = choose|i: int| 0 <= i < ts.len() && ts[i] == t;
                if i < ts.len() - 1 {
                    assert(prior[i] == t);
                    let j = choose|j: int| 0 <= j < rest.len() && rest[j] == t;
                    assert(all[j] == t);
                } else {
                    assert(all[rest.len() as int] == t);
                }
            }
        } else {
            assert(all == rest);
            if all.contains(t) {
                let j = choose|j: int| 0 <= j < prior.len() && prior[j] == t;
                assert(ts[j] == t);
            }
            if ts.contains(t) && task_matches(t, q) {
                let i = choose|i: int| 0 <= i < ts.len() && ts[i] == t;
                assert(i < ts.len() - 1);
                assert(prior[i] == t);
            }
        }
    }
}

/// What the matched records amount to as a multiset: the store's multiset,
/// filtered by the match predicate.
proof fn lemma_matching_multiset(ts: Seq<TaskView>, q: Seq<char>)
    ensures
        matching_views(ts, q).to_multiset() == ts.to_multiset().filter(
            |t: TaskView| task_matches(t, q),
        ),
    decreases ts.len(),
{
    broadcast use vstd::seq_lib::group_to_multiset_ensures;
    broadcast use vstd::multiset::group_multiset_axioms;

    reveal(Seq::filter);
    let pred = |t: TaskView| task_matches(t, q);
    if ts.len() == 0 {
        assert(matching_views(ts, q).to_multiset() =~= ts.to_multiset().filter(pred));
    } else {
        let prior = ts.drop_last();
        let last = ts.last();
        lemma_matching_multiset(prior, q);
        assert(ts =~= prior.push(last));
        assert(ts.to_multiset() == prior.to_multiset().insert(last));
        if task_matches(last, q) {
            assert(matching_views(ts, q) == matching_views(prior, q).push(last));
            assert(matching_views(ts, q).to_multiset() =~= ts.to_multiset().filter(pred));
        } else {
            assert(matching_views(ts, q) == matching_views(prior, q));
            assert(matching_views(ts, q).to_multiset() =~= ts.to_multiset().filter(pred));
        }
    }
}

/// Repeating a search with no intervening writes matches the same records:
/// the store may hand its records back in another order, but the matched
/// records, as a multiset, are the same.
pub proof fn lemma_same_store_same_result(ts1: Seq<TaskView>, ts2: Seq<TaskView>, q: Seq<char>)
    requires
        ts1.to_multiset() == ts2.to_multiset(),
    ensures
        matching_views(ts1, q).to_multiset() == matching_views(ts2, q).to_multiset(),
{
    lemma_matching_multiset(ts1, q);
    lemma_matching_multiset(ts2, q);
}

/// An empty query matches every stored record.
pub proof fn lemma_empty_query_matches_all(ts: Seq<TaskView>, q: Seq<char>)
    requires
        q.len() == 0,
    ensures
        matching_views(ts, q) == ts,
    decreases ts.len(),
{
    reveal(Seq::filter);
    if ts.len() == 0 {
        assert(matching_views(ts, q) =~= ts);
    } else {
        let prior = ts.drop_last();
        let last = ts.last();
        lemma_empty_query_matches_all(prior, q);
        lemma_contains_ci_empty(last.title, q);
        assert(matching_views(ts, q) == prior.push(last));
        assert(prior.push(last) =~= ts);
    }
}

/// A query that matches no stored record matches nothing at all.
pub proof fn lemma_no_match_empty_result(ts: Seq<TaskView>, q: Seq<char>)
    requires
        forall|i: int| 0 <= i < ts.len() ==> !task_matches(#[trigger] ts[i], q),
    ensures
        matching_views(ts, q) == Seq::<TaskView>::empty(),
    decreases ts.len(),
{
    reveal(Seq::filter);
    if ts.len() == 0 {
        assert(matching_views(ts, q) =~= Seq::<TaskView>::empty());
    } else {
        let prior = ts.drop_last();
        assert(forall|i: int| 0 <= i < prior.len() ==> prior[i] == ts[i]);
        lemma_no_match_empty_result(prior, q);
        assert(!task_matches(ts[ts.len() - 1], q));
        assert(matching_views(ts, q) == matching_views(prior, q));
    }
}

/// An empty record list is rendered as the empty JSON array.
pub proof fn lemma_empty_array_body()
    ensures
        json_tasks(Seq::<TaskView>::empty()) == "[]"@,
{
    reveal_strlit("[]");
    assert(json_tasks(Seq::<TaskView>::empty()) =~= "[]"@);
}

/// A request whose token the verifier rejects — and likewise one that brings
/// no bearer token at all — is answered 401 with an empty body, whatever the
/// query says and whatever the store holds.
pub proof fn lemma_rejected_request_answered_401(
    header: Option<Seq<char>>,
    q: Option<Seq<char>>,
    fetched: Option<Seq<TaskView>>,
)
    ensures
        run_model(header, false, q, fetched) == (ResponseView {
            status: 401,
            body: Seq::<char>::empty(),
        }),
        bearer_token_of(header) is None ==> run_model(header, true, q, fetched)
            == (ResponseView { status: 401, body: Seq::<char>::empty() }),
{
}

/// A request with an accepted bearer token and a present query succeeds
/// exactly when the storage read does; success carries status 200 and lists
/// exactly the fetched records that match, and a failed read is answered 500
/// with an empty body.
pub proof fn lemma_accepted_request_outcome(
    header: Option<Seq<char>>,
    q: Seq<char>,
    fetched: Option<Seq<TaskView>>,
)
    requires
        bearer_token_of(header) is Some,
    ensures
        run_model(header, true, Some(q), fetched).status == 200 <==> fetched is Some,
        fetched is None ==> run_model(header, true, Some(q), fetched) == (ResponseView {
            status: 500,
            body: Seq::<char>::empty(),
        }),
        fetched matches Some(ts) ==> run_model(header, true, Some(q), fetched)
            == (ResponseView { status: 200, body: json_tasks(matching_views(ts, q)) }),
{
}

/// An empty query returns every stored record.
pub proof fn lemma_empty_query_returns_all(header: Option<Seq<char>>, ts: Seq<TaskView>)
    requires
        bearer_token_of(header) is Some,
    ensures
        run_model(header, true, Some(Seq::empty()), Some(ts)) == (ResponseView {
            status: 200,
            body: json_tasks(ts),
        }),
{
    lemma_empty_query_matches_all(ts, Seq::empty());
}

/// A query that matches nothing is still a success: status 200 with the
/// empty JSON array as body, not an error.
pub proof fn lemma_no_match_still_success(
    header: Option<Seq<char>>,
    q: Seq<char>,
    ts: Seq<TaskView>,
)
    requires
        bearer_token_of(header) is Some,
        forall|i: int| 0 <= i < ts.len() ==> !task_matches(#[trigger] ts[i], q),
    ensures
        run_model(header, true, Some(q), Some(ts)) == (ResponseView {
            status: 200,
            body: "[]"@,
        }),
{
    lemma_no_match_empty_result(ts, q);
    lemma_empty_array_body();
}

} // verus!
