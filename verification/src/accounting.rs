use vstd::prelude::*;

use crate::assoc::{lemma_url_map_keys, unique_urls};
use crate::endpoint::EndPoint;
use crate::results::{Measurement, Results};
use crate::test::Test;
use crate::user::{upserted, User};

verus! {

/// The `k`-th counter of `r`: requests, failed requests, connection
/// errors, total response time.
pub open spec fn counter(r: Results, k: int) -> int {
    if k == 0 {
        r.total_requests as int
    } else if k == 1 {
        r.total_failed_requests as int
    } else if k == 2 {
        r.total_connection_errors as int
    } else {
        r.total_response_time as int
    }
}

/// How much the measurement `m` adds to the `k`-th counter.
pub open spec fn increment(m: Measurement, k: int) -> int {
    match m {
        Measurement::ResponseTime(t) => if k == 0 {
            1
        } else if k == 3 {
            t as int
        } else {
            0
        },
        Measurement::Failed => if k == 0 || k == 1 {
            1
        } else {
            0
        },
        Measurement::ConnectionError => if k == 2 {
            1
        } else {
            0
        },
    }
}

/// The sum of the `k`-th counters.
pub open spec fn sum_counter(s: Seq<Results>, k: int) -> int
    decreases s.len(),
{
    if s.len() == 0 {
        0
    } else {
        sum_counter(s.drop_last(), k) + counter(s.last(), k)
    }
}

pub open spec fn users_results(users: Seq<User>) -> Seq<Results> {
    users.map_values(|u: User| u.results)
}

pub open spec fn endpoints_results(endpoints: Seq<EndPoint>) -> Seq<Results> {
    endpoints.map_values(|e: EndPoint| e.results)
}

pub open spec fn entries_results(entries: Seq<(String, Results)>) -> Seq<Results> {
    entries.map_values(|e: (String, Results)| e.1)
}

/// A user's totals are the sums of its per-url results.
pub open spec fn user_balanced(u: User) -> bool {
    forall|k: int| 0 <= k < 4 ==> #[trigger] counter(u.results, k) == sum_counter(entries_results(u.endpoints@), k)
}

/// Every measurement is counted once in the aggregate, once among the
/// users and once among the endpoints: each counter of the aggregated
/// results is the sum of that counter over the users and over the
/// endpoints, and each user's counters are the sums over its urls.
pub open spec fn balanced(t: Test) -> bool {
    &&& forall|k: int|
        0 <= k < 4 ==> #[trigger] counter(t.results, k) == sum_counter(users_results(t.users@), k)
    &&& forall|k: int|
        0 <= k < 4 ==> #[trigger] counter(t.results, k) == sum_counter(endpoints_results(t.endpoints@), k)
    &&& forall|i: int| 0 <= i < t.users@.len() ==> user_balanced(#[trigger] t.users@[i])
}

pub proof fn lemma_counter_with(r: Results, m: Measurement, k: int)
    requires
        r.can_record(m),
        0 <= k < 4,
    ensures
        counter(r.with(m), k) == counter(r, k) + increment(m, k),
{
}

pub proof fn lemma_sum_update(s: Seq<Results>, i: int, r: Results, k: int)
    requires
        0 <= i < s.len(),
    ensures
        sum_counter(s.update(i, r), k) == sum_counter(s, k) - counter(s[i], k) + counter(r, k),
    decreases s.len(),
{
    let u = s.update(i, r);
    if i == s.len() - 1 {
        assert(u.drop_last() =~= s.drop_last());
    } else {
        lemma_sum_update(s.drop_last(), i, r, k);
        assert(u.drop_last() =~= s.drop_last().update(i, r));
    }
}

pub proof fn lemma_sum_push(s: Seq<Results>, r: Results, k: int)
    ensures
        sum_counter(s.push(r), k) == sum_counter(s, k) + counter(r, k),
{
    assert(s.push(r).drop_last() =~= s);
}

pub proof fn lemma_sum_empty(s: Seq<Results>, k: int)
    requires
        forall|i: int| 0 <= i < s.len() ==> s[i] == Results::empty(),
    ensures
        sum_counter(s, k) == 0,
    decreases s.len(),
{
    if s.len() > 0 {
        lemma_sum_empty(s.drop_last(), k);
    }
}

/// Recording a measurement for a url adds its increment to the sums over
/// the per-url results.
proof fn lemma_upserted_sum(entries: Seq<(String, Results)>, url: String, m: Measurement, k: int)
    requires
        0 <= k < 4,
        unique_urls(entries),
        forall|i: int| 0 <= i < entries.len() && entries[i].0@ == url@ ==> entries[i].1.can_record(m),
        Results::empty().can_record(m),
    ensures
        sum_counter(entries_results(upserted(entries, url, m)), k) == sum_counter(
            entries_results(entries),
            k,
        ) + increment(m, k),
{
    if exists|i: int| 0 <= i < entries.len() && entries[i].0@ == url@ {
        let i = choose|i: int| 0 <= i < entries.len() && entries[i].0@ == url@;
        let e = entries.update(i, (entries[i].0, entries[i].1.with(m)));
        assert(entries_results(e) =~= entries_results(entries).update(i, entries[i].1.with(m)));
        lemma_sum_update(entries_results(entries), i, entries[i].1.with(m), k);
        lemma_counter_with(entries[i].1, m, k);
    } else {
        let e = entries.push((url, Results::empty().with(m)));
        assert(entries_results(e) =~= entries_results(entries).push(Results::empty().with(m)));
        lemma_sum_push(entries_results(entries), Results::empty().with(m), k);
        lemma_counter_with(Results::empty(), m, k);
    }
}

/// Recording a measurement keeps the accounts balanced.
pub proof fn lemma_record_keeps_balance(t0: Test, t1: Test, user: int, endpoint: int, m: Measurement)
    requires
        t0.wf(),
        balanced(t0),
        t0.can_record(user, endpoint, m),
        t1.recorded_from(&t0, user, endpoint, m),
    ensures
        balanced(t1),
{
    let before = t0.users@[user];
    let after = t1.users@[user];
    let url = t0.endpoints@[endpoint].url;
    assert(before.wf());
    assert(users_results(t1.users@) =~= users_results(t0.users@).update(user, after.results));
    assert(endpoints_results(t1.endpoints@) =~= endpoints_results(t0.endpoints@).update(
        endpoint,
        t0.endpoints@[endpoint].results.with(m),
    ));
    lemma_url_map_keys(before.endpoints@, url@);
    assert forall|i: int| 0 <= i < before.endpoints@.len() && before.endpoints@[i].0@ == url@ implies before.endpoints@[i].1.can_record(m) by {
        crate::assoc::lemma_url_map_entry(before.endpoints@, i);
    }
    assert(Results::empty().can_record(m));
    assert forall|k: int| 0 <= k < 4 implies #[trigger] counter(t1.results, k) == sum_counter(users_results(t1.users@), k) by {
        lemma_sum_update(users_results(t0.users@), user, after.results, k);
        lemma_counter_with(before.results, m, k);
        lemma_counter_with(t0.results, m, k);
    }
    assert forall|k: int| 0 <= k < 4 implies #[trigger] counter(t1.results, k) == sum_counter(endpoints_results(t1.endpoints@), k) by {
        lemma_sum_update(endpoints_results(t0.endpoints@), endpoint, t0.endpoints@[endpoint].results.with(m), k);
        lemma_counter_with(t0.endpoints@[endpoint].results, m, k);
        lemma_counter_with(t0.results, m, k);
    }
    assert forall|i: int| 0 <= i < t1.users@.len() implies user_balanced(#[trigger] t1.users@[i]) by {
        if i == user {
            assert forall|k: int| 0 <= k < 4 implies #[trigger] counter(after.results, k) == sum_counter(entries_results(after.endpoints@), k) by {
                lemma_upserted_sum(before.endpoints@, url, m, k);
                lemma_counter_with(before.results, m, k);
                assert(user_balanced(t0.users@[user]));
            }
        } else {
            assert(user_balanced(t0.users@[i]));
        }
    }
}

/// Adding users that measured nothing keeps the accounts balanced.
pub proof fn lemma_new_users_keep_balance(t0: Test, t1: Test)
    requires
        balanced(t0),
        t1.results == t0.results,
        t1.endpoints@ == t0.endpoints@,
        t1.users@.len() >= t0.users@.len(),
        forall|i: int| 0 <= i < t0.users@.len() ==> #[trigger] t1.users@[i] == t0.users@[i],
        forall|i: int|
            t0.users@.len() <= i < t1.users@.len() ==> (#[trigger] t1.users@[i]).results
                == Results::empty() && t1.users@[i].endpoints@.len() == 0,
    ensures
        balanced(t1),
{
    let a = users_results(t0.users@);
    let b = users_results(t1.users@);
    assert forall|i: int| 0 <= i < a.len() implies b[i] == a[i] by {
        assert(t1.users@[i] == t0.users@[i]);
    }
    assert forall|i: int| a.len() <= i < b.len() implies b[i] == Results::empty() by {
        assert(t1.users@[i].results == Results::empty());
    }
    assert forall|k: int| 0 <= k < 4 implies #[trigger] counter(t1.results, k) == sum_counter(users_results(t1.users@), k) by {
        lemma_sum_prefix_of_empties(a, b, k);
    }
    assert forall|k: int| 0 <= k < 4 implies #[trigger] counter(t1.results, k) == sum_counter(endpoints_results(t1.endpoints@), k) by {
        assert(endpoints_results(t1.endpoints@) == endpoints_results(t0.endpoints@));
    }
    assert forall|i: int| 0 <= i < t1.users@.len() implies user_balanced(#[trigger] t1.users@[i]) by {
        if i < t0.users@.len() {
            assert(t1.users@[i] == t0.users@[i]);
            assert(user_balanced(t0.users@[i]));
        } else {
            assert(t1.users@[i].results == Results::empty() && t1.users@[i].endpoints@.len() == 0);
            assert(entries_results(t1.users@[i].endpoints@) =~= Seq::<Results>::empty());
        }
    }
}

/// Appending empty results to a sequence does not change its sums.
proof fn lemma_sum_prefix_of_empties(a: Seq<Results>, b: Seq<Results>, k: int)
    requires
        a.len() <= b.len(),
        forall|i: int| 0 <= i < a.len() ==> b[i] == a[i],
        forall|i: int| a.len() <= i < b.len() ==> b[i] == Results::empty(),
    ensures
        sum_counter(b, k) == sum_counter(a, k),
    decreases b.len(),
{
    if b.len() > a.len() {
        lemma_sum_prefix_of_empties(a, b.drop_last(), k);
    } else {
        assert(a =~= b);
    }
}

/// A test with no users whose aggregated and endpoint results are all
/// empty is balanced.
pub proof fn lemma_fresh_test_balanced(t: Test)
    requires
        t.results == Results::empty(),
        t.users@.len() == 0,
        forall|i: int| 0 <= i < t.endpoints@.len() ==> (#[trigger] t.endpoints@[i]).results == Results::empty(),
    ensures
        balanced(t),
{
    assert forall|k: int| 0 <= k < 4 implies #[trigger] counter(t.results, k) == sum_counter(endpoints_results(t.endpoints@), k) by {
        lemma_sum_empty(endpoints_results(t.endpoints@), k);
    }
    assert forall|k: int| 0 <= k < 4 implies #[trigger] counter(t.results, k) == sum_counter(users_results(t.users@), k) by {
        assert(users_results(t.users@) =~= Seq::<Results>::empty());
    }
}

/// Stopping or finishing a test keeps its accounts balanced.
pub proof fn lemma_stop_finish_keep_balance(t0: Test, t1: Test)
    requires
        balanced(t0),
        t1.stopped_from(&t0) || t1.finished_from(&t0),
    ensures
        balanced(t1),
{
    assert(users_results(t1.users@) =~= users_results(t0.users@));
    assert(endpoints_results(t1.endpoints@) =~= endpoints_results(t0.endpoints@));
    assert forall|i: int| 0 <= i < t1.users@.len() implies user_balanced(#[trigger] t1.users@[i]) by {
        assert(user_balanced(t0.users@[i]));
    }
}

} // verus!
