//! The log of analysis results: per-integration views, their order, and counts.
use vstd::prelude::*;
use crate::manager::lookup::by_id;
use crate::manager::{AnalysisStatus, Integration, IntegrationAnalysisResult, IntegrationStatus};

verus! {

/// The results among the first `n` of the log that belong to an integration,
/// in order of submission.
pub open spec fn results_upto(log: Seq<IntegrationAnalysisResult>, iid: Seq<char>, n: nat) -> Seq<
    IntegrationAnalysisResult,
>
    decreases n,
{
    if n == 0 {
        Seq::empty()
    } else if log[n - 1].integration_id@ == iid {
        results_upto(log, iid, (n - 1) as nat).push(log[n - 1])
    } else {
        results_upto(log, iid, (n - 1) as nat)
    }
}

/// The results of an integration, in order of submission.
pub open spec fn results_of(log: Seq<IntegrationAnalysisResult>, iid: Seq<char>) -> Seq<IntegrationAnalysisResult> {
    results_upto(log, iid, log.len())
}

/// `x` inserted into a newest-first sequence after every element that is
/// not older than it.
pub open spec fn insert_newest_first(x: IntegrationAnalysisResult, s: Seq<IntegrationAnalysisResult>) -> Seq<
    IntegrationAnalysisResult,
>
    decreases s.len(),
{
    if s.len() == 0 {
        seq![x]
    } else if s[0].created_at >= x.created_at {
        seq![s[0]] + insert_newest_first(x, s.drop_first())
    } else {
        seq![x] + s
    }
}

/// The results of an integration among the first `n` of the log, newest
/// first; results created at the same time keep their order of submission.
pub open spec fn newest_first_upto(log: Seq<IntegrationAnalysisResult>, iid: Seq<char>, n: nat) -> Seq<
    IntegrationAnalysisResult,
>
    decreases n,
{
    if n == 0 {
        Seq::empty()
    } else if log[n - 1].integration_id@ == iid {
        insert_newest_first(log[n - 1], newest_first_upto(log, iid, (n - 1) as nat))
    } else {
        newest_first_upto(log, iid, (n - 1) as nat)
    }
}

/// The results of an integration, newest first.
pub open spec fn newest_first(log: Seq<IntegrationAnalysisResult>, iid: Seq<char>) -> Seq<IntegrationAnalysisResult> {
    newest_first_upto(log, iid, log.len())
}

/// The first `limit` elements of `s`, or all of them without a limit.
pub open spec fn limited<T>(s: Seq<T>, limit: Option<usize>) -> Seq<T> {
    match limit {
        Some(l) => if l < s.len() {
            s.take(l as int)
        } else {
            s
        },
        None => s,
    }
}

/// No element of `s` is newer than the one before it.
pub open spec fn is_newest_first(s: Seq<IntegrationAnalysisResult>) -> bool {
    forall|i: int, j: int| 0 <= i < j < s.len() ==> s[i].created_at >= s[j].created_at
}

pub(crate) proof fn lemma_insert_newest_first_at(x: IntegrationAnalysisResult, s: Seq<IntegrationAnalysisResult>, p: int)
    requires
        0 <= p <= s.len(),
        forall|j: int| 0 <= j < p ==> s[j].created_at >= x.created_at,
        p < s.len() ==> s[p].created_at < x.created_at,
    ensures
        insert_newest_first(x, s) == s.insert(p, x),
    decreases p,
{
    if p == 0 {
        if s.len() == 0 {
            assert(seq![x] =~= s.insert(0, x));
        } else {
            assert(seq![x] + s =~= s.insert(0, x));
        }
    } else {
        lemma_insert_newest_first_at(x, s.drop_first(), p - 1);
        assert(seq![s[0]] + s.drop_first().insert(p - 1, x) =~= s.insert(p, x));
    }
}

pub(crate) proof fn lemma_insert_newest_first_ordered(x: IntegrationAnalysisResult, s: Seq<IntegrationAnalysisResult>)
    requires
        is_newest_first(s),
    ensures
        is_newest_first(insert_newest_first(x, s)),
        insert_newest_first(x, s).len() == s.len() + 1,
        forall|i: int| 0 <= i < insert_newest_first(x, s).len() ==> (insert_newest_first(x, s)[i] == x
            || s.contains(#[trigger] insert_newest_first(x, s)[i])),
    decreases s.len(),
{
    if s.len() > 0 {
        let t = s.drop_first();
        assert forall|i: int, j: int| 0 <= i < j < t.len() implies t[i].created_at >= t[j].created_at by {
            assert(s[i + 1].created_at >= s[j + 1].created_at);
        }
        lemma_insert_newest_first_ordered(x, t);
        let r = insert_newest_first(x, s);
        if s[0].created_at >= x.created_at {
            let u = insert_newest_first(x, t);
            assert forall|i: int| 0 <= i < u.len() implies (u[i] == x || s.contains(#[trigger] u[i])) by {
                if u[i] != x {
                    assert(t.contains(u[i]));
                    let k = choose|k: int| 0 <= k < t.len() && t[k] == u[i];
                    assert(s[k + 1] == u[i]);
                }
            }
            assert forall|i: int, j: int| 0 <= i < j < r.len() implies r[i].created_at >= r[j].created_at by {
                if i == 0 {
                    if u[j - 1] == x {
                    } else {
                        let k = choose|k: int| 0 <= k < s.len() && s[k] == u[j - 1];
                        if k > 0 {
                        }
                    }
                } else {
                    assert(r[i] == u[i - 1] && r[j] == u[j - 1]);
                }
            }
            assert forall|i: int| 0 <= i < r.len() implies (r[i] == x || s.contains(#[trigger] r[i])) by {
                if i == 0 {
                    assert(s[0] == r[0]);
                } else {
                    assert(r[i] == u[i - 1]);
                }
            }
        } else {
            assert forall|i: int| 0 <= i < r.len() implies (r[i] == x || s.contains(#[trigger] r[i])) by {
                if i > 0 {
                    assert(r[i] == s[i - 1]);
                }
            }
        }
    }
}

/// Every result of an integration among the first `n` of the log, newest
/// first, and as many as there are.
pub proof fn lemma_newest_first_upto(log: Seq<IntegrationAnalysisResult>, iid: Seq<char>, n: nat)
    requires
        n <= log.len(),
    ensures
        is_newest_first(newest_first_upto(log, iid, n)),
        newest_first_upto(log, iid, n).len() == results_upto(log, iid, n).len(),
    decreases n,
{
    if n > 0 {
        lemma_newest_first_upto(log, iid, (n - 1) as nat);
        if log[n - 1].integration_id@ == iid {
            lemma_insert_newest_first_ordered(log[n - 1], newest_first_upto(log, iid, (n - 1) as nat));
        }
    }
}

proof fn lemma_insert_newest_first_is_insert(x: IntegrationAnalysisResult, s: Seq<IntegrationAnalysisResult>)
    ensures
        exists|p: int| 0 <= p <= s.len() && insert_newest_first(x, s) == #[trigger] s.insert(p, x),
    decreases s.len(),
{
    if s.len() == 0 {
        assert(insert_newest_first(x, s) =~= s.insert(0, x));
    } else if s[0].created_at >= x.created_at {
        let t = s.drop_first();
        lemma_insert_newest_first_is_insert(x, t);
        let q = choose|q: int| 0 <= q <= t.len() && insert_newest_first(x, t) == #[trigger] t.insert(q, x);
        assert(seq![s[0]] + t.insert(q, x) =~= s.insert(q + 1, x));
    } else {
        assert(seq![x] + s =~= s.insert(0, x));
    }
}

/// The newest-first listing of an integration's results holds exactly its
/// results, each as often as it is logged.
pub proof fn lemma_newest_first_same_results(log: Seq<IntegrationAnalysisResult>, iid: Seq<char>, n: nat)
    requires
        n <= log.len(),
    ensures
        newest_first_upto(log, iid, n).to_multiset() == results_upto(log, iid, n).to_multiset(),
    decreases n,
{
    broadcast use vstd::seq_lib::group_to_multiset_ensures;

    if n == 0 {
        assert(newest_first_upto(log, iid, 0) =~= results_upto(log, iid, 0));
    } else {
        lemma_newest_first_same_results(log, iid, (n - 1) as nat);
        if log[n - 1].integration_id@ == iid {
            let prev = newest_first_upto(log, iid, (n - 1) as nat);
            lemma_insert_newest_first_is_insert(log[n - 1], prev);
            let p = choose|p: int|
                0 <= p <= prev.len() && insert_newest_first(log[n - 1], prev) == #[trigger] prev.insert(
                    p,
                    log[n - 1],
                );
            assert(prev.insert(p, log[n - 1]).to_multiset() == prev.to_multiset().insert(log[n - 1]));
            assert(results_upto(log, iid, (n - 1) as nat).push(log[n - 1]).to_multiset()
                == results_upto(log, iid, (n - 1) as nat).to_multiset().insert(log[n - 1]));
        }
    }
}

/// A query of the results of an integration lists them newest first, with
/// or without a limit.
pub proof fn lemma_query_order(log: Seq<IntegrationAnalysisResult>, iid: Seq<char>, limit: Option<usize>)
    ensures
        is_newest_first(limited(newest_first(log, iid), limit)),
        limit is None ==> limited(newest_first(log, iid), limit).len() == results_of(log, iid).len(),
        limit is None ==> limited(newest_first(log, iid), limit).to_multiset() == results_of(
            log,
            iid,
        ).to_multiset(),
{
    lemma_newest_first_upto(log, iid, log.len());
    lemma_newest_first_same_results(log, iid, log.len());
}

/// The results among the first `n` of the log that do not belong to an
/// integration, in order.
pub open spec fn others_upto(log: Seq<IntegrationAnalysisResult>, iid: Seq<char>, n: nat) -> Seq<
    IntegrationAnalysisResult,
>
    decreases n,
{
    if n == 0 {
        Seq::empty()
    } else if log[n - 1].integration_id@ == iid {
        others_upto(log, iid, (n - 1) as nat)
    } else {
        others_upto(log, iid, (n - 1) as nat).push(log[n - 1])
    }
}

pub(crate) proof fn lemma_others_exclude(log: Seq<IntegrationAnalysisResult>, iid: Seq<char>, n: nat)
    requires
        n <= log.len(),
    ensures
        forall|k: int|
            0 <= k < others_upto(log, iid, n).len() ==> #[trigger] others_upto(log, iid, n)[k].integration_id@
                != iid,
    decreases n,
{
    if n > 0 {
        lemma_others_exclude(log, iid, (n - 1) as nat);
    }
}

pub(crate) proof fn lemma_others_from_log(log: Seq<IntegrationAnalysisResult>, iid: Seq<char>, n: nat)
    requires
        n <= log.len(),
    ensures
        forall|i: int|
            0 <= i < others_upto(log, iid, n).len() ==> exists|k: int|
                0 <= k < n && log[k] == #[trigger] others_upto(log, iid, n)[i],
    decreases n,
{
    if n > 0 {
        lemma_others_from_log(log, iid, (n - 1) as nat);
        let prev = others_upto(log, iid, (n - 1) as nat);
        let cur = others_upto(log, iid, n);
        assert forall|i: int| 0 <= i < cur.len() implies exists|k: int|
            0 <= k < n && log[k] == #[trigger] cur[i] by {
            if i < prev.len() {
                assert(cur[i] == prev[i]);
                let k = choose|k: int| 0 <= k < n - 1 && log[k] == #[trigger] prev[i];
                assert(log[k] == cur[i]);
            } else {
                assert(cur[i] == log[n - 1]);
            }
        }
    }
}

pub(crate) proof fn lemma_others_all(log: Seq<IntegrationAnalysisResult>, iid: Seq<char>, n: nat)
    requires
        n <= log.len(),
        forall|k: int| 0 <= k < n ==> #[trigger] log[k].integration_id@ != iid,
    ensures
        others_upto(log, iid, n) == log.subrange(0, n as int),
    decreases n,
{
    if n > 0 {
        lemma_others_all(log, iid, (n - 1) as nat);
        assert(log.subrange(0, n as int) =~= log.subrange(0, n - 1).push(log[n - 1]));
    } else {
        assert(log.subrange(0, 0) =~= Seq::<IntegrationAnalysisResult>::empty());
    }
}

pub(crate) proof fn lemma_no_results(log: Seq<IntegrationAnalysisResult>, iid: Seq<char>, m: nat)
    requires
        m <= log.len(),
        forall|k: int| 0 <= k < log.len() ==> #[trigger] log[k].integration_id@ != iid,
    ensures
        results_upto(log, iid, m) == Seq::<IntegrationAnalysisResult>::empty(),
        newest_first_upto(log, iid, m) == Seq::<IntegrationAnalysisResult>::empty(),
    decreases m,
{
    if m > 0 {
        lemma_no_results(log, iid, (m - 1) as nat);
    }
}

/// The index of the last record among the first `n` of the log with this
/// id, or -1.
pub open spec fn result_index_upto(log: Seq<IntegrationAnalysisResult>, rid: Seq<char>, n: nat) -> int
    decreases n,
{
    if n == 0 {
        -1
    } else if log[n - 1].id@ == rid {
        n - 1
    } else {
        result_index_upto(log, rid, (n - 1) as nat)
    }
}

/// The index of the record with this id in the log, or -1.
pub open spec fn result_index(log: Seq<IntegrationAnalysisResult>, rid: Seq<char>) -> int {
    result_index_upto(log, rid, log.len())
}

pub(crate) proof fn lemma_result_index_upto(log: Seq<IntegrationAnalysisResult>, rid: Seq<char>, n: nat)
    requires
        n <= log.len(),
    ensures
        -1 <= result_index_upto(log, rid, n) < n,
        result_index_upto(log, rid, n) >= 0 ==> log[result_index_upto(log, rid, n)].id@ == rid,
        result_index_upto(log, rid, n) < 0 ==> forall|k: int| 0 <= k < n ==> #[trigger] log[k].id@ != rid,
    decreases n,
{
    if n > 0 {
        lemma_result_index_upto(log, rid, (n - 1) as nat);
    }
}

/// The index of the last record among the first `n` of the log with this
/// id that belongs to this integration, or -1.
pub open spec fn owned_result_index_upto(
    log: Seq<IntegrationAnalysisResult>,
    iid: Seq<char>,
    rid: Seq<char>,
    n: nat,
) -> int
    decreases n,
{
    if n == 0 {
        -1
    } else if log[n - 1].id@ == rid && log[n - 1].integration_id@ == iid {
        n - 1
    } else {
        owned_result_index_upto(log, iid, rid, (n - 1) as nat)
    }
}

pub open spec fn is_terminal(s: AnalysisStatus) -> bool {
    s == AnalysisStatus::Completed || s == AnalysisStatus::Failed
}

/// The number of active integrations among the first `n`.
pub open spec fn active_upto(s: Seq<Integration>, n: nat) -> nat
    decreases n,
{
    if n == 0 {
        0
    } else {
        active_upto(s, (n - 1) as nat) + if s[n - 1].status == IntegrationStatus::Active {
            1nat
        } else {
            0nat
        }
    }
}

/// The number of completed results among the first `n` of the log.
pub open spec fn completed_upto(log: Seq<IntegrationAnalysisResult>, n: nat) -> nat
    decreases n,
{
    if n == 0 {
        0
    } else {
        completed_upto(log, (n - 1) as nat) + if log[n - 1].status == AnalysisStatus::Completed {
            1nat
        } else {
            0nat
        }
    }
}

/// Successful analyses never outnumber analyses, and there are none where
/// there are no analyses: the success rate of the dashboard lies in [0, 1]
/// and is 0 for an empty log.
pub proof fn lemma_successes_bounded(log: Seq<IntegrationAnalysisResult>, n: nat)
    ensures
        completed_upto(log, n) <= n,
        n == 0 ==> completed_upto(log, n) == 0,
    decreases n,
{
    if n > 0 {
        lemma_successes_bounded(log, (n - 1) as nat);
    }
}

/// Milliseconds in a day.
pub const DAY_MILLIS: i64 = 86_400_000;

/// The number of results among the first `n` of the log created within the
/// day before `now`.
pub open spec fn recent_upto(log: Seq<IntegrationAnalysisResult>, now: i64, n: nat) -> nat
    decreases n,
{
    if n == 0 {
        0
    } else {
        recent_upto(log, now, (n - 1) as nat) + if log[n - 1].created_at > now - DAY_MILLIS {
            1nat
        } else {
            0nat
        }
    }
}

/// The integration of a result belongs to `owner`.
pub open spec fn owned_result(s: Seq<Integration>, rec: IntegrationAnalysisResult, owner: Seq<char>) -> bool {
    by_id(s, rec.integration_id@) matches Some(x) && (x.owner_id matches Some(o) && o@ == owner)
}

/// The number of integrations among the first `n` that belong to `owner`
/// and are active.
pub open spec fn owned_active_upto(s: Seq<Integration>, owner: Seq<char>, n: nat) -> nat
    decreases n,
{
    if n == 0 {
        0
    } else {
        owned_active_upto(s, owner, (n - 1) as nat) + if (s[n - 1].owner_id matches Some(o) && o@
            == owner) && s[n - 1].status == IntegrationStatus::Active {
            1nat
        } else {
            0nat
        }
    }
}

/// Which results a count takes.
pub enum Tally {
    /// Every result.
    All,
    /// The completed results.
    Completed,
    /// The results created within the day before a given time.
    Recent,
}

pub open spec fn tallied(which: Tally, rec: IntegrationAnalysisResult, now: i64) -> bool {
    match which {
        Tally::All => true,
        Tally::Completed => rec.status == AnalysisStatus::Completed,
        Tally::Recent => rec.created_at > now - DAY_MILLIS,
    }
}

/// The number of results among the first `n` of the log that belong to an
/// integration of `owner` and that the count takes.
pub open spec fn owned_results_upto(
    s: Seq<Integration>,
    log: Seq<IntegrationAnalysisResult>,
    owner: Seq<char>,
    which: Tally,
    now: i64,
    n: nat,
) -> nat
    decreases n,
{
    if n == 0 {
        0
    } else {
        owned_results_upto(s, log, owner, which, now, (n - 1) as nat) + if owned_result(
            s,
            log[n - 1],
            owner,
        ) && tallied(which, log[n - 1], now) {
            1nat
        } else {
            0nat
        }
    }
}

} // verus!
