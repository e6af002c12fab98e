//! The steps of one analysis: what a submission and its completion do.
use vstd::prelude::*;
use crate::manager::lookup::{by_key, lemma_lookup_by_key};
use crate::manager::history::{is_terminal, result_index, result_index_upto, results_of, results_upto};
use crate::manager::{
    AnalysisStatus, Integration, IntegrationAnalysisResult, IntegrationManager, IntegrationStatus,
};
use crate::interpreter::{Payload, insights_count, is_payload_for, recommendations_count};
use crate::json::Json;

verus! {

/// Request to send data for analysis.
#[derive(Debug)]
pub struct AnalysisRequest {
    pub integration_id: String,
    pub api_key: String,
    pub data: Json,
    pub domain: Option<String>,
    pub model: Option<String>,
    pub callback_url: Option<String>,
}

/// An accepted submission: what the inference needs, and where a completed
/// result is to be announced besides the caller's callback.
#[derive(Debug, Clone)]
pub struct PendingAnalysis {
    pub integration_id: String,
    pub result_id: String,
    pub model: String,
    pub prompt: String,
    pub webhook_url: Option<String>,
}

/// Why an analysis request was refused or failed.
#[derive(Debug, Clone)]
pub enum AnalysisError {
    /// No in-flight result with that id.
    NotFound,
    /// No integration has that API key.
    InvalidCredential,
    /// The integration of that key is not active.
    IntegrationInactive,
    /// A result with that id is already logged.
    ResultIdInUse,
    /// The inference failed; the detail says how.
    InferenceFailure(String),
}

/// Point-in-time statistics over the integrations and their results.
#[derive(Debug, Clone, Copy, PartialEq, Eq, Structural)]
pub struct DashboardStats {
    pub total_integrations: usize,
    pub active_integrations: usize,
    pub total_analyses: usize,
    pub successful_analyses: usize,
    pub recent_analyses_24h: usize,
}

pub open spec fn text_or(o: Option<String>, default: Seq<char>) -> Seq<char> {
    match o {
        Some(s) => s@,
        None => default,
    }
}

pub open spec fn opt_view(o: Option<String>) -> Option<Seq<char>> {
    match o {
        Some(s) => Some(s@),
        None => None,
    }
}

/// The instruction sent to the inference for a domain and an integration.
pub open spec fn analysis_prompt(domain: Seq<char>, name: Seq<char>) -> Seq<char> {
    "Analyze this "@ + domain + " data from external system '"@ + name
        + "' and provide comprehensive insights:"@
}

/// The webhook of an integration, where its configuration enables webhook
/// notifications.
pub open spec fn webhook_target(x: Integration) -> Option<Seq<char>> {
    match x.webhook_url {
        Some(u) => if x.configuration.notification_settings.webhook_notifications {
            Some(u@)
        } else {
            None
        },
        None => None,
    }
}

/// Where a completed result is sent: the webhook, then the callback.
pub open spec fn notification_targets(webhook: Option<String>, callback: Option<String>) -> Seq<Seq<char>> {
    (match webhook {
        Some(w) => seq![w@],
        None => Seq::empty(),
    }) + (match callback {
        Some(c) => seq![c@],
        None => Seq::empty(),
    })
}

/// `rec` is the record appended for an accepted submission.
pub open spec fn is_pending_record(rec: IntegrationAnalysisResult, x: Integration, rid: Seq<char>, now: i64) -> bool {
    &&& rec.id@ == rid
    &&& rec.integration_id@ == x.id@
    &&& rec.system_name@ == x.name@
    &&& rec.data_source@ == "external_system"@
    &&& rec.analysis_result == Payload::Empty
    &&& rec.status == AnalysisStatus::Pending
    &&& rec.created_at == now
    &&& rec.processing_time_ms == 0
    &&& rec.insights_count == 0
    &&& rec.recommendations_count == 0
}

/// `rec` keeps what identifies the record `before`.
pub open spec fn same_origin(rec: IntegrationAnalysisResult, before: IntegrationAnalysisResult) -> bool {
    &&& rec.id == before.id
    &&& rec.integration_id == before.integration_id
    &&& rec.system_name == before.system_name
    &&& rec.data_source == before.data_source
    &&& rec.created_at == before.created_at
}

/// `rec` holds the outcome of a successful inference.
pub open spec fn is_completed_record(
    rec: IntegrationAnalysisResult,
    raw: Seq<char>,
    parsed: Option<Json>,
    data: Json,
    elapsed_ms: u64,
    timestamp: String,
) -> bool {
    &&& is_payload_for(rec.analysis_result, raw, parsed, data, timestamp)
    &&& rec.status == AnalysisStatus::Completed
    &&& rec.processing_time_ms == elapsed_ms
    &&& rec.insights_count == insights_count(rec.analysis_result)
    &&& rec.recommendations_count == recommendations_count(rec.analysis_result)
}

/// The detail of a failed inference.
pub open spec fn failure_detail(message: Seq<char>) -> Seq<char> {
    "Analysis failed: "@ + message
}

/// `rec` holds the outcome of a failed inference.
pub open spec fn is_failed_record(rec: IntegrationAnalysisResult, message: Seq<char>) -> bool {
    &&& rec.analysis_result matches Payload::Failure(d) && d@ == failure_detail(message)
    &&& rec.status == AnalysisStatus::Failed
    &&& rec.processing_time_ms == 0
    &&& rec.insights_count == 0
    &&& rec.recommendations_count == 0
}

/// The result of a submission: what `begin_analysis` does for an API key,
/// a result id and a time.
pub open spec fn begins(
    before: IntegrationManager,
    after: IntegrationManager,
    request: AnalysisRequest,
    rid: Seq<char>,
    now: i64,
    r: Result<PendingAnalysis, AnalysisError>,
) -> bool {
    match by_key(before.integrations(), request.api_key@) {
        None => r == Err::<PendingAnalysis, AnalysisError>(AnalysisError::InvalidCredential)
            && after.integrations() == before.integrations() && after.log() == before.log(),
        Some(x) => if x.status != IntegrationStatus::Active {
            r == Err::<PendingAnalysis, AnalysisError>(AnalysisError::IntegrationInactive)
                && after.integrations() == before.integrations() && after.log() == before.log()
        } else if exists|k: int| 0 <= k < before.log().len() && #[trigger] before.log()[k].id@ == rid {
            r == Err::<PendingAnalysis, AnalysisError>(AnalysisError::ResultIdInUse)
                && after.integrations() == before.integrations() && after.log() == before.log()
        } else {
            &&& r matches Ok(p) && {
                &&& p.integration_id@ == x.id@
                &&& p.result_id@ == rid
                &&& p.model@ == text_or(request.model, "llama2"@)
                &&& p.prompt@ == analysis_prompt(text_or(request.domain, "generic"@), x.name@)
                &&& opt_view(p.webhook_url) == webhook_target(x)
            }
            &&& after.log().len() == before.log().len() + 1
            &&& after.log().drop_last() == before.log()
            &&& is_pending_record(after.log().last(), x, rid, now)
            &&& exists|k: int|
                0 <= k < before.integrations().len() && before.integrations()[k] == x
                    && after.integrations() == before.integrations().update(
                    k,
                    Integration { last_activity: Some(now), ..x },
                )
        },
    }
}

/// What `complete_analysis` does to the in-flight record of a submission.
pub open spec fn completes(
    before: IntegrationManager,
    after: IntegrationManager,
    result_id: Seq<char>,
    webhook: Option<String>,
    outcome: Result<String, String>,
    parsed: Option<Json>,
    data: Json,
    elapsed_ms: u64,
    timestamp: String,
    callback_url: Option<String>,
    r: Result<Vec<String>, AnalysisError>,
) -> bool {
    let k = result_index(before.log(), result_id);
    if k < 0 || is_terminal(before.log()[k].status) {
        r == Err::<Vec<String>, AnalysisError>(AnalysisError::NotFound) && after.log() == before.log()
    } else {
        &&& forall|i: int| 0 <= i < before.log().len() && i != k ==> after.log()[i] == before.log()[i]
        &&& same_origin(after.log()[k], before.log()[k])
        &&& match outcome {
            Ok(raw) => is_completed_record(after.log()[k], raw@, parsed, data, elapsed_ms, timestamp)
                && (r matches Ok(targets) && targets.deep_view() == notification_targets(
                webhook,
                callback_url,
            )),
            Err(message) => is_failed_record(after.log()[k], message@) && (r matches Err(
                AnalysisError::InferenceFailure(d),
            ) && d@ == failure_detail(message@)),
        }
    }
}

/// Once a result is terminal, completing any submission leaves it as it is,
/// and adds no record: a submission's step changes at most its own record.
pub proof fn lemma_terminal_results_stay(
    before: IntegrationManager,
    after: IntegrationManager,
    result_id: Seq<char>,
    webhook: Option<String>,
    outcome: Result<String, String>,
    parsed: Option<Json>,
    data: Json,
    elapsed_ms: u64,
    timestamp: String,
    callback_url: Option<String>,
    r: Result<Vec<String>, AnalysisError>,
)
    requires
        after.log().len() == before.log().len(),
        completes(
            before,
            after,
            result_id,
            webhook,
            outcome,
            parsed,
            data,
            elapsed_ms,
            timestamp,
            callback_url,
            r,
        ),
    ensures
        forall|i: int|
            0 <= i < before.log().len() && is_terminal(#[trigger] before.log()[i].status) ==> after.log()[i]
                == before.log()[i],
{
}

/// A submission appends at most one record and changes none of those
/// already logged, so a terminal result stays as it is.
pub proof fn lemma_submission_appends_one(
    before: IntegrationManager,
    after: IntegrationManager,
    request: AnalysisRequest,
    rid: Seq<char>,
    now: i64,
    r: Result<PendingAnalysis, AnalysisError>,
)
    requires
        begins(before, after, request, rid, now, r),
    ensures
        after.log().len() <= before.log().len() + 1,
        forall|i: int| 0 <= i < before.log().len() ==> after.log()[i] == before.log()[i],
        r is Ok <==> after.log().len() == before.log().len() + 1,
{
    if after.log().len() == before.log().len() + 1 {
        assert forall|i: int| 0 <= i < before.log().len() implies after.log()[i] == before.log()[i] by {
            assert(after.log().drop_last()[i] == after.log()[i]);
        }
    }
}

proof fn lemma_result_index_upto_unique(log: Seq<IntegrationAnalysisResult>, rid: Seq<char>, k: int, n: nat)
    requires
        0 <= k < n <= log.len(),
        log[k].id@ == rid,
        forall|i: int| 0 <= i < log.len() && i != k ==> #[trigger] log[i].id@ != rid,
    ensures
        result_index_upto(log, rid, n) == k,
    decreases n,
{
    if n - 1 > k {
        lemma_result_index_upto_unique(log, rid, k, (n - 1) as nat);
    }
}

/// The record found for an id is the one record that has it.
pub proof fn lemma_result_index_of_unique(log: Seq<IntegrationAnalysisResult>, rid: Seq<char>, k: int)
    requires
        0 <= k < log.len(),
        log[k].id@ == rid,
        forall|i: int| 0 <= i < log.len() && i != k ==> #[trigger] log[i].id@ != rid,
    ensures
        result_index(log, rid) == k,
{
    lemma_result_index_upto_unique(log, rid, k, log.len());
}

/// How many results of an integration a log holds depends only on the
/// integration of each record.
pub proof fn lemma_results_count_by_owner(
    a: Seq<IntegrationAnalysisResult>,
    b: Seq<IntegrationAnalysisResult>,
    iid: Seq<char>,
    n: nat,
)
    requires
        n <= a.len(),
        n <= b.len(),
        forall|i: int| 0 <= i < n ==> #[trigger] a[i].integration_id@ == b[i].integration_id@,
    ensures
        results_upto(a, iid, n).len() == results_upto(b, iid, n).len(),
    decreases n,
{
    if n > 0 {
        lemma_results_count_by_owner(a, b, iid, (n - 1) as nat);
    }
}

/// Two submissions under one API key, both accepted and then each
/// completed, leave two new records with distinct ids: each is terminal,
/// both belong to the same integration, which now has two more results, and
/// no earlier record has changed. Each completion finds its own record by
/// its id, so neither can overwrite the other's.
pub proof fn lemma_two_submissions(
    m0: IntegrationManager,
    m1: IntegrationManager,
    m2: IntegrationManager,
    m3: IntegrationManager,
    m4: IntegrationManager,
    request1: AnalysisRequest,
    request2: AnalysisRequest,
    rid1: Seq<char>,
    rid2: Seq<char>,
    now1: i64,
    now2: i64,
    p1: PendingAnalysis,
    p2: PendingAnalysis,
    outcome1: Result<String, String>,
    outcome2: Result<String, String>,
    parsed1: Option<Json>,
    parsed2: Option<Json>,
    data1: Json,
    data2: Json,
    elapsed1: u64,
    elapsed2: u64,
    timestamp1: String,
    timestamp2: String,
    callback1: Option<String>,
    callback2: Option<String>,
    r1: Result<Vec<String>, AnalysisError>,
    r2: Result<Vec<String>, AnalysisError>,
)
    requires
        m0.wf(),
        m1.wf(),
        request1.api_key@ == request2.api_key@,
        begins(m0, m1, request1, rid1, now1, Ok::<PendingAnalysis, AnalysisError>(p1)),
        begins(m1, m2, request2, rid2, now2, Ok::<PendingAnalysis, AnalysisError>(p2)),
        m3.log().len() == m2.log().len(),
        completes(
            m2,
            m3,
            p1.result_id@,
            p1.webhook_url,
            outcome1,
            parsed1,
            data1,
            elapsed1,
            timestamp1,
            callback1,
            r1,
        ),
        m4.log().len() == m3.log().len(),
        completes(
            m3,
            m4,
            p2.result_id@,
            p2.webhook_url,
            outcome2,
            parsed2,
            data2,
            elapsed2,
            timestamp2,
            callback2,
            r2,
        ),
    ensures
        ({
            let n = m0.log().len() as int;
            let iid = m4.log()[n].integration_id@;
            &&& m4.log().len() == n + 2
            &&& forall|i: int| 0 <= i < n ==> m4.log()[i] == m0.log()[i]
            &&& m4.log()[n].id@ == rid1
            &&& m4.log()[n + 1].id@ == rid2
            &&& rid1 != rid2
            &&& is_terminal(m4.log()[n].status)
            &&& is_terminal(m4.log()[n + 1].status)
            &&& m4.log()[n + 1].integration_id@ == iid
            &&& results_of(m4.log(), iid).len() == results_of(m0.log(), iid).len() + 2
        }),
{
    let n = m0.log().len() as int;
    let key = request1.api_key@;
    lemma_lookup_by_key(m0.integrations(), key);
    lemma_lookup_by_key(m1.integrations(), key);
    let x1 = by_key(m0.integrations(), key)->Some_0;
    let x2 = by_key(m1.integrations(), key)->Some_0;
    assert(m1.log().drop_last() == m0.log());
    assert(m2.log().drop_last() == m1.log());
    let l0 = m0.log();
    let l1 = m1.log();
    let l2 = m2.log();
    let l3 = m3.log();
    let l4 = m4.log();
    assert(l1[n] == l1.last());
    assert(l2[n + 1] == l2.last());
    assert(l2[n] == l1[n]);
    assert(l1[n].id@ == rid1);
    assert(l2[n + 1].id@ == rid2);
    assert forall|i: int| 0 <= i < n implies l2[i] == l0[i] by {
        assert(l2[i] == l1[i]);
        assert(l1[i] == l0[i]);
    }
    // The second id is fresh in the log it was checked against, which holds the first.
    assert(!(exists|k: int| 0 <= k < l1.len() && #[trigger] l1[k].id@ == rid2));
    assert(l1[n].id@ != rid2);
    assert(!(exists|k: int| 0 <= k < l0.len() && #[trigger] l0[k].id@ == rid1));
    assert forall|i: int| 0 <= i < l2.len() && i != n implies #[trigger] l2[i].id@ != rid1 by {
        if i < n {
            assert(l0[i].id@ != rid1);
        }
    }
    lemma_result_index_of_unique(l2, rid1, n);
    // First completion: only the first record changes, and it becomes terminal.
    assert(l3[n + 1] == l2[n + 1]);
    assert(l3[n].id == l2[n].id);
    match outcome1 {
        Ok(_) => {},
        Err(_) => {},
    }
    assert(is_terminal(l3[n].status));
    assert forall|i: int| 0 <= i < l3.len() && i != n + 1 implies #[trigger] l3[i].id@ != rid2 by {
        if i < n {
            assert(l3[i] == l2[i]);
            assert(l1[i].id@ != rid2);
        }
    }
    lemma_result_index_of_unique(l3, rid2, n + 1);
    assert(l3[n + 1].status == AnalysisStatus::Pending);
    match outcome2 {
        Ok(_) => {},
        Err(_) => {},
    }
    assert(is_terminal(l4[n + 1].status));
    assert(l4[n] == l3[n]);
    assert forall|i: int| 0 <= i < n implies l4[i] == l0[i] by {
        assert(l4[i] == l3[i]);
        assert(l3[i] == l2[i]);
    }
    // Both records belong to the integration of the key.
    let k1 = choose|k: int|
        0 <= k < m0.integrations().len() && m0.integrations()[k] == x1 && m1.integrations()
            == m0.integrations().update(k, Integration { last_activity: Some(now1), ..x1 });
    assert(m1.integrations()[k1].api_key@ == key);
    let i2 = choose|i: int| 0 <= i < m1.integrations().len() && m1.integrations()[i] == x2;
    assert(i2 == k1);
    let iid = l4[n].integration_id@;
    assert(l4[n].integration_id == l2[n].integration_id);
    assert(l4[n + 1].integration_id == l2[n + 1].integration_id);
    assert(l2[n].integration_id@ == x1.id@);
    assert(l2[n + 1].integration_id@ == x2.id@);
    lemma_results_count_by_owner(l4, l2, iid, (n + 2) as nat);
    lemma_results_count_by_owner(l2, l0, iid, n as nat);
    assert(results_upto(l2, iid, (n + 2) as nat) == results_upto(l2, iid, (n + 1) as nat).push(l2[n + 1]));
    assert(results_upto(l2, iid, (n + 1) as nat) == results_upto(l2, iid, n as nat).push(l2[n]));
}

/// An accepted submission, once completed, has appended exactly one record:
/// it carries the submission's id, it is terminal, no earlier record has
/// changed, and the integration records the submission as its last activity.
pub proof fn lemma_one_submission(
    m0: IntegrationManager,
    m1: IntegrationManager,
    m2: IntegrationManager,
    request: AnalysisRequest,
    rid: Seq<char>,
    now: i64,
    p: PendingAnalysis,
    outcome: Result<String, String>,
    parsed: Option<Json>,
    data: Json,
    elapsed_ms: u64,
    timestamp: String,
    callback_url: Option<String>,
    r: Result<Vec<String>, AnalysisError>,
)
    requires
        begins(m0, m1, request, rid, now, Ok::<PendingAnalysis, AnalysisError>(p)),
        m2.log().len() == m1.log().len(),
        completes(
            m1,
            m2,
            p.result_id@,
            p.webhook_url,
            outcome,
            parsed,
            data,
            elapsed_ms,
            timestamp,
            callback_url,
            r,
        ),
    ensures
        ({
            let n = m0.log().len() as int;
            &&& m2.log().len() == n + 1
            &&& forall|i: int| 0 <= i < n ==> m2.log()[i] == m0.log()[i]
            &&& m2.log()[n].id@ == rid
            &&& is_terminal(m2.log()[n].status)
            &&& exists|k: int|
                0 <= k < m1.integrations().len() && m1.integrations()[k].id@ == m2.log()[n].integration_id@
                    && m1.integrations()[k].last_activity == Some(now)
        }),
{
    let n = m0.log().len() as int;
    let l0 = m0.log();
    let l1 = m1.log();
    let l2 = m2.log();
    assert(l1.drop_last() == l0);
    assert(l1[n] == l1.last());
    assert(!(exists|k: int| 0 <= k < l0.len() && #[trigger] l0[k].id@ == rid));
    assert forall|i: int| 0 <= i < l1.len() && i != n implies #[trigger] l1[i].id@ != rid by {
        assert(l1[i] == l0[i]);
    }
    lemma_result_index_of_unique(l1, rid, n);
    match outcome {
        Ok(_) => {},
        Err(_) => {},
    }
    assert forall|i: int| 0 <= i < n implies l2[i] == l0[i] by {
        assert(l2[i] == l1[i]);
        assert(l1[i] == l0[i]);
    }
    let x = by_key(m0.integrations(), request.api_key@)->Some_0;
    let k = choose|k: int|
        0 <= k < m0.integrations().len() && m0.integrations()[k] == x && m1.integrations()
            == m0.integrations().update(k, Integration { last_activity: Some(now), ..x });
    assert(m1.integrations()[k].id@ == l2[n].integration_id@);
}

} // verus!
