//! The registry of integrations, the log of their analysis results, the
//! state machine that drives one analysis, and the dashboard statistics.
use vstd::prelude::*;
use crate::interpreter::{
    Payload, count_insights, count_recommendations, insights_count, parse_ai_response,
    recommendations_count,
};
use crate::json::Json;
use crate::sources::{current_time, new_uuid};

mod analysis;
mod history;
mod lookup;
mod registration;

use history::{
    lemma_insert_newest_first_at, lemma_no_results, lemma_others_all, lemma_others_exclude,
    lemma_others_from_log, lemma_result_index_upto,
};
use lookup::{lemma_by_key_upto, lemma_registered_push, lemma_registered_update};
pub use analysis::{
    AnalysisError, AnalysisRequest, DashboardStats, PendingAnalysis, analysis_prompt, begins,
    completes, failure_detail, is_completed_record, is_failed_record, is_pending_record,
    lemma_one_submission, lemma_result_index_of_unique, lemma_results_count_by_owner,
    lemma_submission_appends_one, lemma_terminal_results_stay, lemma_two_submissions,
    notification_targets, opt_view, same_origin, text_or, webhook_target,
};
pub use history::{
    DAY_MILLIS, Tally, active_upto, completed_upto, insert_newest_first, is_newest_first,
    is_terminal, lemma_newest_first_same_results, lemma_newest_first_upto, lemma_successes_bounded,
    lemma_query_order, limited, newest_first, newest_first_upto, others_upto, owned_active_upto,
    owned_result, owned_result_index_upto, owned_results_upto, recent_upto, result_index,
    result_index_upto, results_of, results_upto, tallied,
};
pub use lookup::{
    by_id, by_id_upto, by_key, by_key_upto, integrations_unique, lemma_by_id, lemma_lookup_by_key,
    owned_upto, registered,
};
pub use registration::{
    api_key_for, api_key_from, draw_can_collide, is_random_api_key, is_registered_for,
    lemma_empty_store_cannot_collide, strip_hyphens, without_hyphens,
};

verus! {

/// Kinds of external system.
#[derive(Debug, Clone, Copy, PartialEq, Eq, Structural)]
pub enum SystemType {
    Webhook,
    RestApi,
    Database,
    FileSystem,
    MessageQueue,
    Custom,
}

/// Lifecycle state of an integration; only an active one accepts submissions.
#[derive(Debug, Clone, Copy, PartialEq, Eq, Structural)]
pub enum IntegrationStatus {
    Active,
    Inactive,
    Error,
    Pending,
}

#[derive(Debug, Clone, Copy, PartialEq, Eq, Structural)]
pub struct NotificationSettings {
    pub email_notifications: bool,
    pub webhook_notifications: bool,
    pub dashboard_alerts: bool,
    pub real_time_updates: bool,
}

#[derive(Debug, Clone)]
pub struct IntegrationConfig {
    pub auto_analyze: bool,
    pub analysis_domain: Option<String>,
    pub ai_model: Option<String>,
    pub notification_settings: NotificationSettings,
    pub data_filters: Vec<String>,
}

/// A registered external system. Times are milliseconds since the Unix epoch.
#[derive(Debug, Clone)]
pub struct Integration {
    pub id: String,
    pub name: String,
    pub system_type: SystemType,
    pub api_key: String,
    pub webhook_url: Option<String>,
    pub status: IntegrationStatus,
    pub created_at: i64,
    pub last_activity: Option<i64>,
    pub configuration: IntegrationConfig,
    pub owner_id: Option<String>,
}

/// Request to create a new integration.
#[derive(Debug, Clone)]
pub struct CreateIntegrationRequest {
    pub name: String,
    pub system_type: SystemType,
    pub webhook_url: Option<String>,
    pub configuration: IntegrationConfig,
}

/// Why an integration could not be registered.
#[derive(Debug, Clone, Copy, PartialEq, Eq, Structural)]
pub enum CreateError {
    /// Another integration already has this id.
    IdInUse,
    /// Another integration already has this API key.
    ApiKeyInUse,
}

/// The registry of integrations together with the log of analysis results.
pub struct IntegrationManager {
    integrations: Vec<Integration>,
    analysis_results: Vec<IntegrationAnalysisResult>,
}

/// State of one analysis; Completed and Failed are terminal.
#[derive(Debug, Clone, Copy, PartialEq, Eq, Structural)]
pub enum AnalysisStatus {
    Processing,
    Completed,
    Failed,
    Pending,
}

/// One analysis attempt of an integration. Times are milliseconds.
#[derive(Debug)]
pub struct IntegrationAnalysisResult {
    pub id: String,
    pub integration_id: String,
    pub system_name: String,
    pub data_source: String,
    pub analysis_result: Payload,
    pub status: AnalysisStatus,
    pub created_at: i64,
    pub processing_time_ms: u64,
    pub insights_count: usize,
    pub recommendations_count: usize,
}

impl IntegrationManager {
    /// The registered integrations, in order of creation.
    pub closed spec fn integrations(&self) -> Seq<Integration> {
        self.integrations@
    }

    /// Every analysis result of every integration, in order of submission.
    pub closed spec fn log(&self) -> Seq<IntegrationAnalysisResult> {
        self.analysis_results@
    }

    /// No two integrations share an id or an API key, and every logged
    /// result belongs to a registered integration. `new` establishes it and
    /// every method that changes the manager keeps it.
    pub open spec fn wf(&self) -> bool {
        &&& integrations_unique(self.integrations())
        &&& forall|k: int|
            0 <= k < self.log().len() ==> #[trigger] registered(
                self.integrations(),
                self.log()[k].integration_id@,
            )
    }

    pub fn new() -> (r: IntegrationManager)
        ensures
            r.wf(),
            r.integrations() == Seq::<Integration>::empty(),
            r.log() == Seq::<IntegrationAnalysisResult>::empty(),
    {
        IntegrationManager { integrations: Vec::new(), analysis_results: Vec::new() }
    }

    fn find_by_id(&self, id: &str) -> (r: Option<usize>)
        ensures
            match r {
                Some(i) => i < self.integrations@.len() && by_id(self.integrations(), id@) == Some(
                    self.integrations@[i as int],
                ),
                None => by_id(self.integrations(), id@) is None,
            },
    {
        let key = id.to_string();
        let mut i: usize = self.integrations.len();
        while i > 0
            invariant
                0 <= i <= self.integrations@.len(),
                key@ == id@,
                by_id(self.integrations(), id@) == by_id_upto(self.integrations@, id@, i as nat),
            decreases i,
        {
            if self.integrations[i - 1].id == key {
                return Some(i - 1);
            }
            i = i - 1;
        }
        None
    }

    fn find_by_key(&self, api_key: &str) -> (r: Option<usize>)
        ensures
            match r {
                Some(i) => i < self.integrations@.len() && by_key(self.integrations(), api_key@)
                    == Some(self.integrations@[i as int]),
                None => by_key(self.integrations(), api_key@) is None,
            },
    {
        let key = api_key.to_string();
        let mut i: usize = self.integrations.len();
        while i > 0
            invariant
                0 <= i <= self.integrations@.len(),
                key@ == api_key@,
                by_key(self.integrations(), api_key@) == by_key_upto(
                    self.integrations@,
                    api_key@,
                    i as nat,
                ),
            decreases i,
        {
            if self.integrations[i - 1].api_key == key {
                return Some(i - 1);
            }
            i = i - 1;
        }
        None
    }

    /// Get integration by id.
    pub fn get_integration(&self, id: &str) -> (r: Option<&Integration>)
        ensures
            match r {
                Some(x) => by_id(self.integrations(), id@) == Some(*x),
                None => by_id(self.integrations(), id@) is None,
            },
    {
        match self.find_by_id(id) {
            Some(i) => Some(&self.integrations[i]),
            None => None,
        }
    }

    /// Get integration by API key.
    pub fn get_integration_by_api_key(&self, api_key: &str) -> (r: Option<&Integration>)
        ensures
            match r {
                Some(x) => by_key(self.integrations(), api_key@) == Some(*x),
                None => by_key(self.integrations(), api_key@) is None,
            },
    {
        match self.find_by_key(api_key) {
            Some(i) => Some(&self.integrations[i]),
            None => None,
        }
    }

    /// All integrations, in order of creation.
    pub fn list_integrations(&self) -> (r: Vec<&Integration>)
        ensures
            r@.map_values(|x: &Integration| *x) == self.integrations(),
    {
        let mut out: Vec<&Integration> = Vec::new();
        let mut i: usize = 0;
        while i < self.integrations.len()
            invariant
                0 <= i <= self.integrations@.len(),
                out@.map_values(|x: &Integration| *x) == self.integrations@.subrange(0, i as int),
            decreases self.integrations@.len() - i,
        {
            let ghost before = out@;
            out.push(&self.integrations[i]);
            assert(out@.map_values(|x: &Integration| *x) =~= before.map_values(|x: &Integration| *x).push(
                self.integrations@[i as int],
            ));
            assert(self.integrations@.subrange(0, i + 1) =~= self.integrations@.subrange(0, i as int).push(
                self.integrations@[i as int],
            ));
            i = i + 1;
        }
        assert(out@.map_values(|x: &Integration| *x) =~= self.integrations@);
        out
    }

    /// The integrations that belong to a user, in order of creation.
    pub fn get_user_integrations(&self, user_id: &str) -> (r: Vec<&Integration>)
        ensures
            r@.map_values(|x: &Integration| *x) == owned_upto(
                self.integrations(),
                user_id@,
                self.integrations().len(),
            ),
    {
        let owner = user_id.to_string();
        let mut out: Vec<&Integration> = Vec::new();
        let mut i: usize = 0;
        while i < self.integrations.len()
            invariant
                0 <= i <= self.integrations@.len(),
                owner@ == user_id@,
                out@.map_values(|x: &Integration| *x) == owned_upto(self.integrations@, user_id@, i as nat),
            decreases self.integrations@.len() - i,
        {
            let x = &self.integrations[i];
            let ghost before = out@;
            match &x.owner_id {
                Some(o) => {
                    if *o == owner {
                        out.push(x);
                        assert(out@.map_values(|x: &Integration| *x) =~= before.map_values(
                            |x: &Integration| *x,
                        ).push(*x));
                    }
                },
                None => {},
            }
            i = i + 1;
        }
        out
    }

    /// Registers an integration with the given id, API key and time of
    /// creation; it starts active. Fails where the id or the key is taken.
    pub fn insert_integration(
        &mut self,
        id: String,
        api_key: String,
        request: CreateIntegrationRequest,
        owner_id: Option<String>,
        now: i64,
    ) -> (r: Result<(), CreateError>)
        requires
            old(self).wf(),
        ensures
            final(self).wf(),
            final(self).log() == old(self).log(),
            by_id(old(self).integrations(), id@) is Some ==> r == Err::<(), CreateError>(
                CreateError::IdInUse,
            ),
            by_id(old(self).integrations(), id@) is None && by_key(old(self).integrations(), api_key@) is Some
                ==> r == Err::<(), CreateError>(CreateError::ApiKeyInUse),
            r is Err ==> final(self).integrations() == old(self).integrations(),
            r is Ok <==> (by_id(old(self).integrations(), id@) is None && by_key(
                old(self).integrations(),
                api_key@,
            ) is None),
            r is Ok ==> final(self).integrations() == old(self).integrations().push(
                Integration {
                    id,
                    name: request.name,
                    system_type: request.system_type,
                    api_key,
                    webhook_url: request.webhook_url,
                    status: IntegrationStatus::Active,
                    created_at: now,
                    last_activity: None,
                    configuration: request.configuration,
                    owner_id,
                },
            ),
    {
        if self.find_by_id(id.as_str()).is_some() {
            return Err(CreateError::IdInUse);
        }
        if self.find_by_key(api_key.as_str()).is_some() {
            return Err(CreateError::ApiKeyInUse);
        }
        proof {
            lemma_by_id(self.integrations(), id@);
            lemma_by_key_upto(self.integrations(), api_key@, self.integrations().len());
        }
        let integration = Integration {
            id,
            name: request.name,
            system_type: request.system_type,
            api_key,
            webhook_url: request.webhook_url,
            status: IntegrationStatus::Active,
            created_at: now,
            last_activity: None,
            configuration: request.configuration,
            owner_id,
        };
        let ghost before = self.integrations@;
        self.integrations.push(integration);
        proof {
            let added = self.integrations@.last();
            assert(before.push(added) =~= self.integrations@);
            assert forall|k: int| 0 <= k < self.log().len() implies #[trigger] registered(
                self.integrations(),
                self.log()[k].integration_id@,
            ) by {
                lemma_registered_push(before, added, self.log()[k].integration_id@);
            }
        }
        Ok(())
    }

    fn register(&mut self, request: CreateIntegrationRequest, owner_id: Option<String>) -> (r: Result<
        String,
        CreateError,
    >)
        requires
            old(self).wf(),
        ensures
            final(self).wf(),
            final(self).log() == old(self).log(),
            match r {
                Ok(id) => final(self).integrations().len() == old(self).integrations().len() + 1
                    && final(self).integrations().drop_last() == old(self).integrations()
                    && is_registered_for(final(self).integrations().last(), id, request, opt_view(owner_id)),
                Err(_) => final(self).integrations() == old(self).integrations(),
            },
            r is Err ==> draw_can_collide(old(self).integrations()),
            old(self).integrations().len() == 0 ==> r is Ok,
    {
        let integration_id = new_uuid();
        let token = new_uuid();
        let api_key = api_key_from(token.as_str());
        let (now, _) = current_time();
        let id_copy = integration_id.clone();
        let ghost u = token@;
        let ghost drawn_id = integration_id@;
        let ghost drawn_key = api_key@;
        proof {
            if old(self).integrations().len() == 0 {
                lemma_empty_store_cannot_collide(old(self).integrations());
            }
        }
        match self.insert_integration(integration_id, api_key, request, owner_id, now) {
            Ok(()) => {
                assert(u.len() == 36 && api_key_for(u) == self.integrations().last().api_key@);
                assert(self.integrations().drop_last() =~= old(self).integrations());
                Ok(id_copy)
            },
            Err(e) => {
                assert(drawn_id.len() == 36 && u.len() == 36 && (by_id(old(self).integrations(), drawn_id) is Some
                    || by_key(old(self).integrations(), api_key_for(u)) is Some));
                Err(e)
            },
        }
    }

    /// Creates an integration with a fresh random id and API key; returns its
    /// id. Fails only where a drawn value is already taken.
    pub fn create_integration(&mut self, request: CreateIntegrationRequest) -> (r: Result<String, CreateError>)
        requires
            old(self).wf(),
        ensures
            final(self).wf(),
            final(self).log() == old(self).log(),
            match r {
                Ok(id) => final(self).integrations().len() == old(self).integrations().len() + 1
                    && final(self).integrations().drop_last() == old(self).integrations()
                    && is_registered_for(final(self).integrations().last(), id, request, None),
                Err(_) => final(self).integrations() == old(self).integrations(),
            },
            r is Err ==> draw_can_collide(old(self).integrations()),
            old(self).integrations().len() == 0 ==> r is Ok,
    {
        self.register(request, None)
    }

    /// Creates an integration that belongs to a user, with a fresh random id
    /// and API key; returns its id. Fails only where a drawn value is taken.
    pub fn create_user_integration(&mut self, user_id: &str, request: CreateIntegrationRequest) -> (r: Result<
        String,
        CreateError,
    >)
        requires
            old(self).wf(),
        ensures
            final(self).wf(),
            final(self).log() == old(self).log(),
            match r {
                Ok(id) => final(self).integrations().len() == old(self).integrations().len() + 1
                    && final(self).integrations().drop_last() == old(self).integrations()
                    && is_registered_for(final(self).integrations().last(), id, request, Some(user_id@)),
                Err(_) => final(self).integrations() == old(self).integrations(),
            },
            r is Err ==> draw_can_collide(old(self).integrations()),
            old(self).integrations().len() == 0 ==> r is Ok,
    {
        let owner = user_id.to_string();
        let ghost o = owner;
        let r = self.register(request, Some(owner));
        assert(r is Ok ==> o@ == user_id@);
        r
    }

    /// Sets the status of an integration; returns whether it exists.
    pub fn set_integration_status(&mut self, id: &str, status: IntegrationStatus) -> (r: bool)
        requires
            old(self).wf(),
        ensures
            final(self).wf(),
            final(self).log() == old(self).log(),
            r == by_id(old(self).integrations(), id@) is Some,
            r ==> exists|k: int|
                0 <= k < old(self).integrations().len() && old(self).integrations()[k].id@ == id@
                    && final(self).integrations() == old(self).integrations().update(
                    k,
                    Integration { status, ..old(self).integrations()[k] },
                ),
            !r ==> final(self).integrations() == old(self).integrations(),
    {
        proof {
            lemma_by_id(self.integrations(), id@);
        }
        match self.find_by_id(id) {
            Some(k) => {
                let ghost before = self.integrations@;
                let mut updated = self.integrations.remove(k);
                updated.status = status;
                self.integrations.insert(k, updated);
                proof {
                    assert(self.integrations@ =~= before.update(
                        k as int,
                        Integration { status, ..before[k as int] },
                    ));
                    assert forall|i: int, j: int| 0 <= i < j < self.integrations@.len() implies self.integrations@[i].id@
                        != self.integrations@[j].id@ && self.integrations@[i].api_key@
                        != self.integrations@[j].api_key@ by {
                        assert(before[i].id@ != before[j].id@);
                    }
                    assert forall|i: int| 0 <= i < self.log().len() implies #[trigger] registered(
                        self.integrations(),
                        self.log()[i].integration_id@,
                    ) by {
                        lemma_registered_update(
                            before,
                            k as int,
                            Integration { status, ..before[k as int] },
                            self.log()[i].integration_id@,
                        );
                    }
                }
                true
            },
            None => false,
        }
    }

    /// Deletes an integration and discards its results. Returns whether it
    /// existed; deleting an absent id changes nothing.
    pub fn delete_integration(&mut self, id: &str) -> (r: bool)
        requires
            old(self).wf(),
        ensures
            final(self).wf(),
            r == by_id(old(self).integrations(), id@) is Some,
            r ==> exists|k: int|
                0 <= k < old(self).integrations().len() && old(self).integrations()[k].id@ == id@
                    && final(self).integrations() == old(self).integrations().remove(k),
            !r ==> final(self).integrations() == old(self).integrations(),
            !r ==> final(self).log() == old(self).log(),
            final(self).log() == others_upto(old(self).log(), id@, old(self).log().len()),
            by_id(final(self).integrations(), id@) is None,
            results_of(final(self).log(), id@) == Seq::<IntegrationAnalysisResult>::empty(),
            newest_first(final(self).log(), id@) == Seq::<IntegrationAnalysisResult>::empty(),
    {
        let found = self.find_by_id(id);
        proof {
            lemma_by_id(self.integrations(), id@);
        }
        let ghost before = self.integrations@;
        match found {
            Some(k) => {
                self.integrations.remove(k);
                proof {
                    let after = self.integrations@;
                    assert forall|i: int, j: int| 0 <= i < j < after.len() implies after[i].id@
                        != after[j].id@ && after[i].api_key@ != after[j].api_key@ by {
                        let oi = if i < k { i } else { i + 1 };
                        let oj = if j < k { j } else { j + 1 };
                        assert(before[oi].id@ != before[oj].id@);
                    }
                    assert forall|i: int| 0 <= i < after.len() implies after[i].id@ != id@ by {
                        let oi = if i < k { i } else { i + 1 };
                        if oi < k {
                            assert(before[oi].id@ != before[k as int].id@);
                        } else {
                            assert(before[k as int].id@ != before[oi].id@);
                        }
                    }
                    lemma_by_id(after, id@);
                }
            },
            None => {},
        }
        self.discard_results(id);
        proof {
            let old_log = old(self).log();
            let fin = self.integrations();
            lemma_others_exclude(old_log, id@, old_log.len());
            lemma_others_from_log(old_log, id@, old_log.len());
            assert forall|i: int| 0 <= i < self.log().len() implies #[trigger] registered(
                fin,
                self.log()[i].integration_id@,
            ) by {
                let iid = self.log()[i].integration_id@;
                let k0 = choose|k0: int| 0 <= k0 < old_log.len() && old_log[k0] == #[trigger] self.log()[i];
                assert(registered(before, old_log[k0].integration_id@));
                let j = choose|j: int| 0 <= j < before.len() && #[trigger] before[j].id@ == iid;
                assert(iid != id@);
                match found {
                    Some(k) => {
                        assert(j != k);
                        if j < k {
                            assert(fin[j].id@ == iid);
                        } else {
                            assert(fin[j - 1].id@ == iid);
                        }
                    },
                    None => {
                        assert(fin[j].id@ == iid);
                    },
                }
            }
            if found is None {
                assert forall|k: int| 0 <= k < old_log.len() implies #[trigger] old_log[k].integration_id@ != id@ by {
                    assert(registered(before, old_log[k].integration_id@));
                }
                lemma_others_all(old_log, id@, old_log.len());
                assert(old_log.subrange(0, old_log.len() as int) =~= old_log);
            }
        }
        found.is_some()
    }

    fn discard_results(&mut self, iid: &str)
        ensures
            final(self).integrations() == old(self).integrations(),
            final(self).log() == others_upto(old(self).log(), iid@, old(self).log().len()),
            results_of(final(self).log(), iid@) == Seq::<IntegrationAnalysisResult>::empty(),
            newest_first(final(self).log(), iid@) == Seq::<IntegrationAnalysisResult>::empty(),
    {
        let key = iid.to_string();
        let ghost old_log = self.analysis_results@;
        let ghost mut j: int = 0;
        let mut i: usize = 0;
        while i < self.analysis_results.len()
            invariant
                self.integrations@ == old(self).integrations@,
                old_log == old(self).analysis_results@,
                key@ == iid@,
                0 <= i <= self.analysis_results@.len(),
                0 <= j <= old_log.len(),
                self.analysis_results@.subrange(0, i as int) == others_upto(old_log, iid@, j as nat),
                self.analysis_results@.subrange(i as int, self.analysis_results@.len() as int)
                    == old_log.subrange(j, old_log.len() as int),
            decreases self.analysis_results@.len() - i,
        {
            let ghost cur = self.analysis_results@;
            assert(cur[i as int] == old_log[j]) by {
                let a = cur.subrange(i as int, cur.len() as int);
                let b = old_log.subrange(j, old_log.len() as int);
                assert(a.len() == b.len());
                assert(a[0] == cur[i as int]);
                assert(b[0] == old_log[j]);
            }
            if self.analysis_results[i].integration_id == key {
                self.analysis_results.remove(i);
                proof {
                    let after = self.analysis_results@;
                    assert(after.subrange(0, i as int) =~= cur.subrange(0, i as int));
                    assert(after.subrange(i as int, after.len() as int) =~= cur.subrange(
                        i as int,
                        cur.len() as int,
                    ).drop_first());
                    assert(old_log.subrange(j + 1, old_log.len() as int) =~= old_log.subrange(
                        j,
                        old_log.len() as int,
                    ).drop_first());
                    j = j + 1;
                }
            } else {
                proof {
                    assert(cur.subrange(0, i + 1) =~= cur.subrange(0, i as int).push(cur[i as int]));
                    assert(cur.subrange(i + 1, cur.len() as int) =~= cur.subrange(
                        i as int,
                        cur.len() as int,
                    ).drop_first());
                    assert(old_log.subrange(j + 1, old_log.len() as int) =~= old_log.subrange(
                        j,
                        old_log.len() as int,
                    ).drop_first());
                    j = j + 1;
                }
                i = i + 1;
            }
        }
        proof {
            let fin = self.analysis_results@;
            assert(fin.subrange(0, i as int) =~= fin);
            assert(j == old_log.len()) by {
                assert(old_log.subrange(j, old_log.len() as int).len() == 0);
            }
            lemma_others_exclude(old_log, iid@, old_log.len());
            lemma_no_results(fin, iid@, fin.len());
        }
    }

    /// The results of an integration, newest first, at most `limit` of them.
    pub fn get_analysis_results(&self, integration_id: &str, limit: Option<usize>) -> (r: Vec<
        &IntegrationAnalysisResult,
    >)
        ensures
            r@.map_values(|x: &IntegrationAnalysisResult| *x) == limited(
                newest_first(self.log(), integration_id@),
                limit,
            ),
            is_newest_first(r@.map_values(|x: &IntegrationAnalysisResult| *x)),
            limit is None ==> r@.map_values(|x: &IntegrationAnalysisResult| *x).to_multiset()
                == results_of(self.log(), integration_id@).to_multiset(),
    {
        let key = integration_id.to_string();
        let ghost log = self.analysis_results@;
        let mut out: Vec<&IntegrationAnalysisResult> = Vec::new();
        let mut i: usize = 0;
        while i < self.analysis_results.len()
            invariant
                log == self.analysis_results@,
                key@ == integration_id@,
                0 <= i <= log.len(),
                out@.map_values(|x: &IntegrationAnalysisResult| *x) == newest_first_upto(
                    log,
                    integration_id@,
                    i as nat,
                ),
            decreases log.len() - i,
        {
            let x = &self.analysis_results[i];
            if x.integration_id == key {
                let ghost s = out@.map_values(|y: &IntegrationAnalysisResult| *y);
                let mut p: usize = 0;
                while p < out.len() && out[p].created_at >= x.created_at
                    invariant
                        0 <= p <= out@.len(),
                        s == out@.map_values(|y: &IntegrationAnalysisResult| *y),
                        forall|q: int| 0 <= q < p ==> s[q].created_at >= x.created_at,
                    decreases out@.len() - p,
                {
                    p = p + 1;
                }
                proof {
                    lemma_insert_newest_first_at(*x, s, p as int);
                }
                let ghost before = out@;
                out.insert(p, x);
                assert(out@.map_values(|y: &IntegrationAnalysisResult| *y) =~= s.insert(p as int, *x));
            }
            i = i + 1;
        }
        proof {
            lemma_query_order(log, integration_id@, limit);
        }
        match limit {
            Some(l) => {
                if l < out.len() {
                    let ghost full = out@;
                    out.truncate(l);
                    assert(out@.map_values(|y: &IntegrationAnalysisResult| *y) =~= full.map_values(
                        |y: &IntegrationAnalysisResult| *y,
                    ).take(l as int));
                }
            },
            None => {},
        }
        out
    }

    /// One result of an integration, by its id.
    pub fn get_analysis_result(&self, integration_id: &str, result_id: &str) -> (r: Option<
        &IntegrationAnalysisResult,
    >)
        ensures
            match r {
                Some(x) => {
                    let k = owned_result_index_upto(
                        self.log(),
                        integration_id@,
                        result_id@,
                        self.log().len(),
                    );
                    0 <= k < self.log().len() && self.log()[k] == *x
                },
                None => owned_result_index_upto(
                    self.log(),
                    integration_id@,
                    result_id@,
                    self.log().len(),
                ) == -1,
            },
    {
        let iid = integration_id.to_string();
        let rid = result_id.to_string();
        let ghost log = self.analysis_results@;
        let mut i: usize = self.analysis_results.len();
        while i > 0
            invariant
                log == self.analysis_results@,
                iid@ == integration_id@,
                rid@ == result_id@,
                0 <= i <= log.len(),
                owned_result_index_upto(log, integration_id@, result_id@, log.len())
                    == owned_result_index_upto(log, integration_id@, result_id@, i as nat),
            decreases i,
        {
            let x = &self.analysis_results[i - 1];
            if x.id == rid && x.integration_id == iid {
                return Some(x);
            }
            i = i - 1;
        }
        None
    }

    fn result_position(&self, result_id: &str) -> (r: Option<usize>)
        ensures
            match r {
                Some(k) => k as int == result_index(self.log(), result_id@),
                None => result_index(self.log(), result_id@) < 0,
            },
    {
        let rid = result_id.to_string();
        let mut i: usize = self.analysis_results.len();
        while i > 0
            invariant
                rid@ == result_id@,
                0 <= i <= self.analysis_results@.len(),
                result_index(self.log(), result_id@) == result_index_upto(
                    self.analysis_results@,
                    result_id@,
                    i as nat,
                ),
            decreases i,
        {
            if self.analysis_results[i - 1].id == rid {
                return Some(i - 1);
            }
            i = i - 1;
        }
        None
    }

    /// Starts an analysis: checks the API key and the integration's status,
    /// appends a pending record with the given id and time, records the
    /// activity, and hands back what the inference needs.
    pub fn begin_analysis(&mut self, request: &AnalysisRequest, result_id: String, now: i64) -> (r: Result<
        PendingAnalysis,
        AnalysisError,
    >)
        requires
            old(self).wf(),
        ensures
            final(self).wf(),
            begins(*old(self), *final(self), *request, result_id@, now, r),
    {
        let k = match self.find_by_key(request.api_key.as_str()) {
            Some(k) => k,
            None => {
                return Err(AnalysisError::InvalidCredential);
            },
        };
        if self.integrations[k].status != IntegrationStatus::Active {
            return Err(AnalysisError::IntegrationInactive);
        }
        proof {
            lemma_result_index_upto(self.log(), result_id@, self.log().len());
        }
        if self.result_position(result_id.as_str()).is_some() {
            return Err(AnalysisError::ResultIdInUse);
        }
        let ghost x = self.integrations@[k as int];
        let integration = &self.integrations[k];
        let domain: &str = match &request.domain {
            Some(d) => d.as_str(),
            None => "generic",
        };
        let model: String = match &request.model {
            Some(m) => m.clone(),
            None => "llama2".to_string(),
        };
        let prompt = "Analyze this ".to_string().concat(domain).concat(
            " data from external system '",
        ).concat(integration.name.as_str()).concat("' and provide comprehensive insights:");
        let webhook_url = match &integration.webhook_url {
            Some(u) => if integration.configuration.notification_settings.webhook_notifications {
                Some(u.clone())
            } else {
                None
            },
            None => None,
        };
        let record = IntegrationAnalysisResult {
            id: result_id.clone(),
            integration_id: integration.id.clone(),
            system_name: integration.name.clone(),
            data_source: "external_system".to_string(),
            analysis_result: Payload::Empty,
            status: AnalysisStatus::Pending,
            created_at: now,
            processing_time_ms: 0,
            insights_count: 0,
            recommendations_count: 0,
        };
        let integration_id = integration.id.clone();
        self.analysis_results.push(record);
        let ghost before = self.integrations@;
        let mut updated = self.integrations.remove(k);
        updated.last_activity = Some(now);
        self.integrations.insert(k, updated);
        proof {
            assert(self.integrations@ =~= before.update(k as int, Integration { last_activity: Some(now), ..x }));
            assert forall|i: int, j: int| 0 <= i < j < self.integrations@.len() implies self.integrations@[i].id@
                != self.integrations@[j].id@ && self.integrations@[i].api_key@ != self.integrations@[j].api_key@ by {
                assert(before[i].id@ != before[j].id@);
            }
            assert(self.log().drop_last() =~= old(self).log());
            let y = Integration { last_activity: Some(now), ..x };
            assert forall|i: int| 0 <= i < self.log().len() implies #[trigger] registered(
                self.integrations(),
                self.log()[i].integration_id@,
            ) by {
                if i < old(self).log().len() {
                    assert(self.log()[i] == old(self).log()[i]);
                    lemma_registered_update(before, k as int, y, self.log()[i].integration_id@);
                } else {
                    assert(self.integrations()[k as int].id@ == self.log()[i].integration_id@);
                }
            }
        }
        Ok(PendingAnalysis { integration_id, result_id, model, prompt, webhook_url })
    }

    /// Finishes an analysis with the outcome of its inference. A success
    /// completes the record with the interpreted payload and returns where
    /// to announce it; a failure fails the record and is returned. A record
    /// that is missing or already terminal is left alone.
    pub fn complete_analysis(
        &mut self,
        pending: &PendingAnalysis,
        outcome: Result<String, String>,
        parsed: Option<Json>,
        data: Json,
        elapsed_ms: u64,
        timestamp: String,
        callback_url: Option<String>,
    ) -> (r: Result<Vec<String>, AnalysisError>)
        requires
            old(self).wf(),
        ensures
            final(self).wf(),
            final(self).integrations() == old(self).integrations(),
            final(self).log().len() == old(self).log().len(),
            completes(
                *old(self),
                *final(self),
                pending.result_id@,
                pending.webhook_url,
                outcome,
                parsed,
                data,
                elapsed_ms,
                timestamp,
                callback_url,
                r,
            ),
    {
        proof {
            lemma_result_index_upto(self.log(), pending.result_id@, self.log().len());
        }
        let k = match self.result_position(pending.result_id.as_str()) {
            Some(k) => k,
            None => {
                return Err(AnalysisError::NotFound);
            },
        };
        let status = self.analysis_results[k].status;
        if status == AnalysisStatus::Completed || status == AnalysisStatus::Failed {
            return Err(AnalysisError::NotFound);
        }
        let ghost before = self.analysis_results@;
        let old_record = self.analysis_results.remove(k);
        match outcome {
            Ok(raw) => {
                let payload = parse_ai_response(raw.as_str(), parsed, data, timestamp);
                let insights = count_insights(&payload);
                let recommendations = count_recommendations(&payload);
                let record = IntegrationAnalysisResult {
                    id: old_record.id,
                    integration_id: old_record.integration_id,
                    system_name: old_record.system_name,
                    data_source: old_record.data_source,
                    analysis_result: payload,
                    status: AnalysisStatus::Completed,
                    created_at: old_record.created_at,
                    processing_time_ms: elapsed_ms,
                    insights_count: insights,
                    recommendations_count: recommendations,
                };
                self.analysis_results.insert(k, record);
                let mut targets: Vec<String> = Vec::new();
                if let Some(w) = &pending.webhook_url {
                    targets.push(w.clone());
                }
                if let Some(c) = callback_url {
                    targets.push(c);
                }
                assert(targets.deep_view() =~= notification_targets(pending.webhook_url, callback_url));
                proof {
                    assert(self.analysis_results@ =~= before.update(k as int, self.analysis_results@[k as int]));
                }
                Ok(targets)
            },
            Err(message) => {
                let detail = "Analysis failed: ".to_string().concat(message.as_str());
                let record = IntegrationAnalysisResult {
                    id: old_record.id,
                    integration_id: old_record.integration_id,
                    system_name: old_record.system_name,
                    data_source: old_record.data_source,
                    analysis_result: Payload::Failure(detail.clone()),
                    status: AnalysisStatus::Failed,
                    created_at: old_record.created_at,
                    processing_time_ms: 0,
                    insights_count: 0,
                    recommendations_count: 0,
                };
                self.analysis_results.insert(k, record);
                proof {
                    assert(self.analysis_results@ =~= before.update(k as int, self.analysis_results@[k as int]));
                }
                Err(AnalysisError::InferenceFailure(detail))
            },
        }
    }

    /// Point-in-time statistics, with `now` as the end of the trailing day.
    pub fn get_dashboard_stats(&self, now: i64) -> (r: DashboardStats)
        ensures
            r.total_integrations == self.integrations().len(),
            r.active_integrations == active_upto(self.integrations(), self.integrations().len()),
            r.total_analyses == self.log().len(),
            r.successful_analyses == completed_upto(self.log(), self.log().len()),
            r.recent_analyses_24h == recent_upto(self.log(), now, self.log().len()),
            r.successful_analyses <= r.total_analyses,
            r.active_integrations <= r.total_integrations,
    {
        let mut active: usize = 0;
        let mut i: usize = 0;
        while i < self.integrations.len()
            invariant
                0 <= i <= self.integrations@.len(),
                active == active_upto(self.integrations@, i as nat),
                active <= i,
            decreases self.integrations@.len() - i,
        {
            if self.integrations[i].status == IntegrationStatus::Active {
                active = active + 1;
            }
            i = i + 1;
        }
        let mut successful: usize = 0;
        let mut recent: usize = 0;
        let mut j: usize = 0;
        while j < self.analysis_results.len()
            invariant
                0 <= j <= self.analysis_results@.len(),
                successful == completed_upto(self.analysis_results@, j as nat),
                recent == recent_upto(self.analysis_results@, now, j as nat),
                successful <= j,
                recent <= j,
            decreases self.analysis_results@.len() - j,
        {
            let x = &self.analysis_results[j];
            if x.status == AnalysisStatus::Completed {
                successful = successful + 1;
            }
            let within_day = if now >= i64::MIN + DAY_MILLIS {
                x.created_at > now - DAY_MILLIS
            } else {
                true
            };
            if within_day {
                recent = recent + 1;
            }
            j = j + 1;
        }
        DashboardStats {
            total_integrations: self.integrations.len(),
            active_integrations: active,
            total_analyses: self.analysis_results.len(),
            successful_analyses: successful,
            recent_analyses_24h: recent,
        }
    }

    /// Starts an analysis with a fresh random result id at the current time.
    pub fn submit_analysis(&mut self, request: &AnalysisRequest) -> (r: Result<PendingAnalysis, AnalysisError>)
        requires
            old(self).wf(),
        ensures
            final(self).wf(),
            exists|rid: Seq<char>, now: i64| begins(*old(self), *final(self), *request, rid, now, r),
    {
        let result_id = new_uuid();
        let (now, _) = current_time();
        let ghost rid = result_id@;
        let r = self.begin_analysis(request, result_id, now);
        assert(begins(*old(self), *self, *request, rid, now, r));
        r
    }

    /// Finishes an analysis as `complete_analysis` does, stamping a
    /// synthesized report with the current time.
    pub fn finish_analysis(
        &mut self,
        pending: &PendingAnalysis,
        outcome: Result<String, String>,
        parsed: Option<Json>,
        data: Json,
        elapsed_ms: u64,
        callback_url: Option<String>,
    ) -> (r: Result<Vec<String>, AnalysisError>)
        requires
            old(self).wf(),
        ensures
            final(self).wf(),
            final(self).integrations() == old(self).integrations(),
            final(self).log().len() == old(self).log().len(),
            exists|timestamp: String|
                completes(
                    *old(self),
                    *final(self),
                    pending.result_id@,
                    pending.webhook_url,
                    outcome,
                    parsed,
                    data,
                    elapsed_ms,
                    timestamp,
                    callback_url,
                    r,
                ),
    {
        let (_, timestamp) = current_time();
        let ghost ts = timestamp;
        let r = self.complete_analysis(pending, outcome, parsed, data, elapsed_ms, timestamp, callback_url);
        assert(completes(
            *old(self),
            *self,
            pending.result_id@,
            pending.webhook_url,
            outcome,
            parsed,
            data,
            elapsed_ms,
            ts,
            callback_url,
            r,
        ));
        r
    }

    /// Statistics over the integrations of one user and their results, with
    /// `now` as the end of the trailing day.
    pub fn get_user_dashboard_stats(&self, user_id: &str, now: i64) -> (r: DashboardStats)
        ensures
            r.total_integrations == owned_upto(self.integrations(), user_id@, self.integrations().len()).len(),
            r.active_integrations == owned_active_upto(self.integrations(), user_id@, self.integrations().len()),
            r.total_analyses == owned_results_upto(self.integrations(), self.log(), user_id@, Tally::All, now, self.log().len()),
            r.successful_analyses == owned_results_upto(self.integrations(), self.log(), user_id@, Tally::Completed, now, self.log().len()),
            r.recent_analyses_24h == owned_results_upto(self.integrations(), self.log(), user_id@, Tally::Recent, now, self.log().len()),
            r.successful_analyses <= r.total_analyses,
            r.active_integrations <= r.total_integrations,
    {
        let owner = user_id.to_string();
        let mut total: usize = 0;
        let mut active: usize = 0;
        let mut i: usize = 0;
        while i < self.integrations.len()
            invariant
                owner@ == user_id@,
                0 <= i <= self.integrations@.len(),
                total == owned_upto(self.integrations@, user_id@, i as nat).len(),
                active == owned_active_upto(self.integrations@, user_id@, i as nat),
                active <= total <= i,
            decreases self.integrations@.len() - i,
        {
            let x = &self.integrations[i];
            let mine = match &x.owner_id {
                Some(o) => *o == owner,
                None => false,
            };
            if mine {
                total = total + 1;
                if x.status == IntegrationStatus::Active {
                    active = active + 1;
                }
            }
            i = i + 1;
        }
        let mut analyses: usize = 0;
        let mut successful: usize = 0;
        let mut recent: usize = 0;
        let mut j: usize = 0;
        while j < self.analysis_results.len()
            invariant
                owner@ == user_id@,
                0 <= j <= self.analysis_results@.len(),
                analyses == owned_results_upto(self.integrations@, self.analysis_results@, user_id@, Tally::All, now, j as nat),
                successful == owned_results_upto(self.integrations@, self.analysis_results@, user_id@, Tally::Completed, now, j as nat),
                recent == owned_results_upto(self.integrations@, self.analysis_results@, user_id@, Tally::Recent, now, j as nat),
                successful <= analyses <= j,
                recent <= analyses,
            decreases self.analysis_results@.len() - j,
        {
            let x = &self.analysis_results[j];
            let mine = match self.find_by_id(x.integration_id.as_str()) {
                Some(k) => match &self.integrations[k].owner_id {
                    Some(o) => *o == owner,
                    None => false,
                },
                None => false,
            };
            if mine {
                analyses = analyses + 1;
                if x.status == AnalysisStatus::Completed {
                    successful = successful + 1;
                }
                let within_day = if now >= i64::MIN + DAY_MILLIS {
                    x.created_at > now - DAY_MILLIS
                } else {
                    true
                };
                if within_day {
                    recent = recent + 1;
                }
            }
            j = j + 1;
        }
        DashboardStats {
            total_integrations: total,
            active_integrations: active,
            total_analyses: analyses,
            successful_analyses: successful,
            recent_analyses_24h: recent,
        }
    }

    /// Statistics at the current time.
    pub fn current_dashboard_stats(&self) -> (r: DashboardStats)
        ensures
            r.total_integrations == self.integrations().len(),
            r.active_integrations == active_upto(self.integrations(), self.integrations().len()),
            r.total_analyses == self.log().len(),
            r.successful_analyses == completed_upto(self.log(), self.log().len()),
            r.successful_analyses <= r.total_analyses,
            exists|now: i64| r.recent_analyses_24h == recent_upto(self.log(), now, self.log().len()),
    {
        let (now, _) = current_time();
        self.get_dashboard_stats(now)
    }
}

} // verus!
