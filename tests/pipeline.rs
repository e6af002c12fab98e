use ai_json_analysis_api::interpreter::{DataSample, InsightKind, Payload};
use ai_json_analysis_api::json::{Json, JsonNumber};
use ai_json_analysis_api::manager::{
    AnalysisError, AnalysisRequest, AnalysisStatus, CreateError, CreateIntegrationRequest,
    IntegrationConfig, IntegrationManager, IntegrationStatus, NotificationSettings, SystemType,
};

fn config(webhooks: bool) -> IntegrationConfig {
    IntegrationConfig {
        auto_analyze: false,
        analysis_domain: None,
        ai_model: None,
        notification_settings: NotificationSettings {
            email_notifications: false,
            webhook_notifications: webhooks,
            dashboard_alerts: false,
            real_time_updates: false,
        },
        data_filters: vec![],
    }
}

fn create_request(name: &str, webhook: Option<&str>, webhooks: bool) -> CreateIntegrationRequest {
    CreateIntegrationRequest {
        name: name.to_string(),
        system_type: SystemType::RestApi,
        webhook_url: webhook.map(|w| w.to_string()),
        configuration: config(webhooks),
    }
}

fn analysis(api_key: &str, data: Json) -> AnalysisRequest {
    AnalysisRequest {
        integration_id: String::new(),
        api_key: api_key.to_string(),
        data,
        domain: Some("ecommerce".to_string()),
        model: Some("llama2".to_string()),
        callback_url: None,
    }
}

fn x_is_one() -> Json {
    Json::Object(vec!["x".to_string()], vec![Json::Number(JsonNumber::Unsigned(1))])
}

fn new_store_with(name: &str) -> (IntegrationManager, String, String) {
    let mut m = IntegrationManager::new();
    let id = m.create_integration(create_request(name, None, false)).unwrap();
    let key = m.get_integration(&id).unwrap().api_key.clone();
    (m, id, key)
}

#[test]
fn scenario_shop_analysis_completes() {
    let (mut m, id, key) = new_store_with("Shop1");
    let integration = m.get_integration(&id).unwrap();
    assert_eq!(integration.status, IntegrationStatus::Active);
    assert_eq!(integration.system_type, SystemType::RestApi);
    assert!(key.starts_with("json_oracle_"));
    assert_eq!(key.len(), 12 + 32);
    assert!(!key.contains('-'));

    let request = analysis(&key, x_is_one());
    let pending = m.begin_analysis(&request, "r1".to_string(), 1_000).unwrap();
    assert_eq!(pending.model, "llama2");
    assert_eq!(
        pending.prompt,
        "Analyze this ecommerce data from external system 'Shop1' and provide comprehensive insights:"
    );
    let targets = m
        .complete_analysis(
            &pending,
            Ok("We see a pattern and recommend you optimize".to_string()),
            None,
            request.data,
            250,
            "2024-01-01T00:00:00+00:00".to_string(),
            None,
        )
        .unwrap();
    assert!(targets.is_empty());

    let result = m.get_analysis_result(&id, "r1").unwrap();
    assert_eq!(result.status, AnalysisStatus::Completed);
    assert_eq!(result.insights_count, 1);
    assert_eq!(result.recommendations_count, 1);
    assert_eq!(result.processing_time_ms, 250);
    match &result.analysis_result {
        Payload::Report(rep) => {
            assert_eq!(rep.insights, vec![InsightKind::Pattern]);
            assert_eq!(rep.recommendations, vec!["Consider optimizing data processing".to_string()]);
            assert_eq!(rep.summary, "We see a pattern and recommend you optimize");
            assert_eq!(rep.data_points, 1);
        }
        other => panic!("unexpected payload {:?}", other),
    }
    assert_eq!(m.get_integration(&id).unwrap().last_activity, Some(1_000));
}

#[test]
fn scenario_unknown_key_is_refused() {
    let (mut m, id, _key) = new_store_with("Shop1");
    let r = m.begin_analysis(&analysis("bogus", Json::Null), "r1".to_string(), 5);
    assert!(matches!(r, Err(AnalysisError::InvalidCredential)));
    assert!(m.get_analysis_results(&id, None).is_empty());
    assert_eq!(m.get_dashboard_stats(5).total_analyses, 0);
}

#[test]
fn scenario_two_submissions_to_one_integration() {
    let (mut m, id, key) = new_store_with("Shop1");
    let first_request = analysis(&key, Json::Null);
    let second_request = analysis(&key, Json::Null);
    let first = m.submit_analysis(&first_request).unwrap();
    let second = m.submit_analysis(&second_request).unwrap();
    assert_ne!(first.result_id, second.result_id);
    let b = m.finish_analysis(&second, Err("timeout".to_string()), None, Json::Null, 10, None);
    match b {
        Err(AnalysisError::InferenceFailure(d)) => assert_eq!(d, "Analysis failed: timeout"),
        other => panic!("unexpected {:?}", other),
    }
    let a = m.finish_analysis(&first, Ok("all fine".to_string()), None, Json::Null, 10, None);
    assert!(a.is_ok());
    let results = m.get_analysis_results(&id, None);
    assert_eq!(results.len(), 2);
    let by_id = |rid: &str| results.iter().find(|r| r.id == rid).unwrap().status;
    assert_eq!(by_id(&first.result_id), AnalysisStatus::Completed);
    assert_eq!(by_id(&second.result_id), AnalysisStatus::Failed);
}

#[test]
fn terminal_result_is_not_changed_again() {
    let (mut m, id, key) = new_store_with("Shop1");
    let request = analysis(&key, Json::Null);
    let pending = m.begin_analysis(&request, "r1".to_string(), 1).unwrap();
    m.complete_analysis(&pending, Err("down".to_string()), None, Json::Null, 5, String::new(), None)
        .unwrap_err();
    let again = m.complete_analysis(
        &pending,
        Ok("pattern".to_string()),
        None,
        Json::Null,
        5,
        String::new(),
        None,
    );
    assert!(matches!(again, Err(AnalysisError::NotFound)));
    let result = m.get_analysis_result(&id, "r1").unwrap();
    assert_eq!(result.status, AnalysisStatus::Failed);
    match &result.analysis_result {
        Payload::Failure(d) => assert_eq!(d, "Analysis failed: down"),
        other => panic!("unexpected payload {:?}", other),
    }
}

#[test]
fn inactive_integration_and_reused_result_id_are_refused() {
    let (mut m, id, key) = new_store_with("Shop1");
    let request = analysis(&key, Json::Null);
    m.begin_analysis(&request, "r1".to_string(), 1).unwrap();
    assert!(matches!(
        m.begin_analysis(&request, "r1".to_string(), 2),
        Err(AnalysisError::ResultIdInUse)
    ));
    assert!(m.set_integration_status(&id, IntegrationStatus::Inactive));
    assert!(matches!(
        m.begin_analysis(&request, "r2".to_string(), 3),
        Err(AnalysisError::IntegrationInactive)
    ));
    assert!(m.set_integration_status(&id, IntegrationStatus::Pending));
    assert!(matches!(
        m.begin_analysis(&request, "r3".to_string(), 3),
        Err(AnalysisError::IntegrationInactive)
    ));
    assert!(!m.set_integration_status("missing", IntegrationStatus::Active));
    assert_eq!(m.get_analysis_results(&id, None).len(), 1);
}

#[test]
fn notifications_go_to_enabled_webhook_and_callback() {
    let mut m = IntegrationManager::new();
    let on = m.create_integration(create_request("A", Some("http://hook/a"), true)).unwrap();
    let off = m.create_integration(create_request("B", Some("http://hook/b"), false)).unwrap();
    let key_on = m.get_integration(&on).unwrap().api_key.clone();
    let key_off = m.get_integration(&off).unwrap().api_key.clone();

    let p = m.begin_analysis(&analysis(&key_on, Json::Null), "a1".to_string(), 1).unwrap();
    assert_eq!(p.webhook_url.as_deref(), Some("http://hook/a"));
    let targets = m
        .complete_analysis(&p, Ok("ok".to_string()), None, Json::Null, 1, String::new(), Some("http://cb".to_string()))
        .unwrap();
    assert_eq!(targets, vec!["http://hook/a".to_string(), "http://cb".to_string()]);

    let q = m.begin_analysis(&analysis(&key_off, Json::Null), "b1".to_string(), 1).unwrap();
    assert_eq!(q.webhook_url, None);
    let failed = m.complete_analysis(&q, Err("x".to_string()), None, Json::Null, 1, String::new(), Some("http://cb".to_string()));
    assert!(matches!(failed, Err(AnalysisError::InferenceFailure(_))));
}

#[test]
fn deletion_discards_integration_and_results() {
    let (mut m, id, key) = new_store_with("Shop1");
    let other = m.create_integration(create_request("Other", None, false)).unwrap();
    let other_key = m.get_integration(&other).unwrap().api_key.clone();
    m.begin_analysis(&analysis(&key, Json::Null), "r1".to_string(), 1).unwrap();
    m.begin_analysis(&analysis(&other_key, Json::Null), "r2".to_string(), 1).unwrap();
    assert!(m.delete_integration(&id));
    assert!(m.get_integration(&id).is_none());
    assert!(m.get_integration_by_api_key(&key).is_none());
    assert!(m.get_analysis_results(&id, None).is_empty());
    assert_eq!(m.get_analysis_results(&other, None).len(), 1);
    assert!(!m.delete_integration(&id));
    assert_eq!(m.list_integrations().len(), 1);
}

#[test]
fn results_are_listed_newest_first_with_limit() {
    let (mut m, id, key) = new_store_with("Shop1");
    let request = analysis(&key, Json::Null);
    m.begin_analysis(&request, "old".to_string(), 100).unwrap();
    m.begin_analysis(&request, "new".to_string(), 300).unwrap();
    m.begin_analysis(&request, "mid".to_string(), 200).unwrap();
    m.begin_analysis(&request, "mid2".to_string(), 200).unwrap();
    let ids: Vec<&str> = m.get_analysis_results(&id, None).iter().map(|r| r.id.as_str()).collect();
    assert_eq!(ids, vec!["new", "mid", "mid2", "old"]);
    let limited: Vec<&str> = m.get_analysis_results(&id, Some(2)).iter().map(|r| r.id.as_str()).collect();
    assert_eq!(limited, vec!["new", "mid"]);
    assert_eq!(m.get_analysis_results(&id, Some(10)).len(), 4);
    assert!(m.get_analysis_result(&id, "missing").is_none());
    assert!(m.get_analysis_result("elsewhere", "old").is_none());
}

#[test]
fn created_ids_and_keys_are_distinct() {
    let mut m = IntegrationManager::new();
    let mut ids = Vec::new();
    for i in 0..20 {
        ids.push(m.create_integration(create_request(&format!("n{}", i), None, false)).unwrap());
    }
    let all = m.list_integrations();
    assert_eq!(all.len(), 20);
    for i in 0..all.len() {
        for j in (i + 1)..all.len() {
            assert_ne!(all[i].id, all[j].id);
            assert_ne!(all[i].api_key, all[j].api_key);
        }
    }
    for (i, id) in ids.iter().enumerate() {
        let integ = m.get_integration(id).unwrap();
        assert_eq!(integ.name, format!("n{}", i));
        assert_eq!(m.get_integration_by_api_key(&integ.api_key).unwrap().id, *id);
        assert_eq!(id.len(), 36);
    }
}

#[test]
fn explicit_ids_and_keys_must_be_fresh() {
    let mut m = IntegrationManager::new();
    assert_eq!(m.insert_integration("i1".to_string(), "k1".to_string(), create_request("a", None, false), None, 7), Ok(()));
    assert_eq!(
        m.insert_integration("i1".to_string(), "k2".to_string(), create_request("b", None, false), None, 7),
        Err(CreateError::IdInUse)
    );
    assert_eq!(
        m.insert_integration("i2".to_string(), "k1".to_string(), create_request("c", None, false), None, 7),
        Err(CreateError::ApiKeyInUse)
    );
    assert_eq!(m.list_integrations().len(), 1);
    assert_eq!(m.get_integration("i1").unwrap().created_at, 7);
}

#[test]
fn user_integrations_are_filtered_by_owner() {
    let mut m = IntegrationManager::new();
    m.create_user_integration("alice", create_request("a", None, false)).unwrap();
    m.create_integration(create_request("anon", None, false)).unwrap();
    m.create_user_integration("bob", create_request("b", None, false)).unwrap();
    m.create_user_integration("alice", create_request("c", None, false)).unwrap();
    let names: Vec<&str> = m.get_user_integrations("alice").iter().map(|i| i.name.as_str()).collect();
    assert_eq!(names, vec!["a", "c"]);
    assert!(m.get_user_integrations("carol").is_empty());
}

#[test]
fn dashboard_counts_are_consistent() {
    let (mut m, id, key) = new_store_with("Shop1");
    let empty = m.get_dashboard_stats(0);
    assert_eq!(empty.total_analyses, 0);
    assert_eq!(empty.successful_analyses, 0);
    let request = analysis(&key, Json::Null);
    let p1 = m.begin_analysis(&request, "a".to_string(), 1_000).unwrap();
    let p2 = m.begin_analysis(&request, "b".to_string(), 100_000_000).unwrap();
    m.begin_analysis(&request, "c".to_string(), 100_000_000).unwrap();
    m.complete_analysis(&p1, Ok("fine".to_string()), None, Json::Null, 1, String::new(), None).unwrap();
    m.complete_analysis(&p2, Err("no".to_string()), None, Json::Null, 1, String::new(), None).unwrap_err();
    m.create_integration(create_request("Other", None, false)).unwrap();
    m.set_integration_status(&id, IntegrationStatus::Inactive);
    let stats = m.get_dashboard_stats(100_000_000);
    assert_eq!(stats.total_integrations, 2);
    assert_eq!(stats.active_integrations, 1);
    assert_eq!(stats.total_analyses, 3);
    assert_eq!(stats.successful_analyses, 1);
    assert_eq!(stats.recent_analyses_24h, 2);
    assert!(m.current_dashboard_stats().successful_analyses <= m.current_dashboard_stats().total_analyses);
}

#[test]
fn adopted_json_payload_counts_its_arrays() {
    let (mut m, id, key) = new_store_with("Shop1");
    let request = analysis(&key, Json::Null);
    let p = m.begin_analysis(&request, "r".to_string(), 1).unwrap();
    let parsed = Json::Object(
        vec!["insights".to_string(), "recommendations".to_string()],
        vec![
            Json::Array(vec![Json::Null, Json::Null, Json::Null]),
            Json::Str("none".to_string()),
        ],
    );
    m.complete_analysis(&p, Ok("{...}".to_string()), Some(parsed), Json::Null, 1, String::new(), None)
        .unwrap();
    let r = m.get_analysis_result(&id, "r").unwrap();
    assert_eq!(r.insights_count, 3);
    assert_eq!(r.recommendations_count, 0);
    assert!(matches!(r.analysis_result, Payload::Adopted(_)));
}

#[test]
fn report_samples_long_array() {
    let (mut m, id, key) = new_store_with("Shop1");
    let request = analysis(&key, Json::Null);
    let p = m.begin_analysis(&request, "r".to_string(), 1).unwrap();
    let data = Json::Array((0..10).map(|i| Json::Number(JsonNumber::Unsigned(i))).collect());
    m.complete_analysis(&p, Ok(String::new()), None, data, 1, "t".to_string(), None).unwrap();
    let r = m.get_analysis_result(&id, "r").unwrap();
    match &r.analysis_result {
        Payload::Report(rep) => {
            assert_eq!(rep.data_points, 10);
            assert_eq!(rep.timestamp, "t");
            assert_eq!(rep.recommendations, vec!["Review analysis results for actionable insights".to_string()]);
            match &rep.sample {
                DataSample::ArrayHead { length, head } => {
                    assert_eq!(*length, 10);
                    assert_eq!(head.len(), 3);
                }
                other => panic!("unexpected sample {:?}", other),
            }
        }
        other => panic!("unexpected payload {:?}", other),
    }
}

#[test]
fn deleting_absent_id_keeps_everything() {
    let (mut m, id, key) = new_store_with("Shop1");
    m.begin_analysis(&analysis(&key, Json::Null), "r1".to_string(), 1).unwrap();
    assert!(!m.delete_integration("no-such-id"));
    assert!(m.get_integration(&id).is_some());
    assert_eq!(m.get_analysis_results(&id, None).len(), 1);
    assert_eq!(m.get_dashboard_stats(1).total_analyses, 1);
}

#[test]
fn create_on_empty_manager_succeeds() {
    let mut m = IntegrationManager::new();
    assert!(m.create_integration(create_request("First", None, false)).is_ok());
    let mut u = IntegrationManager::new();
    assert!(u.create_user_integration("alice", create_request("Mine", None, false)).is_ok());
}
