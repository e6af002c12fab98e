use ai_json_analysis_api::interpreter::{
    count_data_points, count_insights, count_recommendations, extract_insights,
    extract_recommendations, parse_ai_response, sample_data, DataSample, InsightKind, Payload,
};
use ai_json_analysis_api::json::{array_member_length, Json, JsonNumber};

fn numbers(n: u64) -> Vec<Json> {
    (0..n).map(|i| Json::Number(JsonNumber::Unsigned(i))).collect()
}

#[test]
fn sample_of_ten_elements_keeps_three_and_length() {
    match sample_data(Json::Array(numbers(10))) {
        DataSample::ArrayHead { length, head } => {
            assert_eq!(length, 10);
            assert_eq!(head.len(), 3);
            assert!(matches!(head[2], Json::Number(JsonNumber::Unsigned(2))));
        }
        other => panic!("unexpected sample {:?}", other),
    }
}

#[test]
fn small_values_are_sampled_whole() {
    assert!(matches!(sample_data(Json::Array(numbers(3))), DataSample::Whole(Json::Array(a)) if a.len() == 3));
    assert!(matches!(sample_data(Json::Bool(true)), DataSample::Whole(Json::Bool(true))));
    let keys: Vec<String> = (0..5).map(|i| format!("k{}", i)).collect();
    assert!(matches!(sample_data(Json::Object(keys, numbers(5))), DataSample::Whole(Json::Object(_, _))));
}

#[test]
fn large_object_keeps_five_members() {
    let keys: Vec<String> = (0..7).map(|i| format!("k{}", i)).collect();
    match sample_data(Json::Object(keys, numbers(7))) {
        DataSample::ObjectHead { total_keys, keys, values } => {
            assert_eq!(total_keys, 7);
            assert_eq!(keys, vec!["k0", "k1", "k2", "k3", "k4"]);
            assert_eq!(values.len(), 5);
        }
        other => panic!("unexpected sample {:?}", other),
    }
}

#[test]
fn data_points_by_shape() {
    assert_eq!(count_data_points(&Json::Array(numbers(4))), 4);
    assert_eq!(count_data_points(&Json::Object(vec!["a".to_string(), "b".to_string()], numbers(2))), 2);
    assert_eq!(count_data_points(&Json::Str("s".to_string())), 1);
    assert_eq!(count_data_points(&Json::Null), 1);
}

#[test]
fn keyword_classifier() {
    assert_eq!(extract_insights("a trend and an outlier"), vec![InsightKind::Pattern, InsightKind::Anomaly]);
    assert!(extract_insights("nothing here").is_empty());
    assert_eq!(extract_insights("anomaly"), vec![InsightKind::Anomaly]);
    assert_eq!(
        extract_recommendations("optimize and monitor"),
        vec!["Consider optimizing data processing".to_string(), "Implement continuous monitoring".to_string()]
    );
    assert_eq!(
        extract_recommendations(""),
        vec!["Review analysis results for actionable insights".to_string()]
    );
    assert!(extract_recommendations("Optimize").is_empty());
}

#[test]
fn json_answer_is_adopted() {
    let parsed = Json::Object(vec!["insights".to_string()], vec![Json::Array(numbers(2))]);
    let p = parse_ai_response("{\"insights\":[0,1]}", Some(parsed), Json::Null, String::new());
    assert_eq!(count_insights(&p), 2);
    assert_eq!(count_recommendations(&p), 0);
    assert!(matches!(p, Payload::Adopted(_)));
}

#[test]
fn plain_answer_is_reported() {
    let p = parse_ai_response("pattern; monitor", None, Json::Array(numbers(2)), "ts".to_string());
    assert_eq!(count_insights(&p), 1);
    assert_eq!(count_recommendations(&p), 1);
    match p {
        Payload::Report(rep) => {
            assert_eq!(rep.data_points, 2);
            assert!(matches!(rep.sample, DataSample::Whole(Json::Array(_))));
        }
        other => panic!("unexpected payload {:?}", other),
    }
    assert_eq!(count_insights(&Payload::Empty), 0);
}

#[test]
fn later_member_counts() {
    let j = Json::Object(
        vec!["insights".to_string(), "insights".to_string()],
        vec![Json::Array(numbers(1)), Json::Array(numbers(4))],
    );
    assert_eq!(array_member_length(&j, "insights"), 4);
    assert_eq!(array_member_length(&j, "missing"), 0);
    assert_eq!(array_member_length(&Json::Null, "insights"), 0);
}
