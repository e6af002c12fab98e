use ai_json_analysis_api::domains::{
    AnalysisType, Domain, MultiDomainAnalysisRequest, OutputFormat, ProcessingPriority,
};
use ai_json_analysis_api::prompts::utils;
use ai_json_analysis_api::prompts::PromptBuilder;

fn request(domain: Domain, analysis_type: AnalysisType) -> MultiDomainAnalysisRequest {
    MultiDomainAnalysisRequest {
        file_path: "test.json".to_string(),
        prompt: None,
        model: None,
        domain,
        analysis_type,
        custom_instructions: None,
        output_format: None,
        priority: None,
    }
}

#[test]
fn test_prompt_builder_creation() {
    let builder = PromptBuilder::new();
    assert!(!builder.get_supported_domains().is_empty());
}

#[test]
fn test_prompt_building() {
    let builder = PromptBuilder::new();
    let request = MultiDomainAnalysisRequest {
        file_path: "test.json".to_string(),
        prompt: None,
        model: None,
        domain: Domain::Finance,
        analysis_type: AnalysisType::Prediction,
        custom_instructions: None,
        output_format: Some(OutputFormat::Structured),
        priority: Some(ProcessingPriority::High),
    };

    let data = r#"{"portfolio_value": 100000, "cash": 20000}"#;
    let prompt = builder.build_prompt(&request, data);

    assert!(prompt.contains("FINANCE"));
    assert!(prompt.contains("PREDICTION"));
    assert!(prompt.contains("PORTFOLIO DATA"));
}

#[test]
fn test_custom_template() {
    let mut builder = PromptBuilder::new();
    builder.add_custom_template(
        Domain::Finance,
        AnalysisType::Custom,
        "Custom finance analysis prompt".to_string(),
    );

    let request = MultiDomainAnalysisRequest {
        file_path: "test.json".to_string(),
        prompt: None,
        model: None,
        domain: Domain::Finance,
        analysis_type: AnalysisType::Custom,
        custom_instructions: None,
        output_format: None,
        priority: None,
    };

    let prompt = builder.build_prompt(&request, "test data");
    assert!(prompt.contains("Custom finance analysis prompt"));
}

#[test]
fn test_quick_prompt_creation() {
    let prompt = utils::create_quick_prompt(Domain::Healthcare, AnalysisType::AnomalyDetection, "patient_data");
    assert!(prompt.contains("MEDICAL DATA"));
    assert!(prompt.contains("ANOMALY DETECTION"));
}

#[test]
fn plain_prompt_has_exact_layout() {
    let builder = PromptBuilder::new();
    let mut r = request(Domain::Generic, AnalysisType::Custom);
    r.prompt = Some("BASE".to_string());
    r.custom_instructions = Some("be brief".to_string());
    r.priority = Some(ProcessingPriority::Critical);
    r.output_format = Some(OutputFormat::Custom("csv".to_string()));
    let prompt = builder.build_prompt(&r, "not json");
    assert_eq!(
        prompt,
        "BASE\n\nDOMAIN: GENERIC\nANALYSIS TYPE: CUSTOM\n\nCUSTOM INSTRUCTIONS: be brief\n\nDATA TO ANALYZE:\nDATA:\nnot json\n\nPRIORITY LEVEL: CRITICAL\nThis is a CRITICAL analysis. Provide immediate, actionable insights.\n\nOUTPUT FORMAT: csv"
    );
}

#[test]
fn json_data_is_pretty_printed() {
    let builder = PromptBuilder::new();
    let r = request(Domain::Healthcare, AnalysisType::Prediction);
    let prompt = builder.build_prompt(&r, r#"{"pulse":72}"#);
    assert!(prompt.contains("MEDICAL DATA:\n{\n  \"pulse\": 72\n}"));
}

#[test]
fn portfolio_summary_is_shown_alone() {
    let builder = PromptBuilder::new();
    let r = request(Domain::Finance, AnalysisType::RiskAssessment);
    let prompt = builder.build_prompt(&r, r#"{"portfolio_summary":{"value":5},"other":1}"#);
    assert!(prompt.contains("PORTFOLIO DATA:\n{\n  \"value\": 5\n}"));
    assert!(!prompt.contains("other"));
    let plain = builder.build_prompt(&r, "cash 5");
    assert!(plain.contains("FINANCIAL DATA:\ncash 5"));
}

#[test]
fn fallback_prompt_for_unconfigured_combination() {
    let builder = PromptBuilder::new();
    let r = request(Domain::Logistics, AnalysisType::Monitoring);
    let prompt = builder.build_prompt(&r, "x");
    assert!(prompt.starts_with("You are a monitoring specialist."));
    assert!(prompt.contains("LOGISTICS DATA:\nx"));
}

#[test]
fn later_custom_template_replaces_earlier() {
    let mut builder = PromptBuilder::new();
    builder.add_custom_template(Domain::Ecommerce, AnalysisType::Prediction, "first".to_string());
    builder.add_custom_template(Domain::Ecommerce, AnalysisType::Prediction, "second".to_string());
    let prompt = builder.build_prompt(&request(Domain::Ecommerce, AnalysisType::Prediction), "d");
    assert!(prompt.starts_with("second\n\nDOMAIN: ECOMMERCE"));
}

#[test]
fn combination_validation_and_examples() {
    assert!(utils::validate_domain_analysis_combination(&Domain::Finance, &AnalysisType::RiskAssessment));
    assert!(!utils::validate_domain_analysis_combination(&Domain::Finance, &AnalysisType::Custom));
    let examples = utils::get_example_prompts();
    assert_eq!(examples.len(), 3);
    assert_eq!(examples[1].0, "healthcare_anomaly");
    assert!(examples[1].1.contains("MEDICAL DATA:\npatient_data.json"));
    assert!(examples[1].1.contains("PRIORITY LEVEL: NORMAL"));
    assert_eq!(PromptBuilder::new().get_supported_analysis_types(&Domain::Finance).len(), 9);
}

#[test]
fn default_builder_matches_new() {
    let a = PromptBuilder::default();
    let b = PromptBuilder::new();
    let r = request(Domain::Finance, AnalysisType::Prediction);
    assert_eq!(a.build_prompt(&r, "x"), b.build_prompt(&r, "x"));
}
