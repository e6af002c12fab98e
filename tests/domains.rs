use ai_json_analysis_api::domains::{AnalysisType, Domain, DomainConfig, DomainRegistry};

#[test]
fn test_domain_parsing() {
    assert_eq!(Domain::from_str("finance"), Some(Domain::Finance));
    assert_eq!(Domain::from_str("HEALTHCARE"), Some(Domain::Healthcare));
    assert_eq!(Domain::from_str("invalid"), None);
}

#[test]
fn test_domain_config() {
    let registry = DomainRegistry::new();
    let config = registry.get_config(&Domain::Finance).unwrap();
    assert_eq!(config.name, "Finance");
    assert!(config.default_prompts.contains_key(&AnalysisType::Prediction));
}

#[test]
fn domain_names_round_trip() {
    let all = [
        Domain::Finance,
        Domain::Healthcare,
        Domain::Ecommerce,
        Domain::Logistics,
        Domain::Manufacturing,
        Domain::RealEstate,
        Domain::Education,
        Domain::Environmental,
        Domain::Generic,
    ];
    for d in all {
        assert_eq!(Domain::from_str(d.as_str()), Some(d));
    }
    assert_eq!(Domain::from_str("Real_Estate"), Some(Domain::RealEstate));
    assert_eq!(Domain::from_lowercase("FINANCE"), None);
    assert_eq!(Domain::from_str(""), None);
}

#[test]
fn analysis_type_names_and_labels() {
    assert_eq!(AnalysisType::AnomalyDetection.as_str(), "anomaly_detection");
    assert_eq!(AnalysisType::AnomalyDetection.label(), "ANOMALY DETECTION");
    assert_eq!(Domain::RealEstate.label(), "REALESTATE");
}

#[test]
fn domains_without_own_config_share_generic() {
    let registry = DomainRegistry::new();
    assert_eq!(registry.get_config(&Domain::Education).unwrap().name, "Generic");
    assert_eq!(DomainConfig::get_config(&Domain::Ecommerce).name, "E-commerce");
    assert_eq!(DomainConfig::healthcare().max_timeout_seconds, 90);
    assert_eq!(DomainConfig::finance().supported_models, vec!["llama2", "codellama", "mistral"]);
    assert_eq!(registry.get_supported_domains().len(), 9);
    assert!(registry.get_domain_prompt(&Domain::Logistics, &AnalysisType::Prediction).is_none());
    let p = registry.get_domain_prompt(&Domain::Healthcare, &AnalysisType::AnomalyDetection).unwrap();
    assert!(p.starts_with("You are a medical AI specialist"));
}
