//! Shortcuts for common prompt requests.
use vstd::prelude::*;
use crate::domains::{
    config_of, AnalysisType, Domain, DomainRegistry, MultiDomainAnalysisRequest, OutputFormat,
    ProcessingPriority,
};
use crate::prompts::{default_template, enhanced_prompt, with_output_format, PromptBuilder};

verus! {

/// The prompt of a quick request: the default template, normal priority and
/// structured output.
pub open spec fn quick_prompt(domain: Domain, analysis_type: AnalysisType, data: Seq<char>) -> Seq<char> {
    with_output_format(
        enhanced_prompt(
            default_template(domain, analysis_type),
            domain,
            analysis_type,
            None,
            Some(ProcessingPriority::Normal),
            data,
        ),
        Some(OutputFormat::Structured),
    )
}

/// Creates a prompt for a common use case.
pub fn create_quick_prompt(domain: Domain, analysis_type: AnalysisType, data: &str) -> (r: String)
    ensures
        r@ == quick_prompt(domain, analysis_type, data@),
{
    let builder = PromptBuilder::new();
    let request = MultiDomainAnalysisRequest {
        file_path: "inline_data".to_string(),
        prompt: None,
        model: None,
        domain,
        analysis_type,
        custom_instructions: None,
        output_format: Some(OutputFormat::Structured),
        priority: Some(ProcessingPriority::Normal),
    };
    builder.build_prompt(&request, data)
}

/// Whether the configuration of a domain has a default prompt for an analysis type.
pub fn validate_domain_analysis_combination(domain: &Domain, analysis_type: &AnalysisType) -> (r: bool)
    ensures
        r == config_of(*domain).prompts.contains_key(*analysis_type),
{
    let registry = DomainRegistry::new();
    assert(registry.view().contains_key(*domain));
    registry.get_domain_prompt(domain, analysis_type).is_some()
}

/// Example prompts for three domains, each under its name.
pub fn get_example_prompts() -> (r: Vec<(String, String)>)
    ensures
        r@.len() == 3,
        r@[0].0@ == "finance_prediction"@,
        r@[0].1@ == quick_prompt(Domain::Finance, AnalysisType::Prediction, "portfolio_data.json"@),
        r@[1].0@ == "healthcare_anomaly"@,
        r@[1].1@ == quick_prompt(
            Domain::Healthcare,
            AnalysisType::AnomalyDetection,
            "patient_data.json"@,
        ),
        r@[2].0@ == "ecommerce_optimization"@,
        r@[2].1@ == quick_prompt(Domain::Ecommerce, AnalysisType::Optimization, "sales_data.json"@),
{
    let mut examples: Vec<(String, String)> = Vec::new();
    examples.push(
        (
            "finance_prediction".to_string(),
            create_quick_prompt(Domain::Finance, AnalysisType::Prediction, "portfolio_data.json"),
        ),
    );
    examples.push(
        (
            "healthcare_anomaly".to_string(),
            create_quick_prompt(
                Domain::Healthcare,
                AnalysisType::AnomalyDetection,
                "patient_data.json",
            ),
        ),
    );
    examples.push(
        (
            "ecommerce_optimization".to_string(),
            create_quick_prompt(Domain::Ecommerce, AnalysisType::Optimization, "sales_data.json"),
        ),
    );
    examples
}

} // verus!
