//! Builds domain-specific prompts for an analysis request.
use vstd::prelude::*;
use crate::domains::{
    all_domains, config_of, AnalysisType, Domain, DomainRegistry, MultiDomainAnalysisRequest, OutputFormat,
    ProcessingPriority,
};

pub mod utils;

verus! {

/// The pretty-printed JSON value that `pointer` addresses in the JSON text
/// `s`: `None` where `s` is no JSON, nothing is at `pointer`, or printing
/// fails. The empty pointer addresses the whole document.
pub uninterp spec fn json_pretty_at(s: Seq<char>, pointer: Seq<char>) -> Option<Seq<char>>;

/// Relies on `serde_json::from_str`, `serde_json::Value::pointer` and
/// `serde_json::to_string_pretty`: reformats, with indentation, the part of a
/// JSON text that a JSON pointer addresses.
#[verifier::external_body]
fn pretty_json_at(text: &str, pointer: &str) -> (r: Option<String>)
    ensures
        match r {
            Some(p) => json_pretty_at(text@, pointer@) == Some(p@),
            None => json_pretty_at(text@, pointer@) is None,
        },
{
    let value = serde_json::from_str::<serde_json::Value>(text).ok()?;
    value.pointer(pointer).and_then(|part| serde_json::to_string_pretty(part).ok())
}

/// The pretty-printed form of `data` where it is JSON, else `data` itself.
pub open spec fn pretty_or_raw(data: Seq<char>) -> Seq<char> {
    match json_pretty_at(data, ""@) {
        Some(p) => p,
        None => data,
    }
}

/// The data section of a prompt, introduced by a heading of the domain.
/// Financial JSON shows its `portfolio_summary` field where it has one.
pub open spec fn formatted_data(domain: Domain, data: Seq<char>) -> Seq<char> {
    match domain {
        Domain::Finance => match json_pretty_at(data, "/portfolio_summary"@) {
            Some(p) => "PORTFOLIO DATA:\n"@ + p,
            None => match json_pretty_at(data, ""@) {
                Some(p) => "PORTFOLIO DATA:\n"@ + p,
                None => "FINANCIAL DATA:\n"@ + data,
            },
        },
        Domain::Healthcare => "MEDICAL DATA:\n"@ + pretty_or_raw(data),
        Domain::Ecommerce => "E-COMMERCE DATA:\n"@ + pretty_or_raw(data),
        Domain::Logistics => "LOGISTICS DATA:\n"@ + pretty_or_raw(data),
        _ => "DATA:\n"@ + pretty_or_raw(data),
    }
}

/// The prompt used for an analysis type when no template applies.
pub open spec fn fallback_prompt(t: AnalysisType) -> Seq<char> {
    match t {
        AnalysisType::Prediction => FALLBACK_PREDICTION_PROMPT@,
        AnalysisType::Optimization => FALLBACK_OPTIMIZATION_PROMPT@,
        AnalysisType::Monitoring => FALLBACK_MONITORING_PROMPT@,
        _ => FALLBACK_GENERAL_PROMPT@,
    }
}

/// The domain's default prompt for an analysis type, else the fallback prompt.
pub open spec fn default_template(d: Domain, t: AnalysisType) -> Seq<char> {
    if config_of(d).prompts.contains_key(t) {
        config_of(d).prompts[t]
    } else {
        fallback_prompt(t)
    }
}

pub open spec fn opt_text(o: Option<String>) -> Option<Seq<char>> {
    match o {
        Some(s) => Some(s@),
        None => None,
    }
}

/// The lines that a priority adds to a prompt.
pub open spec fn priority_section(p: Option<ProcessingPriority>) -> Seq<char> {
    match p {
        Some(pr) => "\n\nPRIORITY LEVEL: "@ + pr.label_of() + match pr {
            ProcessingPriority::Critical =>
                "\nThis is a CRITICAL analysis. Provide immediate, actionable insights."@,
            ProcessingPriority::High =>
                "\nThis is a HIGH priority analysis. Focus on the most important insights."@,
            _ => Seq::empty(),
        },
        None => Seq::empty(),
    }
}

/// A base prompt with the domain, the analysis type, the custom
/// instructions, the data and the priority appended.
pub open spec fn enhanced_prompt(
    base: Seq<char>,
    domain: Domain,
    analysis_type: AnalysisType,
    custom_instructions: Option<Seq<char>>,
    priority: Option<ProcessingPriority>,
    data: Seq<char>,
) -> Seq<char> {
    base + "\n\nDOMAIN: "@ + domain.label_of() + "\nANALYSIS TYPE: "@ + analysis_type.label_of()
        + match custom_instructions {
        Some(c) => "\n\nCUSTOM INSTRUCTIONS: "@ + c,
        None => Seq::empty(),
    } + "\n\nDATA TO ANALYZE:\n"@ + formatted_data(domain, data) + priority_section(priority)
}

/// A prompt with the instruction on the form of the answer appended.
pub open spec fn with_output_format(prompt: Seq<char>, format: Option<OutputFormat>) -> Seq<char> {
    match format {
        Some(OutputFormat::Structured) => prompt
            + "\n\nOUTPUT FORMAT: Please structure your response with clear sections and bullet points for easy reading."@,
        Some(OutputFormat::Narrative) => prompt
            + "\n\nOUTPUT FORMAT: Please provide a narrative, story-like response that flows naturally."@,
        Some(OutputFormat::BulletPoints) => prompt
            + "\n\nOUTPUT FORMAT: Please format your response as bullet points with clear, concise statements."@,
        Some(OutputFormat::Table) => prompt
            + "\n\nOUTPUT FORMAT: Please format key findings in table format where appropriate."@,
        Some(OutputFormat::Json) => prompt
            + "\n\nOUTPUT FORMAT: Please provide your response in JSON format with structured fields."@,
        Some(OutputFormat::Custom(f)) => prompt + "\n\nOUTPUT FORMAT: "@ + f@,
        None => prompt,
    }
}

/// The map that a list of custom templates denotes: a later entry for a
/// combination replaces an earlier one.
pub open spec fn template_map(s: Seq<(Domain, AnalysisType, String)>) -> Map<(Domain, AnalysisType), Seq<char>>
    decreases s.len(),
{
    if s.len() == 0 {
        Map::empty()
    } else {
        template_map(s.drop_last()).insert((s.last().0, s.last().1), s.last().2@)
    }
}

proof fn lemma_template_map_prefix(s: Seq<(Domain, AnalysisType, String)>, i: int, k: (Domain, AnalysisType))
    requires
        0 <= i <= s.len(),
        forall|j: int| i <= j < s.len() ==> !(s[j].0 == k.0 && s[j].1 == k.1),
    ensures
        template_map(s).contains_key(k) == template_map(s.subrange(0, i)).contains_key(k),
        template_map(s).contains_key(k) ==> template_map(s)[k] == template_map(s.subrange(0, i))[k],
    decreases s.len() - i,
{
    if i == s.len() {
        assert(s.subrange(0, i) =~= s);
    } else {
        lemma_template_map_prefix(s.drop_last(), i, k);
        assert(s.drop_last().subrange(0, i) =~= s.subrange(0, i));
    }
}

/// Advanced prompt builder that creates domain-specific prompts.
pub struct PromptBuilder {
    registry: DomainRegistry,
    custom_templates: Vec<(Domain, AnalysisType, String)>,
}

impl PromptBuilder {
    /// The registry holds the configuration of every domain.
    pub closed spec fn wf(&self) -> bool {
        &&& self.registry.domains() == all_domains()
        &&& forall|d: Domain| #[trigger] self.registry.view().contains_key(d)
            && self.registry.view()[d] == config_of(d)
    }

    /// The custom templates, by domain and analysis type.
    pub closed spec fn templates(&self) -> Map<(Domain, AnalysisType), Seq<char>> {
        template_map(self.custom_templates@)
    }

    /// The template for a combination: a custom one, else the domain's
    /// default prompt, else the fallback prompt of the analysis type.
    pub open spec fn template_for(&self, d: Domain, t: AnalysisType) -> Seq<char> {
        if self.templates().contains_key((d, t)) {
            self.templates()[(d, t)]
        } else {
            default_template(d, t)
        }
    }

    /// The prompt for a request and its data.
    pub open spec fn prompt_for(&self, request: MultiDomainAnalysisRequest, data: Seq<char>) -> Seq<char> {
        let base = match request.prompt {
            Some(p) => p@,
            None => self.template_for(request.domain, request.analysis_type),
        };
        with_output_format(
            enhanced_prompt(
                base,
                request.domain,
                request.analysis_type,
                opt_text(request.custom_instructions),
                request.priority,
                data,
            ),
            request.output_format,
        )
    }

    pub fn new() -> (r: PromptBuilder)
        ensures
            r.wf(),
            r.templates() == Map::<(Domain, AnalysisType), Seq<char>>::empty(),
    {
        let r = PromptBuilder { registry: DomainRegistry::new(), custom_templates: Vec::new() };
        assert(r.templates() =~= Map::<(Domain, AnalysisType), Seq<char>>::empty());
        r
    }

    /// Builds the complete prompt for a request.
    pub fn build_prompt(&self, request: &MultiDomainAnalysisRequest, data: &str) -> (r: String)
        requires
            self.wf(),
        ensures
            r@ == self.prompt_for(*request, data@),
    {
        let base_prompt = match &request.prompt {
            Some(custom_prompt) => custom_prompt.clone(),
            None => self.get_domain_prompt(&request.domain, &request.analysis_type),
        };
        let enhanced = self.enhance_prompt(base_prompt.as_str(), request, data);
        self.format_output(enhanced.as_str(), &request.output_format)
    }

    fn custom_template(&self, domain: &Domain, analysis_type: &AnalysisType) -> (r: Option<&String>)
        ensures
            match r {
                Some(s) => self.templates().contains_key((*domain, *analysis_type))
                    && self.templates()[(*domain, *analysis_type)] == s@,
                None => !self.templates().contains_key((*domain, *analysis_type)),
            },
    {
        let ghost k = (*domain, *analysis_type);
        let mut i: usize = self.custom_templates.len();
        while i > 0
            invariant
                0 <= i <= self.custom_templates@.len(),
                k == (*domain, *analysis_type),
                forall|j: int|
                    i <= j < self.custom_templates@.len() ==> !(self.custom_templates@[j].0 == *domain
                        && self.custom_templates@[j].1 == *analysis_type),
            decreases i,
        {
            let e = &self.custom_templates[i - 1];
            if e.0 == *domain && e.1 == *analysis_type {
                proof {
                    let s = self.custom_templates@;
                    lemma_template_map_prefix(s, i as int, k);
                    assert(s.subrange(0, i as int).drop_last() =~= s.subrange(0, i - 1));
                }
                return Some(&e.2);
            }
            i = i - 1;
        }
        proof {
            lemma_template_map_prefix(self.custom_templates@, 0, k);
        }
        None
    }

    /// The template for a domain and analysis type.
    fn get_domain_prompt(&self, domain: &Domain, analysis_type: &AnalysisType) -> (r: String)
        requires
            self.wf(),
        ensures
            r@ == self.template_for(*domain, *analysis_type),
    {
        match self.custom_template(domain, analysis_type) {
            Some(t) => t.clone(),
            None => match self.registry.get_domain_prompt(domain, analysis_type) {
                Some(p) => p,
                None => {
                    assert(self.registry.view().contains_key(*domain));
                    self.get_fallback_prompt(analysis_type)
                },
            },
        }
    }

    /// Fallback prompt for combinations without a template.
    fn get_fallback_prompt(&self, analysis_type: &AnalysisType) -> (r: String)
        ensures
            r@ == fallback_prompt(*analysis_type),
    {
        match analysis_type {
            AnalysisType::Prediction => FALLBACK_PREDICTION_PROMPT.to_string(),
            AnalysisType::Optimization => FALLBACK_OPTIMIZATION_PROMPT.to_string(),
            AnalysisType::Monitoring => FALLBACK_MONITORING_PROMPT.to_string(),
            _ => FALLBACK_GENERAL_PROMPT.to_string(),
        }
    }

    /// Appends the domain context, the custom instructions, the data and the
    /// priority to a base prompt.
    fn enhance_prompt(&self, base_prompt: &str, request: &MultiDomainAnalysisRequest, data: &str) -> (r: String)
        ensures
            r@ == enhanced_prompt(
                base_prompt@,
                request.domain,
                request.analysis_type,
                opt_text(request.custom_instructions),
                request.priority,
                data@,
            ),
    {
        let mut enhanced = base_prompt.to_string();
        enhanced.append("\n\nDOMAIN: ");
        enhanced.append(request.domain.label());
        enhanced.append("\nANALYSIS TYPE: ");
        enhanced.append(request.analysis_type.label());
        if let Some(custom_instructions) = &request.custom_instructions {
            enhanced.append("\n\nCUSTOM INSTRUCTIONS: ");
            enhanced.append(custom_instructions.as_str());
        }
        enhanced.append("\n\nDATA TO ANALYZE:\n");
        let formatted = self.format_data_for_domain(&request.domain, data);
        enhanced.append(formatted.as_str());
        if let Some(priority) = &request.priority {
            enhanced.append("\n\nPRIORITY LEVEL: ");
            enhanced.append(priority.label());
            match priority {
                ProcessingPriority::Critical => {
                    enhanced.append(
                        "\nThis is a CRITICAL analysis. Provide immediate, actionable insights.",
                    );
                },
                ProcessingPriority::High => {
                    enhanced.append(
                        "\nThis is a HIGH priority analysis. Focus on the most important insights.",
                    );
                },
                _ => {},
            }
        }
        enhanced
    }

    /// The data under the heading of its domain.
    fn format_data_for_domain(&self, domain: &Domain, data: &str) -> (r: String)
        ensures
            r@ == formatted_data(*domain, data@),
    {
        match domain {
            Domain::Finance => self.format_finance_data(data),
            Domain::Healthcare => self.format_labelled_data("MEDICAL DATA:\n", data),
            Domain::Ecommerce => self.format_labelled_data("E-COMMERCE DATA:\n", data),
            Domain::Logistics => self.format_labelled_data("LOGISTICS DATA:\n", data),
            _ => self.format_labelled_data("DATA:\n", data),
        }
    }

    fn format_finance_data(&self, data: &str) -> (r: String)
        ensures
            r@ == formatted_data(Domain::Finance, data@),
    {
        match pretty_json_at(data, "/portfolio_summary") {
            Some(p) => "PORTFOLIO DATA:\n".to_string().concat(p.as_str()),
            None => match pretty_json_at(data, "") {
                Some(p) => "PORTFOLIO DATA:\n".to_string().concat(p.as_str()),
                None => "FINANCIAL DATA:\n".to_string().concat(data),
            },
        }
    }

    fn format_labelled_data(&self, heading: &str, data: &str) -> (r: String)
        ensures
            r@ == heading@ + pretty_or_raw(data@),
    {
        match pretty_json_at(data, "") {
            Some(p) => heading.to_string().concat(p.as_str()),
            None => heading.to_string().concat(data),
        }
    }

    /// Appends the instruction on the form of the answer.
    fn format_output(&self, prompt: &str, output_format: &Option<OutputFormat>) -> (r: String)
        ensures
            r@ == with_output_format(prompt@, *output_format),
    {
        let p = prompt.to_string();
        match output_format {
            Some(OutputFormat::Structured) => p.concat(
                "\n\nOUTPUT FORMAT: Please structure your response with clear sections and bullet points for easy reading.",
            ),
            Some(OutputFormat::Narrative) => p.concat(
                "\n\nOUTPUT FORMAT: Please provide a narrative, story-like response that flows naturally.",
            ),
            Some(OutputFormat::BulletPoints) => p.concat(
                "\n\nOUTPUT FORMAT: Please format your response as bullet points with clear, concise statements.",
            ),
            Some(OutputFormat::Table) => p.concat(
                "\n\nOUTPUT FORMAT: Please format key findings in table format where appropriate.",
            ),
            Some(OutputFormat::Json) => p.concat(
                "\n\nOUTPUT FORMAT: Please provide your response in JSON format with structured fields.",
            ),
            Some(OutputFormat::Custom(format)) => p.concat("\n\nOUTPUT FORMAT: ").concat(format.as_str()),
            None => p,
        }
    }

    /// Adds a custom template for a domain and analysis type; it takes the
    /// place of the default prompt of that combination.
    pub fn add_custom_template(&mut self, domain: Domain, analysis_type: AnalysisType, template: String)
        requires
            old(self).wf(),
        ensures
            final(self).wf(),
            final(self).templates() == old(self).templates().insert((domain, analysis_type), template@),
    {
        self.custom_templates.push((domain, analysis_type, template));
        assert(self.custom_templates@.drop_last() =~= old(self).custom_templates@);
    }

    pub fn get_supported_domains(&self) -> (r: Vec<Domain>)
        requires
            self.wf(),
        ensures
            r@ == all_domains(),
    {
        self.registry.get_supported_domains()
    }

    /// The analysis types that a domain supports: all of them.
    pub fn get_supported_analysis_types(&self, domain: &Domain) -> (r: Vec<AnalysisType>)
        ensures
            r@ == all_analysis_types(),
    {
        let r = vec![
            AnalysisType::Prediction,
            AnalysisType::Optimization,
            AnalysisType::Monitoring,
            AnalysisType::Classification,
            AnalysisType::AnomalyDetection,
            AnalysisType::TrendAnalysis,
            AnalysisType::RiskAssessment,
            AnalysisType::PerformanceAnalysis,
            AnalysisType::Custom,
        ];
        assert(r@ =~= all_analysis_types());
        r
    }
}

impl Default for PromptBuilder {
    fn default() -> (r: PromptBuilder)
        ensures
            r.wf(),
            r.templates() == Map::<(Domain, AnalysisType), Seq<char>>::empty(),
    {
        PromptBuilder::new()
    }
}

/// Every analysis type.
pub open spec fn all_analysis_types() -> Seq<AnalysisType> {
    seq![
        AnalysisType::Prediction,
        AnalysisType::Optimization,
        AnalysisType::Monitoring,
        AnalysisType::Classification,
        AnalysisType::AnomalyDetection,
        AnalysisType::TrendAnalysis,
        AnalysisType::RiskAssessment,
        AnalysisType::PerformanceAnalysis,
        AnalysisType::Custom,
    ]
}

pub const FALLBACK_PREDICTION_PROMPT: &'static str = "You are an AI data analyst. Analyze the following data and provide predictions:

1. DATA ANALYSIS: Identify key patterns and trends
2. PREDICTIONS: Forecast future outcomes based on historical data
3. CONFIDENCE LEVELS: Assess the reliability of predictions
4. RECOMMENDATIONS: Suggest actionable next steps
5. RISK FACTORS: Identify potential risks and mitigation strategies

Provide clear, data-driven insights.";

pub const FALLBACK_OPTIMIZATION_PROMPT: &'static str = "You are an optimization specialist. Analyze the following data and provide optimization recommendations:

1. CURRENT STATE: Assess current performance and efficiency
2. OPTIMIZATION OPPORTUNITIES: Identify areas for improvement
3. RECOMMENDATIONS: Specific actions to optimize performance
4. EXPECTED OUTCOMES: Projected benefits of optimizations
5. IMPLEMENTATION PLAN: Step-by-step optimization strategy

Focus on measurable improvements and actionable recommendations.";

pub const FALLBACK_MONITORING_PROMPT: &'static str = "You are a monitoring specialist. Analyze the following data for monitoring insights:

1. STATUS ASSESSMENT: Current state and health indicators
2. ANOMALY DETECTION: Identify unusual patterns or outliers
3. TREND ANALYSIS: Monitor changes over time
4. ALERT RECOMMENDATIONS: Suggest when to take action
5. MONITORING PLAN: Ongoing monitoring strategy

Provide clear monitoring insights and actionable alerts.";

pub const FALLBACK_GENERAL_PROMPT: &'static str = "You are an AI analyst. Analyze the following data and provide insights:

1. DATA SUMMARY: Key findings and observations
2. PATTERN ANALYSIS: Identify important patterns and trends
3. INSIGHTS: Meaningful insights from the data
4. RECOMMENDATIONS: Actionable recommendations
5. NEXT STEPS: Suggested follow-up actions

Provide clear, actionable analysis.";

} // verus!
