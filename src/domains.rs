//! Analysis domains, analysis types and the prompt configuration of each domain.
use vstd::prelude::*;
use crate::text::{lower_of, lowercase, text_eq};

verus! {

/// Supported domains for AI analysis.
#[derive(Debug, Clone, Copy, PartialEq, Eq, Structural)]
pub enum Domain {
    Finance,
    Healthcare,
    Ecommerce,
    Logistics,
    Manufacturing,
    RealEstate,
    Education,
    Environmental,
    Generic,
}

/// The domain that a lower-case name denotes; `real_estate` is accepted
/// beside `realestate`.
pub open spec fn domain_named(t: Seq<char>) -> Option<Domain> {
    if t == "finance"@ {
        Some(Domain::Finance)
    } else if t == "healthcare"@ {
        Some(Domain::Healthcare)
    } else if t == "ecommerce"@ {
        Some(Domain::Ecommerce)
    } else if t == "logistics"@ {
        Some(Domain::Logistics)
    } else if t == "manufacturing"@ {
        Some(Domain::Manufacturing)
    } else if t == "realestate"@ || t == "real_estate"@ {
        Some(Domain::RealEstate)
    } else if t == "education"@ {
        Some(Domain::Education)
    } else if t == "environmental"@ {
        Some(Domain::Environmental)
    } else if t == "generic"@ {
        Some(Domain::Generic)
    } else {
        None
    }
}

impl Domain {
    pub open spec fn name_of(self) -> Seq<char> {
        match self {
            Domain::Finance => "finance"@,
            Domain::Healthcare => "healthcare"@,
            Domain::Ecommerce => "ecommerce"@,
            Domain::Logistics => "logistics"@,
            Domain::Manufacturing => "manufacturing"@,
            Domain::RealEstate => "realestate"@,
            Domain::Education => "education"@,
            Domain::Environmental => "environmental"@,
            Domain::Generic => "generic"@,
        }
    }

    pub fn as_str(&self) -> (r: &'static str)
        ensures
            r@ == self.name_of(),
    {
        match self {
            Domain::Finance => "finance",
            Domain::Healthcare => "healthcare",
            Domain::Ecommerce => "ecommerce",
            Domain::Logistics => "logistics",
            Domain::Manufacturing => "manufacturing",
            Domain::RealEstate => "realestate",
            Domain::Education => "education",
            Domain::Environmental => "environmental",
            Domain::Generic => "generic",
        }
    }

    /// The upper-case label under which the domain appears in a prompt.
    pub open spec fn label_of(self) -> Seq<char> {
        match self {
            Domain::Finance => "FINANCE"@,
            Domain::Healthcare => "HEALTHCARE"@,
            Domain::Ecommerce => "ECOMMERCE"@,
            Domain::Logistics => "LOGISTICS"@,
            Domain::Manufacturing => "MANUFACTURING"@,
            Domain::RealEstate => "REALESTATE"@,
            Domain::Education => "EDUCATION"@,
            Domain::Environmental => "ENVIRONMENTAL"@,
            Domain::Generic => "GENERIC"@,
        }
    }

    pub fn label(&self) -> (r: &'static str)
        ensures
            r@ == self.label_of(),
    {
        match self {
            Domain::Finance => "FINANCE",
            Domain::Healthcare => "HEALTHCARE",
            Domain::Ecommerce => "ECOMMERCE",
            Domain::Logistics => "LOGISTICS",
            Domain::Manufacturing => "MANUFACTURING",
            Domain::RealEstate => "REALESTATE",
            Domain::Education => "EDUCATION",
            Domain::Environmental => "ENVIRONMENTAL",
            Domain::Generic => "GENERIC",
        }
    }

    /// Parses a domain name in any letter case.
    pub fn from_str(s: &str) -> (r: Option<Domain>)
        ensures
            r == domain_named(lower_of(s@)),
    {
        let lowered = lowercase(s);
        Domain::from_lowercase(lowered.as_str())
    }

    /// Parses a domain name that is already in lower case.
    pub fn from_lowercase(t: &str) -> (r: Option<Domain>)
        ensures
            r == domain_named(t@),
    {
        if text_eq(t, "finance") {
            Some(Domain::Finance)
        } else if text_eq(t, "healthcare") {
            Some(Domain::Healthcare)
        } else if text_eq(t, "ecommerce") {
            Some(Domain::Ecommerce)
        } else if text_eq(t, "logistics") {
            Some(Domain::Logistics)
        } else if text_eq(t, "manufacturing") {
            Some(Domain::Manufacturing)
        } else if text_eq(t, "realestate") || text_eq(t, "real_estate") {
            Some(Domain::RealEstate)
        } else if text_eq(t, "education") {
            Some(Domain::Education)
        } else if text_eq(t, "environmental") {
            Some(Domain::Environmental)
        } else if text_eq(t, "generic") {
            Some(Domain::Generic)
        } else {
            None
        }
    }
}

/// Analysis types available across domains.
#[derive(Debug, Clone, Copy, PartialEq, Eq, Structural)]
pub enum AnalysisType {
    Prediction,
    Optimization,
    Monitoring,
    Classification,
    AnomalyDetection,
    TrendAnalysis,
    RiskAssessment,
    PerformanceAnalysis,
    Custom,
}

impl AnalysisType {
    pub open spec fn name_of(self) -> Seq<char> {
        match self {
            AnalysisType::Prediction => "prediction"@,
            AnalysisType::Optimization => "optimization"@,
            AnalysisType::Monitoring => "monitoring"@,
            AnalysisType::Classification => "classification"@,
            AnalysisType::AnomalyDetection => "anomaly_detection"@,
            AnalysisType::TrendAnalysis => "trend_analysis"@,
            AnalysisType::RiskAssessment => "risk_assessment"@,
            AnalysisType::PerformanceAnalysis => "performance_analysis"@,
            AnalysisType::Custom => "custom"@,
        }
    }

    pub fn as_str(&self) -> (r: &'static str)
        ensures
            r@ == self.name_of(),
    {
        match self {
            AnalysisType::Prediction => "prediction",
            AnalysisType::Optimization => "optimization",
            AnalysisType::Monitoring => "monitoring",
            AnalysisType::Classification => "classification",
            AnalysisType::AnomalyDetection => "anomaly_detection",
            AnalysisType::TrendAnalysis => "trend_analysis",
            AnalysisType::RiskAssessment => "risk_assessment",
            AnalysisType::PerformanceAnalysis => "performance_analysis",
            AnalysisType::Custom => "custom",
        }
    }

    /// The upper-case label, words separated by spaces, under which the
    /// analysis type appears in a prompt.
    pub open spec fn label_of(self) -> Seq<char> {
        match self {
            AnalysisType::Prediction => "PREDICTION"@,
            AnalysisType::Optimization => "OPTIMIZATION"@,
            AnalysisType::Monitoring => "MONITORING"@,
            AnalysisType::Classification => "CLASSIFICATION"@,
            AnalysisType::AnomalyDetection => "ANOMALY DETECTION"@,
            AnalysisType::TrendAnalysis => "TREND ANALYSIS"@,
            AnalysisType::RiskAssessment => "RISK ASSESSMENT"@,
            AnalysisType::PerformanceAnalysis => "PERFORMANCE ANALYSIS"@,
            AnalysisType::Custom => "CUSTOM"@,
        }
    }

    pub fn label(&self) -> (r: &'static str)
        ensures
            r@ == self.label_of(),
    {
        match self {
            AnalysisType::Prediction => "PREDICTION",
            AnalysisType::Optimization => "OPTIMIZATION",
            AnalysisType::Monitoring => "MONITORING",
            AnalysisType::Classification => "CLASSIFICATION",
            AnalysisType::AnomalyDetection => "ANOMALY DETECTION",
            AnalysisType::TrendAnalysis => "TREND ANALYSIS",
            AnalysisType::RiskAssessment => "RISK ASSESSMENT",
            AnalysisType::PerformanceAnalysis => "PERFORMANCE ANALYSIS",
            AnalysisType::Custom => "CUSTOM",
        }
    }
}

/// Output format preferences.
#[derive(Debug, Clone)]
pub enum OutputFormat {
    Structured,
    Narrative,
    BulletPoints,
    Table,
    Json,
    Custom(String),
}

/// Processing priority levels.
#[derive(Debug, Clone, Copy, PartialEq, Eq, Structural)]
pub enum ProcessingPriority {
    Low,
    Normal,
    High,
    Critical,
}

impl ProcessingPriority {
    pub open spec fn label_of(self) -> Seq<char> {
        match self {
            ProcessingPriority::Low => "LOW"@,
            ProcessingPriority::Normal => "NORMAL"@,
            ProcessingPriority::High => "HIGH"@,
            ProcessingPriority::Critical => "CRITICAL"@,
        }
    }

    pub fn label(&self) -> (r: &'static str)
        ensures
            r@ == self.label_of(),
    {
        match self {
            ProcessingPriority::Low => "LOW",
            ProcessingPriority::Normal => "NORMAL",
            ProcessingPriority::High => "HIGH",
            ProcessingPriority::Critical => "CRITICAL",
        }
    }
}

/// A request for a domain-aware analysis.
#[derive(Debug, Clone)]
pub struct MultiDomainAnalysisRequest {
    pub file_path: String,
    pub prompt: Option<String>,
    pub model: Option<String>,
    pub domain: Domain,
    pub analysis_type: AnalysisType,
    pub custom_instructions: Option<String>,
    pub output_format: Option<OutputFormat>,
    pub priority: Option<ProcessingPriority>,
}


/// The map that a list of (analysis type, prompt) entries denotes: a later
/// entry for a type replaces an earlier one.
pub open spec fn prompt_map(s: Seq<(AnalysisType, String)>) -> Map<AnalysisType, Seq<char>>
    decreases s.len(),
{
    if s.len() == 0 {
        Map::empty()
    } else {
        prompt_map(s.drop_last()).insert(s.last().0, s.last().1@)
    }
}

proof fn lemma_prompt_map_prefix(s: Seq<(AnalysisType, String)>, i: int, k: AnalysisType)
    requires
        0 <= i <= s.len(),
        forall|j: int| i <= j < s.len() ==> s[j].0 != k,
    ensures
        prompt_map(s).contains_key(k) == prompt_map(s.subrange(0, i)).contains_key(k),
        prompt_map(s).contains_key(k) ==> prompt_map(s)[k] == prompt_map(s.subrange(0, i))[k],
    decreases s.len() - i,
{
    if i == s.len() {
        assert(s.subrange(0, i) =~= s);
    } else {
        lemma_prompt_map_prefix(s.drop_last(), i, k);
        assert(s.drop_last().subrange(0, i) =~= s.subrange(0, i));
    }
}

/// Default prompts of a domain, at most one per analysis type.
#[derive(Debug, Clone)]
pub struct PromptTable {
    entries: Vec<(AnalysisType, String)>,
}

impl PromptTable {
    /// The prompts as a map from analysis type to text.
    pub closed spec fn view(&self) -> Map<AnalysisType, Seq<char>> {
        prompt_map(self.entries@)
    }

    pub fn new() -> (r: PromptTable)
        ensures
            r.view() == Map::<AnalysisType, Seq<char>>::empty(),
    {
        PromptTable { entries: Vec::new() }
    }

    pub fn get(&self, t: &AnalysisType) -> (r: Option<&String>)
        ensures
            match r {
                Some(s) => self.view().contains_key(*t) && self.view()[*t] == s@,
                None => !self.view().contains_key(*t),
            },
    {
        let mut i: usize = self.entries.len();
        while i > 0
            invariant
                0 <= i <= self.entries@.len(),
                forall|j: int| i <= j < self.entries@.len() ==> self.entries@[j].0 != *t,
            decreases i,
        {
            if self.entries[i - 1].0 == *t {
                proof {
                    let s = self.entries@;
                    lemma_prompt_map_prefix(s, i as int, *t);
                    assert(s.subrange(0, i as int).drop_last() =~= s.subrange(0, i - 1));
                }
                return Some(&self.entries[i - 1].1);
            }
            i = i - 1;
        }
        proof {
            lemma_prompt_map_prefix(self.entries@, 0, *t);
        }
        None
    }

    pub fn contains_key(&self, t: &AnalysisType) -> (r: bool)
        ensures
            r == self.view().contains_key(*t),
    {
        self.get(t).is_some()
    }

    /// Sets the prompt of `t`, replacing any earlier one.
    pub fn insert(&mut self, t: AnalysisType, text: String)
        ensures
            final(self).view() == old(self).view().insert(t, text@),
    {
        self.entries.push((t, text));
        assert(self.entries@.drop_last() =~= old(self).entries@);
    }
}

/// What a domain configuration holds, as plain values.
pub struct DomainConfigView {
    pub name: Seq<char>,
    pub prompts: Map<AnalysisType, Seq<char>>,
    pub data_processors: Seq<Seq<char>>,
    pub supported_models: Seq<Seq<char>>,
    pub max_timeout_seconds: u64,
}

/// Domain-specific configuration.
#[derive(Debug, Clone)]
pub struct DomainConfig {
    pub name: String,
    pub default_prompts: PromptTable,
    pub data_processors: Vec<String>,
    pub supported_models: Vec<String>,
    pub max_timeout_seconds: u64,
}

impl View for DomainConfig {
    type V = DomainConfigView;

    open spec fn view(&self) -> DomainConfigView {
        DomainConfigView {
            name: self.name@,
            prompts: self.default_prompts.view(),
            data_processors: self.data_processors.deep_view(),
            supported_models: self.supported_models.deep_view(),
            max_timeout_seconds: self.max_timeout_seconds,
        }
    }
}

pub open spec fn finance_config() -> DomainConfigView {
    DomainConfigView {
        name: "Finance"@,
        prompts: map![
            AnalysisType::Prediction => FINANCE_PREDICTION_PROMPT@,
            AnalysisType::RiskAssessment => FINANCE_RISK_PROMPT@,
        ],
        data_processors: seq!["portfolio_processor"@, "market_data_processor"@],
        supported_models: seq!["llama2"@, "codellama"@, "mistral"@],
        max_timeout_seconds: 120,
    }
}

pub open spec fn healthcare_config() -> DomainConfigView {
    DomainConfigView {
        name: "Healthcare"@,
        prompts: map![
            AnalysisType::Prediction => HEALTHCARE_PREDICTION_PROMPT@,
            AnalysisType::AnomalyDetection => HEALTHCARE_ANOMALY_PROMPT@,
        ],
        data_processors: seq!["patient_data_processor"@, "lab_results_processor"@],
        supported_models: seq!["llama2"@, "medllama"@],
        max_timeout_seconds: 90,
    }
}

pub open spec fn ecommerce_config() -> DomainConfigView {
    DomainConfigView {
        name: "E-commerce"@,
        prompts: map![
            AnalysisType::Optimization => ECOMMERCE_OPTIMIZATION_PROMPT@,
            AnalysisType::Prediction => ECOMMERCE_PREDICTION_PROMPT@,
        ],
        data_processors: seq!["sales_data_processor"@, "customer_data_processor"@],
        supported_models: seq!["llama2"@, "mistral"@],
        max_timeout_seconds: 60,
    }
}

pub open spec fn logistics_config() -> DomainConfigView {
    DomainConfigView {
        name: "Logistics"@,
        prompts: map![AnalysisType::Optimization => LOGISTICS_OPTIMIZATION_PROMPT@],
        data_processors: seq!["route_data_processor"@, "inventory_processor"@],
        supported_models: seq!["llama2"@, "codellama"@],
        max_timeout_seconds: 90,
    }
}

pub open spec fn generic_config() -> DomainConfigView {
    DomainConfigView {
        name: "Generic"@,
        prompts: map![AnalysisType::Prediction => GENERIC_PREDICTION_PROMPT@],
        data_processors: seq!["generic_processor"@],
        supported_models: seq!["llama2"@, "mistral"@],
        max_timeout_seconds: 60,
    }
}

/// The configuration of a domain; the domains without one of their own share
/// the generic configuration.
pub open spec fn config_of(d: Domain) -> DomainConfigView {
    match d {
        Domain::Finance => finance_config(),
        Domain::Healthcare => healthcare_config(),
        Domain::Ecommerce => ecommerce_config(),
        Domain::Logistics => logistics_config(),
        _ => generic_config(),
    }
}

fn strings2(a: &str, b: &str) -> (r: Vec<String>)
    ensures
        r.deep_view() == seq![a@, b@],
{
    let r = vec![a.to_string(), b.to_string()];
    assert(r.deep_view() =~= seq![a@, b@]);
    r
}

impl DomainConfig {
    pub fn finance() -> (r: DomainConfig)
        ensures
            r@ == finance_config(),
    {
        let mut prompts = PromptTable::new();
        prompts.insert(AnalysisType::Prediction, FINANCE_PREDICTION_PROMPT.to_string());
        prompts.insert(AnalysisType::RiskAssessment, FINANCE_RISK_PROMPT.to_string());
        let models = vec!["llama2".to_string(), "codellama".to_string(), "mistral".to_string()];
        assert(models.deep_view() =~= seq!["llama2"@, "codellama"@, "mistral"@]);
        let r = DomainConfig {
            name: "Finance".to_string(),
            default_prompts: prompts,
            data_processors: strings2("portfolio_processor", "market_data_processor"),
            supported_models: models,
            max_timeout_seconds: 120,
        };
        assert(r.default_prompts.view() =~= finance_config().prompts);
        r
    }

    pub fn healthcare() -> (r: DomainConfig)
        ensures
            r@ == healthcare_config(),
    {
        let mut prompts = PromptTable::new();
        prompts.insert(AnalysisType::Prediction, HEALTHCARE_PREDICTION_PROMPT.to_string());
        prompts.insert(AnalysisType::AnomalyDetection, HEALTHCARE_ANOMALY_PROMPT.to_string());
        let r = DomainConfig {
            name: "Healthcare".to_string(),
            default_prompts: prompts,
            data_processors: strings2("patient_data_processor", "lab_results_processor"),
            supported_models: strings2("llama2", "medllama"),
            max_timeout_seconds: 90,
        };
        assert(r.default_prompts.view() =~= healthcare_config().prompts);
        r
    }

    pub fn ecommerce() -> (r: DomainConfig)
        ensures
            r@ == ecommerce_config(),
    {
        let mut prompts = PromptTable::new();
        prompts.insert(AnalysisType::Optimization, ECOMMERCE_OPTIMIZATION_PROMPT.to_string());
        prompts.insert(AnalysisType::Prediction, ECOMMERCE_PREDICTION_PROMPT.to_string());
        let r = DomainConfig {
            name: "E-commerce".to_string(),
            default_prompts: prompts,
            data_processors: strings2("sales_data_processor", "customer_data_processor"),
            supported_models: strings2("llama2", "mistral"),
            max_timeout_seconds: 60,
        };
        assert(r.default_prompts.view() =~= ecommerce_config().prompts);
        r
    }

    pub fn logistics() -> (r: DomainConfig)
        ensures
            r@ == logistics_config(),
    {
        let mut prompts = PromptTable::new();
        prompts.insert(AnalysisType::Optimization, LOGISTICS_OPTIMIZATION_PROMPT.to_string());
        let r = DomainConfig {
            name: "Logistics".to_string(),
            default_prompts: prompts,
            data_processors: strings2("route_data_processor", "inventory_processor"),
            supported_models: strings2("llama2", "codellama"),
            max_timeout_seconds: 90,
        };
        assert(r.default_prompts.view() =~= logistics_config().prompts);
        r
    }

    pub fn get_config(domain: &Domain) -> (r: DomainConfig)
        ensures
            r@ == config_of(*domain),
    {
        match domain {
            Domain::Finance => DomainConfig::finance(),
            Domain::Healthcare => DomainConfig::healthcare(),
            Domain::Ecommerce => DomainConfig::ecommerce(),
            Domain::Logistics => DomainConfig::logistics(),
            _ => DomainConfig::generic(),
        }
    }

    pub fn generic() -> (r: DomainConfig)
        ensures
            r@ == generic_config(),
    {
        let mut prompts = PromptTable::new();
        prompts.insert(AnalysisType::Prediction, GENERIC_PREDICTION_PROMPT.to_string());
        let procs = vec!["generic_processor".to_string()];
        assert(procs.deep_view() =~= seq!["generic_processor"@]);
        let r = DomainConfig {
            name: "Generic".to_string(),
            default_prompts: prompts,
            data_processors: procs,
            supported_models: strings2("llama2", "mistral"),
            max_timeout_seconds: 60,
        };
        assert(r.default_prompts.view() =~= generic_config().prompts);
        r
    }
}

/// The map that a list of (domain, configuration) entries denotes: a later
/// entry for a domain replaces an earlier one.
pub open spec fn config_map(s: Seq<(Domain, DomainConfig)>) -> Map<Domain, DomainConfigView>
    decreases s.len(),
{
    if s.len() == 0 {
        Map::empty()
    } else {
        config_map(s.drop_last()).insert(s.last().0, s.last().1@)
    }
}

proof fn lemma_config_map_prefix(s: Seq<(Domain, DomainConfig)>, i: int, k: Domain)
    requires
        0 <= i <= s.len(),
        forall|j: int| i <= j < s.len() ==> s[j].0 != k,
    ensures
        config_map(s).contains_key(k) == config_map(s.subrange(0, i)).contains_key(k),
        config_map(s).contains_key(k) ==> config_map(s)[k] == config_map(s.subrange(0, i))[k],
    decreases s.len() - i,
{
    if i == s.len() {
        assert(s.subrange(0, i) =~= s);
    } else {
        lemma_config_map_prefix(s.drop_last(), i, k);
        assert(s.drop_last().subrange(0, i) =~= s.subrange(0, i));
    }
}

/// Every domain, in the order in which the registry lists them.
pub open spec fn all_domains() -> Seq<Domain> {
    seq![
        Domain::Finance,
        Domain::Healthcare,
        Domain::Ecommerce,
        Domain::Logistics,
        Domain::Manufacturing,
        Domain::RealEstate,
        Domain::Education,
        Domain::Environmental,
        Domain::Generic,
    ]
}

/// Registry of the configuration of every supported domain.
pub struct DomainRegistry {
    configs: Vec<(Domain, DomainConfig)>,
}

impl DomainRegistry {
    /// The configurations by domain.
    pub closed spec fn view(&self) -> Map<Domain, DomainConfigView> {
        config_map(self.configs@)
    }

    /// The registered domains, in order of registration.
    pub closed spec fn domains(&self) -> Seq<Domain> {
        self.configs@.map_values(|e: (Domain, DomainConfig)| e.0)
    }

    /// A registry that holds every domain, each with the configuration of `config_of`.
    pub fn new() -> (r: DomainRegistry)
        ensures
            r.domains() == all_domains(),
            forall|d: Domain| #[trigger] r.view().contains_key(d) && r.view()[d] == config_of(d),
    {
        let mut registry = DomainRegistry { configs: Vec::new() };
        registry.register_domain(Domain::Finance);
        registry.register_domain(Domain::Healthcare);
        registry.register_domain(Domain::Ecommerce);
        registry.register_domain(Domain::Logistics);
        registry.register_domain(Domain::Manufacturing);
        registry.register_domain(Domain::RealEstate);
        registry.register_domain(Domain::Education);
        registry.register_domain(Domain::Environmental);
        registry.register_domain(Domain::Generic);
        assert(registry.domains() =~= all_domains());
        assert forall|d: Domain| #[trigger] registry.view().contains_key(d) && registry.view()[d] == config_of(d) by {
            match d {
                Domain::Finance => {},
                Domain::Healthcare => {},
                Domain::Ecommerce => {},
                Domain::Logistics => {},
                Domain::Manufacturing => {},
                Domain::RealEstate => {},
                Domain::Education => {},
                Domain::Environmental => {},
                Domain::Generic => {},
            }
        }
        registry
    }

    fn register_domain(&mut self, domain: Domain)
        ensures
            final(self).view() == old(self).view().insert(domain, config_of(domain)),
            final(self).domains() == old(self).domains().push(domain),
    {
        let config = DomainConfig::get_config(&domain);
        self.configs.push((domain, config));
        assert(self.configs@.drop_last() =~= old(self).configs@);
        assert(self.domains() =~= old(self).domains().push(domain));
    }

    pub fn get_config(&self, domain: &Domain) -> (r: Option<&DomainConfig>)
        ensures
            match r {
                Some(c) => self.view().contains_key(*domain) && self.view()[*domain] == c@,
                None => !self.view().contains_key(*domain),
            },
    {
        let mut i: usize = self.configs.len();
        while i > 0
            invariant
                0 <= i <= self.configs@.len(),
                forall|j: int| i <= j < self.configs@.len() ==> self.configs@[j].0 != *domain,
            decreases i,
        {
            if self.configs[i - 1].0 == *domain {
                proof {
                    let s = self.configs@;
                    lemma_config_map_prefix(s, i as int, *domain);
                    assert(s.subrange(0, i as int).drop_last() =~= s.subrange(0, i - 1));
                }
                return Some(&self.configs[i - 1].1);
            }
            i = i - 1;
        }
        proof {
            lemma_config_map_prefix(self.configs@, 0, *domain);
        }
        None
    }

    pub fn get_supported_domains(&self) -> (r: Vec<Domain>)
        ensures
            r@ == self.domains(),
    {
        let mut out: Vec<Domain> = Vec::new();
        let mut i: usize = 0;
        while i < self.configs.len()
            invariant
                0 <= i <= self.configs@.len(),
                out@ == self.configs@.subrange(0, i as int).map_values(|e: (Domain, DomainConfig)| e.0),
            decreases self.configs@.len() - i,
        {
            out.push(self.configs[i].0);
            assert(self.configs@.subrange(0, i + 1) =~= self.configs@.subrange(0, i as int).push(self.configs@[i as int]));
            i = i + 1;
        }
        assert(self.configs@.subrange(0, i as int) =~= self.configs@);
        out
    }

    /// The default prompt that the configuration of `domain` holds for `analysis_type`.
    pub fn get_domain_prompt(&self, domain: &Domain, analysis_type: &AnalysisType) -> (r: Option<String>)
        ensures
            match r {
                Some(s) => self.view().contains_key(*domain)
                    && self.view()[*domain].prompts.contains_key(*analysis_type)
                    && self.view()[*domain].prompts[*analysis_type] == s@,
                None => !self.view().contains_key(*domain)
                    || !self.view()[*domain].prompts.contains_key(*analysis_type),
            },
    {
        match self.get_config(domain) {
            Some(config) => match config.default_prompts.get(analysis_type) {
                Some(p) => Some(p.clone()),
                None => None,
            },
            None => None,
        }
    }
}

impl Default for DomainRegistry {
    fn default() -> (r: DomainRegistry)
        ensures
            r.domains() == all_domains(),
            forall|d: Domain| #[trigger] r.view().contains_key(d) && r.view()[d] == config_of(d),
    {
        let r = DomainRegistry::new();
        assert forall|d: Domain| #[trigger] r.view().contains_key(d) && r.view()[d] == config_of(d) by {
            assert(r.view().contains_key(d));
        }
        r
    }
}

pub const FINANCE_PREDICTION_PROMPT: &'static str = "You are an Elite quantitative trading analyst specializing in algorithmic trading and portfolio optimization.

ANALYZE THE FOLLOWING FINANCIAL DATA AND PROVIDE SPECIFIC, ACTIONABLE TRADING RECOMMENDATIONS:

REQUIRED OUTPUT FORMAT:
1. PORTFOLIO STATUS: Current portfolio value, positions, and cash position
2. MARKET OPPORTUNITIES: Specific BUY/SELL/HOLD recommendations with target prices
3. RISK ASSESSMENT: Risk level analysis and management strategies
4. TRADING ACTIONS: Prioritized list of actions with execution timing
5. PORTFOLIO OPTIMIZATION: Rebalancing and allocation suggestions

Focus on profit maximization and risk management.";

pub const FINANCE_RISK_PROMPT: &'static str = "You are a financial risk analyst. Analyze the following portfolio data and assess:

1. PORTFOLIO RISK METRICS: VaR, Sharpe ratio, volatility analysis
2. CONCENTRATION RISKS: Position sizing and diversification analysis
3. MARKET RISKS: Sector exposure and correlation analysis
4. RISK MITIGATION: Specific recommendations to reduce risk
5. STRESS TESTING: Scenario analysis and worst-case projections

Provide specific, actionable risk management recommendations.";

pub const HEALTHCARE_PREDICTION_PROMPT: &'static str = "You are a medical AI assistant specializing in clinical data analysis.

ANALYZE THE FOLLOWING MEDICAL DATA AND PROVIDE CLINICAL INSIGHTS:

REQUIRED OUTPUT FORMAT:
1. PATIENT STATUS: Current health metrics and vital signs analysis
2. RISK ASSESSMENT: Health risk factors and early warning indicators
3. TREATMENT RECOMMENDATIONS: Evidence-based treatment suggestions
4. MONITORING PLAN: Follow-up requirements and monitoring schedule
5. CLINICAL NOTES: Summary of findings and recommendations

IMPORTANT: This is for informational purposes only. Always consult with qualified healthcare professionals.";

pub const HEALTHCARE_ANOMALY_PROMPT: &'static str = "You are a medical AI specialist focused on anomaly detection in patient data.

ANALYZE THE FOLLOWING MEDICAL DATA FOR ABNORMAL PATTERNS:

1. VITAL SIGNS ANALYSIS: Identify unusual patterns in heart rate, blood pressure, temperature
2. LAB VALUES: Detect abnormal laboratory results and trends
3. SYMPTOM PATTERNS: Identify concerning symptom combinations
4. RISK INDICATORS: Highlight high-risk conditions requiring immediate attention
5. ALERT RECOMMENDATIONS: Specific actions to take based on findings

Provide clear, prioritized alerts for healthcare professionals.";

pub const ECOMMERCE_OPTIMIZATION_PROMPT: &'static str = "You are an e-commerce optimization specialist with expertise in data-driven business decisions.

ANALYZE THE FOLLOWING E-COMMERCE DATA AND PROVIDE OPTIMIZATION RECOMMENDATIONS:

REQUIRED OUTPUT FORMAT:
1. BUSINESS PERFORMANCE: Key metrics analysis (sales, conversion, retention)
2. CUSTOMER INSIGHTS: Behavior patterns and segmentation analysis
3. INVENTORY OPTIMIZATION: Stock level recommendations and demand forecasting
4. PRICING STRATEGY: Dynamic pricing suggestions and competitive analysis
5. MARKETING OPTIMIZATION: Campaign performance and channel recommendations

Focus on revenue growth and operational efficiency.";

pub const ECOMMERCE_PREDICTION_PROMPT: &'static str = "You are an e-commerce data scientist specializing in demand forecasting and customer behavior prediction.

ANALYZE THE FOLLOWING E-COMMERCE DATA AND PROVIDE PREDICTIONS:

1. SALES FORECASTING: Predict future sales trends and seasonal patterns
2. CUSTOMER LIFETIME VALUE: Estimate CLV and retention predictions
3. INVENTORY DEMAND: Forecast product demand and stock requirements
4. MARKETING ROI: Predict campaign performance and customer acquisition costs
5. BUSINESS GROWTH: Project growth trajectories and scaling recommendations

Provide specific, actionable predictions with confidence intervals.";

pub const LOGISTICS_OPTIMIZATION_PROMPT: &'static str = "You are a logistics optimization expert specializing in supply chain and transportation efficiency.

ANALYZE THE FOLLOWING LOGISTICS DATA AND PROVIDE OPTIMIZATION RECOMMENDATIONS:

REQUIRED OUTPUT FORMAT:
1. ROUTE OPTIMIZATION: Delivery route analysis and efficiency improvements
2. INVENTORY MANAGEMENT: Stock level optimization and warehouse efficiency
3. TRANSPORTATION ANALYSIS: Fleet utilization and cost optimization
4. SUPPLY CHAIN RISKS: Identify bottlenecks and supply chain vulnerabilities
5. PERFORMANCE METRICS: KPIs analysis and improvement recommendations

Focus on cost reduction and operational efficiency.";

pub const GENERIC_PREDICTION_PROMPT: &'static str = "You are an AI data analyst specializing in pattern recognition and predictive insights.

ANALYZE THE FOLLOWING DATA AND PROVIDE INSIGHTS:

1. DATA SUMMARY: Key findings and patterns in the dataset
2. TREND ANALYSIS: Identify trends and patterns over time
3. PREDICTIONS: Future projections based on historical data
4. RECOMMENDATIONS: Actionable insights and next steps
5. RISK FACTORS: Potential issues and mitigation strategies

Provide clear, data-driven insights and recommendations.";

} // verus!
