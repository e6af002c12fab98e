//! Registry of external-system integrations, the log of their AI analysis
//! results, the state machine of one analysis, and the domain-aware prompt
//! builder, with their contracts proved by Verus.
pub mod auth;
pub mod domains;
pub mod interpreter;
pub mod json;
pub mod manager;
pub mod prompts;
pub mod sources;
pub mod text;
