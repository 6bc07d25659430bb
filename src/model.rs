//! The records kept in the store and the store aggregate itself.
use std::collections::HashMap;
use vstd::prelude::*;

verus! {

/// The category a portfolio belongs to.
#[derive(Debug, Clone, PartialEq, Eq)]
pub struct Category {
    pub id: String,
    pub name: String,
    pub icon: String,
}

/// The five style attributes of a portfolio's design.
#[derive(Debug, Clone, PartialEq, Eq)]
pub struct DesignTheme {
    pub name: String,
    pub bg: String,
    pub text: String,
    pub accent: String,
    pub border: String,
}

/// One user-authored portfolio record, identified by `id`.
#[derive(Debug, Clone, PartialEq, Eq)]
pub struct Portfolio {
    pub id: String,
    pub number: i32,
    pub name: String,
    pub category: Category,
    pub platform: String,
    pub description: String,
    pub design_theme: DesignTheme,
    pub features: Vec<String>,
    pub tech_stack: HashMap<String, String>,
    pub screens: Vec<String>,
    pub usage_steps: Vec<String>,
    pub version: String,
    pub created_at: String,
}

/// The persisted aggregate: the records, newest first, and the next display number.
#[derive(Debug, Clone, PartialEq, Eq)]
pub struct PortfolioData {
    pub portfolios: Vec<Portfolio>,
    pub next_number: i32,
}

/// A portfolio together with its pre-rendered Markdown text.
#[derive(Debug, Clone, PartialEq, Eq)]
pub struct ExportData {
    pub portfolio: Portfolio,
    pub content: String,
}

/// What an export reports: whether it succeeded and where the file went.
#[derive(Debug, Clone, PartialEq, Eq)]
pub struct ExportResult {
    pub success: bool,
    pub path: Option<String>,
}

/// Metadata about the running application.
#[derive(Debug, Clone, PartialEq, Eq)]
pub struct AppInfo {
    pub version: String,
    pub name: String,
    pub data_path: String,
}

} // verus!
