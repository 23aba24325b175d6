//! Plain data types shared across the client: output format selection, the
//! metrics query vocabulary, and the wire shapes of prompts and pagination
//! metadata.

use vstd::prelude::*;

verus! {

/// Output format options.
#[derive(Debug, Clone, Copy, PartialEq, Eq, Structural)]
pub enum OutputFormat {
    Table,
    Json,
    Csv,
    Markdown,
}

impl Default for OutputFormat {
    /// The table format is the default.
    fn default() -> (r: Self)
        ensures
            r == OutputFormat::Table,
    {
        OutputFormat::Table
    }
}

/// Metrics view options.
#[derive(Debug, Clone, Copy, PartialEq, Eq, Structural)]
pub enum MetricsView {
    Traces,
    Observations,
}

/// Metrics measure options.
#[derive(Debug, Clone, Copy, PartialEq, Eq, Structural)]
pub enum Measure {
    Count,
    Latency,
    InputTokens,
    OutputTokens,
    TotalTokens,
    InputCost,
    OutputCost,
    TotalCost,
}

impl Measure {
    /// The measure's name on the wire.
    pub open spec fn spec_api_string(self) -> Seq<char> {
        match self {
            Measure::Count => "count"@,
            Measure::Latency => "latency"@,
            Measure::InputTokens => "inputTokens"@,
            Measure::OutputTokens => "outputTokens"@,
            Measure::TotalTokens => "totalTokens"@,
            Measure::InputCost => "inputCost"@,
            Measure::OutputCost => "outputCost"@,
            Measure::TotalCost => "totalCost"@,
        }
    }

    /// The measure's name on the wire.
    pub fn to_api_string(&self) -> (r: &'static str)
        ensures
            r@ == self.spec_api_string(),
    {
        match self {
            Measure::Count => "count",
            Measure::Latency => "latency",
            Measure::InputTokens => "inputTokens",
            Measure::OutputTokens => "outputTokens",
            Measure::TotalTokens => "totalTokens",
            Measure::InputCost => "inputCost",
            Measure::OutputCost => "outputCost",
            Measure::TotalCost => "totalCost",
        }
    }
}

/// Metrics aggregation options.
#[derive(Debug, Clone, Copy, PartialEq, Eq, Structural)]
pub enum Aggregation {
    Count,
    Sum,
    Avg,
    P50,
    P95,
    P99,
    Histogram,
}

impl Aggregation {
    /// The aggregation's name on the wire.
    pub open spec fn spec_api_string(self) -> Seq<char> {
        match self {
            Aggregation::Count => "count"@,
            Aggregation::Sum => "sum"@,
            Aggregation::Avg => "avg"@,
            Aggregation::P50 => "p50"@,
            Aggregation::P95 => "p95"@,
            Aggregation::P99 => "p99"@,
            Aggregation::Histogram => "histogram"@,
        }
    }

    /// The aggregation's name on the wire.
    pub fn to_api_string(&self) -> (r: &'static str)
        ensures
            r@ == self.spec_api_string(),
    {
        match self {
            Aggregation::Count => "count",
            Aggregation::Sum => "sum",
            Aggregation::Avg => "avg",
            Aggregation::P50 => "p50",
            Aggregation::P95 => "p95",
            Aggregation::P99 => "p99",
            Aggregation::Histogram => "histogram",
        }
    }
}

/// Time granularity options.
#[derive(Debug, Clone, Copy, PartialEq, Eq, Structural)]
pub enum TimeGranularity {
    Auto,
    Minute,
    Hour,
    Day,
    Week,
    Month,
}

impl TimeGranularity {
    /// The granularity's name on the wire.
    pub open spec fn spec_api_string(self) -> Seq<char> {
        match self {
            TimeGranularity::Auto => "auto"@,
            TimeGranularity::Minute => "minute"@,
            TimeGranularity::Hour => "hour"@,
            TimeGranularity::Day => "day"@,
            TimeGranularity::Week => "week"@,
            TimeGranularity::Month => "month"@,
        }
    }

    /// The granularity's name on the wire.
    pub fn to_api_string(&self) -> (r: &'static str)
        ensures
            r@ == self.spec_api_string(),
    {
        match self {
            TimeGranularity::Auto => "auto",
            TimeGranularity::Minute => "minute",
            TimeGranularity::Hour => "hour",
            TimeGranularity::Day => "day",
            TimeGranularity::Week => "week",
            TimeGranularity::Month => "month",
        }
    }
}

/// Observation type options.
#[derive(Debug, Clone, Copy, PartialEq, Eq, Structural)]
pub enum ObservationType {
    Generation,
    Span,
    Event,
}

impl ObservationType {
    /// The observation type's name on the wire.
    pub open spec fn spec_api_string(self) -> Seq<char> {
        match self {
            ObservationType::Generation => "GENERATION"@,
            ObservationType::Span => "SPAN"@,
            ObservationType::Event => "EVENT"@,
        }
    }

    /// The observation type's name on the wire.
    pub fn to_api_string(&self) -> (r: &'static str)
        ensures
            r@ == self.spec_api_string(),
    {
        match self {
            ObservationType::Generation => "GENERATION",
            ObservationType::Span => "SPAN",
            ObservationType::Event => "EVENT",
        }
    }
}

/// Pagination metadata of a list response.
#[derive(Debug, Clone)]
pub struct PaginationMeta {
    pub page: Option<i32>,
    pub limit: Option<i32>,
    pub total_items: Option<i32>,
    pub total_pages: Option<i32>,
}

/// A chat message for chat prompts.
#[derive(Debug, Clone)]
pub struct ChatMessage {
    pub role: String,
    pub content: String,
}

/// Prompt content: either plain text or a list of chat messages.
#[derive(Debug, Clone)]
pub enum PromptContent {
    Text(String),
    Chat(Vec<ChatMessage>),
}

/// Prompt metadata from the list endpoint.
#[derive(Debug, Clone)]
pub struct PromptMeta {
    pub name: String,
    pub versions: Vec<i32>,
    pub labels: Vec<String>,
    pub tags: Vec<String>,
    pub last_updated_at: Option<String>,
}

/// A page of prompt metadata.
#[derive(Debug, Clone)]
pub struct PromptsResponse {
    pub data: Vec<PromptMeta>,
    pub meta: Option<PaginationMeta>,
}

} // verus!
