use langfuse_cli::types::{
    Aggregation, Measure, ObservationType, OutputFormat, TimeGranularity,
};

#[test]
fn test_output_format_default() {
    let format = OutputFormat::default();
    assert_eq!(format, OutputFormat::Table);
}

#[test]
fn test_measure_to_api_string() {
    assert_eq!(Measure::Count.to_api_string(), "count");
    assert_eq!(Measure::Latency.to_api_string(), "latency");
    assert_eq!(Measure::InputTokens.to_api_string(), "inputTokens");
    assert_eq!(Measure::OutputTokens.to_api_string(), "outputTokens");
    assert_eq!(Measure::TotalTokens.to_api_string(), "totalTokens");
    assert_eq!(Measure::InputCost.to_api_string(), "inputCost");
    assert_eq!(Measure::OutputCost.to_api_string(), "outputCost");
    assert_eq!(Measure::TotalCost.to_api_string(), "totalCost");
}

#[test]
fn test_aggregation_to_api_string() {
    assert_eq!(Aggregation::Count.to_api_string(), "count");
    assert_eq!(Aggregation::Sum.to_api_string(), "sum");
    assert_eq!(Aggregation::Avg.to_api_string(), "avg");
    assert_eq!(Aggregation::P50.to_api_string(), "p50");
    assert_eq!(Aggregation::P95.to_api_string(), "p95");
    assert_eq!(Aggregation::P99.to_api_string(), "p99");
    assert_eq!(Aggregation::Histogram.to_api_string(), "histogram");
}

#[test]
fn test_time_granularity_to_api_string() {
    assert_eq!(TimeGranularity::Auto.to_api_string(), "auto");
    assert_eq!(TimeGranularity::Minute.to_api_string(), "minute");
    assert_eq!(TimeGranularity::Hour.to_api_string(), "hour");
    assert_eq!(TimeGranularity::Day.to_api_string(), "day");
    assert_eq!(TimeGranularity::Week.to_api_string(), "week");
    assert_eq!(TimeGranularity::Month.to_api_string(), "month");
}

#[test]
fn test_observation_type_to_api_string() {
    assert_eq!(ObservationType::Generation.to_api_string(), "GENERATION");
    assert_eq!(ObservationType::Span.to_api_string(), "SPAN");
    assert_eq!(ObservationType::Event.to_api_string(), "EVENT");
}
