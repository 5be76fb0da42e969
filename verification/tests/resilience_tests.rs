use fastdatabroker::observability::tracing::{SpanBuilder, TraceContext, TracingInit};
use fastdatabroker::resilience::circuit_breaker::{CircuitBreakerCore, CircuitBreakerStatus, ThresholdCheck};
use fastdatabroker::resilience::retry_policies::{
    default_retriable_errors, fixed_delay_ms, is_retriable, linear_delay_ms, retry_step, RetryStep,
};

#[test]
fn test_fixed_backoff() {
    assert_eq!(fixed_delay_ms(100, 0), 100);
    assert_eq!(fixed_delay_ms(100, 5), 100);
}

#[test]
fn test_linear_backoff() {
    assert_eq!(linear_delay_ms(100, 10_000, 0), 100);
    assert_eq!(linear_delay_ms(100, 10_000, 1), 200);
    assert_eq!(linear_delay_ms(100, 10_000, 2), 300);
    // Capped at the maximum delay.
    assert_eq!(linear_delay_ms(100, 250, 5), 250);
}

#[test]
fn test_retry_config_default() {
    let errors = default_retriable_errors();
    assert!(!errors.is_empty());
    assert_eq!(errors, vec!["Timeout".to_string(), "ConnectionReset".to_string(), "ServiceUnavailable".to_string()]);
}

#[test]
fn retry_steps() {
    let kinds = default_retriable_errors();
    assert_eq!(retry_step(0, 3, &kinds, "Timeout"), RetryStep::Retry);
    assert_eq!(retry_step(0, 3, &kinds, "upstream ConnectionReset by peer"), RetryStep::Retry);
    assert_eq!(retry_step(0, 3, &kinds, "bad input"), RetryStep::NotRetriable);
    assert_eq!(retry_step(3, 3, &kinds, "Timeout"), RetryStep::GiveUp);
    assert!(is_retriable(&Vec::new(), "anything"));
}

#[test]
fn test_circuit_breaker_closed_on_success() {
    let mut cb = CircuitBreakerCore::new(10, 60_000, 3);
    assert_eq!(cb.get_status(), CircuitBreakerStatus::Closed);
    assert_eq!(cb.record_success(), None);
    assert_eq!(cb.get_status(), CircuitBreakerStatus::Closed);
}

#[test]
fn test_allow_request_when_closed() {
    let mut cb = CircuitBreakerCore::new(10, 60_000, 3);
    assert!(cb.allow_request());
}

#[test]
fn test_circuit_breaker_metrics() {
    let mut cb = CircuitBreakerCore::new(10, 60_000, 3);
    cb.record_success();
    cb.record_failure();

    let metrics = cb.get_metrics();
    assert_eq!(metrics.successes, 1);
    assert_eq!(metrics.failures, 1);
    assert_eq!(metrics.total_calls, 2);
}

#[test]
fn circuit_breaker_cycle() {
    let mut cb = CircuitBreakerCore::new(2, 1_000, 1);
    assert_eq!(cb.record_failure_at(10), None);
    assert_eq!(cb.record_failure_at(20), Some(ThresholdCheck::OpenIfFailing { failures: 2, total: 2 }));
    cb.open();
    assert_eq!(cb.get_status(), CircuitBreakerStatus::Open);
    // Refused until the timeout has passed since the last failure.
    assert!(!cb.allow_request_at(500));
    assert!(cb.allow_request_at(1_021));
    assert_eq!(cb.get_status(), CircuitBreakerStatus::HalfOpen);
    // One half-open call in flight at most.
    assert!(cb.allow_request_at(1_022));
    assert!(!cb.allow_request_at(1_023));
    assert_eq!(cb.record_success(), Some(ThresholdCheck::CloseIfRecovered { successes: 1, half_open_max_calls: 1 }));
    cb.close();
    assert_eq!(cb.get_status(), CircuitBreakerStatus::Closed);
    assert_eq!(cb.get_metrics().total_calls, 0);
}

#[test]
fn half_open_failure_reopens() {
    let mut cb = CircuitBreakerCore::new(1, 0, 2);
    cb.record_failure_at(0);
    cb.open();
    assert!(cb.allow_request_at(5));
    cb.record_failure_at(6);
    assert_eq!(cb.get_status(), CircuitBreakerStatus::Open);
}

#[test]
fn test_tracing_config_default() {
    let config = TracingInit::default();
    assert_eq!(config.service_name, "postoffice");
    assert!(config.json_output);
    assert_eq!(f64::from_bits(config.sample_rate_bits), 1.0);
}

#[test]
fn test_span_builder() {
    let span = SpanBuilder::new("test_span").with_attribute("key1", "value1").with_attribute("key2", "value2");

    assert_eq!(span.name, "test_span");
    assert_eq!(span.attributes.len(), 2);
}

#[test]
fn test_trace_context_creation() {
    let ctx = TraceContext::new("postoffice");
    assert!(!ctx.trace_id.is_empty());
    assert!(!ctx.span_id.is_empty());
    assert_eq!(ctx.origin_service, "postoffice");
    assert!(ctx.parent_span_id.is_none());
}

#[test]
fn test_trace_context_child_span() {
    let parent = TraceContext::new("postoffice");
    let child = parent.create_child_span();

    assert_eq!(child.trace_id, parent.trace_id);
    assert_ne!(child.span_id, parent.span_id);
    assert_eq!(child.parent_span_id, Some(parent.span_id.clone()));
}
