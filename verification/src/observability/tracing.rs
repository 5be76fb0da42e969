//! Distributed tracing data: the tracing set-up values, span descriptions
//! and the context carried across services.
use vstd::prelude::*;
use crate::clock;
use crate::text::owned;

verus! {

/// Tracing set-up values (the sample rate is kept as the bit pattern of its
/// `f64` value).
#[derive(Debug, Clone)]
pub struct TracingInit {
    /// Service name for tracing
    pub service_name: String,
    /// Enable JSON output for structured logging
    pub json_output: bool,
    /// Environment filter (e.g., "info,postoffice=debug")
    pub env_filter: String,
    /// Sample rate 0.0-1.0, as `f64` bits
    pub sample_rate_bits: u64,
}

/// The bits of the `f64` value 1.0.
pub const ONE_F64_BITS: u64 = 0x3ff0_0000_0000_0000;

impl Default for TracingInit {
    fn default() -> (r: Self)
        ensures
            r.service_name@ == "postoffice"@,
            r.json_output,
            r.env_filter@ == "info"@,
            r.sample_rate_bits == ONE_F64_BITS,
    {
        TracingInit {
            service_name: owned("postoffice"),
            json_output: true,
            env_filter: owned("info"),
            sample_rate_bits: ONE_F64_BITS,
        }
    }
}

/// A named operation with attributes, to be traced.
#[derive(Debug, Clone)]
pub struct SpanBuilder {
    pub name: String,
    pub attributes: Vec<(String, String)>,
}

impl SpanBuilder {
    /// A span description with no attribute.
    pub fn new(name: &str) -> (r: Self)
        ensures
            r.name@ == name@,
            r.attributes@.len() == 0,
    {
        SpanBuilder { name: owned(name), attributes: Vec::new() }
    }

    /// The same description with one more attribute at the end.
    pub fn with_attribute(self, key: &str, value: &str) -> (r: Self)
        ensures
            r.name == self.name,
            r.attributes@.len() == self.attributes@.len() + 1,
            r.attributes@.drop_last() == self.attributes@,
            r.attributes@.last().0@ == key@,
            r.attributes@.last().1@ == value@,
    {
        let mut s = self;
        s.attributes.push((owned(key), owned(value)));
        s
    }
}

/// Distributed trace context for cross-service calls.
#[derive(Debug, Clone)]
pub struct TraceContext {
    /// Trace ID for correlating requests
    pub trace_id: String,
    /// Span ID within trace
    pub span_id: String,
    /// Parent span ID if nested
    pub parent_span_id: Option<String>,
    /// Service name that originated trace
    pub origin_service: String,
}

impl TraceContext {
    /// A new trace from `service_name`: fresh random trace and span IDs (in
    /// the 36-character UUID form) and no parent span.
    pub fn new(service_name: &str) -> (r: Self)
        ensures
            r.trace_id@.len() == 36,
            r.span_id@.len() == 36,
            r.parent_span_id is None,
            r.origin_service@ == service_name@,
    {
        TraceContext {
            trace_id: clock::new_uuid_string(),
            span_id: clock::new_uuid_string(),
            parent_span_id: None,
            origin_service: owned(service_name),
        }
    }

    /// A child span of this context: the same trace and origin, a fresh span
    /// ID, and this span as parent.
    pub fn create_child_span(&self) -> (r: Self)
        ensures
            r.trace_id@ == self.trace_id@,
            r.span_id@.len() == 36,
            r.parent_span_id matches Some(p) && p@ == self.span_id@,
            r.origin_service@ == self.origin_service@,
    {
        TraceContext {
            trace_id: self.trace_id.clone(),
            span_id: clock::new_uuid_string(),
            parent_span_id: Some(self.span_id.clone()),
            origin_service: self.origin_service.clone(),
        }
    }
}

} // verus!
