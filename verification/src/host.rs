//! The host-side schema: a plain-value model of the telemetry SDK's
//! in-process structures, as this bridge fills them. Identifiers are byte
//! sequences (16 bytes for a trace id, 8 for a span id), timestamps are
//! nanoseconds since the epoch, and floating-point payloads stay raw bit
//! patterns.
use vstd::prelude::*;
use crate::guest::F64Bits;

verus! {

/// A host attribute array: a homogeneous list of one scalar shape.
#[derive(Clone, PartialEq, Debug)]
pub enum HostArray {
    Str(Vec<String>),
    Bool(Vec<bool>),
    F64(Vec<F64Bits>),
    S64(Vec<i64>),
}

/// A host attribute value: a scalar, or an array wrapper around a
/// homogeneous list.
#[derive(Clone, PartialEq, Debug)]
pub enum HostValue {
    Str(String),
    Bool(bool),
    F64(F64Bits),
    S64(i64),
    Array(HostArray),
}

/// A host attribute.
#[derive(Clone, PartialEq, Debug)]
pub struct HostKeyValue {
    pub key: String,
    pub value: HostValue,
}

/// A host instrumentation scope.
#[derive(Clone, PartialEq, Debug)]
pub struct HostScope {
    pub name: String,
    pub version: Option<String>,
    pub schema_url: Option<String>,
    pub attributes: Vec<HostKeyValue>,
}

/// A host resource.
#[derive(Clone, PartialEq, Debug)]
pub struct HostResource {
    pub attributes: Vec<HostKeyValue>,
    pub schema_url: Option<String>,
}

/// A host timestamp: nanoseconds since the epoch.
#[derive(Clone, Copy, PartialEq, Eq, Structural, Debug)]
pub struct HostTimestamp {
    pub nanos: u128,
}

/// A host span context. Identifiers are fixed-width byte values; the
/// all-zero value is the well-defined invalid sentinel.
#[derive(Clone, PartialEq, Debug)]
pub struct HostSpanContext {
    pub trace_id: Vec<u8>,
    pub span_id: Vec<u8>,
    pub trace_flags: u8,
    pub is_remote: bool,
    pub trace_state: Vec<(String, String)>,
}

/// The host's five span kinds.
#[derive(Clone, Copy, PartialEq, Eq, Structural, Debug)]
pub enum HostSpanKind {
    Client,
    Server,
    Producer,
    Consumer,
    Internal,
}

/// The host's ternary span status.
#[derive(Clone, PartialEq, Debug)]
pub enum HostStatus {
    Unset,
    Okay,
    Error(String),
}

/// A host span event, with the count of attributes the guest dropped
/// from it (always zero across this bridge, as on the wire).
#[derive(Clone, PartialEq, Debug)]
pub struct HostEvent {
    pub name: String,
    pub time: HostTimestamp,
    pub attributes: Vec<HostKeyValue>,
    pub dropped_attributes_count: u32,
}

/// A host span link.
#[derive(Clone, PartialEq, Debug)]
pub struct HostLink {
    pub span_context: HostSpanContext,
    pub attributes: Vec<HostKeyValue>,
    pub dropped_attributes_count: u32,
}

/// A complete host span record.
#[derive(Clone, PartialEq, Debug)]
pub struct HostSpanData {
    pub span_context: HostSpanContext,
    pub parent_span_id: Vec<u8>,
    pub span_kind: HostSpanKind,
    pub name: String,
    pub start_time: HostTimestamp,
    pub end_time: HostTimestamp,
    pub attributes: Vec<HostKeyValue>,
    pub dropped_attributes_count: u32,
    pub events: Vec<HostEvent>,
    pub dropped_events_count: u32,
    pub links: Vec<HostLink>,
    pub dropped_links_count: u32,
    pub status: HostStatus,
    pub instrumentation_scope: HostScope,
}

/// The host's temporality.
#[derive(Clone, Copy, PartialEq, Eq, Structural, Debug)]
pub enum HostTemporality {
    Cumulative,
    Delta,
    LowMemory,
}

/// The numeric kind a metric declares for all its data points.
#[derive(Clone, Copy, PartialEq, Eq, Structural, Debug)]
pub enum NumericKind {
    F64,
    S64,
    U64,
}

/// A host metric value, already checked against the declared kind.
#[derive(Clone, Copy, PartialEq, Eq, Structural, Debug)]
pub enum HostNumber {
    F64(F64Bits),
    S64(i64),
    U64(u64),
}

/// A host exemplar. Identifiers are the guest's raw bytes, passed through
/// after a length check.
#[derive(Clone, PartialEq, Debug)]
pub struct HostExemplar {
    pub filtered_attributes: Vec<HostKeyValue>,
    pub time: HostTimestamp,
    pub value: HostNumber,
    pub span_id: Vec<u8>,
    pub trace_id: Vec<u8>,
}

/// A host gauge or sum data point.
#[derive(Clone, PartialEq, Debug)]
pub struct HostDataPoint {
    pub attributes: Vec<HostKeyValue>,
    pub value: HostNumber,
    pub exemplars: Vec<HostExemplar>,
}

/// A host gauge.
#[derive(Clone, PartialEq, Debug)]
pub struct HostGauge {
    pub data_points: Vec<HostDataPoint>,
    pub start_time: Option<HostTimestamp>,
    pub time: HostTimestamp,
}

/// A host sum.
#[derive(Clone, PartialEq, Debug)]
pub struct HostSum {
    pub data_points: Vec<HostDataPoint>,
    pub start_time: HostTimestamp,
    pub time: HostTimestamp,
    pub temporality: HostTemporality,
    pub is_monotonic: bool,
}

/// A host explicit-bucket histogram data point. Bounds and bucket counts
/// are the guest's, verbatim; this layer never re-buckets or validates
/// their ordering.
#[derive(Clone, PartialEq, Debug)]
pub struct HostHistogramDataPoint {
    pub attributes: Vec<HostKeyValue>,
    pub bounds: Vec<F64Bits>,
    pub bucket_counts: Vec<u64>,
    pub count: u64,
    pub min: Option<HostNumber>,
    pub max: Option<HostNumber>,
    pub sum: HostNumber,
    pub exemplars: Vec<HostExemplar>,
}

/// A host explicit-bucket histogram.
#[derive(Clone, PartialEq, Debug)]
pub struct HostHistogram {
    pub data_points: Vec<HostHistogramDataPoint>,
    pub start_time: HostTimestamp,
    pub time: HostTimestamp,
    pub temporality: HostTemporality,
}

/// One side of a host exponential histogram's buckets.
#[derive(Clone, PartialEq, Debug)]
pub struct HostExponentialBucket {
    pub offset: i32,
    pub counts: Vec<u64>,
}

/// A host exponential histogram data point. Scale, zero count, zero
/// threshold and both bucket sides are the guest's, verbatim.
#[derive(Clone, PartialEq, Debug)]
pub struct HostExponentialHistogramDataPoint {
    pub attributes: Vec<HostKeyValue>,
    pub count: u64,
    pub min: Option<HostNumber>,
    pub max: Option<HostNumber>,
    pub sum: HostNumber,
    pub scale: i8,
    pub zero_count: u64,
    pub positive_bucket: HostExponentialBucket,
    pub negative_bucket: HostExponentialBucket,
    pub zero_threshold: F64Bits,
    pub exemplars: Vec<HostExemplar>,
}

/// A host exponential histogram.
#[derive(Clone, PartialEq, Debug)]
pub struct HostExponentialHistogram {
    pub data_points: Vec<HostExponentialHistogramDataPoint>,
    pub start_time: HostTimestamp,
    pub time: HostTimestamp,
    pub temporality: HostTemporality,
}

/// The host's polymorphic aggregation: one of four shapes, tagged with
/// the numeric kind every value inside has been checked against.
#[derive(Clone, PartialEq, Debug)]
pub enum HostAggregation {
    Sum(NumericKind, HostSum),
    Gauge(NumericKind, HostGauge),
    Histogram(NumericKind, HostHistogram),
    ExponentialHistogram(NumericKind, HostExponentialHistogram),
}

/// A host metric envelope.
#[derive(Clone, PartialEq, Debug)]
pub struct HostMetric {
    pub name: String,
    pub description: String,
    pub unit: String,
    pub data: HostAggregation,
}

/// The host metrics of one instrumentation scope.
#[derive(Clone, PartialEq, Debug)]
pub struct HostScopeMetrics {
    pub scope: HostScope,
    pub metrics: Vec<HostMetric>,
}

/// A host resource with all its metrics.
#[derive(Clone, PartialEq, Debug)]
pub struct HostResourceMetrics {
    pub resource: HostResource,
    pub scope_metrics: Vec<HostScopeMetrics>,
}

/// The error this bridge reports instead of aborting when a guest payload
/// breaks its own schema contract: a data point or exemplar whose number
/// is not of the metric's declared kind, or an exemplar identifier of the
/// wrong length.
#[derive(Clone, Copy, PartialEq, Eq, Structural, Debug)]
pub enum ConvertError {
    InternalConsistencyViolation,
}

} // verus!
