//! The guest-side schema: the flat, ABI-friendly records and tagged unions
//! in which a sandboxed component reports its telemetry.
use vstd::prelude::*;

verus! {

/// A 64-bit IEEE-754 value carried as its raw bit pattern. The bridge never
/// interprets floating-point payloads; it moves them through bit-for-bit,
/// and two payloads are the same exactly when their bit patterns are.
#[derive(Clone, Copy, PartialEq, Eq, Structural, Debug)]
pub struct F64Bits {
    pub bits: u64,
}

/// A point in time: whole seconds since the epoch plus a nanosecond offset.
#[derive(Clone, Copy, PartialEq, Eq, Structural, Debug)]
pub struct Datetime {
    pub seconds: u64,
    pub nanoseconds: u32,
}

/// A guest attribute value: one of four scalar shapes or a homogeneous
/// array of one of them.
#[derive(Clone, PartialEq, Debug)]
pub enum Value {
    Str(String),
    Bool(bool),
    F64(F64Bits),
    S64(i64),
    StrArray(Vec<String>),
    BoolArray(Vec<bool>),
    F64Array(Vec<F64Bits>),
    S64Array(Vec<i64>),
}

/// A guest attribute: a key paired with a value.
#[derive(Clone, PartialEq, Debug)]
pub struct KeyValue {
    pub key: String,
    pub value: Value,
}

/// A guest instrumentation-scope descriptor.
#[derive(Clone, PartialEq, Debug)]
pub struct InstrumentationScope {
    pub name: String,
    pub version: Option<String>,
    pub schema_url: Option<String>,
    pub attributes: Vec<KeyValue>,
}

/// A guest resource descriptor.
#[derive(Clone, PartialEq, Debug)]
pub struct Resource {
    pub attributes: Vec<KeyValue>,
    pub schema_url: Option<String>,
}

/// Guest trace flags. The wire format defines a single flag, `sampled`.
#[derive(Clone, Copy, PartialEq, Eq, Structural, Debug)]
pub struct TraceFlags {
    pub sampled: bool,
}

/// A guest span context. Identifiers travel as hexadecimal text here:
/// 32 characters for a trace id, 16 for a span id.
#[derive(Clone, PartialEq, Debug)]
pub struct SpanContext {
    pub trace_id: String,
    pub span_id: String,
    pub trace_flags: TraceFlags,
    pub is_remote: bool,
    pub trace_state: Vec<(String, String)>,
}

/// The five span kinds.
#[derive(Clone, Copy, PartialEq, Eq, Structural, Debug)]
pub enum SpanKind {
    Client,
    Server,
    Producer,
    Consumer,
    Internal,
}

/// A span's ternary status.
#[derive(Clone, PartialEq, Debug)]
pub enum Status {
    Unset,
    Okay,
    Error(String),
}

/// A timestamped event recorded on a span.
#[derive(Clone, PartialEq, Debug)]
pub struct Event {
    pub name: String,
    pub time: Datetime,
    pub attributes: Vec<KeyValue>,
}

/// A link from one span to another span's context.
#[derive(Clone, PartialEq, Debug)]
pub struct Link {
    pub span_context: SpanContext,
    pub attributes: Vec<KeyValue>,
}

/// A complete guest span record.
#[derive(Clone, PartialEq, Debug)]
pub struct SpanData {
    pub span_context: SpanContext,
    pub parent_span_id: String,
    pub span_kind: SpanKind,
    pub name: String,
    pub start_time: Datetime,
    pub end_time: Datetime,
    pub attributes: Vec<KeyValue>,
    pub dropped_attributes: u32,
    pub events: Vec<Event>,
    pub dropped_events: u32,
    pub links: Vec<Link>,
    pub dropped_links: u32,
    pub status: Status,
    pub instrumentation_scope: InstrumentationScope,
}

/// Whether a metric reports values cumulative since start or as deltas.
#[derive(Clone, Copy, PartialEq, Eq, Structural, Debug)]
pub enum Temporality {
    Cumulative,
    Delta,
    LowMemory,
}

/// A metric sample value: exactly one of the three 64-bit numeric kinds.
#[derive(Clone, Copy, PartialEq, Eq, Structural, Debug)]
pub enum MetricNumber {
    F64(F64Bits),
    S64(i64),
    U64(u64),
}

/// A sampled raw measurement retained alongside an aggregate. Its
/// identifiers arrive as raw byte sequences, not hexadecimal text:
/// 16 bytes for the trace id, 8 for the span id.
#[derive(Clone, PartialEq, Debug)]
pub struct Exemplar {
    pub filtered_attributes: Vec<KeyValue>,
    pub time: Datetime,
    pub value: MetricNumber,
    pub span_id: Vec<u8>,
    pub trace_id: Vec<u8>,
}

/// A data point of a gauge or sum aggregation.
#[derive(Clone, PartialEq, Debug)]
pub struct DataPoint {
    pub attributes: Vec<KeyValue>,
    pub value: MetricNumber,
    pub exemplars: Vec<Exemplar>,
}

/// A gauge aggregation: the latest sampled values.
#[derive(Clone, PartialEq, Debug)]
pub struct Gauge {
    pub data_points: Vec<DataPoint>,
    pub start_time: Option<Datetime>,
    pub time: Datetime,
}

/// A sum aggregation.
#[derive(Clone, PartialEq, Debug)]
pub struct Sum {
    pub data_points: Vec<DataPoint>,
    pub start_time: Datetime,
    pub time: Datetime,
    pub temporality: Temporality,
    pub is_monotonic: bool,
}

/// A data point of an explicit-bucket histogram.
#[derive(Clone, PartialEq, Debug)]
pub struct HistogramDataPoint {
    pub attributes: Vec<KeyValue>,
    pub bounds: Vec<F64Bits>,
    pub bucket_counts: Vec<u64>,
    pub count: u64,
    pub min: Option<MetricNumber>,
    pub max: Option<MetricNumber>,
    pub sum: MetricNumber,
    pub exemplars: Vec<Exemplar>,
}

/// An explicit-bucket histogram aggregation.
#[derive(Clone, PartialEq, Debug)]
pub struct Histogram {
    pub data_points: Vec<HistogramDataPoint>,
    pub start_time: Datetime,
    pub time: Datetime,
    pub temporality: Temporality,
}

/// One side of an exponential histogram's buckets: a starting offset and
/// the counts of the consecutive buckets from there.
#[derive(Clone, PartialEq, Debug)]
pub struct ExponentialBucket {
    pub offset: i32,
    pub counts: Vec<u64>,
}

/// A data point of an exponential histogram.
#[derive(Clone, PartialEq, Debug)]
pub struct ExponentialHistogramDataPoint {
    pub attributes: Vec<KeyValue>,
    pub count: u64,
    pub min: Option<MetricNumber>,
    pub max: Option<MetricNumber>,
    pub sum: MetricNumber,
    pub scale: i8,
    pub zero_count: u64,
    pub positive_bucket: ExponentialBucket,
    pub negative_bucket: ExponentialBucket,
    pub zero_threshold: F64Bits,
    pub exemplars: Vec<Exemplar>,
}

/// An exponential histogram aggregation.
#[derive(Clone, PartialEq, Debug)]
pub struct ExponentialHistogram {
    pub data_points: Vec<ExponentialHistogramDataPoint>,
    pub start_time: Datetime,
    pub time: Datetime,
    pub temporality: Temporality,
}

/// A metric's payload: one of four aggregation shapes, each over one of
/// the three numeric kinds. The variant is the metric's declared type;
/// every data point inside is expected to carry that kind's number.
#[derive(Clone, PartialEq, Debug)]
pub enum MetricData {
    F64Sum(Sum),
    S64Sum(Sum),
    U64Sum(Sum),
    F64Gauge(Gauge),
    S64Gauge(Gauge),
    U64Gauge(Gauge),
    F64Histogram(Histogram),
    S64Histogram(Histogram),
    U64Histogram(Histogram),
    F64ExponentialHistogram(ExponentialHistogram),
    S64ExponentialHistogram(ExponentialHistogram),
    U64ExponentialHistogram(ExponentialHistogram),
}

/// A metric envelope: descriptive fields plus the aggregated payload.
#[derive(Clone, PartialEq, Debug)]
pub struct Metric {
    pub name: String,
    pub description: String,
    pub unit: String,
    pub data: MetricData,
}

/// The metrics reported by one instrumentation scope.
#[derive(Clone, PartialEq, Debug)]
pub struct ScopeMetrics {
    pub scope: InstrumentationScope,
    pub metrics: Vec<Metric>,
}

/// A resource together with all metrics reported against it.
#[derive(Clone, PartialEq, Debug)]
pub struct ResourceMetrics {
    pub resource: Resource,
    pub scope_metrics: Vec<ScopeMetrics>,
}

} // verus!
