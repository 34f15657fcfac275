//! The metric converter: maps a guest metric payload — one of four
//! aggregation shapes, each over one of three numeric kinds — into the
//! host's polymorphic aggregation, checking on the way that every data
//! point, running sum, minimum, maximum and exemplar actually carries
//! the metric's declared numeric kind, and that exemplar identifiers
//! have their fixed width. A payload that breaks its own schema contract
//! yields a typed error instead of aborting, so one malformed record
//! cannot take the whole pipeline down.
use vstd::prelude::*;
use crate::guest::{
    DataPoint, Exemplar, ExponentialBucket, ExponentialHistogram,
    ExponentialHistogramDataPoint, Gauge, Histogram, HistogramDataPoint, Metric, MetricData,
    MetricNumber, ResourceMetrics, ScopeMetrics, Sum, Temporality,
};
use crate::host::{
    ConvertError, HostAggregation, HostDataPoint, HostExemplar, HostExponentialBucket,
    HostExponentialHistogram, HostExponentialHistogramDataPoint, HostGauge, HostHistogram,
    HostHistogramDataPoint, HostMetric, HostNumber, HostResourceMetrics, HostScopeMetrics,
    HostSum, HostTemporality, HostTimestamp, NumericKind,
};
use crate::ids::{SPAN_ID_BYTES, TRACE_ID_BYTES};
use crate::scope::{resource_rel, scope_rel, to_host_resource, to_host_scope};
use crate::trace::{host_time_of, to_host_time};
use crate::values::{spec_attrs, to_host_attrs};

verus! {

/// Whether a guest number carries the declared numeric kind.
pub open spec fn kind_matches(k: NumericKind, n: MetricNumber) -> bool {
    match (k, n) {
        (NumericKind::F64, MetricNumber::F64(_)) => true,
        (NumericKind::S64, MetricNumber::S64(_)) => true,
        (NumericKind::U64, MetricNumber::U64(_)) => true,
        _ => false,
    }
}

/// The host number with the same payload as a guest number.
pub open spec fn host_number_of(n: MetricNumber) -> HostNumber {
    match n {
        MetricNumber::F64(f) => HostNumber::F64(f),
        MetricNumber::S64(v) => HostNumber::S64(v),
        MetricNumber::U64(v) => HostNumber::U64(v),
    }
}

/// Projects a guest number to the declared kind: the same payload when
/// the kinds agree, the consistency error when they do not.
pub fn project_number(k: NumericKind, n: MetricNumber) -> (r: Result<HostNumber, ConvertError>)
    ensures
        kind_matches(k, n) ==> r == Ok::<HostNumber, ConvertError>(host_number_of(n)),
        !kind_matches(k, n) ==> r == Err::<HostNumber, ConvertError>(
            ConvertError::InternalConsistencyViolation,
        ),
{
    match (k, n) {
        (NumericKind::F64, MetricNumber::F64(f)) => Ok(HostNumber::F64(f)),
        (NumericKind::S64, MetricNumber::S64(v)) => Ok(HostNumber::S64(v)),
        (NumericKind::U64, MetricNumber::U64(v)) => Ok(HostNumber::U64(v)),
        _ => Err(ConvertError::InternalConsistencyViolation),
    }
}

/// The host temporality of a guest temporality, one-to-one.
pub open spec fn spec_temporality(t: Temporality) -> HostTemporality {
    match t {
        Temporality::Cumulative => HostTemporality::Cumulative,
        Temporality::Delta => HostTemporality::Delta,
        Temporality::LowMemory => HostTemporality::LowMemory,
    }
}

/// Converts a temporality. The match is exhaustive: no default arm.
pub fn to_host_temporality(t: Temporality) -> (r: HostTemporality)
    ensures
        r == spec_temporality(t),
{
    match t {
        Temporality::Cumulative => HostTemporality::Cumulative,
        Temporality::Delta => HostTemporality::Delta,
        Temporality::LowMemory => HostTemporality::LowMemory,
    }
}

/// An optional guest number projected, when present.
pub open spec fn spec_opt_number(n: Option<MetricNumber>) -> Option<HostNumber> {
    match n {
        Some(m) => Some(host_number_of(m)),
        None => None,
    }
}

/// Whether an optional guest number, when present, carries the declared
/// kind.
pub open spec fn opt_kind_matches(k: NumericKind, n: Option<MetricNumber>) -> bool {
    match n {
        Some(m) => kind_matches(k, m),
        None => true,
    }
}

/// Projects an optional guest number.
fn project_opt_number(k: NumericKind, n: Option<MetricNumber>) -> (r: Result<
    Option<HostNumber>,
    ConvertError,
>)
    ensures
        opt_kind_matches(k, n) ==> r == Ok::<Option<HostNumber>, ConvertError>(spec_opt_number(n)),
        !opt_kind_matches(k, n) ==> r == Err::<Option<HostNumber>, ConvertError>(
            ConvertError::InternalConsistencyViolation,
        ),
{
    match n {
        Some(m) => match project_number(k, m) {
            Ok(v) => Ok(Some(v)),
            Err(e) => Err(e),
        },
        None => Ok(None),
    }
}

/// Whether a guest exemplar is consistent with the declared kind: its
/// value carries that kind and its raw identifiers have their fixed
/// widths.
pub open spec fn exemplar_ok(k: NumericKind, e: Exemplar) -> bool {
    &&& kind_matches(k, e.value)
    &&& e.trace_id@.len() == TRACE_ID_BYTES
    &&& e.span_id@.len() == SPAN_ID_BYTES
}

/// How a host exemplar relates to the guest exemplar it was converted
/// from: attributes converted, value projected with the same payload,
/// raw identifier bytes passed through untouched (no hexadecimal
/// decoding on this path).
pub open spec fn exemplar_rel(k: NumericKind, g: Exemplar, h: HostExemplar) -> bool {
    &&& h.filtered_attributes@ == spec_attrs(g.filtered_attributes@)
    &&& h.time == host_time_of(g.time)
    &&& h.value == host_number_of(g.value)
    &&& h.span_id == g.span_id
    &&& h.trace_id == g.trace_id
}

/// Converts one guest exemplar, or reports the consistency error.
fn to_host_exemplar(k: NumericKind, e: Exemplar) -> (r: Result<HostExemplar, ConvertError>)
    ensures
        exemplar_ok(k, e) ==> (r matches Ok(h) && exemplar_rel(k, e, h)),
        !exemplar_ok(k, e) ==> r == Err::<HostExemplar, ConvertError>(
            ConvertError::InternalConsistencyViolation,
        ),
{
    let Exemplar { filtered_attributes, time, value, span_id, trace_id } = e;
    if trace_id.len() != TRACE_ID_BYTES || span_id.len() != SPAN_ID_BYTES {
        return Err(ConvertError::InternalConsistencyViolation);
    }
    let v = match project_number(k, value) {
        Ok(v) => v,
        Err(err) => {
            return Err(err);
        },
    };
    Ok(
        HostExemplar {
            filtered_attributes: to_host_attrs(filtered_attributes),
            time: to_host_time(time),
            value: v,
            span_id,
            trace_id,
        },
    )
}

/// Whether every exemplar of a list is consistent with the declared
/// kind.
pub open spec fn all_exemplars_ok(k: NumericKind, s: Seq<Exemplar>) -> bool {
    forall|i: int| 0 <= i < s.len() ==> exemplar_ok(k, #[trigger] s[i])
}

/// Converts a guest exemplar list, keeping order and count, or reports
/// the consistency error if any member is inconsistent.
#[verifier::loop_isolation(false)]
fn to_host_exemplars(k: NumericKind, xs: Vec<Exemplar>) -> (r: Result<
    Vec<HostExemplar>,
    ConvertError,
>)
    ensures
        r matches Ok(v) ==> v@.len() == xs@.len() && all_exemplars_ok(k, xs@) && (forall|i: int|
            0 <= i < xs@.len() ==> exemplar_rel(k, #[trigger] xs@[i], v@[i])),
        r is Err ==> r == Err::<Vec<HostExemplar>, ConvertError>(
            ConvertError::InternalConsistencyViolation,
        ) && !all_exemplars_ok(k, xs@),
        all_exemplars_ok(k, xs@) ==> r is Ok,
{
    let ghost orig = xs@;
    let mut rest = xs;
    let mut out: Vec<HostExemplar> = Vec::new();
    while rest.len() > 0
        invariant
            out@.len() + rest@.len() == orig.len(),
            rest@ == orig.skip(out@.len() as int),
            forall|i: int| 0 <= i < out@.len() ==> exemplar_ok(k, #[trigger] orig[i])
                && exemplar_rel(k, orig[i], out@[i]),
        decreases rest@.len(),
    {
        let ghost m = out@.len() as int;
        let e = rest.remove(0);
        proof {
            assert(e == orig[m]);
        }
        match to_host_exemplar(k, e) {
            Ok(h) => {
                out.push(h);
                proof {
                    assert(rest@ =~= orig.skip(m + 1));
                }
            },
            Err(err) => {
                proof {
                    assert(!exemplar_ok(k, orig[m]));
                }
                return Err(err);
            },
        }
    }
    Ok(out)
}

/// Whether a gauge or sum data point is consistent with the declared
/// kind.
pub open spec fn dp_ok(k: NumericKind, d: DataPoint) -> bool {
    &&& kind_matches(k, d.value)
    &&& all_exemplars_ok(k, d.exemplars@)
}

/// How a host gauge or sum data point relates to its guest original.
pub open spec fn dp_rel(k: NumericKind, g: DataPoint, h: HostDataPoint) -> bool {
    &&& h.attributes@ == spec_attrs(g.attributes@)
    &&& h.value == host_number_of(g.value)
    &&& h.exemplars@.len() == g.exemplars@.len()
    &&& (forall|i: int| 0 <= i < g.exemplars@.len() ==> exemplar_rel(
        k,
        #[trigger] g.exemplars@[i],
        h.exemplars@[i],
    ))
}

/// Converts one gauge or sum data point.
fn to_host_data_point(k: NumericKind, d: DataPoint) -> (r: Result<HostDataPoint, ConvertError>)
    ensures
        dp_ok(k, d) ==> (r matches Ok(h) && dp_rel(k, d, h)),
        !dp_ok(k, d) ==> r == Err::<HostDataPoint, ConvertError>(
            ConvertError::InternalConsistencyViolation,
        ),
{
    let DataPoint { attributes, value, exemplars } = d;
    let v = match project_number(k, value) {
        Ok(v) => v,
        Err(err) => {
            return Err(err);
        },
    };
    let ex = match to_host_exemplars(k, exemplars) {
        Ok(ex) => ex,
        Err(err) => {
            return Err(err);
        },
    };
    Ok(HostDataPoint { attributes: to_host_attrs(attributes), value: v, exemplars: ex })
}

/// Whether every gauge or sum data point of a list is consistent.
pub open spec fn all_dps_ok(k: NumericKind, s: Seq<DataPoint>) -> bool {
    forall|i: int| 0 <= i < s.len() ==> dp_ok(k, #[trigger] s[i])
}

/// Converts a list of gauge or sum data points, keeping order and count.
#[verifier::loop_isolation(false)]
fn to_host_data_points(k: NumericKind, xs: Vec<DataPoint>) -> (r: Result<
    Vec<HostDataPoint>,
    ConvertError,
>)
    ensures
        r matches Ok(v) ==> v@.len() == xs@.len() && all_dps_ok(k, xs@) && (forall|i: int|
            0 <= i < xs@.len() ==> dp_rel(k, #[trigger] xs@[i], v@[i])),
        r is Err ==> r == Err::<Vec<HostDataPoint>, ConvertError>(
            ConvertError::InternalConsistencyViolation,
        ) && !all_dps_ok(k, xs@),
        all_dps_ok(k, xs@) ==> r is Ok,
{
    let ghost orig = xs@;
    let mut rest = xs;
    let mut out: Vec<HostDataPoint> = Vec::new();
    while rest.len() > 0
        invariant
            out@.len() + rest@.len() == orig.len(),
            rest@ == orig.skip(out@.len() as int),
            forall|i: int| 0 <= i < out@.len() ==> dp_ok(k, #[trigger] orig[i]) && dp_rel(
                k,
                orig[i],
                out@[i],
            ),
        decreases rest@.len(),
    {
        let ghost m = out@.len() as int;
        let d = rest.remove(0);
        proof {
            assert(d == orig[m]);
        }
        match to_host_data_point(k, d) {
            Ok(h) => {
                out.push(h);
                proof {
                    assert(rest@ =~= orig.skip(m + 1));
                }
            },
            Err(err) => {
                proof {
                    assert(!dp_ok(k, orig[m]));
                }
                return Err(err);
            },
        }
    }
    Ok(out)
}

/// Whether a whole gauge is consistent with the declared kind.
pub open spec fn gauge_ok(k: NumericKind, g: Gauge) -> bool {
    all_dps_ok(k, g.data_points@)
}

/// How a host gauge relates to its guest original: data points converted
/// in order, the optional start time and the required time carried over.
pub open spec fn gauge_rel(k: NumericKind, g: Gauge, h: HostGauge) -> bool {
    &&& h.data_points@.len() == g.data_points@.len()
    &&& (forall|i: int| 0 <= i < g.data_points@.len() ==> dp_rel(
        k,
        #[trigger] g.data_points@[i],
        h.data_points@[i],
    ))
    &&& h.start_time == (match g.start_time {
        Some(t) => Some(host_time_of(t)),
        None => None::<HostTimestamp>,
    })
    &&& h.time == host_time_of(g.time)
}

/// Converts a guest gauge under its declared kind.
pub fn to_host_gauge(k: NumericKind, g: Gauge) -> (r: Result<HostGauge, ConvertError>)
    ensures
        gauge_ok(k, g) ==> (r matches Ok(h) && gauge_rel(k, g, h)),
        !gauge_ok(k, g) ==> r == Err::<HostGauge, ConvertError>(
            ConvertError::InternalConsistencyViolation,
        ),
{
    let Gauge { data_points, start_time, time } = g;
    let dps = match to_host_data_points(k, data_points) {
        Ok(dps) => dps,
        Err(err) => {
            return Err(err);
        },
    };
    let st: Option<HostTimestamp> = match start_time {
        Some(t) => Some(to_host_time(t)),
        None => None,
    };
    Ok(HostGauge { data_points: dps, start_time: st, time: to_host_time(time) })
}

/// Whether a whole sum is consistent with the declared kind.
pub open spec fn sum_ok(k: NumericKind, s: Sum) -> bool {
    all_dps_ok(k, s.data_points@)
}

/// How a host sum relates to its guest original: data points converted
/// in order, times carried over, temporality mapped one-to-one and the
/// monotonicity flag copied through unchanged.
pub open spec fn sum_rel(k: NumericKind, g: Sum, h: HostSum) -> bool {
    &&& h.data_points@.len() == g.data_points@.len()
    &&& (forall|i: int| 0 <= i < g.data_points@.len() ==> dp_rel(
        k,
        #[trigger] g.data_points@[i],
        h.data_points@[i],
    ))
    &&& h.start_time == host_time_of(g.start_time)
    &&& h.time == host_time_of(g.time)
    &&& h.temporality == spec_temporality(g.temporality)
    &&& h.is_monotonic == g.is_monotonic
}

/// Converts a guest sum under its declared kind.
pub fn to_host_sum(k: NumericKind, s: Sum) -> (r: Result<HostSum, ConvertError>)
    ensures
        sum_ok(k, s) ==> (r matches Ok(h) && sum_rel(k, s, h)),
        !sum_ok(k, s) ==> r == Err::<HostSum, ConvertError>(
            ConvertError::InternalConsistencyViolation,
        ),
{
    let Sum { data_points, start_time, time, temporality, is_monotonic } = s;
    let dps = match to_host_data_points(k, data_points) {
        Ok(dps) => dps,
        Err(err) => {
            return Err(err);
        },
    };
    Ok(
        HostSum {
            data_points: dps,
            start_time: to_host_time(start_time),
            time: to_host_time(time),
            temporality: to_host_temporality(temporality),
            is_monotonic,
        },
    )
}

/// Whether an explicit-bucket histogram data point is consistent with
/// the declared kind: the running sum, the optional minimum and maximum
/// and every exemplar carry that kind.
pub open spec fn hist_dp_ok(k: NumericKind, d: HistogramDataPoint) -> bool {
    &&& kind_matches(k, d.sum)
    &&& opt_kind_matches(k, d.min)
    &&& opt_kind_matches(k, d.max)
    &&& all_exemplars_ok(k, d.exemplars@)
}

/// How a host histogram data point relates to its guest original:
/// bounds and bucket counts are the guest's vectors, verbatim.
pub open spec fn hist_dp_rel(k: NumericKind, g: HistogramDataPoint, h: HostHistogramDataPoint) -> bool {
    &&& h.attributes@ == spec_attrs(g.attributes@)
    &&& h.bounds == g.bounds
    &&& h.bucket_counts == g.bucket_counts
    &&& h.count == g.count
    &&& h.min == spec_opt_number(g.min)
    &&& h.max == spec_opt_number(g.max)
    &&& h.sum == host_number_of(g.sum)
    &&& h.exemplars@.len() == g.exemplars@.len()
    &&& (forall|i: int| 0 <= i < g.exemplars@.len() ==> exemplar_rel(
        k,
        #[trigger] g.exemplars@[i],
        h.exemplars@[i],
    ))
}

/// Converts one explicit-bucket histogram data point.
fn to_host_hist_dp(k: NumericKind, d: HistogramDataPoint) -> (r: Result<
    HostHistogramDataPoint,
    ConvertError,
>)
    ensures
        hist_dp_ok(k, d) ==> (r matches Ok(h) && hist_dp_rel(k, d, h)),
        !hist_dp_ok(k, d) ==> r == Err::<HostHistogramDataPoint, ConvertError>(
            ConvertError::InternalConsistencyViolation,
        ),
{
    let HistogramDataPoint { attributes, bounds, bucket_counts, count, min, max, sum, exemplars } =
        d;
    let s = match project_number(k, sum) {
        Ok(s) => s,
        Err(err) => {
            return Err(err);
        },
    };
    let mn = match project_opt_number(k, min) {
        Ok(mn) => mn,
        Err(err) => {
            return Err(err);
        },
    };
    let mx = match project_opt_number(k, max) {
        Ok(mx) => mx,
        Err(err) => {
            return Err(err);
        },
    };
    let ex = match to_host_exemplars(k, exemplars) {
        Ok(ex) => ex,
        Err(err) => {
            return Err(err);
        },
    };
    Ok(
        HostHistogramDataPoint {
            attributes: to_host_attrs(attributes),
            bounds,
            bucket_counts,
            count,
            min: mn,
            max: mx,
            sum: s,
            exemplars: ex,
        },
    )
}

/// Whether every histogram data point of a list is consistent.
pub open spec fn all_hist_dps_ok(k: NumericKind, s: Seq<HistogramDataPoint>) -> bool {
    forall|i: int| 0 <= i < s.len() ==> hist_dp_ok(k, #[trigger] s[i])
}

/// Converts a list of histogram data points, keeping order and count.
#[verifier::loop_isolation(false)]
fn to_host_hist_dps(k: NumericKind, xs: Vec<HistogramDataPoint>) -> (r: Result<
    Vec<HostHistogramDataPoint>,
    ConvertError,
>)
    ensures
        r matches Ok(v) ==> v@.len() == xs@.len() && all_hist_dps_ok(k, xs@) && (forall|i: int|
            0 <= i < xs@.len() ==> hist_dp_rel(k, #[trigger] xs@[i], v@[i])),
        r is Err ==> r == Err::<Vec<HostHistogramDataPoint>, ConvertError>(
            ConvertError::InternalConsistencyViolation,
        ) && !all_hist_dps_ok(k, xs@),
        all_hist_dps_ok(k, xs@) ==> r is Ok,
{
    let ghost orig = xs@;
    let mut rest = xs;
    let mut out: Vec<HostHistogramDataPoint> = Vec::new();
    while rest.len() > 0
        invariant
            out@.len() + rest@.len() == orig.len(),
            rest@ == orig.skip(out@.len() as int),
            forall|i: int| 0 <= i < out@.len() ==> hist_dp_ok(k, #[trigger] orig[i]) && hist_dp_rel(
                k,
                orig[i],
                out@[i],
            ),
        decreases rest@.len(),
    {
        let ghost m = out@.len() as int;
        let d = rest.remove(0);
        proof {
            assert(d == orig[m]);
        }
        match to_host_hist_dp(k, d) {
            Ok(h) => {
                out.push(h);
                proof {
                    assert(rest@ =~= orig.skip(m + 1));
                }
            },
            Err(err) => {
                proof {
                    assert(!hist_dp_ok(k, orig[m]));
                }
                return Err(err);
            },
        }
    }
    Ok(out)
}

/// Whether a whole explicit-bucket histogram is consistent.
pub open spec fn histogram_ok(k: NumericKind, g: Histogram) -> bool {
    all_hist_dps_ok(k, g.data_points@)
}

/// How a host histogram relates to its guest original.
pub open spec fn histogram_rel(k: NumericKind, g: Histogram, h: HostHistogram) -> bool {
    &&& h.data_points@.len() == g.data_points@.len()
    &&& (forall|i: int| 0 <= i < g.data_points@.len() ==> hist_dp_rel(
        k,
        #[trigger] g.data_points@[i],
        h.data_points@[i],
    ))
    &&& h.start_time == host_time_of(g.start_time)
    &&& h.time == host_time_of(g.time)
    &&& h.temporality == spec_temporality(g.temporality)
}

/// Converts a guest explicit-bucket histogram under its declared kind.
pub fn to_host_histogram(k: NumericKind, g: Histogram) -> (r: Result<HostHistogram, ConvertError>)
    ensures
        histogram_ok(k, g) ==> (r matches Ok(h) && histogram_rel(k, g, h)),
        !histogram_ok(k, g) ==> r == Err::<HostHistogram, ConvertError>(
            ConvertError::InternalConsistencyViolation,
        ),
{
    let Histogram { data_points, start_time, time, temporality } = g;
    let dps = match to_host_hist_dps(k, data_points) {
        Ok(dps) => dps,
        Err(err) => {
            return Err(err);
        },
    };
    Ok(
        HostHistogram {
            data_points: dps,
            start_time: to_host_time(start_time),
            time: to_host_time(time),
            temporality: to_host_temporality(temporality),
        },
    )
}

/// How a host exponential bucket relates to its guest original: offset
/// and counts verbatim, no renormalization.
pub open spec fn bucket_rel(g: ExponentialBucket, h: HostExponentialBucket) -> bool {
    &&& h.offset == g.offset
    &&& h.counts == g.counts
}

/// Converts one side of an exponential histogram's buckets.
fn to_host_bucket(b: ExponentialBucket) -> (r: HostExponentialBucket)
    ensures
        bucket_rel(b, r),
{
    let ExponentialBucket { offset, counts } = b;
    HostExponentialBucket { offset, counts }
}

/// Whether an exponential histogram data point is consistent with the
/// declared kind.
pub open spec fn exp_dp_ok(k: NumericKind, d: ExponentialHistogramDataPoint) -> bool {
    &&& kind_matches(k, d.sum)
    &&& opt_kind_matches(k, d.min)
    &&& opt_kind_matches(k, d.max)
    &&& all_exemplars_ok(k, d.exemplars@)
}

/// How a host exponential histogram data point relates to its guest
/// original: scale, zero count, zero threshold and both bucket sides
/// verbatim.
pub open spec fn exp_dp_rel(
    k: NumericKind,
    g: ExponentialHistogramDataPoint,
    h: HostExponentialHistogramDataPoint,
) -> bool {
    &&& h.attributes@ == spec_attrs(g.attributes@)
    &&& h.count == g.count
    &&& h.min == spec_opt_number(g.min)
    &&& h.max == spec_opt_number(g.max)
    &&& h.sum == host_number_of(g.sum)
    &&& h.scale == g.scale
    &&& h.zero_count == g.zero_count
    &&& bucket_rel(g.positive_bucket, h.positive_bucket)
    &&& bucket_rel(g.negative_bucket, h.negative_bucket)
    &&& h.zero_threshold == g.zero_threshold
    &&& h.exemplars@.len() == g.exemplars@.len()
    &&& (forall|i: int| 0 <= i < g.exemplars@.len() ==> exemplar_rel(
        k,
        #[trigger] g.exemplars@[i],
        h.exemplars@[i],
    ))
}

/// Converts one exponential histogram data point.
fn to_host_exp_dp(k: NumericKind, d: ExponentialHistogramDataPoint) -> (r: Result<
    HostExponentialHistogramDataPoint,
    ConvertError,
>)
    ensures
        exp_dp_ok(k, d) ==> (r matches Ok(h) && exp_dp_rel(k, d, h)),
        !exp_dp_ok(k, d) ==> r == Err::<HostExponentialHistogramDataPoint, ConvertError>(
            ConvertError::InternalConsistencyViolation,
        ),
{
    let ExponentialHistogramDataPoint {
        attributes,
        count,
        min,
        max,
        sum,
        scale,
        zero_count,
        positive_bucket,
        negative_bucket,
        zero_threshold,
        exemplars,
    } = d;
    let s = match project_number(k, sum) {
        Ok(s) => s,
        Err(err) => {
            return Err(err);
        },
    };
    let mn = match project_opt_number(k, min) {
        Ok(mn) => mn,
        Err(err) => {
            return Err(err);
        },
    };
    let mx = match project_opt_number(k, max) {
        Ok(mx) => mx,
        Err(err) => {
            return Err(err);
        },
    };
    let ex = match to_host_exemplars(k, exemplars) {
        Ok(ex) => ex,
        Err(err) => {
            return Err(err);
        },
    };
    Ok(
        HostExponentialHistogramDataPoint {
            attributes: to_host_attrs(attributes),
            count,
            min: mn,
            max: mx,
            sum: s,
            scale,
            zero_count,
            positive_bucket: to_host_bucket(positive_bucket),
            negative_bucket: to_host_bucket(negative_bucket),
            zero_threshold,
            exemplars: ex,
        },
    )
}

/// Whether every exponential histogram data point of a list is
/// consistent.
pub open spec fn all_exp_dps_ok(k: NumericKind, s: Seq<ExponentialHistogramDataPoint>) -> bool {
    forall|i: int| 0 <= i < s.len() ==> exp_dp_ok(k, #[trigger] s[i])
}

/// Converts a list of exponential histogram data points.
#[verifier::loop_isolation(false)]
fn to_host_exp_dps(k: NumericKind, xs: Vec<ExponentialHistogramDataPoint>) -> (r: Result<
    Vec<HostExponentialHistogramDataPoint>,
    ConvertError,
>)
    ensures
        r matches Ok(v) ==> v@.len() == xs@.len() && all_exp_dps_ok(k, xs@) && (forall|i: int|
            0 <= i < xs@.len() ==> exp_dp_rel(k, #[trigger] xs@[i], v@[i])),
        r is Err ==> r == Err::<Vec<HostExponentialHistogramDataPoint>, ConvertError>(
            ConvertError::InternalConsistencyViolation,
        ) && !all_exp_dps_ok(k, xs@),
        all_exp_dps_ok(k, xs@) ==> r is Ok,
{
    let ghost orig = xs@;
    let mut rest = xs;
    let mut out: Vec<HostExponentialHistogramDataPoint> = Vec::new();
    while rest.len() > 0
        invariant
            out@.len() + rest@.len() == orig.len(),
            rest@ == orig.skip(out@.len() as int),
            forall|i: int| 0 <= i < out@.len() ==> exp_dp_ok(k, #[trigger] orig[i]) && exp_dp_rel(
                k,
                orig[i],
                out@[i],
            ),
        decreases rest@.len(),
    {
        let ghost m = out@.len() as int;
        let d = rest.remove(0);
        proof {
            assert(d == orig[m]);
        }
        match to_host_exp_dp(k, d) {
            Ok(h) => {
                out.push(h);
                proof {
                    assert(rest@ =~= orig.skip(m + 1));
                }
            },
            Err(err) => {
                proof {
                    assert(!exp_dp_ok(k, orig[m]));
                }
                return Err(err);
            },
        }
    }
    Ok(out)
}

/// Whether a whole exponential histogram is consistent.
pub open spec fn exp_histogram_ok(k: NumericKind, g: ExponentialHistogram) -> bool {
    all_exp_dps_ok(k, g.data_points@)
}

/// How a host exponential histogram relates to its guest original.
pub open spec fn exp_histogram_rel(
    k: NumericKind,
    g: ExponentialHistogram,
    h: HostExponentialHistogram,
) -> bool {
    &&& h.data_points@.len() == g.data_points@.len()
    &&& (forall|i: int| 0 <= i < g.data_points@.len() ==> exp_dp_rel(
        k,
        #[trigger] g.data_points@[i],
        h.data_points@[i],
    ))
    &&& h.start_time == host_time_of(g.start_time)
    &&& h.time == host_time_of(g.time)
    &&& h.temporality == spec_temporality(g.temporality)
}

/// Converts a guest exponential histogram under its declared kind.
pub fn to_host_exp_histogram(k: NumericKind, g: ExponentialHistogram) -> (r: Result<
    HostExponentialHistogram,
    ConvertError,
>)
    ensures
        exp_histogram_ok(k, g) ==> (r matches Ok(h) && exp_histogram_rel(k, g, h)),
        !exp_histogram_ok(k, g) ==> r == Err::<HostExponentialHistogram, ConvertError>(
            ConvertError::InternalConsistencyViolation,
        ),
{
    let ExponentialHistogram { data_points, start_time, time, temporality } = g;
    let dps = match to_host_exp_dps(k, data_points) {
        Ok(dps) => dps,
        Err(err) => {
            return Err(err);
        },
    };
    Ok(
        HostExponentialHistogram {
            data_points: dps,
            start_time: to_host_time(start_time),
            time: to_host_time(time),
            temporality: to_host_temporality(temporality),
        },
    )
}

/// Whether a metric payload is internally consistent: every number in
/// it carries the declared kind and every exemplar identifier has its
/// fixed width.
pub open spec fn md_ok(md: MetricData) -> bool {
    match md {
        MetricData::F64Sum(s) => sum_ok(NumericKind::F64, s),
        MetricData::S64Sum(s) => sum_ok(NumericKind::S64, s),
        MetricData::U64Sum(s) => sum_ok(NumericKind::U64, s),
        MetricData::F64Gauge(g) => gauge_ok(NumericKind::F64, g),
        MetricData::S64Gauge(g) => gauge_ok(NumericKind::S64, g),
        MetricData::U64Gauge(g) => gauge_ok(NumericKind::U64, g),
        MetricData::F64Histogram(h) => histogram_ok(NumericKind::F64, h),
        MetricData::S64Histogram(h) => histogram_ok(NumericKind::S64, h),
        MetricData::U64Histogram(h) => histogram_ok(NumericKind::U64, h),
        MetricData::F64ExponentialHistogram(h) => exp_histogram_ok(NumericKind::F64, h),
        MetricData::S64ExponentialHistogram(h) => exp_histogram_ok(NumericKind::S64, h),
        MetricData::U64ExponentialHistogram(h) => exp_histogram_ok(NumericKind::U64, h),
    }
}

/// How a host aggregation relates to the guest payload it was converted
/// from: the same shape, tagged with the declared kind, converted by the
/// matching shape rule.
pub open spec fn md_rel(md: MetricData, r: HostAggregation) -> bool {
    match md {
        MetricData::F64Sum(s) => r matches HostAggregation::Sum(k, h) && k == NumericKind::F64
            && sum_rel(NumericKind::F64, s, h),
        MetricData::S64Sum(s) => r matches HostAggregation::Sum(k, h) && k == NumericKind::S64
            && sum_rel(NumericKind::S64, s, h),
        MetricData::U64Sum(s) => r matches HostAggregation::Sum(k, h) && k == NumericKind::U64
            && sum_rel(NumericKind::U64, s, h),
        MetricData::F64Gauge(g) => r matches HostAggregation::Gauge(k, h) && k == NumericKind::F64
            && gauge_rel(NumericKind::F64, g, h),
        MetricData::S64Gauge(g) => r matches HostAggregation::Gauge(k, h) && k == NumericKind::S64
            && gauge_rel(NumericKind::S64, g, h),
        MetricData::U64Gauge(g) => r matches HostAggregation::Gauge(k, h) && k == NumericKind::U64
            && gauge_rel(NumericKind::U64, g, h),
        MetricData::F64Histogram(g) => r matches HostAggregation::Histogram(k, h) && k
            == NumericKind::F64 && histogram_rel(NumericKind::F64, g, h),
        MetricData::S64Histogram(g) => r matches HostAggregation::Histogram(k, h) && k
            == NumericKind::S64 && histogram_rel(NumericKind::S64, g, h),
        MetricData::U64Histogram(g) => r matches HostAggregation::Histogram(k, h) && k
            == NumericKind::U64 && histogram_rel(NumericKind::U64, g, h),
        MetricData::F64ExponentialHistogram(g) => r matches HostAggregation::ExponentialHistogram(
            k,
            h,
        ) && k == NumericKind::F64 && exp_histogram_rel(NumericKind::F64, g, h),
        MetricData::S64ExponentialHistogram(g) => r matches HostAggregation::ExponentialHistogram(
            k,
            h,
        ) && k == NumericKind::S64 && exp_histogram_rel(NumericKind::S64, g, h),
        MetricData::U64ExponentialHistogram(g) => r matches HostAggregation::ExponentialHistogram(
            k,
            h,
        ) && k == NumericKind::U64 && exp_histogram_rel(NumericKind::U64, g, h),
    }
}

/// Converts a guest metric payload into the host aggregation: a twelve-
/// way dispatch over aggregation shape and declared numeric kind, with
/// each arm delegating to the matching shape conversion. Succeeds
/// exactly when the payload is internally consistent.
pub fn to_host_metric_data(md: MetricData) -> (r: Result<HostAggregation, ConvertError>)
    ensures
        md_ok(md) ==> (r matches Ok(h) && md_rel(md, h)),
        !md_ok(md) ==> r == Err::<HostAggregation, ConvertError>(
            ConvertError::InternalConsistencyViolation,
        ),
{
    match md {
        MetricData::F64Sum(s) => match to_host_sum(NumericKind::F64, s) {
            Ok(h) => Ok(HostAggregation::Sum(NumericKind::F64, h)),
            Err(e) => Err(e),
        },
        MetricData::S64Sum(s) => match to_host_sum(NumericKind::S64, s) {
            Ok(h) => Ok(HostAggregation::Sum(NumericKind::S64, h)),
            Err(e) => Err(e),
        },
        MetricData::U64Sum(s) => match to_host_sum(NumericKind::U64, s) {
            Ok(h) => Ok(HostAggregation::Sum(NumericKind::U64, h)),
            Err(e) => Err(e),
        },
        MetricData::F64Gauge(g) => match to_host_gauge(NumericKind::F64, g) {
            Ok(h) => Ok(HostAggregation::Gauge(NumericKind::F64, h)),
            Err(e) => Err(e),
        },
        MetricData::S64Gauge(g) => match to_host_gauge(NumericKind::S64, g) {
            Ok(h) => Ok(HostAggregation::Gauge(NumericKind::S64, h)),
            Err(e) => Err(e),
        },
        MetricData::U64Gauge(g) => match to_host_gauge(NumericKind::U64, g) {
            Ok(h) => Ok(HostAggregation::Gauge(NumericKind::U64, h)),
            Err(e) => Err(e),
        },
        MetricData::F64Histogram(g) => match to_host_histogram(NumericKind::F64, g) {
            Ok(h) => Ok(HostAggregation::Histogram(NumericKind::F64, h)),
            Err(e) => Err(e),
        },
        MetricData::S64Histogram(g) => match to_host_histogram(NumericKind::S64, g) {
            Ok(h) => Ok(HostAggregation::Histogram(NumericKind::S64, h)),
            Err(e) => Err(e),
        },
        MetricData::U64Histogram(g) => match to_host_histogram(NumericKind::U64, g) {
            Ok(h) => Ok(HostAggregation::Histogram(NumericKind::U64, h)),
            Err(e) => Err(e),
        },
        MetricData::F64ExponentialHistogram(g) => match to_host_exp_histogram(
            NumericKind::F64,
            g,
        ) {
            Ok(h) => Ok(HostAggregation::ExponentialHistogram(NumericKind::F64, h)),
            Err(e) => Err(e),
        },
        MetricData::S64ExponentialHistogram(g) => match to_host_exp_histogram(
            NumericKind::S64,
            g,
        ) {
            Ok(h) => Ok(HostAggregation::ExponentialHistogram(NumericKind::S64, h)),
            Err(e) => Err(e),
        },
        MetricData::U64ExponentialHistogram(g) => match to_host_exp_histogram(
            NumericKind::U64,
            g,
        ) {
            Ok(h) => Ok(HostAggregation::ExponentialHistogram(NumericKind::U64, h)),
            Err(e) => Err(e),
        },
    }
}

/// Numeric-kind fidelity: for a sum declared over 64-bit floats whose
/// data points all carry the float kind, the converted host sum has as
/// many data points as the input and each holds the source float's exact
/// bit pattern.
pub proof fn lemma_sum_fidelity_f64(s: Sum, h: HostSum)
    requires
        sum_ok(NumericKind::F64, s),
        sum_rel(NumericKind::F64, s, h),
    ensures
        h.data_points@.len() == s.data_points@.len(),
        forall|i: int| 0 <= i < s.data_points@.len() ==> ((#[trigger] s.data_points@[i]).value
            matches MetricNumber::F64(b) && h.data_points@[i].value == HostNumber::F64(b)),
{
    assert forall|i: int| 0 <= i < s.data_points@.len() implies (
    #[trigger] s.data_points@[i]).value matches MetricNumber::F64(b)
        && h.data_points@[i].value == HostNumber::F64(b) by {
        assert(dp_ok(NumericKind::F64, s.data_points@[i]));
        assert(dp_rel(NumericKind::F64, s.data_points@[i], h.data_points@[i]));
    }
}

/// How a host metric envelope relates to its guest original: the
/// descriptive fields unchanged, the payload converted.
pub open spec fn metric_rel(g: Metric, h: HostMetric) -> bool {
    &&& h.name == g.name
    &&& h.description == g.description
    &&& h.unit == g.unit
    &&& md_rel(g.data, h.data)
}

/// Converts a guest metric envelope.
pub fn to_host_metric(m: Metric) -> (r: Result<HostMetric, ConvertError>)
    ensures
        md_ok(m.data) ==> (r matches Ok(h) && metric_rel(m, h)),
        !md_ok(m.data) ==> r == Err::<HostMetric, ConvertError>(
            ConvertError::InternalConsistencyViolation,
        ),
{
    let Metric { name, description, unit, data } = m;
    match to_host_metric_data(data) {
        Ok(d) => Ok(HostMetric { name, description, unit, data: d }),
        Err(e) => Err(e),
    }
}

/// Whether every metric of a scope is internally consistent.
pub open spec fn scope_metrics_ok(g: ScopeMetrics) -> bool {
    forall|i: int| 0 <= i < g.metrics@.len() ==> md_ok((#[trigger] g.metrics@[i]).data)
}

/// How host scope metrics relate to their guest original.
pub open spec fn scope_metrics_rel(g: ScopeMetrics, h: HostScopeMetrics) -> bool {
    &&& scope_rel(g.scope, h.scope)
    &&& h.metrics@.len() == g.metrics@.len()
    &&& (forall|i: int| 0 <= i < g.metrics@.len() ==> metric_rel(
        #[trigger] g.metrics@[i],
        h.metrics@[i],
    ))
}

/// Converts the metrics of one instrumentation scope.
#[verifier::loop_isolation(false)]
pub fn to_host_scope_metrics(sm: ScopeMetrics) -> (r: Result<HostScopeMetrics, ConvertError>)
    ensures
        scope_metrics_ok(sm) ==> (r matches Ok(h) && scope_metrics_rel(sm, h)),
        !scope_metrics_ok(sm) ==> r == Err::<HostScopeMetrics, ConvertError>(
            ConvertError::InternalConsistencyViolation,
        ),
{
    let ScopeMetrics { scope, metrics } = sm;
    let ghost orig = metrics@;
    let mut rest = metrics;
    let mut out: Vec<HostMetric> = Vec::new();
    while rest.len() > 0
        invariant
            out@.len() + rest@.len() == orig.len(),
            rest@ == orig.skip(out@.len() as int),
            forall|i: int| 0 <= i < out@.len() ==> md_ok((#[trigger] orig[i]).data) && metric_rel(
                orig[i],
                out@[i],
            ),
        decreases rest@.len(),
    {
        let ghost m = out@.len() as int;
        let mt = rest.remove(0);
        proof {
            assert(mt == orig[m]);
        }
        match to_host_metric(mt) {
            Ok(h) => {
                out.push(h);
                proof {
                    assert(rest@ =~= orig.skip(m + 1));
                }
            },
            Err(err) => {
                proof {
                    assert(!md_ok(orig[m].data));
                }
                return Err(err);
            },
        }
    }
    Ok(HostScopeMetrics { scope: to_host_scope(scope), metrics: out })
}

/// Whether every metric under a resource is internally consistent.
pub open spec fn resource_metrics_ok(g: ResourceMetrics) -> bool {
    forall|i: int| 0 <= i < g.scope_metrics@.len() ==> scope_metrics_ok(
        #[trigger] g.scope_metrics@[i],
    )
}

/// How a host resource-metrics record relates to its guest original.
pub open spec fn resource_metrics_rel(g: ResourceMetrics, h: HostResourceMetrics) -> bool {
    &&& resource_rel(g.resource, h.resource)
    &&& h.scope_metrics@.len() == g.scope_metrics@.len()
    &&& (forall|i: int| 0 <= i < g.scope_metrics@.len() ==> scope_metrics_rel(
        #[trigger] g.scope_metrics@[i],
        h.scope_metrics@[i],
    ))
}

/// Converts a complete guest resource-metrics record.
#[verifier::loop_isolation(false)]
pub fn to_host_resource_metrics(rm: ResourceMetrics) -> (r: Result<
    HostResourceMetrics,
    ConvertError,
>)
    ensures
        resource_metrics_ok(rm) ==> (r matches Ok(h) && resource_metrics_rel(rm, h)),
        !resource_metrics_ok(rm) ==> r == Err::<HostResourceMetrics, ConvertError>(
            ConvertError::InternalConsistencyViolation,
        ),
{
    let ResourceMetrics { resource, scope_metrics } = rm;
    let ghost orig = scope_metrics@;
    let mut rest = scope_metrics;
    let mut out: Vec<HostScopeMetrics> = Vec::new();
    while rest.len() > 0
        invariant
            out@.len() + rest@.len() == orig.len(),
            rest@ == orig.skip(out@.len() as int),
            forall|i: int| 0 <= i < out@.len() ==> scope_metrics_ok(#[trigger] orig[i])
                && scope_metrics_rel(orig[i], out@[i]),
        decreases rest@.len(),
    {
        let ghost m = out@.len() as int;
        let sm = rest.remove(0);
        proof {
            assert(sm == orig[m]);
        }
        match to_host_scope_metrics(sm) {
            Ok(h) => {
                out.push(h);
                proof {
                    assert(rest@ =~= orig.skip(m + 1));
                }
            },
            Err(err) => {
                proof {
                    assert(!scope_metrics_ok(orig[m]));
                }
                return Err(err);
            },
        }
    }
    Ok(HostResourceMetrics { resource: to_host_resource(resource), scope_metrics: out })
}

} // verus!
