use otel_bridge::guest::{
    DataPoint, Datetime, Exemplar, ExponentialBucket, ExponentialHistogram,
    ExponentialHistogramDataPoint, F64Bits, Gauge, Histogram, HistogramDataPoint,
    InstrumentationScope, Metric, MetricData, MetricNumber, Resource, ResourceMetrics,
    ScopeMetrics, Sum, Temporality,
};
use otel_bridge::host::{
    ConvertError, HostAggregation, HostNumber, HostTemporality, NumericKind,
};
use otel_bridge::metrics::{
    to_host_metric, to_host_metric_data, to_host_resource_metrics, to_host_temporality,
};
use otel_bridge::scope::{to_host_resource, to_host_scope};

fn t(seconds: u64) -> Datetime {
    Datetime { seconds, nanoseconds: 0 }
}

fn f64_point(x: f64) -> DataPoint {
    DataPoint {
        attributes: Vec::new(),
        value: MetricNumber::F64(F64Bits { bits: x.to_bits() }),
        exemplars: Vec::new(),
    }
}

fn f64_sum(points: Vec<DataPoint>) -> MetricData {
    MetricData::F64Sum(Sum {
        data_points: points,
        start_time: t(1),
        time: t(2),
        temporality: Temporality::Cumulative,
        is_monotonic: true,
    })
}

#[test]
fn f64_sum_keeps_count_and_bits() {
    let xs = [1.5f64, -0.25, f64::NAN];
    let md = f64_sum(xs.iter().map(|x| f64_point(*x)).collect());
    let h = to_host_metric_data(md).unwrap();
    match h {
        HostAggregation::Sum(kind, sum) => {
            assert_eq!(kind, NumericKind::F64);
            assert_eq!(sum.data_points.len(), 3);
            for (dp, x) in sum.data_points.iter().zip(xs.iter()) {
                match dp.value {
                    HostNumber::F64(b) => assert_eq!(b.bits, x.to_bits()),
                    _ => panic!("wrong numeric kind"),
                }
            }
            assert_eq!(sum.temporality, HostTemporality::Cumulative);
            assert!(sum.is_monotonic);
            assert_eq!(sum.start_time.nanos, 1_000_000_000);
            assert_eq!(sum.time.nanos, 2_000_000_000);
        },
        _ => panic!("wrong aggregation shape"),
    }
}

#[test]
fn mismatched_kind_is_reported() {
    let bad = DataPoint {
        attributes: Vec::new(),
        value: MetricNumber::S64(3),
        exemplars: Vec::new(),
    };
    let md = f64_sum(vec![f64_point(1.0), bad]);
    assert_eq!(to_host_metric_data(md), Err(ConvertError::InternalConsistencyViolation));
}

#[test]
fn malformed_exemplar_id_is_reported() {
    let ex = Exemplar {
        filtered_attributes: Vec::new(),
        time: t(1),
        value: MetricNumber::U64(4),
        span_id: vec![1, 2, 3],
        trace_id: vec![0; 16],
    };
    let md = MetricData::U64Gauge(Gauge {
        data_points: vec![DataPoint {
            attributes: Vec::new(),
            value: MetricNumber::U64(4),
            exemplars: vec![ex],
        }],
        start_time: None,
        time: t(2),
    });
    assert_eq!(to_host_metric_data(md), Err(ConvertError::InternalConsistencyViolation));
}

#[test]
fn exemplar_bytes_pass_through() {
    let trace_id: Vec<u8> = (0u8..16).collect();
    let span_id: Vec<u8> = (0u8..8).collect();
    let ex = Exemplar {
        filtered_attributes: Vec::new(),
        time: t(1),
        value: MetricNumber::S64(-2),
        span_id: span_id.clone(),
        trace_id: trace_id.clone(),
    };
    let md = MetricData::S64Gauge(Gauge {
        data_points: vec![DataPoint {
            attributes: Vec::new(),
            value: MetricNumber::S64(9),
            exemplars: vec![ex],
        }],
        start_time: Some(t(1)),
        time: t(2),
    });
    match to_host_metric_data(md).unwrap() {
        HostAggregation::Gauge(kind, g) => {
            assert_eq!(kind, NumericKind::S64);
            let hex = &g.data_points[0].exemplars[0];
            assert_eq!(hex.trace_id, trace_id);
            assert_eq!(hex.span_id, span_id);
            assert_eq!(hex.value, HostNumber::S64(-2));
            assert_eq!(g.start_time.map(|s| s.nanos), Some(1_000_000_000));
        },
        _ => panic!("wrong aggregation shape"),
    }
}

#[test]
fn histogram_buckets_pass_through() {
    let bounds: Vec<F64Bits> =
        [0.0f64, 10.0, 100.0].iter().map(|x| F64Bits { bits: x.to_bits() }).collect();
    let md = MetricData::U64Histogram(Histogram {
        data_points: vec![HistogramDataPoint {
            attributes: Vec::new(),
            bounds: bounds.clone(),
            bucket_counts: vec![1, 2, 3, 4],
            count: 10,
            min: Some(MetricNumber::U64(0)),
            max: Some(MetricNumber::U64(99)),
            sum: MetricNumber::U64(123),
            exemplars: Vec::new(),
        }],
        start_time: t(1),
        time: t(2),
        temporality: Temporality::Delta,
    });
    match to_host_metric_data(md).unwrap() {
        HostAggregation::Histogram(kind, h) => {
            assert_eq!(kind, NumericKind::U64);
            let dp = &h.data_points[0];
            assert_eq!(dp.bounds, bounds);
            assert_eq!(dp.bucket_counts, vec![1, 2, 3, 4]);
            assert_eq!(dp.count, 10);
            assert_eq!(dp.min, Some(HostNumber::U64(0)));
            assert_eq!(dp.max, Some(HostNumber::U64(99)));
            assert_eq!(dp.sum, HostNumber::U64(123));
            assert_eq!(h.temporality, HostTemporality::Delta);
        },
        _ => panic!("wrong aggregation shape"),
    }
}

#[test]
fn exponential_histogram_fields_pass_through() {
    let md = MetricData::S64ExponentialHistogram(ExponentialHistogram {
        data_points: vec![ExponentialHistogramDataPoint {
            attributes: Vec::new(),
            count: 6,
            min: None,
            max: None,
            sum: MetricNumber::S64(21),
            scale: -2,
            zero_count: 1,
            positive_bucket: ExponentialBucket { offset: 3, counts: vec![1, 2] },
            negative_bucket: ExponentialBucket { offset: -1, counts: vec![3] },
            zero_threshold: F64Bits { bits: 0.5f64.to_bits() },
            exemplars: Vec::new(),
        }],
        start_time: t(1),
        time: t(2),
        temporality: Temporality::LowMemory,
    });
    match to_host_metric_data(md).unwrap() {
        HostAggregation::ExponentialHistogram(kind, h) => {
            assert_eq!(kind, NumericKind::S64);
            let dp = &h.data_points[0];
            assert_eq!(dp.count, 6);
            assert_eq!(dp.sum, HostNumber::S64(21));
            assert_eq!(dp.scale, -2);
            assert_eq!(dp.zero_count, 1);
            assert_eq!(dp.positive_bucket.offset, 3);
            assert_eq!(dp.positive_bucket.counts, vec![1, 2]);
            assert_eq!(dp.negative_bucket.offset, -1);
            assert_eq!(dp.negative_bucket.counts, vec![3]);
            assert_eq!(dp.zero_threshold.bits, 0.5f64.to_bits());
            assert_eq!(h.temporality, HostTemporality::LowMemory);
        },
        _ => panic!("wrong aggregation shape"),
    }
}

#[test]
fn temporality_maps_one_to_one() {
    assert_eq!(to_host_temporality(Temporality::Cumulative), HostTemporality::Cumulative);
    assert_eq!(to_host_temporality(Temporality::Delta), HostTemporality::Delta);
    assert_eq!(to_host_temporality(Temporality::LowMemory), HostTemporality::LowMemory);
}

#[test]
fn resource_with_and_without_schema_url() {
    let with = Resource { attributes: Vec::new(), schema_url: Some("https://example.test/schema".to_string()) };
    let h = to_host_resource(with);
    assert_eq!(h.schema_url, Some("https://example.test/schema".to_string()));
    let without = Resource { attributes: Vec::new(), schema_url: None };
    assert_eq!(to_host_resource(without).schema_url, None);
}

#[test]
fn scope_keeps_all_option_combinations() {
    for version in [None, Some("1.0".to_string())] {
        for schema in [None, Some("s".to_string())] {
            let g = InstrumentationScope {
                name: "n".to_string(),
                version: version.clone(),
                schema_url: schema.clone(),
                attributes: Vec::new(),
            };
            let h = to_host_scope(g);
            assert_eq!(h.name, "n");
            assert_eq!(h.version, version);
            assert_eq!(h.schema_url, schema);
        }
    }
}

#[test]
fn metric_envelope_keeps_descriptive_fields() {
    let m = Metric {
        name: "requests".to_string(),
        description: "count of requests".to_string(),
        unit: "1".to_string(),
        data: f64_sum(vec![f64_point(1.0)]),
    };
    let h = to_host_metric(m).unwrap();
    assert_eq!(h.name, "requests");
    assert_eq!(h.description, "count of requests");
    assert_eq!(h.unit, "1");
}

#[test]
fn resource_metrics_convert_whole_tree() {
    let rm = ResourceMetrics {
        resource: Resource { attributes: Vec::new(), schema_url: None },
        scope_metrics: vec![ScopeMetrics {
            scope: InstrumentationScope {
                name: "lib".to_string(),
                version: None,
                schema_url: None,
                attributes: Vec::new(),
            },
            metrics: vec![Metric {
                name: "m".to_string(),
                description: String::new(),
                unit: String::new(),
                data: f64_sum(vec![f64_point(4.0)]),
            }],
        }],
    };
    let h = to_host_resource_metrics(rm).unwrap();
    assert_eq!(h.scope_metrics.len(), 1);
    assert_eq!(h.scope_metrics[0].scope.name, "lib");
    assert_eq!(h.scope_metrics[0].metrics.len(), 1);
    assert_eq!(h.scope_metrics[0].metrics[0].name, "m");
}
