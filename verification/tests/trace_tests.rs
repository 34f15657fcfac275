use otel_bridge::guest::{
    Datetime, Event, F64Bits, InstrumentationScope, KeyValue, Link, SpanContext, SpanData,
    SpanKind, Status, TraceFlags, Value,
};
use otel_bridge::host::{HostArray, HostSpanContext, HostSpanKind, HostStatus, HostValue};
use otel_bridge::ids::{decode_span_id, decode_trace_id};
use otel_bridge::trace::{
    to_guest_span_context, to_guest_trace_flags, to_host_span, to_host_span_context,
    to_host_span_kind, to_host_status, to_host_time, to_host_trace_flags,
};
use otel_bridge::values::to_host_value;

fn pairs(kvs: &[(&str, &str)]) -> Vec<(String, String)> {
    kvs.iter().map(|(k, v)| (k.to_string(), v.to_string())).collect()
}

#[test]
fn trace_flags() {
    let flags: u8 = 1;
    let flags2 = to_guest_trace_flags(flags);
    let flags3 = to_host_trace_flags(flags2);
    assert_eq!(flags, flags3);
}

#[test]
fn span_context() {
    let sc = HostSpanContext {
        trace_id: decode_trace_id("4fb34cb4484029f7881399b149e41e98"),
        span_id: decode_span_id("9ffd58d3cd4dd90b"),
        trace_flags: 1,
        is_remote: false,
        trace_state: pairs(&[("foo", "bar"), ("baz", "qux")]),
    };
    let sc2 = to_guest_span_context(sc.clone());
    let sc3 = to_host_span_context(sc2);
    assert_eq!(sc, sc3);
}

#[test]
fn guest_flags_round_trip_both_values() {
    for sampled in [false, true] {
        let f = TraceFlags { sampled };
        assert_eq!(to_guest_trace_flags(to_host_trace_flags(f)), f);
    }
}

#[test]
fn span_context_encoding_fields() {
    let sc = HostSpanContext {
        trace_id: decode_trace_id("4fb34cb4484029f7881399b149e41e98"),
        span_id: decode_span_id("9ffd58d3cd4dd90b"),
        trace_flags: 1,
        is_remote: true,
        trace_state: pairs(&[("foo", "bar")]),
    };
    let g = to_guest_span_context(sc);
    assert_eq!(g.trace_id, "4fb34cb4484029f7881399b149e41e98");
    assert_eq!(g.span_id, "9ffd58d3cd4dd90b");
    assert!(g.trace_flags.sampled);
    assert!(g.is_remote);
    assert_eq!(g.trace_state, pairs(&[("foo", "bar")]));
}

#[test]
fn malformed_guest_ids_become_sentinel() {
    let g = SpanContext {
        trace_id: "not a trace id".to_string(),
        span_id: "9ffd58d3cd4dd90b".to_string(),
        trace_flags: TraceFlags { sampled: false },
        is_remote: false,
        trace_state: Vec::new(),
    };
    let h = to_host_span_context(g);
    assert_eq!(h.trace_id, vec![0u8; 16]);
    assert_eq!(h.span_id, decode_span_id("9ffd58d3cd4dd90b"));
}

#[test]
fn invalid_trace_state_becomes_empty() {
    let g = SpanContext {
        trace_id: "4fb34cb4484029f7881399b149e41e98".to_string(),
        span_id: "9ffd58d3cd4dd90b".to_string(),
        trace_flags: TraceFlags { sampled: true },
        is_remote: false,
        trace_state: pairs(&[("UPPER", "bar")]),
    };
    let h = to_host_span_context(g);
    assert!(h.trace_state.is_empty());
}

#[test]
fn trace_state_value_with_comma_is_refused() {
    let g = SpanContext {
        trace_id: "4fb34cb4484029f7881399b149e41e98".to_string(),
        span_id: "9ffd58d3cd4dd90b".to_string(),
        trace_flags: TraceFlags { sampled: true },
        is_remote: false,
        trace_state: pairs(&[("foo", "a,b")]),
    };
    let h = to_host_span_context(g);
    assert!(h.trace_state.is_empty());
}

#[test]
fn scalar_values_all_eight_variants() {
    let f = F64Bits { bits: 2.5f64.to_bits() };
    assert_eq!(to_host_value(Value::Str("x".to_string())), HostValue::Str("x".to_string()));
    assert_eq!(to_host_value(Value::Bool(true)), HostValue::Bool(true));
    assert_eq!(to_host_value(Value::F64(f)), HostValue::F64(f));
    assert_eq!(to_host_value(Value::S64(-7)), HostValue::S64(-7));
    assert_eq!(
        to_host_value(Value::StrArray(vec!["a".to_string(), "b".to_string()])),
        HostValue::Array(HostArray::Str(vec!["a".to_string(), "b".to_string()]))
    );
    assert_eq!(
        to_host_value(Value::BoolArray(vec![true, false])),
        HostValue::Array(HostArray::Bool(vec![true, false]))
    );
    assert_eq!(
        to_host_value(Value::F64Array(vec![f])),
        HostValue::Array(HostArray::F64(vec![f]))
    );
    assert_eq!(
        to_host_value(Value::S64Array(vec![1, 2, 3])),
        HostValue::Array(HostArray::S64(vec![1, 2, 3]))
    );
}

#[test]
fn span_kind_mapping_is_exhaustive_and_distinct() {
    let kinds = [
        (SpanKind::Client, HostSpanKind::Client),
        (SpanKind::Server, HostSpanKind::Server),
        (SpanKind::Producer, HostSpanKind::Producer),
        (SpanKind::Consumer, HostSpanKind::Consumer),
        (SpanKind::Internal, HostSpanKind::Internal),
    ];
    for (g, h) in kinds {
        assert_eq!(to_host_span_kind(g), h);
    }
    for i in 0..kinds.len() {
        for j in 0..kinds.len() {
            if i != j {
                assert_ne!(to_host_span_kind(kinds[i].0), to_host_span_kind(kinds[j].0));
            }
        }
    }
}

#[test]
fn status_mapping_is_exhaustive_and_distinct() {
    assert_eq!(to_host_status(Status::Unset), HostStatus::Unset);
    assert_eq!(to_host_status(Status::Okay), HostStatus::Okay);
    assert_eq!(
        to_host_status(Status::Error("boom".to_string())),
        HostStatus::Error("boom".to_string())
    );
    assert_ne!(to_host_status(Status::Unset), to_host_status(Status::Okay));
}

#[test]
fn timestamp_to_nanos() {
    let t = Datetime { seconds: 3, nanoseconds: 17 };
    assert_eq!(to_host_time(t).nanos, 3_000_000_017u128);
    let big = Datetime { seconds: u64::MAX, nanoseconds: u32::MAX };
    assert_eq!(to_host_time(big).nanos, u64::MAX as u128 * 1_000_000_000 + u32::MAX as u128);
}

fn sample_scope() -> InstrumentationScope {
    InstrumentationScope {
        name: "lib".to_string(),
        version: Some("1.2.3".to_string()),
        schema_url: None,
        attributes: vec![KeyValue { key: "k".to_string(), value: Value::Bool(true) }],
    }
}

#[test]
fn dropped_counts_pass_through() {
    let ev = |name: &str| Event {
        name: name.to_string(),
        time: Datetime { seconds: 1, nanoseconds: 0 },
        attributes: Vec::new(),
    };
    let sd = SpanData {
        span_context: SpanContext {
            trace_id: "4fb34cb4484029f7881399b149e41e98".to_string(),
            span_id: "9ffd58d3cd4dd90b".to_string(),
            trace_flags: TraceFlags { sampled: true },
            is_remote: false,
            trace_state: Vec::new(),
        },
        parent_span_id: "0102030405060708".to_string(),
        span_kind: SpanKind::Server,
        name: "op".to_string(),
        start_time: Datetime { seconds: 1, nanoseconds: 0 },
        end_time: Datetime { seconds: 2, nanoseconds: 0 },
        attributes: Vec::new(),
        dropped_attributes: 5,
        events: vec![ev("a"), ev("b")],
        dropped_events: 3,
        links: vec![Link {
            span_context: SpanContext {
                trace_id: "4fb34cb4484029f7881399b149e41e98".to_string(),
                span_id: "0102030405060708".to_string(),
                trace_flags: TraceFlags { sampled: false },
                is_remote: true,
                trace_state: Vec::new(),
            },
            attributes: Vec::new(),
        }],
        dropped_links: 7,
        status: Status::Error("bad".to_string()),
        instrumentation_scope: sample_scope(),
    };
    let h = to_host_span(sd);
    assert_eq!(h.dropped_events_count, 3);
    assert_eq!(h.events.len(), 2);
    assert_eq!(h.dropped_links_count, 7);
    assert_eq!(h.links.len(), 1);
    assert_eq!(h.dropped_attributes_count, 5);
    assert_eq!(h.parent_span_id, vec![1, 2, 3, 4, 5, 6, 7, 8]);
    assert_eq!(h.span_kind, HostSpanKind::Server);
    assert_eq!(h.status, HostStatus::Error("bad".to_string()));
    assert_eq!(h.instrumentation_scope.name, "lib");
    assert_eq!(h.instrumentation_scope.version, Some("1.2.3".to_string()));
    assert_eq!(h.instrumentation_scope.schema_url, None);
    assert_eq!(h.events[0].name, "a");
    assert_eq!(h.events[0].dropped_attributes_count, 0);
    assert_eq!(h.links[0].span_context.is_remote, true);
}
