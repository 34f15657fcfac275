//! The trace converter: span contexts in both directions (for context
//! propagation), trace flags in both directions, and complete span
//! records one way, guest to host. Trace-state stays a structured list of
//! key/value pairs end to end, so nothing is lost to formatting and
//! re-parsing; a list the host's validation refuses is replaced by the
//! empty list rather than failing the conversion.
use vstd::prelude::*;
use crate::guest::{Datetime, Event, Link, SpanContext, SpanData, SpanKind, Status, TraceFlags};
use crate::host::{
    HostEvent, HostLink, HostSpanContext, HostSpanData, HostSpanKind, HostStatus, HostTimestamp,
};
use crate::ids::{
    decode_span_id, decode_trace_id, encode_span_id, encode_trace_id, hex_text_of, spec_decode_id,
    SPAN_ID_BYTES, TRACE_ID_BYTES,
};
use crate::scope::{scope_rel, to_host_scope};
use crate::values::{spec_attrs, to_host_attrs};
use opentelemetry::trace::TraceState;

verus! {

/// Whether the host's W3C trace-context validation accepts every key and
/// value of a trace-state list.
pub uninterp spec fn trace_state_valid(pairs: Seq<(String, String)>) -> bool;

/// Relies on opentelemetry::trace::TraceState::from_key_value: whether
/// the list passes the host's W3C key and value validation depends on
/// the pairs alone.
#[verifier::external_body]
fn trace_state_accepts(pairs: &Vec<(String, String)>) -> (r: bool)
    ensures
        r == trace_state_valid(pairs@),
{
    TraceState::from_key_value(pairs.iter().map(|p| (p.0.as_str(), p.1.as_str()))).is_ok()
}

/// A guest timestamp as host nanoseconds since the epoch.
pub open spec fn host_time_of(t: Datetime) -> HostTimestamp {
    HostTimestamp { nanos: (t.seconds * 1_000_000_000 + t.nanoseconds) as u128 }
}

/// Converts a guest timestamp to host nanoseconds since the epoch.
pub fn to_host_time(t: Datetime) -> (r: HostTimestamp)
    ensures
        r == host_time_of(t),
{
    HostTimestamp { nanos: (t.seconds as u128) * 1_000_000_000 + (t.nanoseconds as u128) }
}

/// The host flag byte of guest trace flags: bit zero is `sampled`.
pub open spec fn flags_byte(f: TraceFlags) -> u8 {
    if f.sampled {
        1
    } else {
        0
    }
}

/// The guest trace flags of a host flag byte: `sampled` is bit zero;
/// the guest schema defines no other flag.
pub open spec fn flags_of_byte(b: u8) -> TraceFlags {
    TraceFlags { sampled: b & 1 == 1 }
}

/// Converts guest trace flags to the host flag byte.
pub fn to_host_trace_flags(f: TraceFlags) -> (r: u8)
    ensures
        r == flags_byte(f),
{
    if f.sampled {
        1
    } else {
        0
    }
}

/// Converts a host flag byte back to guest trace flags.
pub fn to_guest_trace_flags(b: u8) -> (r: TraceFlags)
    ensures
        r == flags_of_byte(b),
{
    TraceFlags { sampled: b & 1 == 1 }
}

/// Trace flags survive the round trip through the host: for every guest
/// flags value, decoding its encoding gives the value back.
pub proof fn lemma_trace_flags_round_trip(f: TraceFlags)
    ensures
        flags_of_byte(flags_byte(f)) == f,
{
    assert(1u8 & 1 == 1) by (bit_vector);
    assert(0u8 & 1 == 0) by (bit_vector);
}

/// Host flag bytes that the guest schema can express (zero or one)
/// survive the round trip through the guest.
pub proof fn lemma_host_flags_round_trip(b: u8)
    requires
        b == 0 || b == 1,
    ensures
        flags_byte(flags_of_byte(b)) == b,
{
    assert(1u8 & 1 == 1) by (bit_vector);
    assert(0u8 & 1 == 0) by (bit_vector);
}

/// How a host span context relates to the guest span context it was
/// converted from: identifiers decoded from hexadecimal text with the
/// all-zero fallback, flags reduced to the sampled bit, and the
/// trace-state kept exactly when the host's validation accepts it,
/// replaced by the empty list otherwise.
pub open spec fn span_context_rel(g: SpanContext, h: HostSpanContext) -> bool {
    &&& h.trace_id@ == spec_decode_id(g.trace_id@, TRACE_ID_BYTES as int)
    &&& h.span_id@ == spec_decode_id(g.span_id@, SPAN_ID_BYTES as int)
    &&& h.trace_flags == flags_byte(g.trace_flags)
    &&& h.is_remote == g.is_remote
    &&& (if trace_state_valid(g.trace_state@) {
        h.trace_state == g.trace_state
    } else {
        h.trace_state@ == Seq::<(String, String)>::empty()
    })
}

/// Converts a guest span context to the host representation. Never
/// fails: malformed identifiers become the all-zero sentinel and a
/// refused trace-state list becomes the empty list.
pub fn to_host_span_context(sc: SpanContext) -> (r: HostSpanContext)
    ensures
        span_context_rel(sc, r),
{
    let SpanContext { trace_id, span_id, trace_flags, is_remote, trace_state } = sc;
    let h_tid = decode_trace_id(trace_id.as_str());
    let h_sid = decode_span_id(span_id.as_str());
    let ts: Vec<(String, String)> = if trace_state_accepts(&trace_state) {
        trace_state
    } else {
        Vec::new()
    };
    HostSpanContext {
        trace_id: h_tid,
        span_id: h_sid,
        trace_flags: to_host_trace_flags(trace_flags),
        is_remote,
        trace_state: ts,
    }
}

/// How a guest span context relates to the host span context it was
/// converted from: identifiers spelled as canonical lowercase
/// hexadecimal text, the sampled bit carried over, and the trace-state
/// pairs handed over structurally, unchanged.
pub open spec fn guest_context_rel(h: HostSpanContext, g: SpanContext) -> bool {
    &&& g.trace_id@ == hex_text_of(h.trace_id@)
    &&& g.span_id@ == hex_text_of(h.span_id@)
    &&& g.trace_flags == flags_of_byte(h.trace_flags)
    &&& g.is_remote == h.is_remote
    &&& g.trace_state == h.trace_state
}

/// Converts a host span context back to the guest representation, for
/// propagating host-observed context into the guest. Always succeeds.
pub fn to_guest_span_context(h: HostSpanContext) -> (r: SpanContext)
    ensures
        guest_context_rel(h, r),
{
    let HostSpanContext { trace_id, span_id, trace_flags, is_remote, trace_state } = h;
    SpanContext {
        trace_id: encode_trace_id(&trace_id),
        span_id: encode_span_id(&span_id),
        trace_flags: to_guest_trace_flags(trace_flags),
        is_remote,
        trace_state,
    }
}

/// A host span context survives the round trip through the guest, field
/// for field, provided it is one the guest schema can express: full-width
/// identifiers, no flag beyond the sampled bit, and a trace-state list
/// that the host's own validation accepts (one whose values hold no `,`
/// or `=`, among the other W3C rules — a refused list would come back
/// empty instead).
pub proof fn lemma_span_context_round_trip(h: HostSpanContext, g: SpanContext, h2: HostSpanContext)
    requires
        guest_context_rel(h, g),
        span_context_rel(g, h2),
        h.trace_id@.len() == TRACE_ID_BYTES,
        h.span_id@.len() == SPAN_ID_BYTES,
        h.trace_flags == 0 || h.trace_flags == 1,
        trace_state_valid(h.trace_state@),
    ensures
        h2.trace_id@ == h.trace_id@,
        h2.span_id@ == h.span_id@,
        h2.trace_flags == h.trace_flags,
        h2.is_remote == h.is_remote,
        h2.trace_state == h.trace_state,
{
    crate::ids::lemma_decode_of_encode(h.trace_id@);
    crate::ids::lemma_decode_of_encode(h.span_id@);
    lemma_host_flags_round_trip(h.trace_flags);
}

/// The host image of each of the five span kinds.
pub open spec fn spec_kind(k: SpanKind) -> HostSpanKind {
    match k {
        SpanKind::Client => HostSpanKind::Client,
        SpanKind::Server => HostSpanKind::Server,
        SpanKind::Producer => HostSpanKind::Producer,
        SpanKind::Consumer => HostSpanKind::Consumer,
        SpanKind::Internal => HostSpanKind::Internal,
    }
}

/// Converts a span kind. The match is exhaustive: no default arm, every
/// kind has its own host value.
pub fn to_host_span_kind(k: SpanKind) -> (r: HostSpanKind)
    ensures
        r == spec_kind(k),
{
    match k {
        SpanKind::Client => HostSpanKind::Client,
        SpanKind::Server => HostSpanKind::Server,
        SpanKind::Producer => HostSpanKind::Producer,
        SpanKind::Consumer => HostSpanKind::Consumer,
        SpanKind::Internal => HostSpanKind::Internal,
    }
}

/// The span-kind mapping is one-to-one: distinct guest kinds map to
/// distinct host kinds.
pub proof fn lemma_span_kind_injective(a: SpanKind, b: SpanKind)
    ensures
        spec_kind(a) == spec_kind(b) ==> a == b,
{
}

/// The host image of a span status: unset, ok, or an error with its
/// description moved over unchanged.
pub open spec fn spec_status(s: Status) -> HostStatus {
    match s {
        Status::Unset => HostStatus::Unset,
        Status::Okay => HostStatus::Okay,
        Status::Error(d) => HostStatus::Error(d),
    }
}

/// Converts a span status. The match is exhaustive: no default arm.
pub fn to_host_status(s: Status) -> (r: HostStatus)
    ensures
        r == spec_status(s),
{
    match s {
        Status::Unset => HostStatus::Unset,
        Status::Okay => HostStatus::Okay,
        Status::Error(d) => HostStatus::Error(d),
    }
}

/// The status mapping is one-to-one: distinct guest statuses map to
/// distinct host statuses.
pub proof fn lemma_status_injective(a: Status, b: Status)
    ensures
        spec_status(a) == spec_status(b) ==> a == b,
{
}

/// How a host event relates to the guest event it was converted from.
/// The guest wire format carries no per-event dropped-attribute count,
/// so the host's is zero.
pub open spec fn event_rel(g: Event, h: HostEvent) -> bool {
    &&& h.name == g.name
    &&& h.time == host_time_of(g.time)
    &&& h.attributes@ == spec_attrs(g.attributes@)
    &&& h.dropped_attributes_count == 0u32
}

/// Converts one guest event.
pub fn to_host_event(e: Event) -> (r: HostEvent)
    ensures
        event_rel(e, r),
{
    let Event { name, time, attributes } = e;
    HostEvent {
        name,
        time: to_host_time(time),
        attributes: to_host_attrs(attributes),
        dropped_attributes_count: 0,
    }
}

/// How a host link relates to the guest link it was converted from. The
/// guest wire format carries no per-link dropped-attribute count, so the
/// host's is zero.
pub open spec fn link_rel(g: Link, h: HostLink) -> bool {
    &&& span_context_rel(g.span_context, h.span_context)
    &&& h.attributes@ == spec_attrs(g.attributes@)
    &&& h.dropped_attributes_count == 0u32
}

/// Converts one guest link, including its nested span context.
pub fn to_host_link(l: Link) -> (r: HostLink)
    ensures
        link_rel(l, r),
{
    let Link { span_context, attributes } = l;
    HostLink {
        span_context: to_host_span_context(span_context),
        attributes: to_host_attrs(attributes),
        dropped_attributes_count: 0,
    }
}

/// Converts a guest event list, keeping order and count.
fn to_host_events(events: Vec<Event>) -> (r: Vec<HostEvent>)
    ensures
        r@.len() == events@.len(),
        forall|i: int| 0 <= i < events@.len() ==> event_rel(#[trigger] events@[i], r@[i]),
{
    let ghost orig = events@;
    let mut rest = events;
    let mut out: Vec<HostEvent> = Vec::new();
    while rest.len() > 0
        invariant
            out@.len() + rest@.len() == orig.len(),
            rest@ == orig.skip(out@.len() as int),
            forall|k: int| 0 <= k < out@.len() ==> event_rel(#[trigger] orig[k], out@[k]),
        decreases rest@.len(),
    {
        let ghost m = out@.len() as int;
        let e = rest.remove(0);
        proof {
            assert(e == orig[m]);
        }
        let h = to_host_event(e);
        out.push(h);
        proof {
            assert(rest@ =~= orig.skip(m + 1));
        }
    }
    out
}

/// Converts a guest link list, keeping order and count.
fn to_host_links(links: Vec<Link>) -> (r: Vec<HostLink>)
    ensures
        r@.len() == links@.len(),
        forall|i: int| 0 <= i < links@.len() ==> link_rel(#[trigger] links@[i], r@[i]),
{
    let ghost orig = links@;
    let mut rest = links;
    let mut out: Vec<HostLink> = Vec::new();
    while rest.len() > 0
        invariant
            out@.len() + rest@.len() == orig.len(),
            rest@ == orig.skip(out@.len() as int),
            forall|k: int| 0 <= k < out@.len() ==> link_rel(#[trigger] orig[k], out@[k]),
        decreases rest@.len(),
    {
        let ghost m = out@.len() as int;
        let l = rest.remove(0);
        proof {
            assert(l == orig[m]);
        }
        let h = to_host_link(l);
        out.push(h);
        proof {
            assert(rest@ =~= orig.skip(m + 1));
        }
    }
    out
}

/// How a complete host span record relates to the guest record it was
/// converted from. The three dropped counts are the guest's authoritative
/// truncation counts and pass through unchanged; they are never
/// recomputed from the lists actually present.
pub open spec fn span_data_rel(g: SpanData, h: HostSpanData) -> bool {
    &&& span_context_rel(g.span_context, h.span_context)
    &&& h.parent_span_id@ == spec_decode_id(g.parent_span_id@, SPAN_ID_BYTES as int)
    &&& h.span_kind == spec_kind(g.span_kind)
    &&& h.name == g.name
    &&& h.start_time == host_time_of(g.start_time)
    &&& h.end_time == host_time_of(g.end_time)
    &&& h.attributes@ == spec_attrs(g.attributes@)
    &&& h.dropped_attributes_count == g.dropped_attributes
    &&& h.events@.len() == g.events@.len()
    &&& (forall|i: int| 0 <= i < g.events@.len() ==> event_rel(#[trigger] g.events@[i], h.events@[i]))
    &&& h.dropped_events_count == g.dropped_events
    &&& h.links@.len() == g.links@.len()
    &&& (forall|i: int| 0 <= i < g.links@.len() ==> link_rel(#[trigger] g.links@[i], h.links@[i]))
    &&& h.dropped_links_count == g.dropped_links
    &&& h.status == spec_status(g.status)
    &&& scope_rel(g.instrumentation_scope, h.instrumentation_scope)
}

/// Converts a complete guest span record to the host representation.
/// Never fails: every malformed identifier or refused trace-state list
/// falls back as the span-context conversion does.
pub fn to_host_span(sd: SpanData) -> (r: HostSpanData)
    ensures
        span_data_rel(sd, r),
{
    let SpanData {
        span_context,
        parent_span_id,
        span_kind,
        name,
        start_time,
        end_time,
        attributes,
        dropped_attributes,
        events,
        dropped_events,
        links,
        dropped_links,
        status,
        instrumentation_scope,
    } = sd;
    HostSpanData {
        span_context: to_host_span_context(span_context),
        parent_span_id: decode_span_id(parent_span_id.as_str()),
        span_kind: to_host_span_kind(span_kind),
        name,
        start_time: to_host_time(start_time),
        end_time: to_host_time(end_time),
        attributes: to_host_attrs(attributes),
        dropped_attributes_count: dropped_attributes,
        events: to_host_events(events),
        dropped_events_count: dropped_events,
        links: to_host_links(links),
        dropped_links_count: dropped_links,
        status: to_host_status(status),
        instrumentation_scope: to_host_scope(instrumentation_scope),
    }
}

} // verus!
