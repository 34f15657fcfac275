//! The scalar value converter: maps every guest attribute value to its
//! one host representation. The conversion is total — each of the eight
//! guest shapes (four scalars and their four homogeneous array forms) has
//! exactly one host image, and no input fails.
use vstd::prelude::*;
use crate::guest::{KeyValue, Value};
use crate::host::{HostArray, HostKeyValue, HostValue};

verus! {

/// The host image of a guest value: scalars map to the matching host
/// scalar, arrays to the host array wrapper around the matching list.
pub open spec fn spec_value(v: Value) -> HostValue {
    match v {
        Value::Str(s) => HostValue::Str(s),
        Value::Bool(b) => HostValue::Bool(b),
        Value::F64(f) => HostValue::F64(f),
        Value::S64(n) => HostValue::S64(n),
        Value::StrArray(a) => HostValue::Array(HostArray::Str(a)),
        Value::BoolArray(a) => HostValue::Array(HostArray::Bool(a)),
        Value::F64Array(a) => HostValue::Array(HostArray::F64(a)),
        Value::S64Array(a) => HostValue::Array(HostArray::S64(a)),
    }
}

/// The host image of a guest attribute: the key unchanged, the value
/// converted.
pub open spec fn spec_key_value(kv: KeyValue) -> HostKeyValue {
    HostKeyValue { key: kv.key, value: spec_value(kv.value) }
}

/// The host image of a guest attribute list, in order.
pub open spec fn spec_attrs(s: Seq<KeyValue>) -> Seq<HostKeyValue> {
    s.map_values(|kv: KeyValue| spec_key_value(kv))
}

/// Converts one guest value. Total: every variant is handled, none can
/// fail.
pub fn to_host_value(v: Value) -> (r: HostValue)
    ensures
        r == spec_value(v),
{
    match v {
        Value::Str(s) => HostValue::Str(s),
        Value::Bool(b) => HostValue::Bool(b),
        Value::F64(f) => HostValue::F64(f),
        Value::S64(n) => HostValue::S64(n),
        Value::StrArray(a) => HostValue::Array(HostArray::Str(a)),
        Value::BoolArray(a) => HostValue::Array(HostArray::Bool(a)),
        Value::F64Array(a) => HostValue::Array(HostArray::F64(a)),
        Value::S64Array(a) => HostValue::Array(HostArray::S64(a)),
    }
}

/// Converts one guest attribute.
pub fn to_host_key_value(kv: KeyValue) -> (r: HostKeyValue)
    ensures
        r == spec_key_value(kv),
{
    let KeyValue { key, value } = kv;
    HostKeyValue { key, value: to_host_value(value) }
}

/// Converts a guest attribute list, keeping order and count.
pub fn to_host_attrs(attrs: Vec<KeyValue>) -> (r: Vec<HostKeyValue>)
    ensures
        r@ == spec_attrs(attrs@),
{
    let ghost orig = attrs@;
    let mut rest = attrs;
    let mut out: Vec<HostKeyValue> = Vec::new();
    while rest.len() > 0
        invariant
            out@.len() + rest@.len() == orig.len(),
            rest@ == orig.skip(out@.len() as int),
            forall|k: int| 0 <= k < out@.len() ==> out@[k] == spec_key_value(#[trigger] orig[k]),
        decreases rest@.len(),
    {
        let ghost m = out@.len() as int;
        let kv = rest.remove(0);
        proof {
            assert(kv == orig[m]);
        }
        let h = to_host_key_value(kv);
        out.push(h);
        proof {
            assert(rest@ =~= orig.skip(m + 1));
        }
    }
    proof {
        assert(out@ =~= spec_attrs(orig));
    }
    out
}

} // verus!
