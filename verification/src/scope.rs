//! The resource and instrumentation-scope converters: descriptive fields
//! pass through unchanged (including absent optional fields), and the
//! attribute list goes through the scalar value converter.
use vstd::prelude::*;
use crate::guest::{InstrumentationScope, Resource};
use crate::host::{HostResource, HostScope};
use crate::values::{spec_attrs, to_host_attrs};

verus! {

/// How a host scope relates to the guest scope it was converted from:
/// name, optional version and optional schema URL unchanged, attributes
/// converted in order.
pub open spec fn scope_rel(g: InstrumentationScope, h: HostScope) -> bool {
    &&& h.name == g.name
    &&& h.version == g.version
    &&& h.schema_url == g.schema_url
    &&& h.attributes@ == spec_attrs(g.attributes@)
}

/// How a host resource relates to the guest resource it was converted
/// from: attributes converted in order, schema URL unchanged whether
/// present or absent.
pub open spec fn resource_rel(g: Resource, h: HostResource) -> bool {
    &&& h.attributes@ == spec_attrs(g.attributes@)
    &&& h.schema_url == g.schema_url
}

/// Converts a guest instrumentation scope. All four combinations of a
/// present or absent version and schema URL pass through as they are.
pub fn to_host_scope(s: InstrumentationScope) -> (r: HostScope)
    ensures
        scope_rel(s, r),
{
    let InstrumentationScope { name, version, schema_url, attributes } = s;
    HostScope { name, version, schema_url, attributes: to_host_attrs(attributes) }
}

/// Converts a guest resource, with or without a schema URL.
pub fn to_host_resource(res: Resource) -> (r: HostResource)
    ensures
        resource_rel(res, r),
{
    let Resource { attributes, schema_url } = res;
    HostResource { attributes: to_host_attrs(attributes), schema_url }
}

} // verus!
