//! OpenTelemetry resource description of the service.

use vstd::prelude::*;

use crate::duration::Duration;
use crate::text::owned;

verus! {

/// Attribute naming the service's namespace.
pub const SERVICE_NAMESPACE: &'static str = "service.namespace";
/// Attribute naming the service.
pub const SERVICE_NAME: &'static str = "service.name";
/// Attribute naming the service's version.
pub const SERVICE_VERSION: &'static str = "service.version";

/// OpenTelemetry configuration.
#[derive(Clone, Copy, Debug, PartialEq, Eq, Structural)]
pub struct OpenTelemetryConfig {
    /// Time allowed for resource detectors.
    pub detector_timeout: Duration,
}

impl Default for OpenTelemetryConfig {
    fn default() -> (r: OpenTelemetryConfig)
        ensures
            r.detector_timeout@ == 6_000_000_000,
            r.detector_timeout.wf(),
    {
        OpenTelemetryConfig { detector_timeout: Duration::from_secs(6) }
    }
}

/// Attributes describing the service, added to those the detectors find:
/// namespace, name and version, each when given, in that order.
pub open spec fn static_attributes_spec(
    namespace: Option<Seq<char>>,
    name: Option<Seq<char>>,
    version: Option<Seq<char>>,
) -> Seq<(Seq<char>, Seq<char>)> {
    let a = match namespace {
        Some(v) => seq![(SERVICE_NAMESPACE@, v)],
        None => Seq::empty(),
    };
    let b = match name {
        Some(v) => a.push((SERVICE_NAME@, v)),
        None => a,
    };
    match version {
        Some(v) => b.push((SERVICE_VERSION@, v)),
        None => b,
    }
}

/// The abstract content of an optional string slice.
pub open spec fn opt_view(o: Option<&str>) -> Option<Seq<char>> {
    match o {
        Some(s) => Some(s@),
        None => None,
    }
}

/// Attributes describing the service.
pub fn static_attributes(namespace: Option<&str>, name: Option<&str>, version: Option<&str>) -> (r: Vec<(String, String)>)
    ensures
        r@.map_values(|p: (String, String)| (p.0@, p.1@)) == static_attributes_spec(
            opt_view(namespace),
            opt_view(name),
            opt_view(version),
        ),
{
    let mut r: Vec<(String, String)> = Vec::new();
    let ghost mut want: Seq<(Seq<char>, Seq<char>)> = Seq::empty();
    if let Some(v) = namespace {
        r.push((owned(SERVICE_NAMESPACE), owned(v)));
        proof { want = want.push((SERVICE_NAMESPACE@, v@)); }
    }
    if let Some(v) = name {
        r.push((owned(SERVICE_NAME), owned(v)));
        proof { want = want.push((SERVICE_NAME@, v@)); }
    }
    if let Some(v) = version {
        r.push((owned(SERVICE_VERSION), owned(v)));
        proof { want = want.push((SERVICE_VERSION@, v@)); }
    }
    assert(r@.map_values(|p: (String, String)| (p.0@, p.1@)) =~= want);
    assert(want =~= static_attributes_spec(opt_view(namespace), opt_view(name), opt_view(version)));
    r
}

} // verus!
