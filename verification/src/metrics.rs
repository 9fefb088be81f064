//! Metrics: exporter settings, the instruments the service records, and the
//! labels of recorded requests.

use vstd::prelude::*;

use crate::duration::Duration;
use crate::text::{decimal, fmt_u128, owned};

verus! {

/// Aggregation temporality of exported metrics.
#[derive(Clone, Copy, Debug, PartialEq, Eq, Structural, Hash)]
pub enum MetricsTemporality {
    /// Values accumulate from the start.
    Cumulative,
    /// Values since the last export.
    Delta,
    /// Delta for synchronous counters and histograms, cumulative otherwise.
    LowMemory,
}

impl Default for MetricsTemporality {
    fn default() -> (r: MetricsTemporality)
        ensures
            r == MetricsTemporality::Cumulative,
    {
        MetricsTemporality::Cumulative
    }
}

/// Prometheus text exporter settings.
#[derive(Clone, Debug)]
pub struct PrometheusMetricsExporterConfig {
    /// URL path the metrics are served at.
    pub path: String,
    /// Add units to metric names.
    pub with_units: bool,
    /// Add `_total` to counter names.
    pub with_counter_suffixes: bool,
    /// Export the `target_info` metric.
    pub with_target_info: bool,
    /// Export instrumentation scope labels.
    pub with_scope_info: bool,
}

impl Default for PrometheusMetricsExporterConfig {
    fn default() -> (r: PrometheusMetricsExporterConfig)
        ensures
            r.path@ == "/metrics"@,
            r.with_units && r.with_counter_suffixes && r.with_target_info && r.with_scope_info,
    {
        PrometheusMetricsExporterConfig {
            path: owned("/metrics"),
            with_units: true,
            with_counter_suffixes: true,
            with_target_info: true,
            with_scope_info: true,
        }
    }
}

/// Kind of a metric instrument.
#[derive(Clone, Copy, Debug, PartialEq, Eq, Structural)]
pub enum InstrumentKind {
    /// Histogram of fractional values.
    F64Histogram,
    /// Histogram of whole values.
    U64Histogram,
    /// Monotonic counter.
    U64Counter,
    /// Counter that goes up and down.
    I64UpDownCounter,
    /// Gauge of whole values.
    U64Gauge,
}

/// Bucket boundaries an instrument uses.
#[derive(Clone, Copy, Debug, PartialEq, Eq, Structural)]
pub enum Buckets {
    /// No buckets (not a histogram).
    Unbucketed,
    /// The configured duration buckets, in seconds.
    Duration,
    /// The configured size buckets, in bytes.
    Size,
}

/// Description of one instrument.
#[derive(Clone, Debug)]
pub struct InstrumentSpec {
    /// Instrument name.
    pub name: &'static str,
    /// Instrument kind.
    pub kind: InstrumentKind,
    /// Unit, if any.
    pub unit: Option<&'static str>,
    /// Bucket boundaries.
    pub buckets: Buckets,
    /// Description.
    pub description: &'static str,
}

/// The instruments of the service: HTTP server, HTTP client and runtime metrics.
pub open spec fn instruments_spec() -> Seq<(Seq<char>, InstrumentKind, Option<Seq<char>>, Buckets)> {
    seq![
        ("http.server.request.duration"@, InstrumentKind::F64Histogram, Some("s"@), Buckets::Duration),
        ("http.server.requests"@, InstrumentKind::U64Counter, None, Buckets::Unbucketed),
        ("http.server.active_requests"@, InstrumentKind::I64UpDownCounter, None, Buckets::Unbucketed),
        ("http.server.request.body.size"@, InstrumentKind::U64Histogram, Some("By"@), Buckets::Size),
        ("http.server.response.body.size"@, InstrumentKind::U64Histogram, Some("By"@), Buckets::Size),
        ("http.client.request.duration"@, InstrumentKind::F64Histogram, Some("s"@), Buckets::Duration),
        ("http.client.requests"@, InstrumentKind::U64Counter, None, Buckets::Unbucketed),
        ("http.client.rejected_requests"@, InstrumentKind::U64Counter, None, Buckets::Unbucketed),
        ("http.client.errored_requests"@, InstrumentKind::U64Counter, None, Buckets::Unbucketed),
        ("http.client.active_requests"@, InstrumentKind::I64UpDownCounter, None, Buckets::Unbucketed),
        ("http.client.request.body.size"@, InstrumentKind::U64Histogram, Some("By"@), Buckets::Size),
        ("http.client.response.body.size"@, InstrumentKind::U64Histogram, Some("By"@), Buckets::Size),
        ("runtime.workers"@, InstrumentKind::U64Gauge, None, Buckets::Unbucketed),
        ("runtime.alive_tasks"@, InstrumentKind::U64Gauge, None, Buckets::Unbucketed),
        ("runtime.global_queue_depth"@, InstrumentKind::U64Gauge, None, Buckets::Unbucketed),
    ]
}

/// The abstract content of an instrument description (without its text).
pub open spec fn instrument_view(i: InstrumentSpec) -> (Seq<char>, InstrumentKind, Option<Seq<char>>, Buckets) {
    (i.name@, i.kind, match i.unit { Some(u) => Some(u@), None => None }, i.buckets)
}

/// Adds an instrument description.
fn add_instrument(
    v: &mut Vec<InstrumentSpec>,
    name: &'static str,
    kind: InstrumentKind,
    unit: Option<&'static str>,
    buckets: Buckets,
    description: &'static str,
)
    ensures
        final(v)@ == old(v)@.push(InstrumentSpec { name, kind, unit, buckets, description }),
{
    v.push(InstrumentSpec { name, kind, unit, buckets, description });
}

/// Descriptions of the instruments the service records.
pub fn instruments() -> (r: Vec<InstrumentSpec>)
    ensures
        r@.map_values(|i: InstrumentSpec| instrument_view(i)) == instruments_spec(),
{
    let mut v: Vec<InstrumentSpec> = Vec::new();
    add_instrument(&mut v, "http.server.request.duration", InstrumentKind::F64Histogram, Some("s"), Buckets::Duration,
        "The HTTP request latencies in seconds.");
    add_instrument(&mut v, "http.server.requests", InstrumentKind::U64Counter, None, Buckets::Unbucketed,
        "How many HTTP requests processed, partitioned by status code and HTTP method.");
    add_instrument(&mut v, "http.server.active_requests", InstrumentKind::I64UpDownCounter, None, Buckets::Unbucketed,
        "The number of active HTTP requests.");
    add_instrument(&mut v, "http.server.request.body.size", InstrumentKind::U64Histogram, Some("By"), Buckets::Size,
        "The HTTP request body sizes in bytes.");
    add_instrument(&mut v, "http.server.response.body.size", InstrumentKind::U64Histogram, Some("By"), Buckets::Size,
        "The HTTP reponse body sizes in bytes.");
    add_instrument(&mut v, "http.client.request.duration", InstrumentKind::F64Histogram, Some("s"), Buckets::Duration,
        "The HTTP request latencies in seconds.");
    add_instrument(&mut v, "http.client.requests", InstrumentKind::U64Counter, None, Buckets::Unbucketed,
        "How many HTTP requests processed, partitioned by status code and HTTP method.");
    add_instrument(&mut v, "http.client.rejected_requests", InstrumentKind::U64Counter, None, Buckets::Unbucketed,
        "Rejected requests due to open circuit breaker.");
    add_instrument(&mut v, "http.client.errored_requests", InstrumentKind::U64Counter, None, Buckets::Unbucketed,
        "Other errors when trying to send a request.");
    add_instrument(&mut v, "http.client.active_requests", InstrumentKind::I64UpDownCounter, None, Buckets::Unbucketed,
        "The number of active HTTP requests.");
    add_instrument(&mut v, "http.client.request.body.size", InstrumentKind::U64Histogram, Some("By"), Buckets::Size,
        "The HTTP request body sizes in bytes.");
    add_instrument(&mut v, "http.client.response.body.size", InstrumentKind::U64Histogram, Some("By"), Buckets::Size,
        "The HTTP reponse body sizes in bytes.");
    add_instrument(&mut v, "runtime.workers", InstrumentKind::U64Gauge, None, Buckets::Unbucketed,
        "Number of worker threads used by the runtime.");
    add_instrument(&mut v, "runtime.alive_tasks", InstrumentKind::U64Gauge, None, Buckets::Unbucketed,
        "Current number of alive tasks in the runtime.");
    add_instrument(&mut v, "runtime.global_queue_depth", InstrumentKind::U64Gauge, None, Buckets::Unbucketed,
        "Number of tasks currently scheduled in the runtime’s global queue.");
    assert(v@.map_values(|i: InstrumentSpec| instrument_view(i)) =~= instruments_spec());
    v
}

/// Default size buckets, in bytes: zero, then powers of two from 64 bytes to 8 MiB.
pub open spec fn size_buckets_spec() -> Seq<u64> {
    seq![
        0u64, 64, 128, 256, 512, 1024, 2048, 4096, 8192, 16384, 32768, 65536, 131072, 262144,
        524288, 1048576, 2097152, 4194304, 8388608,
    ]
}

/// Default size buckets, in bytes.
pub fn default_size_buckets() -> (r: Vec<u64>)
    ensures
        r@ == size_buckets_spec(),
{
    let mut v: Vec<u64> = Vec::new();
    v.push(0);
    let mut b: u64 = 64;
    let mut i: usize = 0;
    while i < 18
        invariant
            i <= 18,
            v@.len() == i + 1,
            v@ == size_buckets_spec().take(i + 1),
            b == if i < 18 { size_buckets_spec()[i + 1] } else { 16777216 },
        decreases 18 - i,
    {
        v.push(b);
        proof {
            assert(size_buckets_spec().take(i + 2) =~= size_buckets_spec().take(i + 1).push(size_buckets_spec()[i + 1]));
        }
        b = b * 2;
        i = i + 1;
        assert(b == if i < 18 { size_buckets_spec()[i + 1] } else { 16777216 }) by {
            reveal_with_fuel(size_buckets_spec, 1);
        }
    }
    assert(size_buckets_spec().take(19) =~= size_buckets_spec());
    v
}

/// Default duration buckets, in microseconds (the exported buckets are these in seconds).
pub open spec fn duration_buckets_spec() -> Seq<u64> {
    seq![
        0u64, 1_000, 2_500, 5_000, 10_000, 25_000, 50_000, 75_000, 100_000, 250_000, 500_000,
        750_000, 1_000_000, 2_500_000, 5_000_000, 7_500_000, 10_000_000, 30_000_000,
    ]
}

/// Default duration buckets, in microseconds.
pub fn default_duration_buckets_micros() -> (r: Vec<u64>)
    ensures
        r@ == duration_buckets_spec(),
{
    let v: Vec<u64> = vec![
        0, 1_000, 2_500, 5_000, 10_000, 25_000, 50_000, 75_000, 100_000, 250_000, 500_000, 750_000,
        1_000_000, 2_500_000, 5_000_000, 7_500_000, 10_000_000, 30_000_000,
    ];
    assert(v@ =~= duration_buckets_spec());
    v
}

/// Default interval of runtime metrics collection: fifteen seconds.
pub fn default_runtime_metrics_interval() -> (r: Duration)
    ensures
        r@ == 15_000_000_000,
        r.wf(),
{
    Duration::from_secs(15)
}

/// Labels of a served request: method, scheme, status code, route (empty when
/// no route matched) and handler (empty when unknown).
pub open spec fn server_labels_spec(
    method: Seq<char>,
    scheme: Seq<char>,
    status: u16,
    route: Option<Seq<char>>,
    handler: Option<Seq<char>>,
) -> Seq<(Seq<char>, Seq<char>)> {
    seq![
        ("http.request.method"@, method),
        ("url.scheme"@, scheme),
        ("http.response.status_code"@, decimal(status as nat)),
        ("http.route"@, match route { Some(r) => r, None => Seq::empty() }),
        ("uxum.handler"@, match handler { Some(h) => h, None => Seq::empty() }),
    ]
}

/// The abstract content of an optional string slice.
pub open spec fn opt_view(o: Option<&str>) -> Option<Seq<char>> {
    match o {
        Some(s) => Some(s@),
        None => None,
    }
}

/// Labels of a served request.
pub fn server_request_labels(
    method: &str,
    scheme: &str,
    status: u16,
    route: Option<&str>,
    handler: Option<&str>,
) -> (r: Vec<(String, String)>)
    ensures
        r@.map_values(|p: (String, String)| (p.0@, p.1@)) == server_labels_spec(method@, scheme@, status, opt_view(route), opt_view(handler)),
{
    let mut v: Vec<(String, String)> = Vec::new();
    v.push((owned("http.request.method"), owned(method)));
    v.push((owned("url.scheme"), owned(scheme)));
    v.push((owned("http.response.status_code"), fmt_u128(status as u128)));
    v.push((owned("http.route"), match route { Some(r) => owned(r), None => String::new() }));
    v.push((owned("uxum.handler"), match handler { Some(h) => owned(h), None => String::new() }));
    assert(v@.map_values(|p: (String, String)| (p.0@, p.1@)) =~= server_labels_spec(method@, scheme@, status, opt_view(route), opt_view(handler)));
    v
}

/// Which resource attributes are exported with every metric.
#[derive(Clone, Debug)]
pub enum ResourceSelector {
    /// Export all resource attributes with every metric.
    All,
    /// Do not export any resource attributes with every metric.
    Nothing,
    /// Export only the resource attributes in the allow list with every metric.
    KeyAllowList(Vec<String>),
}

impl Default for ResourceSelector {
    fn default() -> (r: ResourceSelector)
        ensures
            r is Nothing,
    {
        ResourceSelector::Nothing
    }
}

impl ResourceSelector {
    /// A selector allowing a single key.
    pub fn from_key(key: String) -> (r: ResourceSelector)
        ensures
            r matches ResourceSelector::KeyAllowList(l) && l@.len() == 1 && l@[0] == key,
    {
        let mut l: Vec<String> = Vec::new();
        l.push(key);
        ResourceSelector::KeyAllowList(l)
    }

    /// A selector allowing every attribute or none.
    pub fn from_bool(value: bool) -> (r: ResourceSelector)
        ensures
            if value { r is All } else { r is Nothing },
    {
        if value {
            ResourceSelector::All
        } else {
            ResourceSelector::Nothing
        }
    }

    /// Whether an attribute is exported with every metric.
    pub fn matches(&self, key: &str) -> (r: bool)
        ensures
            r == match self {
                ResourceSelector::Nothing => false,
                ResourceSelector::All => true,
                ResourceSelector::KeyAllowList(l) => crate::table::strings_view(l@).contains(key@),
            },
    {
        match self {
            ResourceSelector::Nothing => false,
            ResourceSelector::All => true,
            ResourceSelector::KeyAllowList(l) => crate::table::contains_str(l, key),
        }
    }
}

/// Content type of the Prometheus text exposition.
pub const PROMETHEUS_CONTENT_TYPE: &'static str = "text/plain; version=0.0.4";

} // verus!
