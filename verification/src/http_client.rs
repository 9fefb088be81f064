//! Outgoing HTTP client configuration: default headers, user agent, redirects,
//! and how requests are recorded in metrics and traces.

use vstd::prelude::*;

use crate::builder::app::{product_header, product_text};
use crate::duration::Duration;
use crate::errors::IoError;
use crate::headers::{header_name_valid, header_value_valid, is_valid_header_name, is_valid_header_value};
use crate::text::{ascii_lower_seq, chars_of, concat_str, decimal, fmt_u128, lower_chars, owned, string_of};

verus! {

/// A client certificate and key of the HTTP client library.
#[verifier::external_type_specification]
#[verifier::external_body]
pub struct ExIdentity(reqwest::Identity);

/// Errors of the HTTP client library.
#[verifier::external_type_specification]
#[verifier::external_body]
pub struct ExReqwestError(reqwest::Error);

/// Name of what `reqwest::Identity::from_pem` returns for PEM bytes: the identity
/// (a private key and at least one certificate), or the error.
pub uninterp spec fn pem_identity(pem: Seq<u8>) -> Result<reqwest::Identity, reqwest::Error>;

/// Parses a PEM-encoded private key and certificates with `reqwest::Identity::from_pem`.
#[verifier::external_body]
fn identity_from_pem(pem: &[u8]) -> (r: Result<reqwest::Identity, reqwest::Error>)
    ensures
        r == pem_identity(pem@),
{
    reqwest::Identity::from_pem(pem)
}

/// Errors of building an HTTP client.
#[derive(Debug)]
pub enum HttpClientError {
    /// HTTP client error.
    Reqwest(reqwest::Error),
    /// Error loading TLS identity.
    IdentityLoad(IoError),
}

impl HttpClientError {
    /// Generate new [`HttpClientError::IdentityLoad`] error.
    pub fn identity_load(err: IoError) -> (r: HttpClientError)
        ensures
            r matches HttpClientError::IdentityLoad(e) && e == err,
    {
        HttpClientError::IdentityLoad(err)
    }
}

/// Load the client X.509 identity from the outcome of reading its PEM file: the
/// read error, or the identity the file's bytes hold.
pub fn load_identity(read: Result<Vec<u8>, IoError>) -> (r: Result<reqwest::Identity, HttpClientError>)
    ensures
        match read {
            Err(e) => r matches Err(HttpClientError::IdentityLoad(x)) && x == e,
            Ok(pem) => match pem_identity(pem@) {
                Ok(i) => r matches Ok(x) && x == i,
                Err(e) => r matches Err(HttpClientError::Reqwest(x)) && x == e,
            },
        },
{
    match read {
        Err(e) => Err(HttpClientError::identity_load(e)),
        Ok(pem) => match identity_from_pem(pem.as_slice()) {
            Ok(i) => Ok(i),
            Err(e) => Err(HttpClientError::Reqwest(e)),
        },
    }
}

/// Redirect policy of a client.
#[derive(Clone, Copy, Debug, PartialEq, Eq, Structural)]
pub enum HttpClientRedirectPolicy {
    /// Never follow redirects.
    Disabled,
    /// Follow at most this many redirects.
    Limited {
        /// Redirect limit.
        redirect_limit: usize,
    },
}

impl Default for HttpClientRedirectPolicy {
    fn default() -> (r: HttpClientRedirectPolicy)
        ensures
            r == (HttpClientRedirectPolicy::Limited { redirect_limit: 10 }),
    {
        HttpClientRedirectPolicy::Limited { redirect_limit: 10 }
    }
}

impl HttpClientRedirectPolicy {
    /// The number of redirects followed.
    pub fn max_redirects(&self) -> (r: usize)
        ensures
            r == match *self {
                HttpClientRedirectPolicy::Disabled => 0,
                HttpClientRedirectPolicy::Limited { redirect_limit } => redirect_limit,
            },
    {
        match self {
            HttpClientRedirectPolicy::Disabled => 0,
            HttpClientRedirectPolicy::Limited { redirect_limit } => *redirect_limit,
        }
    }
}

/// TCP options of a client.
#[derive(Clone, Copy, Debug, PartialEq, Eq, Structural)]
pub struct HttpClientTcpConfig {
    /// Disable Nagle's algorithm.
    pub nodelay: bool,
    /// TCP keepalive time.
    pub keepalive: Option<Duration>,
}

impl Default for HttpClientTcpConfig {
    fn default() -> (r: HttpClientTcpConfig)
        ensures
            r.nodelay && r.keepalive is None,
    {
        HttpClientTcpConfig { nodelay: true, keepalive: None }
    }
}

/// HTTP/2 keepalive options of a client.
#[derive(Clone, Copy, Debug, PartialEq, Eq, Structural)]
pub struct HttpClientHttp2KeepaliveConfig {
    /// Interval between keepalive pings.
    pub interval: Option<Duration>,
    /// Timeout for a keepalive ping answer.
    pub timeout: Option<Duration>,
    /// Ping even when no requests are in flight.
    pub while_idle: bool,
}

impl Default for HttpClientHttp2KeepaliveConfig {
    fn default() -> (r: HttpClientHttp2KeepaliveConfig)
        ensures
            r.interval is None && r.timeout is None && !r.while_idle,
    {
        HttpClientHttp2KeepaliveConfig { interval: None, timeout: None, while_idle: false }
    }
}

/// HTTP/2 options of a client.
#[derive(Clone, Copy, Debug, PartialEq, Eq, Structural)]
pub struct HttpClientHttp2Config {
    /// Use adaptive flow-control windows.
    pub adaptive_window: bool,
    /// Initial connection-level window size; never zero.
    pub initial_connection_window: Option<u32>,
    /// Initial stream-level window size; never zero.
    pub initial_stream_window: Option<u32>,
    /// Keepalive options.
    pub keepalive: HttpClientHttp2KeepaliveConfig,
    /// Maximum frame size; never zero.
    pub max_frame_size: Option<u32>,
}

impl Default for HttpClientHttp2Config {
    fn default() -> (r: HttpClientHttp2Config)
        ensures
            !r.adaptive_window && r.initial_connection_window is None && r.initial_stream_window is None,
            r.keepalive.interval is None && r.keepalive.timeout is None && !r.keepalive.while_idle,
            r.max_frame_size is None,
    {
        HttpClientHttp2Config {
            adaptive_window: false,
            initial_connection_window: None,
            initial_stream_window: None,
            keepalive: HttpClientHttp2KeepaliveConfig::default(),
            max_frame_size: None,
        }
    }
}

/// HTTP client configuration.
#[derive(Clone, Debug)]
pub struct HttpClientConfig {
    /// PEM file with the client certificate and key.
    pub client_cert: Option<String>,
    /// Connection timeout.
    pub connect_timeout: Option<Duration>,
    /// Read timeout.
    pub read_timeout: Option<Duration>,
    /// Whole request timeout.
    pub request_timeout: Option<Duration>,
    /// Time idle pooled connections are kept.
    pub pool_idle_timeout: Option<Duration>,
    /// Limit of idle pooled connections per host.
    pub pool_max_idle_per_host: usize,
    /// Log connection details.
    pub verbose: bool,
    /// Headers added to every request, by name.
    pub extra_headers: Vec<(String, String)>,
    /// Redirect policy.
    pub redirect: HttpClientRedirectPolicy,
    /// Send `Referer` headers on redirects.
    pub referer: bool,
    /// TCP options.
    pub tcp: HttpClientTcpConfig,
    /// HTTP/2 options.
    pub http2: HttpClientHttp2Config,
    /// Name of the application, for the user agent.
    pub app_name: Option<String>,
    /// Version of the application, for the user agent.
    pub app_version: Option<String>,
}

impl Default for HttpClientConfig {
    fn default() -> (r: HttpClientConfig)
        ensures
            r.client_cert is None && r.connect_timeout is None && r.read_timeout is None,
            r.request_timeout is None,
            r.pool_idle_timeout matches Some(d) && d@ == 90_000_000_000 && d.wf(),
            r.pool_max_idle_per_host == usize::MAX,
            !r.verbose && r.extra_headers@.len() == 0 && r.referer,
            r.redirect == (HttpClientRedirectPolicy::Limited { redirect_limit: 10 }),
            r.tcp.nodelay && r.tcp.keepalive is None,
            !r.http2.adaptive_window && r.http2.initial_connection_window is None,
            r.http2.initial_stream_window is None && r.http2.max_frame_size is None,
            r.http2.keepalive.interval is None && r.http2.keepalive.timeout is None,
            !r.http2.keepalive.while_idle,
            r.app_name is None && r.app_version is None,
    {
        HttpClientConfig {
            client_cert: None,
            connect_timeout: None,
            read_timeout: None,
            request_timeout: None,
            pool_idle_timeout: Some(Duration::from_secs(90)),
            pool_max_idle_per_host: usize::MAX,
            verbose: false,
            extra_headers: Vec::new(),
            redirect: HttpClientRedirectPolicy::default(),
            referer: true,
            tcp: HttpClientTcpConfig::default(),
            http2: HttpClientHttp2Config::default(),
            app_name: None,
            app_version: None,
        }
    }
}

/// Extra headers that can be sent: those whose name and value are valid, with
/// names lower-cased, in order.
pub open spec fn valid_headers_spec(h: Seq<(String, String)>) -> Seq<(Seq<char>, Seq<char>)>
    decreases h.len(),
{
    if h.len() == 0 {
        Seq::empty()
    } else {
        let rest = valid_headers_spec(h.drop_last());
        let (k, v) = h.last();
        if header_name_valid(k@) && header_value_valid(v@) {
            rest.push((ascii_lower_seq(k@), v@))
        } else {
            rest
        }
    }
}

/// An extra header pair whose name and value are both valid header text.
pub open spec fn header_pair_valid(p: (String, String)) -> bool {
    header_name_valid(p.0@) && header_value_valid(p.1@)
}

/// A header pair as it is sent: the name lower-cased, the value as given.
pub open spec fn sent_pair(p: (String, String)) -> (Seq<char>, Seq<char>) {
    (ascii_lower_seq(p.0@), p.1@)
}

/// The headers sent with every request are exactly the extra headers whose name
/// and value are valid, in their order, each with its name lower-cased: every valid
/// pair is sent, and everything sent comes from a valid pair.
pub proof fn law_default_headers_keep_every_valid_pair(h: Seq<(String, String)>)
    ensures
        valid_headers_spec(h) == h.filter(|p: (String, String)| header_pair_valid(p)).map_values(
            |p: (String, String)| sent_pair(p),
        ),
        valid_headers_spec(h).len() == h.filter(|p: (String, String)| header_pair_valid(p)).len(),
        forall|i: int| 0 <= i < h.len() && header_pair_valid(#[trigger] h[i])
            ==> valid_headers_spec(h).contains(sent_pair(h[i])),
    decreases h.len(),
{
    let pred = |p: (String, String)| header_pair_valid(p);
    let f = |p: (String, String)| sent_pair(p);
    reveal_with_fuel(Seq::filter, 1);
    let out = valid_headers_spec(h);
    if h.len() == 0 {
        assert(h.filter(pred) =~= Seq::<(String, String)>::empty());
        assert(out =~= h.filter(pred).map_values(f));
    } else {
        let t = h.drop_last();
        law_default_headers_keep_every_valid_pair(t);
        let rest = valid_headers_spec(t);
        assert(h.filter(pred) == if pred(h.last()) { t.filter(pred).push(h.last()) } else { t.filter(pred) });
        if pred(h.last()) {
            assert(out == rest.push(sent_pair(h.last())));
            assert(out =~= h.filter(pred).map_values(f));
        } else {
            assert(out == rest);
            assert(out =~= h.filter(pred).map_values(f));
        }
        assert forall|i: int| 0 <= i < h.len() && header_pair_valid(#[trigger] h[i])
            implies out.contains(sent_pair(h[i])) by {
            if i < t.len() {
                assert(t[i] == h[i]);
                assert(rest.contains(sent_pair(t[i])));
                let j = choose|j: int| 0 <= j < rest.len() && rest[j] == sent_pair(t[i]);
                assert(out[j] == rest[j]);
            } else {
                assert(out[rest.len() as int] == sent_pair(h[i]));
            }
        }
    }
}

/// Every header sent with every request comes from an extra header whose name and
/// value are valid: its name lower-cased, its value as given.
pub proof fn law_sent_header_comes_from_valid_pair(h: Seq<(String, String)>, j: int)
    requires
        0 <= j < valid_headers_spec(h).len(),
    ensures
        exists|i: int| 0 <= i < h.len() && header_pair_valid(#[trigger] h[i]) && valid_headers_spec(h)[j] == sent_pair(h[i]),
    decreases h.len(),
{
    let t = h.drop_last();
    let out = valid_headers_spec(h);
    let rest = valid_headers_spec(t);
    if j < rest.len() {
        law_sent_header_comes_from_valid_pair(t, j);
        assert(out[j] == rest[j]);
        let i = choose|i: int| 0 <= i < t.len() && header_pair_valid(#[trigger] t[i]) && rest[j] == sent_pair(t[i]);
        assert(t[i] == h[i]);
        assert(header_pair_valid(h[i]) && out[j] == sent_pair(h[i]));
    } else {
        let i = h.len() - 1;
        assert(h[i] == h.last());
        assert(header_pair_valid(h[i]) && out[j] == sent_pair(h[i]));
    }
}

/// The abstract content of an optional string.
pub open spec fn opt_string_view(o: Option<String>) -> Option<Seq<char>> {
    match o {
        Some(s) => Some(s@),
        None => None,
    }
}

impl HttpClientConfig {
    /// Set the application name used in the user agent.
    pub fn with_app_name(&mut self, app_name: &str)
        ensures
            final(self).app_name matches Some(n) && n@ == app_name@,
            final(self).app_version == old(self).app_version,
            final(self).extra_headers == old(self).extra_headers,
    {
        self.app_name = Some(owned(app_name));
    }

    /// Set the application version used in the user agent.
    pub fn with_app_version(&mut self, app_version: &str)
        ensures
            final(self).app_version matches Some(v) && v@ == app_version@,
            final(self).app_name == old(self).app_name,
            final(self).extra_headers == old(self).extra_headers,
    {
        self.app_version = Some(owned(app_version));
    }

    /// The `User-Agent` value: the application's product token followed by the
    /// framework's; none when the text cannot be a header value.
    pub fn user_agent(&self) -> (r: Option<String>)
        ensures
            match r {
                Some(v) => header_value_valid(v@) && v@ == product_text(
                    opt_string_view(self.app_name),
                    opt_string_view(self.app_version),
                ),
                None => !header_value_valid(product_text(opt_string_view(self.app_name), opt_string_view(self.app_version))),
            },
    {
        let name = match &self.app_name {
            Some(n) => Some(n.as_str()),
            None => None,
        };
        let version = match &self.app_version {
            Some(v) => Some(v.as_str()),
            None => None,
        };
        product_header(name, version)
    }

    /// The headers added to every request: extra headers with an invalid name or
    /// value are left out.
    pub fn default_headers(&self) -> (r: Vec<(String, String)>)
        ensures
            r@.map_values(|p: (String, String)| (p.0@, p.1@)) == valid_headers_spec(self.extra_headers@),
    {
        let mut r: Vec<(String, String)> = Vec::new();
        let mut i: usize = 0;
        while i < self.extra_headers.len()
            invariant
                i <= self.extra_headers@.len(),
                r@.map_values(|p: (String, String)| (p.0@, p.1@)) == valid_headers_spec(self.extra_headers@.take(i as int)),
            decreases self.extra_headers@.len() - i,
        {
            let (k, v) = &self.extra_headers[i];
            proof {
                assert(self.extra_headers@.take(i + 1).drop_last() =~= self.extra_headers@.take(i as int));
            }
            let ghost before = r@;
            if is_valid_header_name(k.as_str()) && is_valid_header_value(v.as_str()) {
                let kc = chars_of(k.as_str());
                let lower = lower_chars(kc.as_slice());
                r.push((string_of(lower.as_slice()), owned(v.as_str())));
                assert(r@.map_values(|p: (String, String)| (p.0@, p.1@)) =~= before.map_values(
                    |p: (String, String)| (p.0@, p.1@),
                ).push((ascii_lower_seq(k@), v@)));
            }
            i = i + 1;
        }
        assert(self.extra_headers@.take(i as int) =~= self.extra_headers@);
        r
    }
}

/// How a client request ended, as far as metrics tell them apart.
#[derive(Clone, Copy, Debug, PartialEq, Eq, Structural)]
pub enum ClientOutcome {
    /// A response with this status code.
    Response(u16),
    /// Refused by the open circuit breaker.
    Rejected,
    /// Another middleware error.
    MiddlewareError,
    /// A transport error.
    TransportError,
}

/// Counter a client request adds to besides the request total.
#[derive(Clone, Copy, Debug, PartialEq, Eq, Structural)]
pub enum ClientFailureCounter {
    /// Requests rejected by the circuit breaker.
    Rejected,
    /// Requests failed in middleware.
    Errored,
}

/// Labels of a finished client request: client name, method, scheme and status
/// code (empty when there was no response).
pub open spec fn client_labels_spec(name: Seq<char>, method: Seq<char>, scheme: Seq<char>, outcome: ClientOutcome) -> Seq<(Seq<char>, Seq<char>)> {
    seq![
        ("http.client"@, name),
        ("http.request.method"@, method),
        ("url.scheme"@, scheme),
        ("http.response.status_code"@, match outcome {
            ClientOutcome::Response(s) => decimal(s as nat),
            _ => Seq::empty(),
        }),
    ]
}

/// Metrics of a finished client request: its labels and the failure counter to
/// add to, if any.
pub fn client_request_record(name: &str, method: &str, scheme: &str, outcome: ClientOutcome) -> (r: (Vec<(String, String)>, Option<ClientFailureCounter>))
    ensures
        r.0@.map_values(|p: (String, String)| (p.0@, p.1@)) == client_labels_spec(name@, method@, scheme@, outcome),
        r.1 == match outcome {
            ClientOutcome::Rejected => Some(ClientFailureCounter::Rejected),
            ClientOutcome::MiddlewareError => Some(ClientFailureCounter::Errored),
            _ => None,
        },
{
    let status = match outcome {
        ClientOutcome::Response(s) => fmt_u128(s as u128),
        _ => String::new(),
    };
    let mut labels: Vec<(String, String)> = Vec::new();
    labels.push((owned("http.client"), owned(name)));
    labels.push((owned("http.request.method"), owned(method)));
    labels.push((owned("url.scheme"), owned(scheme)));
    labels.push((owned("http.response.status_code"), status));
    assert(labels@.map_values(|p: (String, String)| (p.0@, p.1@)) =~= client_labels_spec(name@, method@, scheme@, outcome));
    let counter = match outcome {
        ClientOutcome::Rejected => Some(ClientFailureCounter::Rejected),
        ClientOutcome::MiddlewareError => Some(ClientFailureCounter::Errored),
        _ => None,
    };
    (labels, counter)
}

/// Marks a traced client request that must not carry trace context.
#[derive(Clone, Copy, Debug)]
pub struct DisableOtelPropagation;

/// Traces outgoing requests.
#[derive(Clone, Copy, Debug)]
pub struct TracingMiddleware;

impl TracingMiddleware {
    /// A tracing middleware.
    pub fn new() -> (r: TracingMiddleware) {
        TracingMiddleware
    }

    /// Name of the span of a request: method and path.
    pub fn span_name(&self, method: &str, path: &str) -> (r: String)
        ensures
            r@ == method@ + " "@ + path@,
    {
        let head = concat_str(method, " ");
        concat_str(head.as_str(), path)
    }

    /// The header that trace-context propagation sets on a request for a key and
    /// value: both as given when the key is a valid header name and the value a
    /// valid header value; none (the entry is skipped) otherwise.
    pub fn propagation_header(&self, key: &str, value: &str) -> (r: Option<(String, String)>)
        ensures
            r is Some <==> (header_name_valid(key@) && header_value_valid(value@)),
            r matches Some((k, v)) ==> k@ == key@ && v@ == value@,
    {
        if is_valid_header_name(key) && is_valid_header_value(value) {
            Some((owned(key), owned(value)))
        } else {
            None
        }
    }

    /// Whether a response status marks the span as failed: anything outside 100..=399.
    pub fn status_is_error(&self, status: u16) -> (r: bool)
        ensures
            r == !(100 <= status <= 399),
    {
        !(100 <= status && status <= 399)
    }
}

} // verus!
