//! HTTP server configuration and the protocol settings a server is built with.

use vstd::prelude::*;

use crate::duration::Duration;
use crate::text::owned;

verus! {

/// Errors of building a server; outside errors are carried as their messages.
#[derive(Debug)]
pub enum ServerBuilderError {
    /// Unable to parse endpoint address.
    AddressParse(String),
    /// Unable to resolve DNS name.
    Resolve(String),
    /// Unable to create socket.
    SocketCreate(String),
    /// Unable to set `SO_REUSEADDR`.
    ReuseAddr(String),
    /// Unable to bind socket to local address: address and error.
    BindAddr(String, String),
    /// Unable to listen on socket: address and error.
    Listen(String, String),
    /// Unable to extract local address.
    ListenerLocalAddr(String),
    /// Unable to set `SO_RCVBUF`.
    SetRecvBuffer(String),
    /// Unable to set `SO_SNDBUF`.
    SetSendBuffer(String),
    /// Unable to set `IP_TOS`.
    SetIpTos(String),
    /// Unable to set `TCP_MAXSEG`.
    SetTcpMss(String),
    /// Neither HTTP/1 nor HTTP/2 are enabled.
    NoProtocolsEnabled,
}

/// IP-level socket options.
#[derive(Clone, Copy, Debug, PartialEq, Eq, Structural)]
pub struct IpConfig {
    /// Type-of-service field (`IP_TOS`).
    pub tos: Option<u32>,
}

impl IpConfig {
    /// Whether these are the default options.
    pub open spec fn is_default_value(self) -> bool {
        self.tos is None
    }
}

impl Default for IpConfig {
    fn default() -> (r: IpConfig)
        ensures
            r.is_default_value(),
            r.tos is None,
    {
        IpConfig { tos: None }
    }
}

/// TCP keepalive options.
#[derive(Clone, Copy, Debug, PartialEq, Eq, Structural)]
pub struct TcpKeepaliveConfig {
    /// Idle time before keepalive probes start.
    pub idle: Option<Duration>,
    /// Interval between keepalive probes.
    pub interval: Option<Duration>,
    /// Number of unanswered probes before dropping the connection; never zero.
    pub retries: Option<u32>,
}

impl TcpKeepaliveConfig {
    /// Whether these are the default options.
    pub open spec fn is_default_value(self) -> bool {
        self.idle is None && self.interval is None && self.retries is None
    }
}

impl Default for TcpKeepaliveConfig {
    fn default() -> (r: TcpKeepaliveConfig)
        ensures
            r.is_default_value(),
            r.idle is None && r.interval is None && r.retries is None,
    {
        TcpKeepaliveConfig { idle: None, interval: None, retries: None }
    }
}

/// TCP-level socket options.
#[derive(Clone, Copy, Debug, PartialEq, Eq, Structural)]
pub struct TcpConfig {
    /// Disable Nagle's algorithm (`TCP_NODELAY`).
    pub nodelay: bool,
    /// Listen backlog; never zero.
    pub backlog: u32,
    /// Maximum segment size (`TCP_MAXSEG`); never zero.
    pub mss: Option<u32>,
    /// Keepalive options.
    pub keepalive: TcpKeepaliveConfig,
}

impl TcpConfig {
    /// Whether these are the default options.
    pub open spec fn is_default_value(self) -> bool {
        self.nodelay && self.backlog == 1024 && self.mss is None && self.keepalive.is_default_value()
    }
}

impl Default for TcpConfig {
    fn default() -> (r: TcpConfig)
        ensures
            r.is_default_value(),
            r.nodelay,
            r.backlog == 1024,
            r.mss is None,
            r.keepalive.is_default_value(),
    {
        TcpConfig { nodelay: true, backlog: 1024, mss: None, keepalive: TcpKeepaliveConfig::default() }
    }
}

/// HTTP/1 protocol options.
#[derive(Clone, Copy, Debug, PartialEq, Eq, Structural)]
pub struct Http1Config {
    /// Serve HTTP/1.
    pub enabled: bool,
    /// Support half-closed connections.
    pub half_close: bool,
    /// Timeout for reading request headers.
    pub header_read_timeout: Option<Duration>,
    /// Keep connections alive between requests.
    pub keepalive: bool,
    /// Maximum connection buffer size; never zero.
    pub max_buf_size: Option<usize>,
    /// Use vectored writes.
    pub writev: Option<bool>,
}

impl Http1Config {
    /// Whether these are the default options.
    pub open spec fn is_default_value(self) -> bool {
        self.enabled && !self.half_close && self.keepalive && self.header_read_timeout is None && self.max_buf_size is None && self.writev is None
    }
}

impl Default for Http1Config {
    fn default() -> (r: Http1Config)
        ensures
            r.is_default_value(),
            r.enabled && !r.half_close && r.keepalive,
            r.header_read_timeout is None && r.max_buf_size is None && r.writev is None,
    {
        Http1Config {
            enabled: true,
            half_close: false,
            header_read_timeout: None,
            keepalive: true,
            max_buf_size: None,
            writev: None,
        }
    }
}

/// HTTP/2 keepalive options.
#[derive(Clone, Copy, Debug, PartialEq, Eq, Structural)]
pub struct Http2KeepaliveConfig {
    /// Interval between keepalive pings.
    pub interval: Option<Duration>,
    /// Timeout for a keepalive ping answer.
    pub timeout: Option<Duration>,
}

impl Http2KeepaliveConfig {
    /// Whether these are the default options.
    pub open spec fn is_default_value(self) -> bool {
        self.interval is None && self.timeout is None
    }
}

impl Default for Http2KeepaliveConfig {
    fn default() -> (r: Http2KeepaliveConfig)
        ensures
            r.is_default_value(),
            r.interval is None && r.timeout is None,
    {
        Http2KeepaliveConfig { interval: None, timeout: None }
    }
}

/// HTTP/2 protocol options.
#[derive(Clone, Copy, Debug, PartialEq, Eq, Structural)]
pub struct Http2Config {
    /// Serve HTTP/2.
    pub enabled: bool,
    /// Use adaptive flow-control windows.
    pub adaptive_window: bool,
    /// Enable the extended CONNECT protocol.
    pub connect_protocol: bool,
    /// Initial connection-level window size; never zero.
    pub initial_connection_window: Option<u32>,
    /// Initial stream-level window size; never zero.
    pub initial_stream_window: Option<u32>,
    /// Keepalive options.
    pub keepalive: Http2KeepaliveConfig,
    /// Maximum concurrent streams per connection; never zero.
    pub max_concurrent_streams: Option<u32>,
}

impl Http2Config {
    /// Whether these are the default options.
    pub open spec fn is_default_value(self) -> bool {
        self.enabled && !self.adaptive_window && !self.connect_protocol && self.initial_connection_window is None && self.initial_stream_window is None && self.max_concurrent_streams is None && self.keepalive.is_default_value()
    }
}

impl Default for Http2Config {
    fn default() -> (r: Http2Config)
        ensures
            r.is_default_value(),
            r.enabled && !r.adaptive_window && !r.connect_protocol,
            r.initial_connection_window is None && r.initial_stream_window is None,
            r.max_concurrent_streams is None,
            r.keepalive.is_default_value(),
    {
        Http2Config {
            enabled: true,
            adaptive_window: false,
            connect_protocol: false,
            initial_connection_window: None,
            initial_stream_window: None,
            keepalive: Http2KeepaliveConfig::default(),
            max_concurrent_streams: None,
        }
    }
}

/// Which protocols a server speaks, with their options.
#[derive(Clone, Copy, Debug, PartialEq, Eq, Structural)]
pub enum ProtocolPlan {
    /// HTTP/1 and HTTP/2.
    Both(Http1Config, Http2Config),
    /// HTTP/1 only.
    Http1Only(Http1Config),
    /// HTTP/2 only.
    Http2Only(Http2Config),
}

/// Server configuration.
#[derive(Clone, Debug)]
pub struct ServerBuilder {
    /// Address to listen on, as `host:port`.
    pub listen: String,
    /// Sleep on accept errors instead of retrying at once.
    pub sleep_on_accept_errors: bool,
    /// Socket receive buffer size (`SO_RCVBUF`); never zero.
    pub recv_buffer: Option<usize>,
    /// Socket send buffer size (`SO_SNDBUF`); never zero.
    pub send_buffer: Option<usize>,
    /// IP-level options.
    pub ip: IpConfig,
    /// TCP-level options.
    pub tcp: TcpConfig,
    /// HTTP/1 options.
    pub http1: Http1Config,
    /// HTTP/2 options.
    pub http2: Http2Config,
}

impl Default for ServerBuilder {
    fn default() -> (r: ServerBuilder)
        ensures
            r.listen@ == "localhost:8080"@,
            !r.sleep_on_accept_errors,
            r.recv_buffer is None && r.send_buffer is None,
            r.ip.is_default_value(),
            r.tcp.is_default_value(),
            r.http1.is_default_value(),
            r.http2.is_default_value(),
    {
        ServerBuilder {
            listen: owned("localhost:8080"),
            sleep_on_accept_errors: false,
            recv_buffer: None,
            send_buffer: None,
            ip: IpConfig::default(),
            tcp: TcpConfig::default(),
            http1: Http1Config::default(),
            http2: Http2Config::default(),
        }
    }
}

impl ServerBuilder {
    /// Create new server builder with default settings.
    pub fn new() -> (r: ServerBuilder)
        ensures
            r.listen@ == "localhost:8080"@,
            !r.sleep_on_accept_errors,
            r.recv_buffer is None && r.send_buffer is None,
            r.ip.is_default_value(),
            r.tcp.is_default_value(),
            r.http1.is_default_value(),
            r.http2.is_default_value(),
    {
        ServerBuilder::default()
    }

    /// The protocols the server speaks: refuses a configuration with neither HTTP/1
    /// nor HTTP/2 enabled.
    pub fn protocol_plan(&self) -> (r: Result<ProtocolPlan, ServerBuilderError>)
        ensures
            match r {
                Err(e) => e is NoProtocolsEnabled && !self.http1.enabled && !self.http2.enabled,
                Ok(p) => p == if self.http1.enabled && self.http2.enabled {
                    ProtocolPlan::Both(self.http1, self.http2)
                } else if self.http1.enabled {
                    ProtocolPlan::Http1Only(self.http1)
                } else {
                    ProtocolPlan::Http2Only(self.http2)
                },
            },
            r is Err <==> (!self.http1.enabled && !self.http2.enabled),
    {
        if self.http1.enabled {
            if self.http2.enabled {
                Ok(ProtocolPlan::Both(self.http1, self.http2))
            } else {
                Ok(ProtocolPlan::Http1Only(self.http1))
            }
        } else if self.http2.enabled {
            Ok(ProtocolPlan::Http2Only(self.http2))
        } else {
            Err(ServerBuilderError::NoProtocolsEnabled)
        }
    }
}

/// A socket option that the server sets before binding, with its value.
#[derive(Clone, Copy, Debug, PartialEq, Eq, Structural)]
pub enum SocketOption {
    /// `SO_RCVBUF`.
    RecvBuffer(usize),
    /// `SO_SNDBUF`.
    SendBuffer(usize),
    /// `IP_TOS`.
    IpTos(u32),
    /// `TCP_MAXSEG`.
    TcpMss(u32),
}

/// The option for a configured value, or nothing when the value is unset.
pub open spec fn opt_seq<T>(o: Option<T>, f: spec_fn(T) -> SocketOption) -> Seq<SocketOption> {
    match o {
        Some(v) => seq![f(v)],
        None => Seq::empty(),
    }
}

/// The socket options a configuration sets, in the order they are set: receive
/// buffer, send buffer, type of service, maximum segment size.
pub open spec fn socket_options_spec(b: ServerBuilder) -> Seq<SocketOption> {
    opt_seq(b.recv_buffer, |v: usize| SocketOption::RecvBuffer(v))
        + opt_seq(b.send_buffer, |v: usize| SocketOption::SendBuffer(v))
        + opt_seq(b.ip.tos, |v: u32| SocketOption::IpTos(v))
        + opt_seq(b.tcp.mss, |v: u32| SocketOption::TcpMss(v))
}

impl ServerBuilder {
    /// The socket options to set before binding, in order; unset options are left
    /// at the system's defaults.
    pub fn socket_options(&self) -> (r: Vec<SocketOption>)
        ensures
            r@ == socket_options_spec(*self),
    {
        let mut r: Vec<SocketOption> = Vec::new();
        if let Some(v) = self.recv_buffer {
            r.push(SocketOption::RecvBuffer(v));
        }
        if let Some(v) = self.send_buffer {
            r.push(SocketOption::SendBuffer(v));
        }
        if let Some(v) = self.ip.tos {
            r.push(SocketOption::IpTos(v));
        }
        if let Some(v) = self.tcp.mss {
            r.push(SocketOption::TcpMss(v));
        }
        r
    }
}

impl SocketOption {
    /// The error reported when setting this option fails with `message`.
    pub fn failure(self, message: String) -> (r: ServerBuilderError)
        ensures
            match self {
                SocketOption::RecvBuffer(_) => r == ServerBuilderError::SetRecvBuffer(message),
                SocketOption::SendBuffer(_) => r == ServerBuilderError::SetSendBuffer(message),
                SocketOption::IpTos(_) => r == ServerBuilderError::SetIpTos(message),
                SocketOption::TcpMss(_) => r == ServerBuilderError::SetTcpMss(message),
            },
    {
        match self {
            SocketOption::RecvBuffer(_) => ServerBuilderError::SetRecvBuffer(message),
            SocketOption::SendBuffer(_) => ServerBuilderError::SetSendBuffer(message),
            SocketOption::IpTos(_) => ServerBuilderError::SetIpTos(message),
            SocketOption::TcpMss(_) => ServerBuilderError::SetTcpMss(message),
        }
    }
}

/// Search for a listening socket among the addresses a name resolves to: the
/// first address whose socket can be created wins; otherwise the error of the
/// last attempt is reported, or a resolution error when there was no address.
#[derive(Debug)]
pub struct SocketSearch {
    /// Name being resolved.
    pub origin: String,
    /// Error of the last failed attempt.
    pub last_error: Option<ServerBuilderError>,
}

impl SocketSearch {
    /// A search for the addresses of `origin`.
    pub fn new(origin: &str) -> (r: SocketSearch)
        ensures
            r.origin@ == origin@,
            r.last_error is None,
    {
        SocketSearch { origin: owned(origin), last_error: None }
    }

    /// Records a failed attempt.
    pub fn record_failure(&mut self, err: ServerBuilderError)
        ensures
            final(self).origin == old(self).origin,
            final(self).last_error == Some(err),
    {
        self.last_error = Some(err);
    }

    /// The error to report when no address gave a socket.
    pub fn finish(self) -> (r: ServerBuilderError)
        ensures
            match self.last_error {
                Some(e) => r == e,
                None => r matches ServerBuilderError::Resolve(o) && o@ == self.origin@,
            },
    {
        match self.last_error {
            Some(e) => e,
            None => ServerBuilderError::Resolve(self.origin),
        }
    }
}

} // verus!
