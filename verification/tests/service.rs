use uxum::apidoc::{ApiDocBuilder, ApiDocError, ApiDocRoute};
use uxum::builder::app::{
    enabled_handlers, first_duplicate_name, group_by_path, layer_plan, plan_routes, product_header,
    AppBuilderError, HandlerInfo, HttpMethod,
};
use uxum::builder::server::{ProtocolPlan, ServerBuilder, ServerBuilderError, SocketOption, SocketSearch};
use uxum::config::{ConfigSource, HandlerConfig, ServiceConfigBuilder};
use uxum::duration::Duration;
use uxum::errors::{IoError, Problem};
use uxum::handle::{HandleError, ServerTasks, WaitPlan};
use uxum::http_client::{client_request_record, load_identity, ClientFailureCounter, ClientOutcome, HttpClientConfig, HttpClientError, HttpClientRedirectPolicy, TracingMiddleware};
use uxum::kafka::{KafkaAuthConfig, KafkaAuthMechanism, KafkaProducerConfig, KafkaProtocol, KafkaQueueConfig, KafkaTransactionalConfig, LogProducerContext};
use uxum::logging::json::{env_reference, EventShape, ExtensibleJsonFormat, JsonEntry, JsonKeyNames};
use uxum::logging::{LoggingFormat, LoggingLevel, LoggingSubscriberConfig};
use uxum::metrics::{default_duration_buckets_micros, default_size_buckets, instruments, server_request_labels, InstrumentKind};
use uxum::notify::{NotifyOutcome, NotifyState, ReportLevel, ServiceNotifier};
use uxum::otel::{static_attributes, OpenTelemetryConfig};
use uxum::probes::{ProbeAction, ProbeConfig, ProbeState};
use uxum::runtime::{RuntimeConfig, RuntimeType};

fn handler(name: &str, path: &str, method: HttpMethod) -> HandlerInfo {
    HandlerInfo {
        name: name.to_string(),
        path: path.to_string(),
        spec_path: path.to_string(),
        method,
        permissions: vec!["p".to_string()],
        no_auth: false,
    }
}

#[test]
fn probes_state_machine() {
    let cfg = ProbeConfig::default();
    assert_eq!(cfg.readiness_path, "/probe/ready");
    assert_eq!(cfg.maintenance_off_path, "/maintenance/off");
    let mut s = ProbeState::default();
    assert_eq!(s.readiness(), 503);
    assert_eq!(s.handle(ProbeAction::MaintenanceOff), (200, true));
    assert_eq!(s.readiness(), 200);
    assert_eq!(s.handle(ProbeAction::MaintenanceOff), (200, false));
    assert_eq!(s.handle(ProbeAction::Readiness), (200, false));
    assert_eq!(s.handle(ProbeAction::MaintenanceOn), (200, true));
    assert_eq!(s.handle(ProbeAction::Readiness), (503, false));
    assert_eq!(s.liveness(), 200);
    assert_eq!(ProbeAction::MaintenanceOn.required_permissions(), vec!["maintenance"]);
    assert!(ProbeAction::Liveness.required_permissions().is_empty());
}

#[test]
fn kafka_producer_settings() {
    let mut cfg = KafkaProducerConfig::new(vec!["b1:9092".into(), "b2".into()], "logs".into());
    cfg.common.auth = Some(KafkaAuthConfig {
        username: Some("u".into()),
        password: None,
        protocol: KafkaProtocol::default(),
        mechanism: KafkaAuthMechanism::Plain,
    });
    cfg.common.extra_params = vec![("enable.idempotence".into(), "false".into()), ("client.id".into(), "me".into())];
    cfg.linger = Some(Duration::from_millis(5));
    cfg.queue = Some(KafkaQueueConfig { max_messages: Some(1000), max_kbytes: None, max_duration: Some(Duration::from_millis(20)) });
    cfg.transaction = Some(KafkaTransactionalConfig::new("tx".into()));
    cfg.max_retries = Some(-1);
    let s = cfg.make_client_config();
    assert_eq!(s.get("bootstrap.servers"), Some("b1:9092,b2"));
    assert_eq!(s.get("sasl.username"), Some("u"));
    assert_eq!(s.get("sasl.password"), None);
    assert_eq!(s.get("sasl.mechanisms"), Some("PLAIN"));
    assert_eq!(s.get("security.protocol"), Some("sasl_ssl"));
    // Producer fields win over extra parameters.
    assert_eq!(s.get("enable.idempotence"), Some("true"));
    assert_eq!(s.get("client.id"), Some("me"));
    assert_eq!(s.get("enable.gapless.guarantee"), Some("false"));
    assert_eq!(s.get("request.required.acks"), Some("-1"));
    // The queue's limit is applied after the linger time.
    assert_eq!(s.get("queue.buffering.max.ms"), Some("20"));
    assert_eq!(s.get("queue.buffering.max.messages"), Some("1000"));
    assert_eq!(s.get("transactional.id"), Some("tx"));
    assert_eq!(s.get("message.send.max.retries"), Some("-1"));
    assert_eq!(s.get("message.timeout.ms"), None);
    assert_eq!(s.config_map().len(), 12);
    let mut common = cfg.common.clone();
    common.set_extra_param("client.id".into(), "other".into());
    common.set_extra_param("linger.ms".into(), "3".into());
    assert_eq!(common.extra_params.len(), 3);
    assert_eq!(common.extra_params[1], ("client.id".to_string(), "other".to_string()));
    let plain = KafkaProducerConfig::new(vec!["b".into()], "t".into()).make_client_config();
    assert_eq!(plain.config_map().len(), 4);
    assert_eq!(plain.get("bootstrap.servers"), Some("b"));
    assert_eq!(
        LogProducerContext.delivery_error_message("t", 3, -1, "boom"),
        "Kafka log appender error (topic:t partition:3 offset:-1): boom"
    );
}

#[test]
fn server_protocols() {
    let mut s = ServerBuilder::new();
    assert_eq!(s.listen, "localhost:8080");
    assert_eq!(s.tcp.backlog, 1024);
    assert!(matches!(s.protocol_plan(), Ok(ProtocolPlan::Both(_, _))));
    s.http2.enabled = false;
    assert!(matches!(s.protocol_plan(), Ok(ProtocolPlan::Http1Only(_))));
    s.http1.enabled = false;
    assert!(matches!(s.protocol_plan(), Err(ServerBuilderError::NoProtocolsEnabled)));
    s.http2.enabled = true;
    assert!(matches!(s.protocol_plan(), Ok(ProtocolPlan::Http2Only(_))));
    let mut search = SocketSearch::new("example:80");
    assert!(matches!(SocketSearch::new("x").finish(), ServerBuilderError::Resolve(o) if o == "x"));
    search.record_failure(ServerBuilderError::SocketCreate("a".into()));
    search.record_failure(ServerBuilderError::ReuseAddr("b".into()));
    assert!(matches!(search.finish(), ServerBuilderError::ReuseAddr(m) if m == "b"));
}

#[test]
fn server_socket_options() {
    let mut s = ServerBuilder::new();
    assert!(s.socket_options().is_empty());
    s.recv_buffer = Some(4096);
    s.tcp.mss = Some(1400);
    s.ip.tos = Some(16);
    assert_eq!(
        s.socket_options(),
        vec![SocketOption::RecvBuffer(4096), SocketOption::IpTos(16), SocketOption::TcpMss(1400)]
    );
    s.send_buffer = Some(8192);
    assert_eq!(s.socket_options()[1], SocketOption::SendBuffer(8192));
    assert!(matches!(SocketOption::IpTos(1).failure("denied".into()), ServerBuilderError::SetIpTos(m) if m == "denied"));
    assert!(matches!(SocketOption::TcpMss(1).failure("x".into()), ServerBuilderError::SetTcpMss(_)));
}

#[test]
fn route_planning() {
    let hs = vec![
        handler("a", "/x", HttpMethod::Get),
        handler("b", "/y", HttpMethod::Post),
        handler("c", "/x", HttpMethod::Post),
    ];
    let groups = plan_routes(&hs).unwrap();
    assert_eq!(groups.len(), 2);
    assert_eq!(groups[0].path, "/x");
    assert_eq!(groups[0].handlers, vec![0, 2]);
    assert_eq!(groups[1].path, "/y");
    assert_eq!(groups[1].handlers, vec![1]);
    let dup = vec![handler("a", "/x", HttpMethod::Get), handler("a", "/z", HttpMethod::Get)];
    assert!(matches!(plan_routes(&dup), Err(AppBuilderError::DuplicateHandlerName(n)) if n == "a"));
    assert_eq!(first_duplicate_name(&vec!["a".into(), "b".into(), "b".into(), "a".into()]), Some(2));
    assert_eq!(group_by_path(&vec![]).len(), 0);
    let mut disabled = HandlerConfig::default();
    disabled.disabled = true;
    let configs = vec![("c".to_string(), disabled)];
    assert_eq!(enabled_handlers(&groups[0], &hs, &configs), Some(vec![0]));
    let configs = vec![("b".to_string(), { let mut d = HandlerConfig::default(); d.disabled = true; d })];
    assert_eq!(enabled_handlers(&groups[1], &hs, &configs), None);
}

#[test]
fn product_headers() {
    assert_eq!(product_header(None, None).unwrap(), "uxum/0.1.0");
    assert_eq!(product_header(Some("svc"), None).unwrap(), "svc uxum/0.1.0");
    assert_eq!(product_header(Some("svc"), Some("1.2")).unwrap(), "svc/1.2 uxum/0.1.0");
    assert!(product_header(Some("bad\n"), None).is_none());
    let mut c = HttpClientConfig::default();
    assert_eq!(c.user_agent().unwrap(), "uxum/0.1.0");
    c.with_app_name("svc");
    c.with_app_version("2");
    assert_eq!(c.user_agent().unwrap(), "svc/2 uxum/0.1.0");
}

#[test]
fn handler_layers() {
    let h = handler("a", "/x", HttpMethod::Get);
    let plan = layer_plan(&h, None);
    assert_eq!(plan.auth_permissions, Some(vec!["p".to_string()]));
    assert!(plan.timeout.is_some());
    assert!(plan.rate_limit.is_none());
    let mut cfg = HandlerConfig::default();
    cfg.timeout.use_x_timeout = false;
    cfg.cors = Some(uxum::layers::cors::CorsConfig::default());
    let mut open = h.clone();
    open.no_auth = true;
    let plan = layer_plan(&open, Some(&cfg));
    assert!(plan.auth_permissions.is_none());
    assert!(plan.timeout.is_none());
    assert!(plan.cors.is_some());
}

#[test]
fn http_client_config() {
    let mut c = HttpClientConfig::default();
    assert_eq!(c.pool_max_idle_per_host, usize::MAX);
    assert_eq!(c.pool_idle_timeout.unwrap().as_secs(), 90);
    assert_eq!(c.redirect.max_redirects(), 10);
    assert_eq!(HttpClientRedirectPolicy::Disabled.max_redirects(), 0);
    c.extra_headers = vec![("X-A".into(), "1".into()), ("bad name".into(), "2".into()), ("X-B".into(), "bad\nvalue".into())];
    assert_eq!(c.default_headers(), vec![("x-a".to_string(), "1".to_string())]);
    let (labels, counter) = client_request_record("api", "GET", "https", ClientOutcome::Response(404));
    assert_eq!(labels[3], ("http.response.status_code".to_string(), "404".to_string()));
    assert_eq!(labels[0], ("http.client".to_string(), "api".to_string()));
    assert_eq!(counter, None);
    let (labels, counter) = client_request_record("api", "GET", "https", ClientOutcome::Rejected);
    assert_eq!(labels[3].1, "");
    assert_eq!(counter, Some(ClientFailureCounter::Rejected));
    assert_eq!(client_request_record("a", "b", "c", ClientOutcome::MiddlewareError).1, Some(ClientFailureCounter::Errored));
    assert_eq!(client_request_record("a", "b", "c", ClientOutcome::TransportError).1, None);
    let t = TracingMiddleware::new();
    assert_eq!(t.span_name("GET", "/a/b"), "GET /a/b");
    assert!(t.status_is_error(404));
    assert!(t.status_is_error(99));
    assert!(!t.status_is_error(302));
}

#[test]
fn metrics_tables() {
    let i = instruments();
    assert_eq!(i.len(), 15);
    assert_eq!(i[0].name, "http.server.request.duration");
    assert_eq!(i[0].kind, InstrumentKind::F64Histogram);
    assert_eq!(i[14].name, "runtime.global_queue_depth");
    let s = default_size_buckets();
    assert_eq!(s.len(), 19);
    assert_eq!(s[18], 8 * 1024 * 1024);
    assert_eq!(s[5], 1024);
    assert_eq!(default_duration_buckets_micros()[17], 30_000_000);
    let l = server_request_labels("GET", "http", 200, None, Some("h"));
    assert_eq!(l[2].1, "200");
    assert_eq!(l[3].1, "");
    assert_eq!(l[4].1, "h");
}

#[test]
fn apidoc_builder() {
    let d = ApiDocBuilder::default();
    assert_eq!(d.app_title(), "Service");
    assert_eq!(d.info_version(), "0.0.0");
    assert!(d.contact().is_none());
    assert_eq!(d.routes().len(), 5);
    let d = d.with_app_name("svc").with_contact_email("a@b").with_tag("t", Some("d"), Some("http://x")).with_rapidoc_attribute("theme", "light");
    assert_eq!(d.app_title(), "svc");
    assert_eq!(d.app_name.as_deref(), Some("svc"));
    assert!(d.description.is_none());
    assert_eq!(d.clone().with_app_title("Title").app_title(), "Title");
    assert_eq!(d.contact().unwrap().email.as_deref(), Some("a@b"));
    assert_eq!(d.tags[0].external_docs.as_ref().unwrap().description.as_deref(), Some("d"));
    assert!(d.rapidoc_attributes.iter().any(|(k, v)| k == "theme" && v == "light"));
    assert_eq!(d.rapidoc_attributes.len(), 7);
    let r = d.clone().without_ui().routes();
    assert_eq!(r, vec![("/openapi.json".to_string(), ApiDocRoute::Spec)]);
    let full = d.routes();
    assert_eq!(full[2].0, "/apidoc/index.html");
    assert_eq!(full[4].0, "/rapidoc-min.js.map");
    let mut dd = ApiDocBuilder::default();
    dd.set_app_defaults(Some("n".into()), Some("v".into()));
    assert_eq!(dd.info_version(), "v");
    let hs = vec![handler("a", "/x", HttpMethod::Get), handler("b", "/x", HttpMethod::Other("CONNECT".into()))];
    assert!(matches!(dd.operations(&hs), Err(ApiDocError::UnsupportedMethod(m)) if m == "CONNECT"));
    assert_eq!(dd.operations(&hs[..1].to_vec()).unwrap().len(), 1);
    let two = vec![
        handler("c", "/y", HttpMethod::Other("PROPFIND".into())),
        handler("d", "/x", HttpMethod::Other("CONNECT".into())),
    ];
    // Paths are described in order: "/x" comes before "/y".
    assert!(matches!(dd.operations(&two), Err(ApiDocError::UnsupportedMethod(m)) if m == "CONNECT"));
    let same = vec![
        handler("e", "/z", HttpMethod::Other("LOCK".into())),
        handler("f", "/z", HttpMethod::Other("MOVE".into())),
    ];
    assert!(matches!(dd.operations(&same), Err(ApiDocError::UnsupportedMethod(m)) if m == "LOCK"));
}

#[test]
fn logging_configs() {
    let d = LoggingSubscriberConfig::default();
    assert_eq!(d.format, LoggingFormat::Full);
    assert_eq!(d.level, LoggingLevel::Debug);
    let dev = LoggingSubscriberConfig::default_for_dev();
    assert_eq!(dev.format, LoggingFormat::Pretty);
    assert_eq!(dev.level, LoggingLevel::Trace);
    assert!(dev.color && dev.print.thread_name && !dev.print.thread_id);
    assert_eq!(JsonKeyNames::default().thread_name, "threadName");
}

#[test]
fn json_entry_plan() {
    let mut f = ExtensibleJsonFormat::default();
    let e = EventShape { has_file: true, has_line: true, has_span: false, thread_named: false };
    let plan: Vec<JsonEntry> = f.entry_plan(&e).into_iter().map(|p| p.1).collect();
    assert_eq!(plan, vec![JsonEntry::Timestamp, JsonEntry::Level, JsonEntry::Fields, JsonEntry::Target]);
    f.display_thread_name = true;
    f.display_filename = true;
    f.flatten_event = true;
    f.static_keys = vec!["env".into()];
    let plan = f.entry_plan(&e);
    let kinds: Vec<JsonEntry> = plan.iter().map(|p| p.1).collect();
    assert_eq!(kinds, vec![JsonEntry::Timestamp, JsonEntry::Level, JsonEntry::FlattenedFields, JsonEntry::Target, JsonEntry::Filename, JsonEntry::ThreadIdAsName, JsonEntry::Static(0)]);
    assert_eq!(plan[6].0, "env");
    f.display_thread_id = true;
    let kinds: Vec<JsonEntry> = f.entry_plan(&e).iter().map(|p| p.1).collect();
    assert!(!kinds.contains(&JsonEntry::ThreadIdAsName));
    assert!(kinds.contains(&JsonEntry::ThreadId));
    assert_eq!(env_reference("$HOME"), Some("HOME".to_string()));
    assert_eq!(env_reference("plain"), None);
    assert_eq!(env_reference(""), None);
}

#[test]
fn json_format_builders() {
    let f = ExtensibleJsonFormat::new()
        .without_time()
        .with_target(false)
        .with_level(true)
        .with_thread_ids(true)
        .with_file(true)
        .with_line_number(true)
        .with_current_span(false)
        .flatten_event(true)
        .with_static_keys(vec!["a".into(), "b".into()]);
    let e = EventShape { has_file: false, has_line: true, has_span: true, thread_named: true };
    let plan = f.entry_plan(&e);
    let kinds: Vec<JsonEntry> = plan.iter().map(|p| p.1).collect();
    assert_eq!(
        kinds,
        vec![JsonEntry::Level, JsonEntry::FlattenedFields, JsonEntry::LineNumber, JsonEntry::ThreadId, JsonEntry::Static(0), JsonEntry::Static(1)]
    );
    assert_eq!(plan[5].0, "b");
    let mut names = JsonKeyNames::default();
    names.level = "severity".into();
    let g = ExtensibleJsonFormat::new().with_key_names(names).with_thread_names(true);
    let plan = g.entry_plan(&e);
    assert_eq!(plan[1].0, "severity");
    assert!(plan.iter().any(|p| p.1 == JsonEntry::ThreadName && p.0 == "threadName"));
}

#[test]
fn runtime_names() {
    let c = RuntimeConfig::default();
    assert_eq!(c.runtime_type, RuntimeType::MultiThread);
    let mut n = c.thread_namer();
    assert_eq!(n.next_name(), "uxum-worker-0");
    assert_eq!(n.next_name(), "uxum-worker-1");
    let mut c2 = RuntimeConfig::default();
    c2.thread_name = Some("w".into());
    assert_eq!(c2.thread_namer().next_name(), "w-0");
}

#[test]
fn otel_attributes() {
    assert_eq!(OpenTelemetryConfig::default().detector_timeout.as_secs(), 6);
    let a = static_attributes(None, Some("svc"), Some("1"));
    assert_eq!(a, vec![("service.name".to_string(), "svc".to_string()), ("service.version".to_string(), "1".to_string())]);
    assert!(static_attributes(None, None, None).is_empty());
}

#[test]
fn notifier() {
    let n = ServiceNotifier::new(true);
    assert_eq!(n.watchdog_interval(Some(Duration::from_secs(10))).unwrap().as_secs(), 5);
    assert!(ServiceNotifier::new(false).watchdog_interval(Some(Duration::from_secs(10))).is_none());
    assert!(n.watchdog_interval(None).is_none());
    assert_eq!(n.report(NotifyState::Ready, NotifyOutcome::Sent), (ReportLevel::Info, "supervisor notified: service ready".to_string()));
    assert_eq!(n.report(NotifyState::Watchdog, NotifyOutcome::Sent).0, ReportLevel::Trace);
    assert_eq!(n.report(NotifyState::Stopping, NotifyOutcome::Unavailable).1, "supervisor unavailable: service stopping");
    assert_eq!(n.report(NotifyState::Watchdog, NotifyOutcome::Failed).1, "watchdog notification error");
}

#[test]
fn problems_and_errors() {
    let p = Problem::not_found("/nope");
    assert_eq!(p.status, 404);
    assert_eq!(p.values, vec![("uri".to_string(), "/nope".to_string())]);
    assert_eq!(Problem::panic(None).detail.as_deref(), Some("Unknown panic format"));
    assert_eq!(Problem::panic(Some("oops")).detail.as_deref(), Some("oops"));
    assert_eq!(Problem::internal("x").title, "x");
    let e = IoError { message: "denied".into(), kind: "PermissionDenied".into(), raw: Some(13) };
    assert_eq!(e.to_text(), "denied, kind=PermissionDenied, raw=13");
    let e = IoError { raw: None, ..e };
    assert_eq!(e.to_text(), "denied, kind=PermissionDenied");
}

#[test]
fn server_tasks() {
    let mut t = ServerTasks::new();
    assert!(matches!(t.take_for_wait(), Err(HandleError::NotRunning)));
    t.start(false);
    assert!(matches!(t.take_for_wait(), Ok(WaitPlan::Single)));
    t.start(true);
    assert!(matches!(t.take_for_wait(), Ok(WaitPlan::FirstThenGraceful)));
    t.start(true);
    assert_eq!(t.take_all(), (true, true));
    assert!(matches!(t.take_for_wait(), Err(HandleError::NotRunning)));
    assert_eq!(HandleError::NotRunning.message(), "No server is currently running");
}

#[test]
fn service_config_sources() {
    let b = ServiceConfigBuilder::new().with_file("app.toml").with_env("APP");
    assert_eq!(b.sources, vec![ConfigSource::File("app.toml".into()), ConfigSource::Environment("APP".into())]);
}

#[test]
fn apidoc_build_spec() {
    let d = ApiDocBuilder::default()
        .with_app_name("svc")
        .with_app_version("1.2.3")
        .with_description("about")
        .with_contact_url("http://c")
        .with_tag("t", Some("d"), Some("http://x"));
    let hs = vec![
        handler("a", "/y", HttpMethod::Get),
        handler("b", "/x", HttpMethod::Post),
        handler("c", "/y", HttpMethod::Delete),
    ];
    let spec = d.build_spec(&hs).unwrap();
    assert_eq!(spec.openapi, "3.0.3");
    assert_eq!(spec.info.title, "svc");
    assert_eq!(spec.info.version, "1.2.3");
    assert_eq!(spec.info.description.as_deref(), Some("about"));
    let contact = spec.info.contact.unwrap();
    assert_eq!(contact.url.as_deref(), Some("http://c"));
    assert!(contact.name.is_none());
    assert_eq!(spec.paths.len(), 2);
    let y = spec.paths.iter().find(|g| g.path == "/y").unwrap();
    assert_eq!(y.handlers, vec![0, 2]);
    let x = spec.paths.iter().find(|g| g.path == "/x").unwrap();
    assert_eq!(x.handlers, vec![1]);
    assert_eq!(spec.tags.len(), 1);
    assert_eq!(spec.tags[0].name, "t");
    assert_eq!(spec.tags[0].external_docs.as_ref().unwrap().url, "http://x");
    let bad = vec![handler("a", "/x", HttpMethod::Other("CONNECT".into()))];
    assert!(matches!(d.build_spec(&bad), Err(ApiDocError::UnsupportedMethod(m)) if m == "CONNECT"));
    let plain = ApiDocBuilder::default().info();
    assert_eq!(plain.title, "Service");
    assert_eq!(plain.version, "0.0.0");
    assert!(plain.contact.is_none());
}

#[test]
fn client_identity_loading() {
    let io = IoError { message: "gone".into(), kind: "NotFound".into(), raw: Some(2) };
    match load_identity(Err(io)) {
        Err(HttpClientError::IdentityLoad(e)) => assert_eq!(e.message, "gone"),
        _ => panic!("expected an identity load error"),
    }
    // Bytes without a key and certificate are refused by the TLS library.
    match load_identity(Ok(b"not a pem file".to_vec())) {
        Err(HttpClientError::Reqwest(e)) => assert!(e.is_builder()),
        _ => panic!("expected a client error"),
    }
    assert!(matches!(HttpClientError::identity_load(IoError { message: "x".into(), kind: "Other".into(), raw: None }), HttpClientError::IdentityLoad(_)));
}

#[test]
fn trace_propagation_headers() {
    let t = TracingMiddleware::new();
    assert_eq!(t.propagation_header("traceparent", "00-abc-def-01"), Some(("traceparent".to_string(), "00-abc-def-01".to_string())));
    assert_eq!(t.propagation_header("bad name", "v"), None);
    assert_eq!(t.propagation_header("tracestate", "bad\nvalue"), None);
    assert_eq!(t.propagation_header("", "v"), None);
}
