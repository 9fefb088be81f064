use uxum::duration::Duration;
use uxum::layers::buffer::HandlerBufferConfig;
use uxum::layers::cors::{any_or_from_str, AnyOr, CorsConfig, CorsError, ANY_KEYWORD};
use uxum::layers::ext::{Deadline, HandlerName};
use uxum::layers::rate::{HandlerRateLimitConfig, RateLimitError, RateLimitKey};
use uxum::layers::timeout::{HandlerTimeoutConfig, TimeoutError, TimeoutService};
use uxum::layers::util::{first_ip, forwarded_for_candidates, forwarded_ip, peer_ip_key, real_ip_candidate, smart_ip_key, ExtractionError, ForwardedFor, IpKey};
use uxum::text::str_lt;

fn secs(s: u64) -> Duration {
    Duration::from_secs(s)
}

#[test]
fn timeout_from_header() {
    let cfg = HandlerTimeoutConfig::default();
    let d = cfg.resolve_timeout(Some(b"PT1.5S")).unwrap();
    assert_eq!(d.as_nanos(), 1_500_000_000);
    let d = cfg.resolve_timeout(Some(b"PT2M")).unwrap();
    assert_eq!(d.as_secs(), 120);
    // Years and months have no fixed length: no timeout.
    assert!(cfg.resolve_timeout(Some(b"P1M")).is_none());
    assert!(cfg.resolve_timeout(None).is_none());
}

#[test]
fn timeout_default_and_bounds() {
    let cfg = HandlerTimeoutConfig {
        use_x_timeout: true,
        default_timeout: Some(secs(10)),
        min_timeout: Some(secs(2)),
        max_timeout: Some(secs(30)),
    };
    assert_eq!(cfg.resolve_timeout(None).unwrap().as_secs(), 10);
    // Unparseable header falls back to the default.
    assert_eq!(cfg.resolve_timeout(Some(b"soon")).unwrap().as_secs(), 10);
    // Not visible ASCII: default.
    assert_eq!(cfg.resolve_timeout(Some(b"PT5S\x01")).unwrap().as_secs(), 10);
    assert_eq!(cfg.resolve_timeout(Some(b"PT5S")).unwrap().as_secs(), 5);
    // Out of bounds: a deadline that has already passed.
    assert_eq!(cfg.resolve_timeout(Some(b"PT1S")).unwrap().as_nanos(), 0);
    assert_eq!(cfg.resolve_timeout(Some(b"PT31S")).unwrap().as_nanos(), 0);
    assert!(cfg.get_deadline(Some(b"PT31S")).unwrap().is_expired());
    let no_header = HandlerTimeoutConfig { use_x_timeout: false, ..cfg };
    assert_eq!(no_header.resolve_timeout(Some(b"PT5S")).unwrap().as_secs(), 10);
}

#[test]
fn timeout_layer_and_default() {
    let cfg = HandlerTimeoutConfig::default();
    assert!(cfg.is_default());
    assert!(cfg.make_layer::<()>().is_some());
    let off = HandlerTimeoutConfig { use_x_timeout: false, default_timeout: None, min_timeout: None, max_timeout: None };
    assert!(!off.is_default());
    assert!(off.make_layer::<()>().is_none());
    let svc = TimeoutService::new(7u8, &cfg);
    assert_eq!(svc.inner, 7);
    assert_eq!(TimeoutError::TimedOut.http_status(), 504);
    assert_eq!(TimeoutError::TimedOut.message(), "Request timed out");
    let deadline = cfg.get_deadline(Some(b"PT60S")).unwrap();
    assert!(!deadline.is_expired());
    assert!(deadline.time_left().unwrap().as_secs() <= 60);
}

#[test]
fn deadline_laws() {
    let d = Deadline::after(secs(5));
    assert!(!d.is_expired_after(&secs(4)));
    assert!(d.is_expired_after(&secs(5)));
    assert!(d.is_expired_after(&secs(6)));
    assert_eq!(d.time_left_after(&secs(3)).unwrap().as_secs(), 2);
    assert_eq!(d.time_left_after(&secs(5)).unwrap().as_nanos(), 0);
    assert!(d.time_left_after(&secs(6)).is_none());
    let now = Deadline::new();
    assert!(now.is_expired());
}

#[test]
fn handler_name() {
    let n = HandlerName::new("get_user");
    assert_eq!(n.as_str(), "get_user");
}

#[test]
fn rate_limit_sizes() {
    let c = HandlerRateLimitConfig::new(10, None);
    assert_eq!(c.burst_size(), 10);
    assert_eq!(c.period().as_nanos(), 100_000_000);
    let c = HandlerRateLimitConfig::new(10, Some(25));
    assert_eq!(c.burst_size(), 25);
    let c = HandlerRateLimitConfig::new(10, Some(5));
    assert_eq!(c.burst_size(), 10);
    let c = HandlerRateLimitConfig { burst_duration: Duration::from_millis(150), ..HandlerRateLimitConfig::new(10, None) };
    // 0.15 s at 10 rps is 1.5 requests: rounded up.
    assert_eq!(c.burst_size(), 2);
    let c = HandlerRateLimitConfig { burst_duration: Duration::from_millis(0), ..HandlerRateLimitConfig::new(7, None) };
    assert_eq!(c.burst_size(), 7);
    let c = HandlerRateLimitConfig::new(3, None);
    assert_eq!(c.period().as_nanos(), 333_333_333);
    let q = c.quota().unwrap();
    assert_eq!(q.replenish_interval(), std::time::Duration::from_nanos(333_333_333));
    assert_eq!(q.burst_size().get(), 3);
    let burst = HandlerRateLimitConfig::new(4, Some(12)).quota().unwrap();
    assert_eq!(burst.burst_size().get(), 12);
    assert_eq!(burst.replenish_interval(), std::time::Duration::from_millis(250));
    let c = HandlerRateLimitConfig::new(2_000_000_000, None);
    assert!(c.quota().is_none());
    assert_eq!(RateLimitKey::default(), RateLimitKey::Global);
    let l = c.make_layer::<(), ()>();
    assert_eq!(l.config, c);
}

#[test]
fn rate_limit_errors() {
    let e = RateLimitError::from_wait(&Duration::from_millis(2_900));
    assert_eq!(e, RateLimitError::LimitReached { remaining_seconds: 2 });
    assert_eq!(e.http_status(), 429);
    assert_eq!(e.message(), "Rate limit reached: available after 2 seconds");
    let e = RateLimitError::Extraction(ExtractionError);
    assert_eq!(e.http_status(), 400);
    assert_eq!(e.message(), "Unable to extract rate-limiting key from request");
}

#[test]
fn forwarded_for() {
    let v = forwarded_for_candidates(b" 10.0.0.1 , 192.168.1.1,,x").unwrap();
    assert_eq!(v, vec!["10.0.0.1", "192.168.1.1", "", "x"]);
    assert!(forwarded_for_candidates(b"\x01").is_none());
    assert_eq!(forwarded_for_candidates(b"").unwrap(), vec![""]);
    assert_eq!(real_ip_candidate(b"1.2.3.4").unwrap(), "1.2.3.4");
}

#[test]
fn smart_ip_order() {
    let a = IpKey::V4(1);
    let b = IpKey::V4(2);
    let c = IpKey::V6(3);
    let d = IpKey::V4(4);
    assert_eq!(smart_ip_key(Some(a), Some(b), Some(c), Some(d)), Ok(a));
    assert_eq!(smart_ip_key(None, Some(b), Some(c), Some(d)), Ok(b));
    assert_eq!(smart_ip_key(None, None, Some(c), Some(d)), Ok(c));
    assert_eq!(smart_ip_key(None, None, None, Some(d)), Ok(d));
    assert_eq!(smart_ip_key(None, None, None, None), Err(ExtractionError));
    assert_eq!(peer_ip_key(None), Err(ExtractionError));
}

#[test]
fn cors_policy() {
    let cfg = CorsConfig {
        origins: AnyOr::List(vec!["https://a.example".to_string()]),
        credentials: true,
        headers: Some(AnyOr::List(vec!["X-Custom".to_string(), "Content-Type".to_string()])),
        max_age: Some(secs(60)),
    };
    let p = cfg.make_layer().unwrap();
    assert!(p.credentials);
    match p.headers {
        Some(AnyOr::List(h)) => assert_eq!(h, vec!["x-custom", "content-type"]),
        other => panic!("unexpected {other:?}"),
    }
    let bad_origin = CorsConfig { origins: AnyOr::List(vec!["ok".into(), "bad\nvalue".into()]), ..cfg.clone() };
    match bad_origin.make_layer() {
        Err(CorsError::InvalidOrigin(o)) => assert_eq!(o, "bad\nvalue"),
        other => panic!("unexpected {other:?}"),
    }
    let bad_header = CorsConfig { headers: Some(AnyOr::List(vec!["bad header".into()])), ..cfg.clone() };
    match bad_header.make_layer() {
        Err(e @ CorsError::InvalidHeader(_)) => assert_eq!(e.message(), "Invalid CORS header"),
        other => panic!("unexpected {other:?}"),
    }
    let d = CorsConfig::default();
    let p = d.make_layer().unwrap();
    assert!(matches!(p.origins, AnyOr::Any));
    assert!(p.headers.is_none());
}

// The configuration form of `AnyOr` in JSON: the keyword (any ASCII case) or
// `null` stands for `Any`, an array for the list. `TestData` has the fields of a
// configuration section whose missing fields take their defaults and whose unset
// optional field is left out when written.
#[derive(Debug, PartialEq)]
struct TestData {
    string_param: AnyOr<String>,
    int_param: AnyOr<i64>,
    opt_int_param: Option<AnyOr<i64>>,
}

fn any_or_value<T>(v: &serde_json::Value, item: impl Fn(&serde_json::Value) -> Option<T>) -> Result<AnyOr<T>, String> {
    match v {
        serde_json::Value::String(s) => any_or_from_str(s).ok_or_else(|| format!("expecting string 'any', got '{}'", s.to_ascii_lowercase())),
        serde_json::Value::Null => Ok(AnyOr::Any),
        serde_json::Value::Array(items) => items
            .iter()
            .map(|i| item(i).ok_or_else(|| "invalid element".to_string()))
            .collect::<Result<Vec<T>, String>>()
            .map(AnyOr::List),
        _ => Err("'any' string or a sequence".to_string()),
    }
}

fn test_data_from_json(text: &str) -> Result<TestData, String> {
    let v: serde_json::Value = serde_json::from_str(text).map_err(|e| e.to_string())?;
    let string_item = |i: &serde_json::Value| i.as_str().map(str::to_string);
    let int_item = |i: &serde_json::Value| i.as_i64();
    Ok(TestData {
        string_param: match v.get("string_param") {
            Some(x) => any_or_value(x, string_item)?,
            None => AnyOr::default(),
        },
        int_param: match v.get("int_param") {
            Some(x) => any_or_value(x, int_item)?,
            None => AnyOr::default(),
        },
        opt_int_param: match v.get("opt_int_param") {
            Some(x) => Some(any_or_value(x, int_item)?),
            None => None,
        },
    })
}

fn any_or_json<T: Clone + Into<serde_json::Value>>(a: &AnyOr<T>) -> serde_json::Value {
    match a {
        AnyOr::Any => serde_json::Value::String(ANY_KEYWORD.to_string()),
        AnyOr::List(v) => serde_json::Value::Array(v.iter().cloned().map(Into::into).collect()),
    }
}

fn test_data_to_json(d: &TestData) -> serde_json::Value {
    let mut m = serde_json::Map::new();
    m.insert("string_param".to_string(), any_or_json(&d.string_param));
    m.insert("int_param".to_string(), any_or_json(&d.int_param));
    if let Some(o) = &d.opt_int_param {
        m.insert("opt_int_param".to_string(), any_or_json(o));
    }
    serde_json::Value::Object(m)
}

#[test]
fn anyor_de_all_any() {
    let d = test_data_from_json(r#"{"string_param": "any", "int_param": "Any", "opt_int_param": "ANY"}"#).unwrap();
    assert_eq!(d, TestData { string_param: AnyOr::Any, int_param: AnyOr::Any, opt_int_param: Some(AnyOr::Any) });
}

#[test]
fn anyor_de_all_or() {
    let d = test_data_from_json(r#"{"string_param": ["v1", "v2"], "int_param": [11, 22], "opt_int_param": [33, 44]}"#).unwrap();
    assert_eq!(
        d,
        TestData {
            string_param: AnyOr::List(vec!["v1".to_string(), "v2".to_string()]),
            int_param: AnyOr::List(vec![11, 22]),
            opt_int_param: Some(AnyOr::List(vec![33, 44])),
        }
    );
}

#[test]
fn anyor_de_default() {
    let d = test_data_from_json("{}").unwrap();
    assert_eq!(d, TestData { string_param: AnyOr::Any, int_param: AnyOr::Any, opt_int_param: None });
}

#[test]
fn anyor_de_invalid_any() {
    let e = test_data_from_json(r#"{"string_param": "whatever", "int_param": "any"}"#).unwrap_err();
    assert!(e.contains("expecting string 'any', got 'whatever'"));
    assert!(any_or_from_str::<String>("anyx").is_none());
}

#[test]
fn anyor_ser_all_any() {
    let d = TestData { string_param: AnyOr::Any, int_param: AnyOr::Any, opt_int_param: Some(AnyOr::Any) };
    assert_eq!(
        test_data_to_json(&d),
        serde_json::from_str::<serde_json::Value>(r#"{"string_param": "any", "int_param": "any", "opt_int_param": "any"}"#).unwrap()
    );
}

#[test]
fn anyor_ser_all_or() {
    let d = TestData {
        string_param: AnyOr::List(vec!["v1".to_string(), "v2".to_string()]),
        int_param: AnyOr::List(vec![11, 22]),
        opt_int_param: Some(AnyOr::List(vec![33, 44])),
    };
    assert_eq!(
        test_data_to_json(&d),
        serde_json::from_str::<serde_json::Value>(r#"{"string_param": ["v1", "v2"], "int_param": [11, 22], "opt_int_param": [33, 44]}"#).unwrap()
    );
}

#[test]
fn anyor_ser_default() {
    let d = TestData { string_param: AnyOr::default(), int_param: AnyOr::default(), opt_int_param: None };
    assert_eq!(
        test_data_to_json(&d),
        serde_json::from_str::<serde_json::Value>(r#"{"string_param": "any", "int_param": "any"}"#).unwrap()
    );
}

#[test]
fn buffer_config() {
    assert!(HandlerBufferConfig::new(0).is_none());
    let b = HandlerBufferConfig::new(16).unwrap();
    assert_eq!(b.queue, 16);
    let _layer: tower::buffer::BufferLayer<()> = b.make_layer();
}

#[test]
fn client_ip_choice() {
    assert_eq!(first_ip(&vec![None, Some(IpKey::V4(7)), Some(IpKey::V4(9))]), Some(IpKey::V4(7)));
    assert_eq!(first_ip(&vec![None, None]), None);
    assert_eq!(first_ip(&vec![]), None);
    let elements = vec![ForwardedFor::Absent, ForwardedFor::Hidden, ForwardedFor::Ip(IpKey::V6(1)), ForwardedFor::Ip(IpKey::V4(2))];
    assert_eq!(forwarded_ip(&elements), Some(IpKey::V6(1)));
    assert_eq!(forwarded_ip(&vec![ForwardedFor::Hidden]), None);
}

#[test]
fn text_order() {
    assert!(str_lt("/a", "/b"));
    assert!(str_lt("/a", "/ab"));
    assert!(!str_lt("/ab", "/a"));
    assert!(!str_lt("/x", "/x"));
    assert!(str_lt("", "a"));
    assert_eq!(str_lt("Z", "a"), "Z" < "a");
    assert_eq!(str_lt("é", "z"), "é" < "z");
}
