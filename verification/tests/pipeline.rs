use obs_pipeline::install::{InitConfig, InitError, Installer};
use obs_pipeline::panic_bridge::{panic_record, FailureLocation};
use obs_pipeline::proxy::{forward_error_reply, proxy_target, request_path_and_query};
use obs_pipeline::record::{push_decimal, push_rfc3339, FieldValue, LogField, LogRecord, UtcTimestamp};
use obs_pipeline::registry::ReloadRegistry;
use obs_pipeline::reload::{ReloadError, ReloadHandle};
use obs_pipeline::{LevelFilter, Severity};

fn ts(year: u16, month: u8, day: u8, hour: u8, minute: u8, second: u8) -> UtcTimestamp {
    UtcTimestamp::new(year, month, day, hour, minute, second).expect("well-formed timestamp")
}

fn info_config(traces_endpoint: Option<&str>) -> InitConfig {
    InitConfig {
        log_level: "info".to_string(),
        trace_level: "info".to_string(),
        service_name: "svc".to_string(),
        traces_endpoint: traces_endpoint.map(|e| e.to_string()),
    }
}

#[test]
fn malformed_directives_yield_default_filter() {
    for bad in ["", "bogus", "=info", "foo=bar", "infoo", "in fo", "info,debug", "a=b=info"] {
        let f = LevelFilter::new(bad);
        assert_eq!(f.default_level, Severity::Info, "directive {:?}", bad);
        assert!(f.rule.is_none(), "directive {:?}", bad);
        assert!(f.enabled("any", Severity::Info));
        assert!(!f.enabled("any", Severity::Debug));
    }
}

#[test]
fn well_formed_directives_follow_severity_order() {
    let directives = ["trace", "debug", "info", "warn", "error"];
    let severities = [
        Severity::Trace,
        Severity::Debug,
        Severity::Info,
        Severity::Warn,
        Severity::Error,
    ];
    for (di, d) in directives.iter().enumerate() {
        let f = LevelFilter::new(d);
        for (si, s) in severities.iter().enumerate() {
            assert_eq!(f.enabled("any::target", *s), si >= di, "{} vs {:?}", d, s);
        }
    }
}

#[test]
fn directives_are_case_insensitive() {
    for d in ["TRACE", "Trace", "tRaCe"] {
        let f = LevelFilter::new(d);
        assert!(f.enabled("x", Severity::Trace));
    }
    let f = LevelFilter::new("ERROR");
    assert!(!f.enabled("x", Severity::Warn));
    assert!(f.enabled("x", Severity::Error));
}

#[test]
fn target_rules_match_module_paths() {
    let f = LevelFilter::new("app=debug");
    assert!(f.enabled("app", Severity::Debug));
    assert!(f.enabled("app::db", Severity::Debug));
    assert!(!f.enabled("app::db", Severity::Trace));
    assert!(!f.enabled("apple", Severity::Debug));
    assert!(f.enabled("other", Severity::Info));
    assert!(!f.enabled("other", Severity::Debug));
}

#[test]
fn scenario_info_filter_suppresses_debug() {
    let mut installer = Installer::new();
    let plan = installer
        .install(&info_config(None), true)
        .expect("first install succeeds");
    assert!(plan.trace.is_none());
    assert!(!plan.log_filter.enabled("svc", Severity::Debug));
    assert!(plan.log_filter.enabled("svc", Severity::Info));
}

#[test]
fn scenario_modify_debug_enables_debug() {
    let mut installer = Installer::new();
    let plan = installer
        .install(&info_config(None), true)
        .expect("first install succeeds");
    let mut handle = ReloadHandle::new(plan.log_filter);
    assert!(!handle.enabled("svc", Severity::Debug));
    handle.modify("debug").expect("modify succeeds");
    assert!(handle.enabled("svc", Severity::Debug));
}

#[test]
fn scenario_double_init_is_fatal() {
    let mut installer = Installer::new();
    installer
        .install(&info_config(None), true)
        .expect("first install succeeds");
    let second = installer.install(&info_config(Some("http://collector:4317")), true);
    assert_eq!(second.unwrap_err(), InitError::AlreadyInstalled);
    let third = installer.install(&info_config(None), false);
    assert_eq!(third.unwrap_err(), InitError::AlreadyInstalled);
}

#[test]
fn init_outside_runtime_context_is_fatal() {
    let mut installer = Installer::new();
    let r = installer.install(&info_config(None), false);
    assert_eq!(r.unwrap_err(), InitError::RuntimeContextUnavailable);
    // The failed attempt did not consume the one installation.
    assert!(installer.install(&info_config(None), true).is_ok());
}

#[test]
fn trace_stage_built_exactly_when_endpoint_present() {
    let mut installer = Installer::new();
    let cfg = InitConfig {
        log_level: "info".to_string(),
        trace_level: "debug".to_string(),
        service_name: "svc".to_string(),
        traces_endpoint: Some("http://collector:4317".to_string()),
    };
    let plan = installer.install(&cfg, true).expect("install succeeds");
    let stage = plan.trace.expect("trace stage present");
    assert_eq!(stage.service_name, "svc");
    assert_eq!(stage.endpoint, "http://collector:4317");
    assert!(stage.filter.enabled("svc", Severity::Debug));
    assert!(!stage.filter.enabled("svc", Severity::Trace));
}

#[test]
fn registry_reports_not_yet_ready_then_populates_once() {
    let mut reg = ReloadRegistry::new();
    assert!(reg.get_reload_handle().is_none());
    let h1 = ReloadHandle::new(LevelFilter::new("info"));
    reg.populate(h1);
    let got = reg.get_reload_handle().expect("populated");
    assert!(!got.enabled("x", Severity::Debug));
    // A second population is ignored: the first handle wins.
    let h2 = ReloadHandle::new(LevelFilter::new("trace"));
    reg.populate(h2);
    let got = reg.get_reload_handle().expect("still populated");
    assert!(!got.enabled("x", Severity::Debug));
}

#[test]
fn modify_trace_enables_all_without_retroactive_change() {
    let mut handle = ReloadHandle::new(LevelFilter::new("info"));
    let decision_before = handle.enabled("svc", Severity::Trace);
    assert!(!decision_before);
    handle.modify("trace").expect("modify succeeds");
    for s in [
        Severity::Trace,
        Severity::Debug,
        Severity::Info,
        Severity::Warn,
        Severity::Error,
    ] {
        assert!(handle.enabled("svc", s));
    }
    // The decision taken before the swap is unchanged by it.
    assert!(!decision_before);
}

#[test]
fn json_record_renders_exactly() {
    let rec = LogRecord {
        timestamp: ts(2024, 5, 6, 7, 8, 9),
        severity: Severity::Info,
        target: "svc".to_string(),
        message: "hello".to_string(),
        fields: vec![
            LogField { key: "k".to_string(), value: FieldValue::Text("v".to_string()) },
            LogField { key: "n".to_string(), value: FieldValue::Integer(42) },
        ],
    };
    let expected =
        r#"{"timestamp":"2024-05-06T07:08:09Z","level":"INFO","target":"svc","message":"hello","k":"v","n":42}"#;
    assert_eq!(rec.render_json(), expected.as_bytes().to_vec());
}

#[test]
fn json_escaping_of_quotes_backslashes_and_controls() {
    let rec = LogRecord {
        timestamp: ts(2024, 1, 2, 3, 4, 5),
        severity: Severity::Warn,
        target: "t".to_string(),
        message: "a\"b\\c\nd\te\r\u{1}f".to_string(),
        fields: vec![],
    };
    let expected = "{\"timestamp\":\"2024-01-02T03:04:05Z\",\"level\":\"WARN\",\"target\":\"t\",\"message\":\"a\\\"b\\\\c\\nd\\te\\r\\u0001f\"}";
    assert_eq!(rec.render_json(), expected.as_bytes().to_vec());
}

#[test]
fn json_passes_multibyte_text_through() {
    let rec = LogRecord {
        timestamp: ts(2024, 1, 2, 3, 4, 5),
        severity: Severity::Error,
        target: "t".to_string(),
        message: "héllo — ok".to_string(),
        fields: vec![],
    };
    let expected = "{\"timestamp\":\"2024-01-02T03:04:05Z\",\"level\":\"ERROR\",\"target\":\"t\",\"message\":\"héllo — ok\"}";
    assert_eq!(rec.render_json(), expected.as_bytes().to_vec());
}

#[test]
fn timestamp_validation_follows_the_calendar() {
    assert!(UtcTimestamp::new(2024, 2, 29, 0, 0, 0).is_some());
    assert!(UtcTimestamp::new(2023, 2, 29, 0, 0, 0).is_none());
    assert!(UtcTimestamp::new(1900, 2, 29, 0, 0, 0).is_none());
    assert!(UtcTimestamp::new(2000, 2, 29, 0, 0, 0).is_some());
    assert!(UtcTimestamp::new(2024, 4, 31, 0, 0, 0).is_none());
    assert!(UtcTimestamp::new(2024, 13, 1, 0, 0, 0).is_none());
    assert!(UtcTimestamp::new(2024, 0, 1, 0, 0, 0).is_none());
    assert!(UtcTimestamp::new(2024, 1, 0, 0, 0, 0).is_none());
    assert!(UtcTimestamp::new(2024, 1, 1, 24, 0, 0).is_none());
    assert!(UtcTimestamp::new(2024, 1, 1, 0, 60, 0).is_none());
    assert!(UtcTimestamp::new(0, 1, 1, 0, 0, 0).is_none());
}

#[test]
fn rfc3339_renders_exactly() {
    let mut out: Vec<u8> = Vec::new();
    push_rfc3339(&mut out, &ts(2024, 12, 31, 23, 59, 59));
    assert_eq!(out, b"2024-12-31T23:59:59Z".to_vec());
    let mut out2: Vec<u8> = Vec::new();
    push_rfc3339(&mut out2, &ts(987, 1, 2, 3, 4, 5));
    assert_eq!(out2, b"0987-01-02T03:04:05Z".to_vec());
}

#[test]
fn decimal_renders_exactly() {
    for (n, s) in [
        (0u64, "0"),
        (7, "7"),
        (42, "42"),
        (100, "100"),
        (1234567890123, "1234567890123"),
    ] {
        let mut out: Vec<u8> = Vec::new();
        push_decimal(&mut out, n);
        assert_eq!(out, s.as_bytes().to_vec());
    }
}

#[test]
fn severity_labels() {
    assert_eq!(Severity::Trace.label_bytes(), b"TRACE".to_vec());
    assert_eq!(Severity::Debug.label_bytes(), b"DEBUG".to_vec());
    assert_eq!(Severity::Info.label_bytes(), b"INFO".to_vec());
    assert_eq!(Severity::Warn.label_bytes(), b"WARN".to_vec());
    assert_eq!(Severity::Error.label_bytes(), b"ERROR".to_vec());
}

#[test]
fn severity_order_is_total() {
    let severities = [
        Severity::Trace,
        Severity::Debug,
        Severity::Info,
        Severity::Warn,
        Severity::Error,
    ];
    for (i, a) in severities.iter().enumerate() {
        for (j, b) in severities.iter().enumerate() {
            assert_eq!(a.at_least(*b), i >= j);
        }
    }
}

#[test]
fn panic_record_carries_location_fields() {
    let loc = FailureLocation { file: "src/worker.rs".to_string(), line: 17, column: 9 };
    let rec = panic_record(
        ts(2024, 5, 6, 7, 8, 9),
        "panic",
        "index out of bounds",
        Some(&loc),
    );
    assert_eq!(rec.severity, Severity::Error);
    assert_eq!(rec.fields.len(), 3);
    let expected = r#"{"timestamp":"2024-05-06T07:08:09Z","level":"ERROR","target":"panic","message":"index out of bounds","panic.file":"src/worker.rs","panic.line":17,"panic.column":9}"#;
    assert_eq!(rec.render_json(), expected.as_bytes().to_vec());
}

#[test]
fn panic_record_without_location_has_no_fields() {
    let rec = panic_record(ts(2024, 5, 6, 7, 8, 9), "panic", "boom", None);
    assert_eq!(rec.severity, Severity::Error);
    assert!(rec.fields.is_empty());
    let expected = r#"{"timestamp":"2024-05-06T07:08:09Z","level":"ERROR","target":"panic","message":"boom"}"#;
    assert_eq!(rec.render_json(), expected.as_bytes().to_vec());
}

#[test]
fn proxy_rewrites_target_verbatim() {
    let uri = proxy_target("http://127.0.0.1:8000", "/api/v1/items?page=2");
    assert_eq!(uri, "http://127.0.0.1:8000/api/v1/items?page=2");
    assert_eq!(request_path_and_query(Some("/a?q=1"), "/a"), "/a?q=1");
    assert_eq!(request_path_and_query(None, "/a"), "/a");
}

#[test]
fn scenario_refused_connection_yields_500_with_message() {
    let message = "error trying to connect: tcp connect error: connection refused";
    let reply = forward_error_reply(message);
    assert_eq!(reply.status, 500);
    assert!(reply.body.contains("connection refused"));
    assert_eq!(reply.body, message);
}

#[test]
fn registry_modify_before_population_is_distinguishable() {
    let mut reg = ReloadRegistry::new();
    assert_eq!(reg.modify("debug"), Err(ReloadError::TargetUnavailable));
    reg.populate(ReloadHandle::new(LevelFilter::new("info")));
    assert_eq!(reg.modify("debug"), Ok(()));
    let got = reg.get_reload_handle().expect("populated");
    assert!(got.enabled("x", Severity::Debug));
    assert!(!got.enabled("x", Severity::Trace));
}
