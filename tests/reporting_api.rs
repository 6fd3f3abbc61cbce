use network_journal::coep::{self, CrossOriginEmbedderPolicyViolation};
use network_journal::coop::{self, CrossOriginOpenerPolicy, CrossOriginOpenerPolicyType, CrossOriginOpenerPolicyViolation};
use network_journal::crash::{Crash, CrashReason};
use network_journal::csp::{CSPHash, CSPReport, CSPReportDisposition, CSPViolation};
use network_journal::deprecation::Deprecation;
use network_journal::intervention::Intervention;
use network_journal::json::JsonValue;
use network_journal::nel::{NetworkError, Phase};
use network_journal::reporting_api::{Report, ReportType, ReportingApiReport};

fn tree(v: serde_json::Value) -> JsonValue {
    match v {
        serde_json::Value::Null => JsonValue::Null,
        serde_json::Value::Bool(b) => JsonValue::Bool(b),
        serde_json::Value::Number(n) => JsonValue::Number(n.to_string()),
        serde_json::Value::String(s) => JsonValue::Str(s),
        serde_json::Value::Array(a) => JsonValue::Array(a.into_iter().map(tree).collect()),
        serde_json::Value::Object(m) => JsonValue::Object(m.into_iter().map(|(k, v)| (k, tree(v))).collect()),
    }
}

fn decode_batch(json: &str) -> Option<ReportingApiReport> {
    let v: serde_json::Value = serde_json::from_str(json).ok()?;
    ReportingApiReport::decode(&tree(v))
}

fn decode_csp(json: &str) -> Option<CSPReport> {
    match tree(serde_json::from_str(json).ok()?) {
        JsonValue::Object(m) => CSPReport::decode(&m),
        _ => None,
    }
}

fn value(v: JsonValue) -> serde_json::Value {
    match v {
        JsonValue::Null => serde_json::Value::Null,
        JsonValue::Bool(b) => serde_json::Value::Bool(b),
        JsonValue::Number(n) => serde_json::Value::Number(n.parse().unwrap()),
        JsonValue::Str(s) => serde_json::Value::String(s),
        JsonValue::Array(a) => serde_json::Value::Array(a.into_iter().map(value).collect()),
        JsonValue::Object(m) => serde_json::Value::Object(m.into_iter().map(|(k, v)| (k, value(v))).collect()),
    }
}

fn encode_text(b: &ReportingApiReport) -> Result<String, serde_json::Error> {
    let v = match b {
        ReportingApiReport::Single(r) => JsonValue::Object(r.encode()),
        ReportingApiReport::Multi(rs) => JsonValue::Array(rs.iter().map(|r| JsonValue::Object(r.encode())).collect()),
    };
    serde_json::to_string_pretty(&value(v))
}

#[test]
fn coep_parse_report() {
        let json = r#"{
            "age": 7,
            "body": {
                "disposition": "reporting",
                "blockedURL": "https://example.com/",
                "type": "access-to-opener"
            },
            "type": "coep",
            "url": "bar.example/foo",
            "user_agent": "Mozilla/5.0 (X11; Linux x86_64) AppleWebKit/537.36 (KHTML, like Gecko) Chrome/87.0.4280.141 Safari/537.36"
        }"#;
        let res = decode_batch(json);
        assert!(res.is_some());
        assert_eq!(res.unwrap(), ReportingApiReport::Single(Report {
            rpt: ReportType::COEP(CrossOriginEmbedderPolicyViolation {
                disposition: coep::Disposition::Reporting,
                blocked_url: "https://example.com/".to_string(),
                kind: "access-to-opener".to_string()
            }),
            age: Some(7),
            url: "bar.example/foo".to_string(),
            user_agent: Some("Mozilla/5.0 (X11; Linux x86_64) AppleWebKit/537.36 (KHTML, like Gecko) Chrome/87.0.4280.141 Safari/537.36".to_string()),
        }));
    }

#[test]
fn coop_parse_report() {
        // source: https://w3c.github.io/webappsec/mitigation-guidance/COOP/rollouts.html as well as https://html.spec.whatwg.org/multipage/browsers.html
        let json = r#"{
            "age": 6,
            "body": {
                "disposition": "reporting",
                "effectivePolicy": "same-origin",
                "property": "postMessage",
                "referrer": "foo.example",
                "type": "access-to-opener"
            },
            "type": "coop",
            "url": "bar.example/foo",
            "user_agent": "Mozilla/5.0 (X11; Linux x86_64) AppleWebKit/537.36 (KHTML, like Gecko) Chrome/87.0.4280.141 Safari/537.36"
        }"#;
        let res = decode_batch(json);
        assert!(res.is_some());
        assert_eq!(res.unwrap(), ReportingApiReport::Single(Report {
            rpt: ReportType::COOP(CrossOriginOpenerPolicyViolation {
                disposition: coop::Disposition::Reporting,
                effective_policy: CrossOriginOpenerPolicy::SameOrigin,
                kind: CrossOriginOpenerPolicyType::AccessToOpener { 
                    property: "postMessage".to_string(),
                    opener_url: None,
                    opened_window_url: None,
                    opened_window_initial_url: None,
                    other_url: None
                },
                referrer: Some("foo.example".to_string()),
                source_file: None,
                line_number: None,
                column_number: None
            }),
            age: Some(6),
            url: "bar.example/foo".to_string(),
            user_agent: Some("Mozilla/5.0 (X11; Linux x86_64) AppleWebKit/537.36 (KHTML, like Gecko) Chrome/87.0.4280.141 Safari/537.36".to_string()),
        }));
    }

#[test]
fn crash_parse_report() {
        // source: https://wicg.github.io/crash-reporting/
        let json = r#"{
            "type": "crash",
            "age": 42,
            "url": "https://example.com/",
            "user_agent": "Mozilla/5.0 (X11; Linux x86_64; rv:60.0) Gecko/20100101 Firefox/60.0",
            "body": {
                "reason": "oom"
            }
        }"#;
        let res = decode_batch(json);
        assert!(res.is_some());
        assert_eq!(res.unwrap(), ReportingApiReport::Single(Report {
            rpt: ReportType::Crash(Crash {
                reason: CrashReason::OutOfMemory,
                stack: None,
                is_top_level: None,
                page_visibility: None
            }),
            age: Some(42),
            url: "https://example.com/".to_string(),
            user_agent: Some("Mozilla/5.0 (X11; Linux x86_64; rv:60.0) Gecko/20100101 Firefox/60.0".to_string()),
        }));
    }

#[test]
fn deprecation_parse_report() {
        // source: https://wicg.github.io/deprecation-reporting/
        let json = r#"{
            "type": "deprecation",
            "age": 32,
            "url": "https://example.com/",
            "user_agent": "Mozilla/5.0 (X11; Linux x86_64; rv:60.0) Gecko/20100101 Firefox/60.0",
            "body": {
                "id": "websql",
                "anticipatedRemoval": "2020-01-01",
                "message": "WebSQL is deprecated and will be removed in Chrome 97 around January 2020",
                "sourceFile": "https://example.com/index.js",
                "lineNumber": 1234,
                "columnNumber": 42
            }
        }"#;
        let res = decode_batch(json);
        assert!(res.is_some());
        assert_eq!(res.unwrap(), ReportingApiReport::Single(Report {
            rpt: ReportType::Deprecation(Deprecation {
                id: "websql".to_string(),
                anticipated_removal: Some("2020-01-01".to_string()),
                message: "WebSQL is deprecated and will be removed in Chrome 97 around January 2020".to_string(),
                source_file: Some("https://example.com/index.js".to_string()),
                line_number: Some(1234),
                column_number: Some(42)
            }),
            age: Some(32),
            url: "https://example.com/".to_string(),
            user_agent: Some("Mozilla/5.0 (X11; Linux x86_64; rv:60.0) Gecko/20100101 Firefox/60.0".to_string()),
        }));
    }

#[test]
fn intervention_parse_report() {
        // source: https://wicg.github.io/intervention-reporting/
        let json = r#"{
            "type": "intervention",
            "age": 27,
            "url": "https://example.com/",
            "user_agent": "Mozilla/5.0 (X11; Linux x86_64; rv:60.0) Gecko/20100101 Firefox/60.0",
            "body": {
                "id": "audio-no-gesture",
                "message": "A request to play audio was blocked because it was not triggered by user activation (such as a click).",
                "sourceFile": "https://example.com/index.js",
                "lineNumber": 1234,
                "columnNumber": 42
            }
        }"#;
        let res = decode_batch(json);
        assert!(res.is_some());
        assert_eq!(res.unwrap(), ReportingApiReport::Single(Report {
            rpt: ReportType::Intervention(Intervention {
                id: "audio-no-gesture".to_string(),
                message: "A request to play audio was blocked because it was not triggered by user activation (such as a click).".to_string(),
                source_file: Some("https://example.com/index.js".to_string()),
                line_number: Some(1234),
                column_number: Some(42)
            }),
            age: Some(27),
            url: "https://example.com/".to_string(),
            user_agent: Some("Mozilla/5.0 (X11; Linux x86_64; rv:60.0) Gecko/20100101 Firefox/60.0".to_string()),
        }));
    }

#[test]
fn nel_parse_report_ex10() {
        // source: https://www.w3.org/TR/network-error-logging/
        let json = r#"{
            "age": 0,
            "type": "network-error",
            "url": "https://example.com/",
            "body": {
                "sampling_fraction": 1.0,
                "server_ip": "192.0.2.1",
                "protocol": "http/1.1",
                "method": "GET",
                "request_headers": {
                    "If-None-Match": ["01234abcd"]
                },
                "response_headers": {
                    "ETag": ["56789ef01"]
                },
                "status_code": 200,
                "elapsed_time": 935,
                "phase": "application",
                "type": "ok"
            }
        }"#;
        let res = decode_batch(json);
        assert!(res.is_some());
        assert_eq!(res.unwrap(), ReportingApiReport::Single(Report {
            rpt: ReportType::NetworkError(NetworkError {
                elapsed_time: 935,
                method: "GET".to_string(),
                phase: Phase::Application,
                protocol: "http/1.1".to_string(),
                referrer: None,
                request_headers: Some(vec![("If-None-Match".to_string(), vec!["01234abcd".to_string()])]),
                response_headers: Some(vec![("ETag".to_string(), vec!["56789ef01".to_string()])]),
                sampling_fraction: "1.0".to_string(),
                server_ip: "192.0.2.1".to_string(),
                status_code: 200,
                kind: "ok".to_string(),
                url: None
            }),
            age: Some(0),
            url: "https://example.com/".to_string(),
            user_agent: None,
        }));
    }

#[test]
fn nel_parse_report_ex12() {
        // source: https://www.w3.org/TR/network-error-logging/
        let json = r#"{
            "age": 0,
            "type": "network-error",
            "url": "https://example.com/",
            "body": {
                "sampling_fraction": 1.0,
                "server_ip": "192.0.2.1",
                "protocol": "http/1.1",
                "method": "GET",
                "request_headers": {},
                "response_headers": {},
                "status_code": 200,
                "elapsed_time": 57,
                "phase": "application",
                "type": "ok"
            }
        }"#;
        let res = decode_batch(json);
        assert!(res.is_some());
        assert_eq!(res.unwrap(), ReportingApiReport::Single(Report {
            rpt: ReportType::NetworkError(NetworkError {
                elapsed_time: 57,
                method: "GET".to_string(),
                phase: Phase::Application,
                protocol: "http/1.1".to_string(),
                referrer: None,
                request_headers: Some(vec![]),
                response_headers: Some(vec![]),
                sampling_fraction: "1.0".to_string(),
                server_ip: "192.0.2.1".to_string(),
                status_code: 200,
                kind: "ok".to_string(),
                url: None
            }),
            age: Some(0),
            url: "https://example.com/".to_string(),
            user_agent: None,
        }));
    }

#[test]
fn nel_parse_report_ex13() {
        // source: https://www.w3.org/TR/network-error-logging/
        let json = r#"{
            "age": 0,
            "type": "network-error",
            "url": "https://example.com/",
            "body": {
                "sampling_fraction": 1.0,
                "server_ip": "192.0.2.2",
                "protocol": "http/1.1",
                "method": "GET",
                "request_headers": {},
                "response_headers": {},
                "status_code": 200,
                "elapsed_time": 34,
                "phase": "application",
                "type": "ok"
            }
        }"#;
        let res = decode_batch(json);
        assert!(res.is_some());
        assert_eq!(res.unwrap(), ReportingApiReport::Single(Report {
            rpt: ReportType::NetworkError(NetworkError {
                elapsed_time: 34,
                method: "GET".to_string(),
                phase: Phase::Application,
                protocol: "http/1.1".to_string(),
                referrer: None,
                request_headers: Some(vec![]),
                response_headers: Some(vec![]),
                sampling_fraction: "1.0".to_string(),
                server_ip: "192.0.2.2".to_string(),
                status_code: 200,
                kind: "ok".to_string(),
                url: None
            }),
            age: Some(0),
            url: "https://example.com/".to_string(),
            user_agent: None,
        }));
    }

#[test]
fn nel_parse_report_ex14() {
        // source: https://www.w3.org/TR/network-error-logging/
        let json = r#"{
            "age": 0,
            "type": "network-error",
            "url": "https://example.com/",
            "body": {
                "sampling_fraction": 1.0,
                "server_ip": "192.0.2.3",
                "protocol": "http/1.1",
                "method": "GET",
                "request_headers": {},
                "response_headers": {},
                "status_code": 0,
                "elapsed_time": 0,
                "phase": "dns",
                "type": "dns.address_changed"
            }
        }"#;
        let res = decode_batch(json);
        assert!(res.is_some());
        assert_eq!(res.unwrap(), ReportingApiReport::Single(Report {
            rpt: ReportType::NetworkError(NetworkError {
                elapsed_time: 0,
                method: "GET".to_string(),
                phase: Phase::DNS,
                protocol: "http/1.1".to_string(),
                referrer: None,
                request_headers: Some(vec![]),
                response_headers: Some(vec![]),
                sampling_fraction: "1.0".to_string(),
                server_ip: "192.0.2.3".to_string(),
                status_code: 0,
                kind: "dns.address_changed".to_string(),
                url: None
            }),
            age: Some(0),
            url: "https://example.com/".to_string(),
            user_agent: None,
        }));
    }

#[test]
fn nel_parse_report_ex15() {
        // source: https://www.w3.org/TR/network-error-logging/
        let json = r#"{
            "age": 0,
            "type": "network-error",
            "url": "https://example.com/",
            "body": {
                "sampling_fraction": 1.0,
                "server_ip": "192.0.2.1",
                "protocol": "http/1.1",
                "method": "GET",
                "request_headers": {},
                "response_headers": {},
                "status_code": 0,
                "elapsed_time": 0,
                "phase": "dns",
                "type": "dns.address_changed"
            }
        }"#;
        let res = decode_batch(json);
        assert!(res.is_some());
        assert_eq!(res.unwrap(), ReportingApiReport::Single(Report {
            rpt: ReportType::NetworkError(NetworkError {
                elapsed_time: 0,
                method: "GET".to_string(),
                phase: Phase::DNS,
                protocol: "http/1.1".to_string(),
                referrer: None,
                request_headers: Some(vec![]),
                response_headers: Some(vec![]),
                sampling_fraction: "1.0".to_string(),
                server_ip: "192.0.2.1".to_string(),
                status_code: 0,
                kind: "dns.address_changed".to_string(),
                url: None
            }),
            age: Some(0),
            url: "https://example.com/".to_string(),
            user_agent: None,
        }));
    }

#[test]
fn nel_parse_report_ex3() {
        // source: https://www.w3.org/TR/network-error-logging/
        let json = r#"{
            "age": 0,
            "type": "network-error",
            "url": "https://www.example.com/",
            "body": {
                "sampling_fraction": 0.5,
                "referrer": "http://example.com/",
                "server_ip": "2001:DB8:0:0:0:0:0:42",
                "protocol": "h2",
                "method": "GET",
                "request_headers": {},
                "response_headers": {},
                "status_code": 200,
                "elapsed_time": 823,
                "phase": "application",
                "type": "http.protocol.error"
            }
        }"#;
        let res = decode_batch(json);
        assert!(res.is_some());
        assert_eq!(res.unwrap(), ReportingApiReport::Single(Report {
            rpt: ReportType::NetworkError(NetworkError {
                elapsed_time: 823,
                method: "GET".to_string(),
                phase: Phase::Application,
                protocol: "h2".to_string(),
                referrer: Some("http://example.com/".to_string()),
                request_headers: Some(vec![]),
                response_headers: Some(vec![]),
                sampling_fraction: "0.5".to_string(),
                server_ip: "2001:DB8:0:0:0:0:0:42".to_string(),
                status_code: 200,
                kind: "http.protocol.error".to_string(),
                url: None
            }),
            age: Some(0),
            url: "https://www.example.com/".to_string(),
            user_agent: None,
        }));
    }

#[test]
fn nel_parse_report_ex4() {
        // source: https://www.w3.org/TR/network-error-logging/
        let json = r#"{
            "age": 0,
            "type": "network-error",
            "url": "https://widget.com/thing.js",
            "body": {
                "sampling_fraction": 1.0,
                "referrer": "https://www.example.com/",
                "server_ip": "",
                "protocol": "",
                "method": "GET",
                "request_headers": {},
                "response_headers": {},
                "status_code": 0,
                "elapsed_time": 143,
                "phase": "dns",
                "type": "dns.name_not_resolved"
            }
        }"#;
        let res = decode_batch(json);
        assert!(res.is_some());
        assert_eq!(res.unwrap(), ReportingApiReport::Single(Report {
            rpt: ReportType::NetworkError(NetworkError {
                elapsed_time: 143,
                method: "GET".to_string(),
                phase: Phase::DNS,
                protocol: "".to_string(),
                referrer: Some("https://www.example.com/".to_string()),
                request_headers: Some(vec![]),
                response_headers: Some(vec![]),
                sampling_fraction: "1.0".to_string(),
                server_ip: "".to_string(),
                status_code: 0,
                kind: "dns.name_not_resolved".to_string(),
                url: None
            }),
            age: Some(0),
            url: "https://widget.com/thing.js".to_string(),
            user_agent: None,
        }));
    }

#[test]
fn nel_parse_report_ex6() {
        // source: https://www.w3.org/TR/network-error-logging/
        let json = r#"{
            "age": 0,
            "type": "network-error",
            "url": "https://new-subdomain.example.com/",
            "body": {
                "sampling_fraction": 1.0,
                "server_ip": "",
                "protocol": "http/1.1",
                "method": "GET",
                "request_headers": {},
                "response_headers": {},
                "status_code": 0,
                "elapsed_time": 48,
                "phase": "dns",
                "type": "dns.name_not_resolved"
            }
        }"#;
        let res = decode_batch(json);
        assert!(res.is_some());
        assert_eq!(res.unwrap(), ReportingApiReport::Single(Report {
            rpt: ReportType::NetworkError(NetworkError {
                elapsed_time: 48,
                method: "GET".to_string(),
                phase: Phase::DNS,
                protocol: "http/1.1".to_string(),
                referrer: None,
                request_headers: Some(vec![]),
                response_headers: Some(vec![]),
                sampling_fraction: "1.0".to_string(),
                server_ip: "".to_string(),
                status_code: 0,
                kind: "dns.name_not_resolved".to_string(),
                url: None
            }),
            age: Some(0),
            url: "https://new-subdomain.example.com/".to_string(),
            user_agent: None,
        }));
    }

#[test]
fn nel_parse_report_ex8() {
        // source: https://www.w3.org/TR/network-error-logging/
        let json = r#"{
            "age": 0,
            "type": "network-error",
            "url": "https://example.com/",
            "body": {
                "sampling_fraction": 1.0,
                "server_ip": "192.0.2.1",
                "protocol": "http/1.1",
                "method": "GET",
                "request_headers": {},
                "response_headers": {
                    "ETag": ["01234abcd"]
                },
                "status_code": 200,
                "elapsed_time": 1392,
                "phase": "application",
                "type": "ok"
            }
        }"#;
        let res = decode_batch(json);
        assert!(res.is_some());
        assert_eq!(res.unwrap(), ReportingApiReport::Single(Report {
            rpt: ReportType::NetworkError(NetworkError {
                elapsed_time: 1392,
                method: "GET".to_string(),
                phase: Phase::Application,
                protocol: "http/1.1".to_string(),
                referrer: None,
                request_headers: Some(vec![]),
                response_headers: Some(vec![("ETag".to_string(), vec!["01234abcd".to_string()])]),
                sampling_fraction: "1.0".to_string(),
                server_ip: "192.0.2.1".to_string(),
                status_code: 200,
                kind: "ok".to_string(),
                url: None
            }),
            age: Some(0),
            url: "https://example.com/".to_string(),
            user_agent: None,
        }));
    }

#[test]
fn nel_parse_report_ex9() {
        // source: https://www.w3.org/TR/network-error-logging/
        let json = r#"{
            "age": 0,
            "type": "network-error",
            "url": "https://example.com/",
            "body": {
                "sampling_fraction": 1.0,
                "server_ip": "192.0.2.1",
                "protocol": "http/1.1",
                "method": "GET",
                "request_headers": {
                    "If-None-Match": ["01234abcd"]
                },
                "response_headers": {
                    "ETag": ["01234abcd"]
                },
                "status_code": 304,
                "elapsed_time": 45,
                "phase": "application",
                "type": "ok"
            }
        }"#;
        let res = decode_batch(json);
        assert!(res.is_some());
        assert_eq!(res.unwrap(), ReportingApiReport::Single(Report {
            rpt: ReportType::NetworkError(NetworkError {
                elapsed_time: 45,
                method: "GET".to_string(),
                phase: Phase::Application,
                protocol: "http/1.1".to_string(),
                referrer: None,
                request_headers: Some(vec![("If-None-Match".to_string(), vec!["01234abcd".to_string()])]),
                response_headers: Some(vec![("ETag".to_string(), vec!["01234abcd".to_string()])]),
                sampling_fraction: "1.0".to_string(),
                server_ip: "192.0.2.1".to_string(),
                status_code: 304,
                kind: "ok".to_string(),
                url: None
            }),
            age: Some(0),
            url: "https://example.com/".to_string(),
            user_agent: None,
        }));
    }

#[test]
fn parse_multi() {
        // source: https://wicg.github.io/crash-reporting/
        let json = r#"[
  {
    "type": "crash",
    "body": {
      "reason": "oom"
    },
    "age": 42,
    "url": "https://example.com/",
    "user_agent": "Mozilla/5.0 (X11; Linux x86_64; rv:60.0) Gecko/20100101 Firefox/60.0"
  }
]"#;
        let deser_res = decode_batch(json);
        assert!(deser_res.is_some());
        if let Some(report) = deser_res {
            assert_eq!(report, ReportingApiReport::Multi(vec![Report {
                rpt: ReportType::Crash(Crash {
                    reason: CrashReason::OutOfMemory,
                    stack: None,
                    is_top_level: None,
                    page_visibility: None
                }),
                age: Some(42),
                url: "https://example.com/".to_string(),
                user_agent: Some("Mozilla/5.0 (X11; Linux x86_64; rv:60.0) Gecko/20100101 Firefox/60.0".to_string())
            }]));
            let ser_res = encode_text(&report);
            assert!(ser_res.is_ok());
            assert_eq!(json, ser_res.unwrap());
        }
    }

#[test]
fn parse_report_lvl2() {
        // source: https://www.w3.org/TR/CSP2/
        let json = r#"{
            "csp-report": {
                "document-uri": "http://example.org/page.html",
                "referrer": "http://evil.example.com/haxor.html",
                "blocked-uri": "http://evil.example.com/image.png",
                "violated-directive": "default-src 'self'",
                "effective-directive": "img-src",
                "original-policy": "default-src 'self'; report-uri http://example.org/csp-report.cgi"
            }
        }"#;
        let res = decode_csp(json);
        assert!(res.is_some());
        assert_eq!(res.unwrap(), CSPReport {
            csp_report: CSPViolation { 
                document_url: "http://example.org/page.html".to_string(),
                referrer: Some("http://evil.example.com/haxor.html".to_string()),
                blocked_url: Some("http://evil.example.com/image.png".to_string()),
                effective_directive: "img-src".to_string(),
                violated_directive: Some("default-src 'self'".to_string()),
                original_policy: "default-src 'self'; report-uri http://example.org/csp-report.cgi".to_string(),
                sample: None,
                disposition: None,
                status_code: None,
                source_file: None,
                line_number: None,
                column_number: None
            }
        });
    }

#[test]
fn parse_report_lvl3_hash() {
        // source: https://www.w3.org/TR/CSP3/
        let json = r#"{
            "type": "csp-hash",
            "age": 12,
            "url": "https://example.com/",
            "user_agent": "Mozilla/5.0 (X11; Linux i686; rv:132.0) Gecko/20100101 Firefox/132.0",
            "body": {
                "document_url": "https://example.com/",
                "subresource_url": "https://example.com/main.js",
                "hash": "sha256-85738f8f9a7f1b04b5329c590ebcb9e425925c6d0984089c43a022de4f19c281",
                "type": "subresource",
                "destination": "script"
            }
        }"#;
        let res = decode_batch(json);
        assert!(res.is_some());
        assert_eq!(res.unwrap(), ReportingApiReport::Single(Report {
            rpt: ReportType::CSPHash(CSPHash {
                document_url: "https://example.com/".to_string(),
                subresource_url: "https://example.com/main.js".to_string(),
                hash: "sha256-85738f8f9a7f1b04b5329c590ebcb9e425925c6d0984089c43a022de4f19c281".to_string(),
                kind: "subresource".to_string(),
                destination: "script".to_string()
            }),
            age: Some(12),
            url: "https://example.com/".to_string(),
            user_agent: Some("Mozilla/5.0 (X11; Linux i686; rv:132.0) Gecko/20100101 Firefox/132.0".to_string())
        }));
    }

#[test]
fn parse_report_lvl3_violation() {
        // source: https://developer.mozilla.org/en-US/docs/Web/HTTP/Guides/CSP
        let json = r#"{
            "age": 53531,
            "body": {
                "blockedURL": "inline",
                "columnNumber": 39,
                "disposition": "enforce",
                "documentURL": "https://example.com/csp-report",
                "effectiveDirective": "script-src-elem",
                "lineNumber": 121,
                "originalPolicy": "default-src 'self'; report-to csp-endpoint-name",
                "referrer": "https://www.google.com/",
                "sample": "console.log(\"lo\")",
                "sourceFile": "https://example.com/csp-report",
                "statusCode": 200
            },
            "type": "csp-violation",
            "url": "https://example.com/csp-report",
            "user_agent": "Mozilla/5.0 (Windows NT 10.0; Win64; x64) AppleWebKit/537.36 (KHTML, like Gecko) Chrome/127.0.0.0 Safari/537.36"
        }"#;
        let res = decode_batch(json);
        assert!(res.is_some());
        assert_eq!(res.unwrap(), ReportingApiReport::Single(Report {
            rpt: ReportType::CSPViolation(CSPViolation {
                document_url: "https://example.com/csp-report".to_string(),
                referrer: Some("https://www.google.com/".to_string()),
                blocked_url: Some("inline".to_string()),
                effective_directive: "script-src-elem".to_string(),
                violated_directive: None,
                original_policy: "default-src 'self'; report-to csp-endpoint-name".to_string(),
                sample: Some("console.log(\"lo\")".to_string()),
                disposition: Some(CSPReportDisposition::Enforce),
                status_code: Some(200),
                source_file: Some("https://example.com/csp-report".to_string()),
                line_number: Some(121),
                column_number: Some(39)
            }),
            age: Some(53531),
            url: "https://example.com/csp-report".to_string(),
            user_agent: Some("Mozilla/5.0 (Windows NT 10.0; Win64; x64) AppleWebKit/537.36 (KHTML, like Gecko) Chrome/127.0.0.0 Safari/537.36".to_string())
        }));
    }

#[test]
fn parse_single() {
        // source: https://wicg.github.io/crash-reporting/
        let json = r#"{
  "type": "crash",
  "body": {
    "reason": "oom"
  },
  "age": 42,
  "url": "https://example.com/",
  "user_agent": "Mozilla/5.0 (X11; Linux x86_64; rv:60.0) Gecko/20100101 Firefox/60.0"
}"#;
        let deser_res = decode_batch(json);
        assert!(deser_res.is_some());
        if let Some(report) = deser_res {
            assert_eq!(report, ReportingApiReport::Single(Report {
                rpt: ReportType::Crash(Crash {
                    reason: CrashReason::OutOfMemory,
                    stack: None,
                    is_top_level: None,
                    page_visibility: None
                }),
                age: Some(42),
                url: "https://example.com/".to_string(),
                user_agent: Some("Mozilla/5.0 (X11; Linux x86_64; rv:60.0) Gecko/20100101 Firefox/60.0".to_string())
            }));
            let ser_res = encode_text(&report);
            assert!(ser_res.is_ok());
            assert_eq!(json, ser_res.unwrap());
        }
    }
