use network_journal::coop::{self, CrossOriginOpenerPolicy, CrossOriginOpenerPolicyType, CrossOriginOpenerPolicyViolation};
use network_journal::csp::{CSPReportDisposition, CSPViolation};
use network_journal::json::{parse_uint, uint_to_text, JsonValue};
use network_journal::nel::{NetworkError, Phase};
use network_journal::poller::{poll_step, PollAction, PollEvent, PollState, POLL_INTERVAL_SECS};
use network_journal::reporting_api::{Report, ReportType};
use network_journal::tls_cert::{CertificateInfo, CertificateIssuer, CertificateSubject};

fn round_trip(r: Report) {
    let e = r.encode();
    assert_eq!(Report::decode(&e), Some(r));
}

#[test]
fn network_error_round_trip() {
    round_trip(Report {
        rpt: ReportType::NetworkError(NetworkError {
            elapsed_time: 18446744073709551615,
            method: "GET".to_string(),
            phase: Phase::DNS,
            protocol: "h2".to_string(),
            referrer: None,
            request_headers: Some(vec![("If-None-Match".to_string(), vec!["a".to_string(), "b".to_string()])]),
            response_headers: None,
            sampling_fraction: "0.25".to_string(),
            server_ip: "192.0.2.1".to_string(),
            status_code: 65535,
            kind: "dns.name_not_resolved".to_string(),
            url: Some("https://example.com/".to_string()),
        }),
        age: None,
        url: "https://example.com/".to_string(),
        user_agent: Some("ua".to_string()),
    });
}

#[test]
fn coop_and_csp_round_trip() {
    round_trip(Report {
        rpt: ReportType::COOP(CrossOriginOpenerPolicyViolation {
            disposition: coop::Disposition::Enforce,
            effective_policy: CrossOriginOpenerPolicy::SameOriginPlusCOEP,
            referrer: Some("r".to_string()),
            source_file: None,
            line_number: Some(0),
            column_number: None,
            kind: CrossOriginOpenerPolicyType::NavigationFromResponse { next_response_url: Some("n".to_string()) },
        }),
        age: Some(0),
        url: "u".to_string(),
        user_agent: None,
    });
    round_trip(Report {
        rpt: ReportType::CSPViolation(CSPViolation {
            document_url: "d".to_string(),
            referrer: None,
            blocked_url: Some("inline".to_string()),
            effective_directive: "script-src".to_string(),
            violated_directive: Some("v".to_string()),
            original_policy: "p".to_string(),
            sample: None,
            disposition: Some(CSPReportDisposition::Report),
            status_code: Some(404),
            source_file: None,
            line_number: Some(1),
            column_number: Some(2),
        }),
        age: None,
        url: "u".to_string(),
        user_agent: None,
    });
}

#[test]
fn encoding_uses_canonical_names() {
    let v = CSPViolation {
        document_url: "d".to_string(),
        referrer: None,
        blocked_url: None,
        effective_directive: "e".to_string(),
        violated_directive: None,
        original_policy: "p".to_string(),
        sample: None,
        disposition: None,
        status_code: Some(200),
        source_file: None,
        line_number: None,
        column_number: None,
    };
    let names: Vec<String> = v.encode().into_iter().map(|(k, _)| k).collect();
    assert_eq!(names, vec!["documentURL", "effectiveDirective", "originalPolicy", "statusCode"]);
}

#[test]
fn integer_text() {
    assert_eq!(uint_to_text(0), "0");
    assert_eq!(uint_to_text(1392), "1392");
    assert_eq!(uint_to_text(u64::MAX), "18446744073709551615");
    assert_eq!(parse_uint("18446744073709551615"), Some(u64::MAX));
    assert_eq!(parse_uint("18446744073709551616"), None);
    assert_eq!(parse_uint("1.5"), None);
    assert_eq!(parse_uint("-1"), None);
    assert_eq!(parse_uint(""), None);
    assert_eq!(parse_uint("007"), Some(7));
}

#[test]
fn fraction_kept_as_text() {
    let v = JsonValue::Object(vec![("sampling_fraction".to_string(), JsonValue::Number("0.5".to_string()))]);
    if let JsonValue::Object(m) = v {
        assert_eq!(network_journal::fields::number_from(network_journal::json::find(&m, "sampling_fraction")), Some("0.5".to_string()));
    }
}

#[test]
fn poller_cycle() {
    let (s, a) = poll_step(PollState::Idle, &PollEvent::Woke);
    assert_eq!((s, a), (PollState::Connecting, PollAction::Connect));
    let (s, a) = poll_step(PollState::Connecting, &PollEvent::Connected(false));
    assert_eq!((s, a), (PollState::Idle, PollAction::Sleep(POLL_INTERVAL_SECS)));
    let (s, a) = poll_step(PollState::Connecting, &PollEvent::Connected(true));
    assert_eq!(s, PollState::Searching);
    assert_eq!(a, PollAction::Search("UNANSWERED UNSEEN UNDELETED UNDRAFT SUBJECT \"Report Domain:\"".to_string()));
    let (s, a) = poll_step(PollState::Searching, &PollEvent::Searched(Some(vec![3, 17])));
    assert_eq!((s, a), (PollState::Fetching, PollAction::Fetch("3,17".to_string())));
    let (s, a) = poll_step(PollState::Searching, &PollEvent::Searched(Some(vec![])));
    assert_eq!((s, a), (PollState::LoggingOut, PollAction::Logout));
    let (s, a) = poll_step(PollState::Fetching, &PollEvent::Fetched);
    assert_eq!((s, a), (PollState::LoggingOut, PollAction::Logout));
    let (s, a) = poll_step(PollState::LoggingOut, &PollEvent::LoggedOut(false));
    assert_eq!((s, a), (PollState::Idle, PollAction::Sleep(300)));
}

#[test]
fn certificate_validity() {
    let c = CertificateInfo {
        serial_number: "01".to_string(),
        issuer: CertificateIssuer {
            common_name: "CA".to_string(),
            organization_name: "Org".to_string(),
            country_name: "DE".to_string(),
        },
        subject: CertificateSubject { common_name: "example.com".to_string() },
        subject_alt_names: vec!["example.com".to_string()],
        not_before: 1_000_000,
        not_after: 1_000_000 + 10 * 86400 + 5,
    };
    assert!(c.is_valid(1_000_000));
    assert!(!c.is_valid(999_999));
    assert!(!c.is_valid(1_000_000 + 10 * 86400 + 6));
    assert_eq!(c.get_days_until_expiration(1_000_000), 10);
    assert_eq!(c.get_days_until_expiration(1_000_000 + 10 * 86400 + 5 + 86400 + 1), -1);
    assert_eq!(c.get_days_until_expiration(i64::MIN), 106751991167322);
}
