use std::io::Write;

use network_journal::config::FilterConfig;
use network_journal::crash::{Crash, CrashReason};
use network_journal::csp::{CSPViolation, CSPReport};
use network_journal::derivation::{analyze_url, analyze_user_agent, Client, Device};
use network_journal::dmarc::{uid_set, AttachmentKind, DMARCReader, DmarcError, classify};
use network_journal::filter::Filter;
use network_journal::json::{JsonValue, find};
use network_journal::reporting_api::{Report, ReportType, ReportingApiReport};
use network_journal::reports::{
    accepts, decode_payload, effective_user_agent, enrich_and_handle, handle_report, handle_reporting_api_report, Endpoint,
    Payload, PayloadError, ReportType as Source,
};
use network_journal::smtp_tls::SMTPTLSReport;

fn tree(v: serde_json::Value) -> JsonValue {
    match v {
        serde_json::Value::Null => JsonValue::Null,
        serde_json::Value::Bool(b) => JsonValue::Bool(b),
        serde_json::Value::Number(n) => JsonValue::Number(n.to_string()),
        serde_json::Value::String(s) => JsonValue::Str(s),
        serde_json::Value::Array(a) => JsonValue::Array(a.into_iter().map(tree).collect()),
        serde_json::Value::Object(m) => JsonValue::Object(m.into_iter().map(|(k, v)| (k, tree(v))).collect()),
    }
}

fn filter(domains: &[&str]) -> Filter {
    Filter::new(FilterConfig { domain_whitelist: domains.iter().map(|d| d.to_string()).collect() })
}

const CRASH: &str = r#"{"type":"crash","age":42,"url":"https://example.com/","user_agent":"UA-X","body":{"reason":"oom"}}"#;

fn crash_batch() -> ReportingApiReport {
    let body = tree(serde_json::from_str(CRASH).unwrap());
    match decode_payload(Endpoint::ReportingApi, "application/reports+json", &body) {
        Ok(Payload::ReportingApi(b)) => b,
        other => panic!("unexpected {:?}", other),
    }
}

#[test]
fn whitelist_empty_admits_every_host() {
    let f = filter(&[]);
    assert!(f.is_domain_allowed("example.com"));
    assert!(f.is_domain_allowed(""));
    assert!(f.is_domain_allowed("anything.invalid"));
}

#[test]
fn whitelist_admits_exact_members_only() {
    let f = filter(&["example.com", "other.org"]);
    assert!(f.is_domain_allowed("example.com"));
    assert!(f.is_domain_allowed("other.org"));
    assert!(!f.is_domain_allowed("sub.example.com"));
    assert!(!f.is_domain_allowed("example.co"));
    assert!(!f.is_domain_allowed("Example.com"));
}

#[test]
fn url_filter_fails_closed() {
    let f = filter(&[]);
    assert!(!f.is_domain_of_url_allowed("not a url"));
    assert!(!f.is_domain_of_url_allowed("data:text/plain,hello"));
    assert!(f.is_domain_of_url_allowed("https://example.com/x"));
    let g = filter(&["example.com"]);
    assert!(g.is_domain_of_url_allowed("https://example.com/a?b=c"));
    assert!(!g.is_domain_of_url_allowed("https://other.com/"));
}

#[test]
fn url_parts() {
    let u = analyze_url("https://example.com/path/x?q=1").unwrap();
    assert_eq!(u.host, Some("example.com".to_string()));
    assert_eq!(u.path, "/path/x");
    assert_eq!(u.query, Some("q=1".to_string()));
    assert!(analyze_url("not a url").is_err());
}

#[test]
fn user_agent_without_rules_is_empty() {
    let (c, o, d) = analyze_user_agent(None, "Mozilla/5.0");
    assert_eq!(c.family, "");
    assert_eq!(o.family, "");
    assert_eq!(d.family, "");
    assert_eq!(c.major, None);
}

#[test]
fn crash_admitted_and_labelled() {
    let batch = crash_batch();
    let out = handle_reporting_api_report(&batch, None, &filter(&[]), None);
    assert_eq!(out.len(), 1);
    let d = out.into_iter().next().unwrap().unwrap();
    assert_eq!(d.label, "Crash");
    assert_eq!(d.derived.url.host, Some("example.com".to_string()));
    assert_eq!(d.derived.url.path, "/");
    let record = match d.to_json() {
        JsonValue::Object(m) => m,
        _ => panic!("record is not an object"),
    };
    let report = match find(&record, "report") {
        Some(JsonValue::Object(m)) => m,
        _ => panic!("no report"),
    };
    let body = match find(report, "body") {
        Some(JsonValue::Object(m)) => m,
        _ => panic!("no body"),
    };
    assert_eq!(find(body, "reason"), Some(&JsonValue::Str("oom".to_string())));
    assert_eq!(find(body, "stack"), None);
}

#[test]
fn crash_filtered_by_whitelist() {
    let batch = crash_batch();
    let out = handle_reporting_api_report(&batch, None, &filter(&["other.com"]), None);
    assert_eq!(out.len(), 1);
    assert!(out[0].is_none());
}

#[test]
fn smtp_tls_admitted_by_first_policy_domain() {
    let json = r#"{"organization-name":"Company-X","date-range":{"start-datetime":"2016-04-01T00:00:00Z","end-datetime":"2016-04-01T23:59:59Z"},
        "contact-info":"sts-reporting@company-x.example","report-id":"r1","policies":[{"policy":{"policy-type":"sts","policy-string":["version: STSv1"],
        "policy-domain":"company-y.example","mx-host":["*.mail.company-y.example"]},"summary":{"total-successful-session-count":5,
        "total-failure-session-count":0},"failure-details":[]}]}"#;
    let body = tree(serde_json::from_str(json).unwrap());
    let report = match decode_payload(Endpoint::TlsRpt, "application/tlsrpt+json", &body) {
        Ok(Payload::SmtpTls(r)) => r,
        other => panic!("unexpected {:?}", other),
    };
    assert_eq!(report.get_policy_domains(), vec!["company-y.example"]);
    let f = filter(&["company-y.example"]);
    let d = enrich_and_handle(&Source::SMTPTLSRPT(&report), Some("agent"), &f, None).unwrap();
    assert_eq!(d.label, "SMTP-TLS-RPT");
    assert_eq!(d.derived.url.host, Some("company-y.example".to_string()));
    assert!(enrich_and_handle(&Source::SMTPTLSRPT(&report), None, &filter(&["x.example"]), None).is_none());
}

#[test]
fn malformed_json_is_rejected() {
    let text = r#"{"type":"crash","age":42,"#;
    assert!(serde_json::from_str::<serde_json::Value>(text).is_err());
    let wrong_shape = tree(serde_json::from_str(r#"{"type":"crash","url":"https://example.com/","body":{"reason":7}}"#).unwrap());
    assert_eq!(decode_payload(Endpoint::ReportingApi, "application/reports+json", &wrong_shape), Err(PayloadError::Malformed));
    let unknown_kind = tree(serde_json::from_str(r#"{"type":"nope","url":"https://example.com/","body":{}}"#).unwrap());
    assert_eq!(decode_payload(Endpoint::ReportingApi, "application/reports+json", &unknown_kind), Err(PayloadError::Malformed));
}

#[test]
fn unsupported_content_type_is_rejected() {
    let body = tree(serde_json::from_str(CRASH).unwrap());
    assert_eq!(decode_payload(Endpoint::ReportingApi, "text/plain", &body), Err(PayloadError::UnsupportedContentType));
    assert_eq!(decode_payload(Endpoint::ReportingApi, "", &body), Err(PayloadError::UnsupportedContentType));
}

#[test]
fn csp_legacy_dispatch() {
    let json = r#"{"csp-report":{"document-uri":"http://example.org/page.html","effective-directive":"img-src","original-policy":"default-src 'self'"}}"#;
    let body = tree(serde_json::from_str(json).unwrap());
    let report: CSPReport = match decode_payload(Endpoint::Csp, "application/csp-report", &body) {
        Ok(Payload::CspLegacy(r)) => r,
        other => panic!("unexpected {:?}", other),
    };
    let d = enrich_and_handle(&Source::CSPLvl2(&report), None, &filter(&["example.org"]), None).unwrap();
    assert_eq!(d.label, "CSP");
    assert_eq!(d.derived.url.path, "/page.html");
}

#[test]
fn csp_aliases_read_alike() {
    let old = r#"{"document-uri":"https://a.example/","effective-directive":"img-src","original-policy":"p","status-code":200,"line-number":3}"#;
    let new = r#"{"documentURL":"https://a.example/","effectiveDirective":"img-src","originalPolicy":"p","statusCode":200,"lineNumber":3}"#;
    let plain = r#"{"document_url":"https://a.example/","effective_directive":"img-src","original_policy":"p","status_code":200,"line_number":3}"#;
    let read = |s: &str| match tree(serde_json::from_str(s).unwrap()) {
        JsonValue::Object(m) => CSPViolation::decode(&m),
        _ => None,
    };
    let a = read(old).unwrap();
    assert_eq!(Some(&a), read(new).as_ref());
    assert_eq!(Some(&a), read(plain).as_ref());
    assert_eq!(a.status_code, Some(200));
    assert_eq!(a.line_number, Some(3));
}

#[test]
fn crash_visibility_alias() {
    let a = tree(serde_json::from_str(r#"{"reason":"unresponsive","visibility_state":"hidden"}"#).unwrap());
    let b = tree(serde_json::from_str(r#"{"reason":"unresponsive","page_visibility":"hidden"}"#).unwrap());
    let (a, b) = match (a, b) {
        (JsonValue::Object(a), JsonValue::Object(b)) => (Crash::decode(&a), Crash::decode(&b)),
        _ => panic!(),
    };
    assert_eq!(a, b);
    assert_eq!(a.unwrap().reason, CrashReason::Unresponsive);
}

#[test]
fn report_round_trip() {
    let r = Report {
        rpt: ReportType::Crash(Crash {
            reason: CrashReason::OutOfMemory,
            stack: Some("frame".to_string()),
            is_top_level: Some(true),
            page_visibility: None,
        }),
        age: Some(4_000_000_000),
        url: "https://example.com/".to_string(),
        user_agent: None,
    };
    let e = r.encode();
    assert_eq!(Report::decode(&e), Some(r));
}

#[test]
fn age_out_of_range_is_rejected() {
    let v = tree(serde_json::from_str(r#"{"type":"crash","age":4294967296,"url":"u","body":{"reason":"oom"}}"#).unwrap());
    assert_eq!(ReportingApiReport::decode(&v), None);
    let w = tree(serde_json::from_str(r#"[{"type":"crash","age":4294967295,"url":"u","body":{"reason":"oom"}}]"#).unwrap());
    assert!(matches!(ReportingApiReport::decode(&w), Some(ReportingApiReport::Multi(v)) if v.len() == 1));
}

#[test]
fn batch_fails_on_one_bad_item() {
    let v = tree(serde_json::from_str(r#"[{"type":"crash","url":"u","body":{"reason":"oom"}},{"type":"crash","url":"u","body":{}}]"#).unwrap());
    assert_eq!(ReportingApiReport::decode(&v), None);
}

#[test]
fn message_set_text() {
    assert_eq!(uid_set(&vec![]), "");
    assert_eq!(uid_set(&vec![7]), "7");
    assert_eq!(uid_set(&vec![1, 20, 300]), "1,20,300");
    assert_eq!(uid_set(&vec![0, 4294967295]), "0,4294967295");
}

#[test]
fn attachment_kinds() {
    assert_eq!(classify(&Some(("TEXT".to_string(), Some("Xml".to_string())))), AttachmentKind::Xml);
    assert_eq!(classify(&Some(("application".to_string(), Some("gzip".to_string())))), AttachmentKind::Gzip);
    assert_eq!(classify(&Some(("application".to_string(), Some("zip".to_string())))), AttachmentKind::Zip);
    assert_eq!(classify(&Some(("application".to_string(), None))), AttachmentKind::Other);
    assert_eq!(classify(&None), AttachmentKind::Other);
}

#[test]
fn dmarc_policy_and_domain() {
    let xml = "<feedback><report_metadata><org_name>Org &amp; Co</org_name><email>a@b.c</email><report_id>1</report_id>\
        <date_range><begin>1</begin><end>2</end></date_range></report_metadata><policy_published><domain>example.net</domain>\
        <adkim>r</adkim><p>reject</p></policy_published></feedback>";
    let r = DMARCReader::new().parse_report(xml).unwrap();
    assert_eq!(r.get_published_policys_domain(), "example.net");
    assert_eq!(r.get_sender_organisation(), "Org & Co");
    assert_eq!(r.policy_published.p, network_journal::dmarc::Disposition::Reject);
    assert_eq!(r.policy_published.adkim, Some(network_journal::dmarc::Alignment::Relaxed));
    assert_eq!(r.record.len(), 0);
    let f = filter(&["example.net"]);
    let d = enrich_and_handle(&Source::DMARC(&r), None, &f, None).unwrap();
    assert_eq!(d.label, "DMARC");
    assert_eq!(d.derived.client.family, "Org & Co");
    assert_eq!(d.derived.url.host, Some("example.net".to_string()));
    assert!(enrich_and_handle(&Source::DMARC(&r), None, &filter(&["example.com"]), None).is_none());
}

#[test]
fn dmarc_parse_errors() {
    let reader = DMARCReader::new();
    assert_eq!(reader.parse_report("<feedback><report_metadata>"), Err(DmarcError::Parsing));
    assert_eq!(reader.parse_report("not xml at all"), Err(DmarcError::Parsing));
    let bad_token = "<feedback><report_metadata><org_name>o</org_name><email>e</email><report_id>1</report_id>\
        <date_range><begin>1</begin><end>2</end></date_range></report_metadata><policy_published><domain>d</domain>\
        <p>maybe</p></policy_published></feedback>";
    assert_eq!(reader.parse_report(bad_token), Err(DmarcError::Parsing));
}

fn base64(data: &[u8]) -> String {
    const T: &[u8] = b"ABCDEFGHIJKLMNOPQRSTUVWXYZabcdefghijklmnopqrstuvwxyz0123456789+/";
    let mut out = String::new();
    for chunk in data.chunks(3) {
        let b = [chunk[0], *chunk.get(1).unwrap_or(&0), *chunk.get(2).unwrap_or(&0)];
        let n = ((b[0] as u32) << 16) | ((b[1] as u32) << 8) | b[2] as u32;
        for i in 0..4 {
            if i <= chunk.len() {
                out.push(T[((n >> (18 - 6 * i)) & 63) as usize] as char);
            } else {
                out.push('=');
            }
        }
    }
    out
}

fn message(content_type: &str, data: &[u8]) -> Vec<u8> {
    format!(
        "From: a@example.com\r\nTo: b@example.com\r\nSubject: Report Domain: example.net\r\nMIME-Version: 1.0\r\n\
         Content-Type: multipart/mixed; boundary=\"XX\"\r\n\r\n--XX\r\nContent-Type: text/plain\r\n\r\nreport\r\n--XX\r\n\
         Content-Type: {}\r\nContent-Disposition: attachment; filename=\"r\"\r\nContent-Transfer-Encoding: base64\r\n\r\n{}\r\n--XX--\r\n",
        content_type,
        base64(data)
    )
    .into_bytes()
}

const REPORT: &str = "<feedback><report_metadata><org_name>Org</org_name><email>a@b.c</email><report_id>1</report_id>\
    <date_range><begin>1</begin><end>2</end></date_range></report_metadata><policy_published><domain>example.net</domain>\
    <p>none</p></policy_published></feedback>";

#[test]
fn zip_and_gzip_attachments_agree() {
    let mut gz = flate2::write::GzEncoder::new(Vec::new(), flate2::Compression::default());
    gz.write_all(REPORT.as_bytes()).unwrap();
    let gzipped = gz.finish().unwrap();
    let mut zw = zip::ZipWriter::new(std::io::Cursor::new(Vec::new()));
    zw.start_file("report.xml", zip::write::SimpleFileOptions::default()).unwrap();
    zw.write_all(REPORT.as_bytes()).unwrap();
    let zipped = zw.finish().unwrap().into_inner();
    let reader = DMARCReader::new();
    let a = reader.parse_message(&message("application/zip", &zipped)).unwrap().unwrap();
    let b = reader.parse_message(&message("application/gzip", &gzipped)).unwrap().unwrap();
    let c = reader.parse_message(&message("text/xml", REPORT.as_bytes())).unwrap().unwrap();
    assert_eq!(a, b);
    assert_eq!(a, c);
    assert_eq!(a.get_published_policys_domain(), "example.net");
}

#[test]
fn attachment_errors() {
    let reader = DMARCReader::new();
    let mut zw = zip::ZipWriter::new(std::io::Cursor::new(Vec::new()));
    zw.start_file("report.xml", zip::write::SimpleFileOptions::default()).unwrap();
    zw.write_all(&[0xff, 0xfe, 0x00]).unwrap();
    let not_text = zw.finish().unwrap().into_inner();
    assert_eq!(reader.parse_message(&message("application/zip", &not_text)), Err(DmarcError::Utf8));
    assert_eq!(reader.parse_message(&message("application/gzip", b"not gzip")), Err(DmarcError::Gzip));
    assert_eq!(reader.parse_message(&message("application/zip", b"not zip")), Err(DmarcError::Zip));
    assert_eq!(reader.parse_message(&message("text/xml", b"<feedback>")), Err(DmarcError::Parsing));
    assert_eq!(reader.parse_message(&message("image/png", b"png")), Ok(None));
    assert_eq!(reader.parse_message(b"From: a@example.com\r\nSubject: x\r\n\r\nno attachment\r\n"), Ok(None));
}

#[test]
fn smtp_report_without_policy_is_admitted() {
    let json = r#"{"organization-name":"X","date-range":{"start-datetime":"a","end-datetime":"b"},"contact-info":"c","report-id":"d","policies":[]}"#;
    let report = match tree(serde_json::from_str(json).unwrap()) {
        JsonValue::Object(m) => SMTPTLSReport::decode(&m).unwrap(),
        _ => panic!(),
    };
    let d = enrich_and_handle(&Source::SMTPTLSRPT(&report), None, &filter(&["x.example"]), None).unwrap();
    assert_eq!(d.derived.url.host, None);
}

#[test]
fn endpoints_take_their_own_content_types() {
    let json = r#"{"organization-name":"X","date-range":{"start-datetime":"a","end-datetime":"b"},"contact-info":"c","report-id":"d","policies":[]}"#;
    let body = tree(serde_json::from_str(json).unwrap());
    assert_eq!(decode_payload(Endpoint::Csp, "application/tlsrpt+json", &body), Err(PayloadError::UnsupportedContentType));
    assert_eq!(decode_payload(Endpoint::ReportingApi, "application/tlsrpt+gzip", &body), Err(PayloadError::UnsupportedContentType));
    assert!(matches!(decode_payload(Endpoint::TlsRpt, "application/tlsrpt+gzip", &body), Ok(Payload::SmtpTls(_))));
    assert!(accepts(Endpoint::Csp, "application/csp-report"));
    assert!(accepts(Endpoint::Csp, "application/reports+json"));
    assert!(!accepts(Endpoint::ReportingApi, "application/csp-report"));
    assert!(!accepts(Endpoint::TlsRpt, "application/reports+json"));
    assert!(!accepts(Endpoint::Csp, "application/json"));
}

#[test]
fn report_user_agent_takes_precedence() {
    let batch = crash_batch();
    let report = match &batch {
        ReportingApiReport::Single(r) => r,
        _ => panic!(),
    };
    assert_eq!(effective_user_agent(&Source::ReportingAPI(report), Some("transport")), Some("UA-X"));
    let no_ua = Report {
        rpt: ReportType::Crash(Crash { reason: CrashReason::OutOfMemory, stack: None, is_top_level: None, page_visibility: None }),
        age: None,
        url: "https://example.com/".to_string(),
        user_agent: None,
    };
    assert_eq!(effective_user_agent(&Source::ReportingAPI(&no_ua), Some("transport")), Some("transport"));
}

#[test]
fn analysed_parts_are_kept() {
    let batch = crash_batch();
    let report = match &batch {
        ReportingApiReport::Single(r) => r,
        _ => panic!(),
    };
    let parts = || {
        (
            Client { family: "Firefox".to_string(), major: Some("60".to_string()), minor: None, patch: None, patch_minor: None },
            Client { family: "Linux".to_string(), major: None, minor: None, patch: None, patch_minor: None },
            Device { family: "Other".to_string(), brand: None, model: None },
        )
    };
    let d = handle_report(&Source::ReportingAPI(report), Some(parts()), &filter(&[])).unwrap();
    let (client, os, device) = parts();
    assert_eq!(d.derived.client, client);
    assert_eq!(d.derived.os, os);
    assert_eq!(d.derived.device, device);
}

#[test]
fn dmarc_character_references() {
    let xml = "<feedback><report_metadata><org_name>A&#38;B &lt;x&gt;</org_name><email>a@b.c</email><report_id>1</report_id>\
        <date_range><begin>1</begin><end>2</end></date_range></report_metadata><policy_published><domain>example.net</domain>\
        <adkim>s</adkim><p>quarantine</p></policy_published></feedback>";
    let r = DMARCReader::new().parse_report(xml).unwrap();
    assert_eq!(r.get_sender_organisation(), "A&B <x>");
    assert_eq!(r.policy_published.adkim, Some(network_journal::dmarc::Alignment::Strict));
    assert_eq!(DMARCReader::new().parse_report(xml.replace("&#38;", "&bogus;").as_str()), Err(DmarcError::Parsing));
}
