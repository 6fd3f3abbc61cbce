use network_journal::json::JsonValue;
use network_journal::smtp_tls::{DateRange, FailureDetails, PoliciesItem, Policy, PolicyType, SMTPTLSReport, Summary};

fn tree(v: serde_json::Value) -> JsonValue {
    match v {
        serde_json::Value::Null => JsonValue::Null,
        serde_json::Value::Bool(b) => JsonValue::Bool(b),
        serde_json::Value::Number(n) => JsonValue::Number(n.to_string()),
        serde_json::Value::String(s) => JsonValue::Str(s),
        serde_json::Value::Array(a) => JsonValue::Array(a.into_iter().map(tree).collect()),
        serde_json::Value::Object(m) => JsonValue::Object(m.into_iter().map(|(k, v)| (k, tree(v))).collect()),
    }
}

fn decode_smtp(json: &str) -> Option<SMTPTLSReport> {
    match tree(serde_json::from_str(json).ok()?) {
        JsonValue::Object(m) => SMTPTLSReport::decode(&m),
        _ => None,
    }
}

#[test]
fn smtp_tls_parse_report() {
        // source: https://www.rfc-editor.org/rfc/rfc8460
        let json = r#"{
            "organization-name": "Company-X",
            "date-range": {
                "start-datetime": "2016-04-01T00:00:00Z",
                "end-datetime": "2016-04-01T23:59:59Z"
            },
            "contact-info": "sts-reporting@company-x.example",
            "report-id": "5065427c-23d3-47ca-b6e0-946ea0e8c4be",
            "policies": [
                {
                    "policy": {
                        "policy-type": "sts",
                        "policy-string": [
                            "version: STSv1",
                            "mode: testing",
                            "mx: *.mail.company-y.example",
                            "max_age: 86400"
                        ],
                        "policy-domain": "company-y.example",
                        "mx-host": ["*.mail.company-y.example"]
                    },
                    "summary": {
                        "total-successful-session-count": 5326,
                        "total-failure-session-count": 303
                    },
                    "failure-details": [
                        {
                            "result-type": "certificate-expired",
                            "sending-mta-ip": "2001:db8:abcd:0012::1",
                            "receiving-mx-hostname": "mx1.mail.company-y.example",
                            "failed-session-count": 100
                        }, 
                        {
                            "result-type": "starttls-not-supported",
                            "sending-mta-ip": "2001:db8:abcd:0013::1",
                            "receiving-mx-hostname": "mx2.mail.company-y.example",
                            "receiving-ip": "203.0.113.56",
                            "failed-session-count": 200,
                            "additional-information": "https://reports.company-x.example/report_info ? id = 5065427 c - 23 d3# StarttlsNotSupported"
                        }, 
                        {
                            "result-type": "validation-failure",
                            "sending-mta-ip": "198.51.100.62",
                            "receiving-ip": "203.0.113.58",
                            "receiving-mx-hostname": "mx-backup.mail.company-y.example",
                            "failed-session-count": 3,
                            "failure-reason-code": "X509_V_ERR_PROXY_PATH_LENGTH_EXCEEDED"
                        }
                    ]
                }
            ]
        }"#;
        let res = decode_smtp(json);
        assert!(res.is_some());
        assert_eq!(res.unwrap(), SMTPTLSReport { 
            organization_name: "Company-X".to_string(), 
            date_range: DateRange { 
                start_datetime: "2016-04-01T00:00:00Z".to_string(),
                end_datetime: "2016-04-01T23:59:59Z".to_string()
            }, 
            contact_info: "sts-reporting@company-x.example".to_string(), 
            report_id: "5065427c-23d3-47ca-b6e0-946ea0e8c4be".to_string(), 
            policies: vec![PoliciesItem { 
                policy: Policy { 
                    policy_type: PolicyType::STS, 
                    policy_string: vec![
                        "version: STSv1".to_string(),
                        "mode: testing".to_string(),
                        "mx: *.mail.company-y.example".to_string(),
                        "max_age: 86400".to_string()
                    ], 
                    policy_domain: "company-y.example".to_string(), 
                    mx_host: vec!["*.mail.company-y.example".to_string()]
                }, 
                summary: Summary { 
                    total_successful_session_count: 5326,
                    total_failure_session_count: 303
                }, 
                failure_details: vec![
                    FailureDetails { 
                        result_type: "certificate-expired".to_string(), 
                        sending_mta_ip: "2001:db8:abcd:0012::1".to_string(), 
                        receiving_mx_hostname: "mx1.mail.company-y.example".to_string(), 
                        receiving_mx_helo: None,
                        receiving_ip: None,
                        failed_session_count: 100,
                        additional_information: None,
                        failure_reason_code: None
                    },
                    FailureDetails { 
                        result_type: "starttls-not-supported".to_string(),
                        sending_mta_ip: "2001:db8:abcd:0013::1".to_string(),
                        receiving_mx_hostname: "mx2.mail.company-y.example".to_string(),
                        receiving_mx_helo: None,
                        receiving_ip: Some("203.0.113.56".to_string()),
                        failed_session_count: 200,
                        additional_information: Some("https://reports.company-x.example/report_info ? id = 5065427 c - 23 d3# StarttlsNotSupported".to_string()),
                        failure_reason_code: None
                    },
                    FailureDetails { 
                        result_type: "validation-failure".to_string(), 
                        sending_mta_ip: "198.51.100.62".to_string(), 
                        receiving_mx_hostname: "mx-backup.mail.company-y.example".to_string(), 
                        receiving_mx_helo: None,
                        receiving_ip: Some("203.0.113.58".to_string()),
                        failed_session_count: 3, 
                        additional_information: None,
                        failure_reason_code: Some("X509_V_ERR_PROXY_PATH_LENGTH_EXCEEDED".to_string())
                    }
                ]
            }]
        })
    }
