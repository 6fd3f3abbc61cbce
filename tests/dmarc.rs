use network_journal::dmarc::{
    Alignment, AuthResult, DKIMAuthResult, DKIMResult, DMARCReader, DMARCReport, DMARCResult, DateRange, Disposition,
    Identifier, PolicyEvaluated, PolicyPublished, Record, ReportMetadata, Row, SPFAuthResult, SPFResult,
};

#[test]
fn dmarc_parse_report() {
        let xml = r#"<?xml version="1.0"?>	
            <feedback>	
                <report_metadata>	
                    <org_name>Yahoo</org_name>	
                    <email>dmarchelp@yahooinc.com</email>	
                    <report_id>1665623424.142074</report_id>	
                    <date_range>	
                        <begin>1665532800</begin>	
                        <end>1665619199</end>	
                    </date_range>	
                </report_metadata>	
                <policy_published>	
                    <domain>nerou.de</domain>	
                    <adkim>r</adkim>	
                    <aspf>r</aspf>	
                    <p>reject</p>	
                    <pct>100</pct>
                </policy_published>	
                <record>	
                    <row>	
                        <source_ip>23.88.125.229</source_ip>	
                        <count>1</count>	
                        <policy_evaluated>	
                            <disposition>none</disposition>	
                            <dkim>pass</dkim>	
                            <spf>pass</spf>	
                        </policy_evaluated>	
                    </row>	
                    <identifiers>	
                        <header_from>nerou.de</header_from>	
                    </identifiers>	
                    <auth_results>	
                        <dkim>	
                            <domain>nerou.de</domain>	
                            <selector>default</selector>	
                            <result>pass</result>	
                        </dkim>	
                        <spf>	
                            <domain>nerou.de</domain>
                            <result>pass</result>	
                        </spf>	
                    </auth_results>	
                </record>	
            </feedback>	
            "#;
        let reader = DMARCReader::new();
        let res = reader.parse_report(xml);
        assert!(res.is_ok());
        assert_eq!(res.unwrap(), DMARCReport {
            version: None,
            report_metadata: ReportMetadata { 
                org_name: "Yahoo".to_string(), 
                email: "dmarchelp@yahooinc.com".to_string(), 
                extra_contact_info: None, 
                report_id: "1665623424.142074".to_string(), 
                date_range: DateRange { begin: 1665532800, end: 1665619199 }, 
                error: vec![] 
            },
            policy_published: PolicyPublished { 
                domain: "nerou.de".to_string(), 
                adkim: Some(Alignment::Relaxed), 
                aspf: Some(Alignment::Relaxed), 
                p: Disposition::Reject, 
                sp: None, 
                pct: Some(100), 
                fo: None
            },
            record: vec![Record {
                row: Row { 
                    source_ip: "23.88.125.229".to_string(), 
                    count: 1, 
                    policy_evaluated: vec![PolicyEvaluated {
                        disposition: Disposition::NoAction,
                        dkim: DMARCResult::Pass,
                        spf: DMARCResult::Pass,
                        reason: vec![]
                    }]
                },
                identifiers: Identifier {
                    envelope_to: None,
                    envelope_from: None,
                    header_from: "nerou.de".to_string()
                },
                auth_results: AuthResult { 
                    dkim: vec![DKIMAuthResult { 
                        domain: "nerou.de".to_string(), 
                        selector: Some("default".to_string()), 
                        result: DKIMResult::Pass, 
                        human_result: None
                    }], 
                    spf: vec![SPFAuthResult {
                        domain: "nerou.de".to_string(),
                        scope: None,
                        result: SPFResult::Pass
                    }]
                }
            }]
        })
    }
