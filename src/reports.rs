//! Dispatch: every kind of report is filtered by the domain it concerns,
//! enriched, and turned into one decorated record with a label.

use vstd::prelude::*;
use vstd::string::*;
use crate::json::{JsonView, jview, members_view, JsonValue, Members, lookup, str_eq};
use crate::fields::put;
use crate::filter::{Filter, url_allowed};
use crate::derivation::{Client, Device, Derived, Url, analyze_url, analyze_user_agent, opt_view, url_parts_of, derived_decodes, derived_json_view};
use crate::reporting_api::{self, report_json_view, Report, ReportingApiReport, report_decodes, batch_decodes, batch_readable};
use crate::csp::{csp_report_json_view, CSPReport, csp_report_decodes, csp_report_readable};
use crate::smtp_tls::{smtptls_report_json_view, SMTPTLSReport, smtptls_report_decodes, smtptls_report_readable};
use crate::dmarc::{dmarc_report_json_view, DMARCReport, dmarc_report_decodes};

verus! {

broadcast use crate::json::lemma_lookup_push, crate::json::lemma_object_view;

/// A report of any of the four shapes that arrive.
pub enum ReportType<'a> {
    ReportingAPI(&'a Report),
    CSPLvl2(&'a CSPReport),
    SMTPTLSRPT(&'a SMTPTLSReport),
    DMARC(&'a DMARCReport),
}

/// A report as it is emitted: its label, the report itself as JSON, and
/// what was derived from it.
#[derive(Debug, PartialEq)]
pub struct DecoratedReport {
    pub label: String,
    pub report: JsonValue,
    pub derived: Derived,
}

/// The label under which each kind of Reporting API report is emitted.
pub open spec fn kind_label(x: reporting_api::ReportType) -> Seq<char> {
    match x {
        reporting_api::ReportType::COEP(_) => "COEP"@,
        reporting_api::ReportType::COOP(_) => "COOP"@,
        reporting_api::ReportType::Crash(_) => "Crash"@,
        reporting_api::ReportType::CSPHash(_) => "CSP-Hash"@,
        reporting_api::ReportType::CSPViolation(_) => "CSP"@,
        reporting_api::ReportType::Deprecation(_) => "Deprecation"@,
        reporting_api::ReportType::IntegrityViolation(_) => "IntegrityViolation"@,
        reporting_api::ReportType::Intervention(_) => "Intervention"@,
        reporting_api::ReportType::NetworkError(_) => "NEL"@,
        reporting_api::ReportType::PermissionsPolicyViolation(_) => "PermissionsPolicyViolation"@,
    }
}

pub open spec fn label_of(report: ReportType) -> Seq<char> {
    match report {
        ReportType::ReportingAPI(r) => kind_label(r.rpt),
        ReportType::CSPLvl2(_) => "CSP"@,
        ReportType::SMTPTLSRPT(_) => "SMTP-TLS-RPT"@,
        ReportType::DMARC(_) => "DMARC"@,
    }
}

/// The domain that decides admission, where it is a plain name: the first
/// policy's domain of an SMTP TLS report (none when it lists no policy),
/// and the published policy's domain of a DMARC report.
pub open spec fn named_domain(report: ReportType) -> Option<Seq<char>> {
    match report {
        ReportType::SMTPTLSRPT(s) => if s.policies@.len() > 0 {
            Some(s.policies@[0].policy.policy_domain@)
        } else {
            None
        },
        ReportType::DMARC(d) => Some(d.policy_published.domain@),
        _ => None,
    }
}

/// Whether a report is admitted: by the host of its URL for Reporting API
/// and CSP Level 2 reports, by its named domain for the others. An SMTP TLS
/// report without a policy is admitted.
pub open spec fn admitted(filter: Filter, report: ReportType) -> bool {
    match report {
        ReportType::ReportingAPI(r) => url_allowed(filter.config.domain_whitelist@, r.url@),
        ReportType::CSPLvl2(c) => url_allowed(filter.config.domain_whitelist@, c.csp_report.document_url@),
        _ => named_domain(report) is None || filter.allows(named_domain(report).unwrap()),
    }
}

/// Whether a derived URL holds the parts of `url`, or is empty where `url`
/// does not parse.
pub open spec fn url_derived(u: Url, url: Seq<char>) -> bool {
    match url_parts_of(url) {
        Some(p) => (opt_view(u.host), u.path@, opt_view(u.query)) == p,
        None => u.is_empty(),
    }
}

/// The JSON view of the canonical encoding of a report.
pub open spec fn report_view(report: ReportType) -> JsonView {
    JsonView::Object(
        match report {
            ReportType::ReportingAPI(r) => report_json_view(*r),
            ReportType::CSPLvl2(c) => csp_report_json_view(*c),
            ReportType::SMTPTLSRPT(x) => smtptls_report_json_view(*x),
            ReportType::DMARC(d) => dmarc_report_json_view(*d),
        },
    )
}

/// Whether `v` is the JSON form of the report.
pub open spec fn report_json(v: JsonValue, report: ReportType) -> bool {
    match v {
        JsonValue::Object(m) => match report {
            ReportType::ReportingAPI(r) => report_decodes(m@, *r),
            ReportType::CSPLvl2(c) => csp_report_decodes(m@, *c),
            ReportType::SMTPTLSRPT(s) => smtptls_report_decodes(m@, *s),
            ReportType::DMARC(d) => dmarc_report_decodes(m@, *d),
        },
        _ => false,
    }
}

/// What is derived from a report apart from its user agent: the parts of
/// its URL, or its named domain as host; for DMARC the sender organisation
/// as client family.
pub open spec fn derived_from(d: Derived, report: ReportType) -> bool {
    match report {
        ReportType::ReportingAPI(r) => url_derived(d.url, r.url@),
        ReportType::CSPLvl2(c) => url_derived(d.url, c.csp_report.document_url@),
        ReportType::SMTPTLSRPT(_) => opt_view(d.url.host) == named_domain(report) && d.url.path@.len() == 0
            && d.url.query is None,
        ReportType::DMARC(x) => opt_view(d.url.host) == named_domain(report) && d.url.path@.len() == 0
            && d.url.query is None && d.client.family@ == x.report_metadata.org_name@,
    }
}

fn labelled(report: &ReportType) -> (r: String)
    ensures
        r@ == label_of(*report),
{
    match report {
        ReportType::ReportingAPI(r) => match r.rpt {
            reporting_api::ReportType::COEP(_) => String::from_str("COEP"),
            reporting_api::ReportType::COOP(_) => String::from_str("COOP"),
            reporting_api::ReportType::Crash(_) => String::from_str("Crash"),
            reporting_api::ReportType::CSPHash(_) => String::from_str("CSP-Hash"),
            reporting_api::ReportType::CSPViolation(_) => String::from_str("CSP"),
            reporting_api::ReportType::Deprecation(_) => String::from_str("Deprecation"),
            reporting_api::ReportType::IntegrityViolation(_) => String::from_str("IntegrityViolation"),
            reporting_api::ReportType::Intervention(_) => String::from_str("Intervention"),
            reporting_api::ReportType::NetworkError(_) => String::from_str("NEL"),
            reporting_api::ReportType::PermissionsPolicyViolation(_) => String::from_str("PermissionsPolicyViolation"),
        },
        ReportType::CSPLvl2(_) => String::from_str("CSP"),
        ReportType::SMTPTLSRPT(_) => String::from_str("SMTP-TLS-RPT"),
        ReportType::DMARC(_) => String::from_str("DMARC"),
    }
}

fn derived_url(url: &str) -> (r: Url)
    ensures
        url_derived(r, url@),
{
    match analyze_url(url) {
        Ok(u) => u,
        Err(_) => Url::default(),
    }
}

/// The user agent that a report carries itself: a Reporting API report's
/// own field; the other shapes carry none.
pub open spec fn own_user_agent(report: ReportType) -> Option<Seq<char>> {
    match report {
        ReportType::ReportingAPI(r) => opt_view(r.user_agent),
        _ => None,
    }
}

/// The user agent that enrichment reads: the report's own, which takes
/// precedence, else the one the transport supplied.
pub fn effective_user_agent<'a>(report: &ReportType<'a>, transport: Option<&'a str>) -> (r: Option<&'a str>)
    ensures
        own_user_agent(*report) is Some ==> r is Some && r.unwrap()@ == own_user_agent(*report).unwrap(),
        own_user_agent(*report) is None ==> r == transport,
{
    if let ReportType::ReportingAPI(rpt) = report {
        let rpt: &'a Report = *rpt;
        if let Some(u) = &rpt.user_agent {
            return Some(u.as_str());
        }
    }
    transport
}

/// Whether `d` is the record of an admitted report whose user agent was
/// analysed into `parts` (or was absent). For DMARC the client family is
/// the sender organisation; its other client parts come from `parts`.
pub open spec fn decorated(d: DecoratedReport, report: ReportType, parts: Option<(Client, Client, Device)>) -> bool {
    &&& d.label@ == label_of(report)
    &&& report_json(d.report, report)
    &&& jview(d.report) == report_view(report)
    &&& derived_from(d.derived, report)
    &&& match parts {
        None => d.derived.os.is_empty() && d.derived.device.is_empty() && (!(report is DMARC)
            ==> d.derived.client.is_empty()) && (report is DMARC ==> d.derived.client.major is None
            && d.derived.client.minor is None && d.derived.client.patch is None && d.derived.client.patch_minor is None),
        Some(p) => d.derived.os == p.1 && d.derived.device == p.2 && (!(report is DMARC) ==> d.derived.client == p.0)
            && (report is DMARC ==> d.derived.client.major == p.0.major && d.derived.client.minor == p.0.minor
            && d.derived.client.patch == p.0.patch && d.derived.client.patch_minor == p.0.patch_minor),
    }
}

/// Filters, enriches and labels a report. `None` means the filter dropped
/// it. `parts` is the analysis of the report's effective user agent (see
/// `effective_user_agent`), or `None` where there is none.
pub fn handle_report(report: &ReportType, parts: Option<(Client, Client, Device)>, filter: &Filter) -> (r: Option<
    DecoratedReport,
>)
    ensures
        r is Some <==> admitted(*filter, *report),
        r matches Some(d) ==> decorated(d, *report, parts),
{
    let mut derived = Derived::default();
    if let Some((client, os, device)) = parts {
        derived.client = client;
        derived.os = os;
        derived.device = device;
    }
    let json = match report {
        ReportType::ReportingAPI(rpt) => {
            if !filter.is_domain_of_url_allowed(rpt.url.as_str()) {
                return None;
            }
            derived.url = derived_url(rpt.url.as_str());
            rpt.encode()
        },
        ReportType::CSPLvl2(rpt) => {
            if !filter.is_domain_of_url_allowed(rpt.csp_report.document_url.as_str()) {
                return None;
            }
            derived.url = derived_url(rpt.csp_report.document_url.as_str());
            rpt.encode()
        },
        ReportType::SMTPTLSRPT(rpt) => {
            let domains = rpt.get_policy_domains();
            if domains.len() > 0 {
                if !filter.is_domain_allowed(domains[0]) {
                    return None;
                }
                derived.url.host = Some(String::from_str(domains[0]));
            }
            rpt.encode()
        },
        ReportType::DMARC(rpt) => {
            let domain = rpt.get_published_policys_domain();
            if !filter.is_domain_allowed(domain.as_str()) {
                return None;
            }
            derived.url.host = Some(domain.clone());
            derived.client.family = rpt.get_sender_organisation().clone();
            rpt.encode()
        },
    };
    Some(DecoratedReport { label: labelled(report), report: JsonValue::Object(json), derived })
}

/// Analyses the effective user agent of a report with the rule set, if
/// one is loaded, and handles the report with the result.
pub fn enrich_and_handle(
    report: &ReportType,
    user_agent: Option<&str>,
    filter: &Filter,
    rules: Option<&uaparser_rs::UAParser>,
) -> (r: Option<DecoratedReport>)
    ensures
        r is Some <==> admitted(*filter, *report),
        r matches Some(d) ==> {
            &&& d.label@ == label_of(*report)
            &&& report_json(d.report, *report)
            &&& jview(d.report) == report_view(*report)
            &&& derived_from(d.derived, *report)
            &&& rules is None ==> d.derived.os.is_empty() && d.derived.device.is_empty()
            &&& (rules is None && !(*report is DMARC)) ==> d.derived.client.is_empty()
            &&& own_user_agent(*report) is None && user_agent is None ==> decorated(d, *report, None)
        },
{
    let parts = match effective_user_agent(report, user_agent) {
        Some(ua) => Some(analyze_user_agent(rules, ua)),
        None => None,
    };
    handle_report(report, parts, filter)
}

impl DecoratedReport {
    /// The record as JSON: the report under `report`, the derived fields
    /// under `derived`.
    pub fn to_json(self) -> (r: JsonValue)
        ensures
            r is Object,
            lookup(r->Object_0@, "report"@) == Some(self.report),
            lookup(r->Object_0@, "derived"@) matches Some(JsonValue::Object(m)) && derived_decodes(m@, self.derived),
            jview(r) == JsonView::Object(seq![("report"@, jview(self.report)), ("derived"@, JsonView::Object(derived_json_view(self.derived)))]),
    {
        proof {
            reveal_strlit("report");
            reveal_strlit("derived");
            assert("report"@.len() == 6);
            assert("derived"@.len() == 7);
        }
        let derived = self.derived.encode();
        let mut e: Members = Vec::new();
        assert(members_view(e@) =~= Seq::<(Seq<char>, JsonView)>::empty());
        put(&mut e, "report", self.report);
        put(&mut e, "derived", JsonValue::Object(derived));
        assert(members_view(e@) =~= seq![("report"@, jview(self.report)), ("derived"@, JsonView::Object(derived_json_view(self.derived)))]);
        JsonValue::Object(e)
    }
}

/// Handles the reports of a batch in order, one outcome per report.
pub fn handle_reporting_api_report(
    reports: &ReportingApiReport,
    user_agent: Option<&str>,
    filter: &Filter,
    rules: Option<&uaparser_rs::UAParser>,
) -> (r: Vec<Option<DecoratedReport>>)
    ensures
        r@.len() == batch_len(*reports),
        forall|i: int| 0 <= i < r@.len() ==> (#[trigger] r@[i] is Some <==> admitted(*filter, ReportType::ReportingAPI(batch_item(reports, i)))),
        forall|i: int| 0 <= i < r@.len() && #[trigger] r@[i] is Some ==> {
            &&& r@[i]->Some_0.label@ == label_of(ReportType::ReportingAPI(batch_item(reports, i)))
            &&& report_json(r@[i]->Some_0.report, ReportType::ReportingAPI(batch_item(reports, i)))
            &&& jview(r@[i]->Some_0.report) == report_view(ReportType::ReportingAPI(batch_item(reports, i)))
            &&& derived_from(r@[i]->Some_0.derived, ReportType::ReportingAPI(batch_item(reports, i)))
            &&& rules is None ==> r@[i]->Some_0.derived.client.is_empty() && r@[i]->Some_0.derived.os.is_empty()
                && r@[i]->Some_0.derived.device.is_empty()
            &&& (own_user_agent(ReportType::ReportingAPI(batch_item(reports, i))) is None && user_agent is None)
                ==> decorated(r@[i]->Some_0, ReportType::ReportingAPI(batch_item(reports, i)), None)
        },
{
    let items = reports.reports();
    let mut out: Vec<Option<DecoratedReport>> = Vec::new();
    let mut i: usize = 0;
    while i < items.len()
        invariant
            i <= items@.len(),
            items@.len() == batch_len(*reports),
            forall|j: int| 0 <= j < items@.len() ==> *#[trigger] items@[j] == batch_item(reports, j),
            out@.len() == i,
            forall|j: int| 0 <= j < i ==> (#[trigger] out@[j] is Some <==> admitted(*filter, ReportType::ReportingAPI(batch_item(reports, j)))),
            forall|j: int| 0 <= j < i && #[trigger] out@[j] is Some ==> {
                &&& out@[j]->Some_0.label@ == label_of(ReportType::ReportingAPI(batch_item(reports, j)))
                &&& report_json(out@[j]->Some_0.report, ReportType::ReportingAPI(batch_item(reports, j)))
                &&& jview(out@[j]->Some_0.report) == report_view(ReportType::ReportingAPI(batch_item(reports, j)))
                &&& derived_from(out@[j]->Some_0.derived, ReportType::ReportingAPI(batch_item(reports, j)))
                &&& rules is None ==> out@[j]->Some_0.derived.client.is_empty() && out@[j]->Some_0.derived.os.is_empty()
                    && out@[j]->Some_0.derived.device.is_empty()
                &&& (own_user_agent(ReportType::ReportingAPI(batch_item(reports, j))) is None && user_agent is None)
                    ==> decorated(out@[j]->Some_0, ReportType::ReportingAPI(batch_item(reports, j)), None)
            },
        decreases items@.len() - i,
    {
        let d = enrich_and_handle(&ReportType::ReportingAPI(items[i]), user_agent, filter, rules);
        out.push(d);
        i = i + 1;
    }
    out
}

pub open spec fn batch_len(b: ReportingApiReport) -> nat {
    match b {
        ReportingApiReport::Single(_) => 1,
        ReportingApiReport::Multi(xs) => xs@.len(),
    }
}

pub open spec fn batch_item<'a>(b: &'a ReportingApiReport, i: int) -> &'a Report {
    match b {
        ReportingApiReport::Single(x) => x,
        ReportingApiReport::Multi(xs) => &xs@[i],
    }
}

/// A single report and a one-item batch holding it present the same report
/// as their only item. Every clause that `handle_reporting_api_report`
/// states of an item is therefore the same for both: admission, label, the
/// view of the emitted report and what is derived from its URL. With a
/// rule set loaded, the user-agent parts are not fixed by any contract.
pub proof fn lemma_single_and_one_item_batch(single: ReportingApiReport, batch: ReportingApiReport)
    requires
        single is Single,
        batch is Multi,
        batch->Multi_0@ == seq![single->Single_0],
    ensures
        batch_len(single) == 1,
        batch_len(batch) == 1,
        batch_item(&single, 0) == batch_item(&batch, 0),
{
}

/// A decoded payload of one of the accepted content types.
#[derive(Debug, PartialEq)]
pub enum Payload {
    ReportingApi(ReportingApiReport),
    CspLegacy(CSPReport),
    SmtpTls(SMTPTLSReport),
}

/// Why a payload was rejected.
#[derive(Debug, PartialEq, Eq, Clone, Copy)]
pub enum PayloadError {
    UnsupportedContentType,
    Malformed,
}

/// The endpoints that receive reports; each accepts its own content types.
#[derive(Debug, PartialEq, Eq, Clone, Copy)]
pub enum Endpoint {
    /// The Reporting API endpoints (crash, deprecation, NEL and the others).
    ReportingApi,
    /// The CSP endpoint, which also takes CSP Level 2 reports.
    Csp,
    /// The SMTP TLS reporting endpoint.
    TlsRpt,
}

/// The decoder that a content type selects at an endpoint: 1 for Reporting
/// API batches, 2 for CSP Level 2 reports, 3 for SMTP TLS reports, 0 where
/// the endpoint does not take that content type.
pub open spec fn decoder_of(endpoint: Endpoint, content_type: Seq<char>) -> int {
    match endpoint {
        Endpoint::ReportingApi => if content_type == "application/reports+json"@ {
            1
        } else {
            0
        },
        Endpoint::Csp => if content_type == "application/reports+json"@ {
            1
        } else if content_type == "application/csp-report"@ {
            2
        } else {
            0
        },
        Endpoint::TlsRpt => if content_type == "application/tlsrpt+json"@ || content_type
            == "application/tlsrpt+gzip"@ {
            3
        } else {
            0
        },
    }
}

/// Whether an endpoint takes a content type; checked before any parsing.
pub fn accepts(endpoint: Endpoint, content_type: &str) -> (r: bool)
    ensures
        r == (decoder_of(endpoint, content_type@) != 0),
{
    match endpoint {
        Endpoint::ReportingApi => str_eq(content_type, "application/reports+json"),
        Endpoint::Csp => str_eq(content_type, "application/reports+json") || str_eq(content_type, "application/csp-report"),
        Endpoint::TlsRpt => str_eq(content_type, "application/tlsrpt+json") || str_eq(content_type, "application/tlsrpt+gzip"),
    }
}

/// Decodes a payload with the decoder that its content type selects at the
/// endpoint; a content type that the endpoint does not take is rejected
/// before decoding.
pub fn decode_payload(endpoint: Endpoint, content_type: &str, body: &JsonValue) -> (r: Result<Payload, PayloadError>)
    ensures
        decoder_of(endpoint, content_type@) == 0 <==> r == Err::<Payload, PayloadError>(PayloadError::UnsupportedContentType),
        decoder_of(endpoint, content_type@) == 1 ==> (r is Ok <==> batch_readable(*body)),
        decoder_of(endpoint, content_type@) == 1 && r is Ok ==> (r->Ok_0 matches Payload::ReportingApi(b) && batch_decodes(*body, b)),
        decoder_of(endpoint, content_type@) == 2 ==> (r is Ok <==> (body is Object && csp_report_readable(body->Object_0@))),
        decoder_of(endpoint, content_type@) == 2 && r is Ok ==> (r->Ok_0 matches Payload::CspLegacy(c) && csp_report_decodes(body->Object_0@, c)),
        decoder_of(endpoint, content_type@) == 3 ==> (r is Ok <==> (body is Object && smtptls_report_readable(body->Object_0@))),
        decoder_of(endpoint, content_type@) == 3 && r is Ok ==> (r->Ok_0 matches Payload::SmtpTls(s) && smtptls_report_decodes(body->Object_0@, s)),
        decoder_of(endpoint, content_type@) != 0 && r is Err ==> r == Err::<Payload, PayloadError>(PayloadError::Malformed),
{
    proof {
        reveal_strlit("application/reports+json");
        reveal_strlit("application/csp-report");
        reveal_strlit("application/tlsrpt+json");
        reveal_strlit("application/tlsrpt+gzip");
        assert("application/reports+json"@.len() == 24);
        assert("application/csp-report"@.len() == 22);
        assert("application/tlsrpt+json"@.len() == 23);
        assert("application/tlsrpt+gzip"@.len() == 23);
        assert("application/tlsrpt+json"@[19] != "application/tlsrpt+gzip"@[19]);
    }
    if !accepts(endpoint, content_type) {
        return Err(PayloadError::UnsupportedContentType);
    }
    if str_eq(content_type, "application/reports+json") {
        match ReportingApiReport::decode(body) {
            Some(b) => Ok(Payload::ReportingApi(b)),
            None => Err(PayloadError::Malformed),
        }
    } else if str_eq(content_type, "application/csp-report") {
        match body {
            JsonValue::Object(m) => match CSPReport::decode(m) {
                Some(c) => Ok(Payload::CspLegacy(c)),
                None => Err(PayloadError::Malformed),
            },
            _ => Err(PayloadError::Malformed),
        }
    } else {
        match body {
            JsonValue::Object(m) => match SMTPTLSReport::decode(m) {
                Some(s) => Ok(Payload::SmtpTls(s)),
                None => Err(PayloadError::Malformed),
            },
            _ => Err(PayloadError::Malformed),
        }
    }
}

} // verus!
