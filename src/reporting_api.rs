//! The Reporting API envelope: a `type` that selects the body's schema,
//! the body itself, and the age, URL and user agent of the report.

use vstd::prelude::*;
use vstd::string::*;
use crate::json::{JsonView, members_view, decimal, JsonValue, Members, lookup, found, find, str_eq};
use crate::fields::{str_value, opt_str_value, opt_uint_value, str_from, opt_str_from, opt_uint_from, put, put_opt_str,
    put_opt_uint};
use crate::coep::{cross_origin_embedder_policy_violation_json_view, CrossOriginEmbedderPolicyViolation, cross_origin_embedder_policy_violation_decodes,
    cross_origin_embedder_policy_violation_readable};
use crate::coop::{cross_origin_opener_policy_violation_json_view, CrossOriginOpenerPolicyViolation, cross_origin_opener_policy_violation_decodes,
    cross_origin_opener_policy_violation_readable};
use crate::crash::{crash_json_view, Crash, crash_decodes, crash_readable};
use crate::csp::{csp_hash_json_view, csp_violation_json_view, CSPHash, CSPViolation, csp_hash_decodes, csp_hash_readable, csp_violation_decodes, csp_violation_readable};
use crate::deprecation::{deprecation_json_view, Deprecation, deprecation_decodes, deprecation_readable};
use crate::integrity::{integrity_violation_json_view, IntegrityViolation, integrity_violation_decodes, integrity_violation_readable};
use crate::intervention::{intervention_json_view, Intervention, intervention_decodes, intervention_readable};
use crate::nel::{network_error_json_view, NetworkError, network_error_decodes, network_error_readable, opt_headers_view};
use crate::permissions::{permissions_policy_violation_json_view, PermissionsPolicyViolation, permissions_policy_violation_decodes,
    permissions_policy_violation_readable};

verus! {

broadcast use crate::json::lemma_lookup_push, crate::json::lemma_object_view;

/// A report body; the variant is the report's kind.
#[derive(Debug, PartialEq)]
pub enum ReportType {
    COEP(CrossOriginEmbedderPolicyViolation),
    COOP(CrossOriginOpenerPolicyViolation),
    Crash(Crash),
    CSPHash(CSPHash),
    CSPViolation(CSPViolation),
    Deprecation(Deprecation),
    IntegrityViolation(IntegrityViolation),
    Intervention(Intervention),
    NetworkError(NetworkError),
    PermissionsPolicyViolation(PermissionsPolicyViolation),
}

/// One report of the Reporting API.
#[derive(Debug, PartialEq)]
pub struct Report {
    pub rpt: ReportType,
    pub age: Option<u32>,
    pub url: String,
    pub user_agent: Option<String>,
}

/// What a Reporting API endpoint receives: one report, or a list of them.
#[derive(Debug, PartialEq)]
pub enum ReportingApiReport {
    Single(Report),
    Multi(Vec<Report>),
}

/// The `type` under which each kind of report travels.
pub open spec fn kind_name(x: ReportType) -> Seq<char> {
    match x {
        ReportType::COEP(_) => "coep"@,
        ReportType::COOP(_) => "coop"@,
        ReportType::Crash(_) => "crash"@,
        ReportType::CSPHash(_) => "csp-hash"@,
        ReportType::CSPViolation(_) => "csp-violation"@,
        ReportType::Deprecation(_) => "deprecation"@,
        ReportType::IntegrityViolation(_) => "integrity-violation"@,
        ReportType::Intervention(_) => "intervention"@,
        ReportType::NetworkError(_) => "network-error"@,
        ReportType::PermissionsPolicyViolation(_) => "permissions-policy-violation"@,
    }
}

/// Whether the members of a body object describe `x`, read with the schema
/// of `x`'s kind.
pub open spec fn body_decodes(b: Seq<(String, JsonValue)>, x: ReportType) -> bool {
    match x {
        ReportType::COEP(r) => cross_origin_embedder_policy_violation_decodes(b, r),
        ReportType::COOP(r) => cross_origin_opener_policy_violation_decodes(b, r),
        ReportType::Crash(r) => crash_decodes(b, r),
        ReportType::CSPHash(r) => csp_hash_decodes(b, r),
        ReportType::CSPViolation(r) => csp_violation_decodes(b, r),
        ReportType::Deprecation(r) => deprecation_decodes(b, r),
        ReportType::IntegrityViolation(r) => integrity_violation_decodes(b, r),
        ReportType::Intervention(r) => intervention_decodes(b, r),
        ReportType::NetworkError(r) => network_error_decodes(b, r),
        ReportType::PermissionsPolicyViolation(r) => permissions_policy_violation_decodes(b, r),
    }
}

/// Whether `tag` names a kind whose schema the body members satisfy.
pub open spec fn body_readable(tag: Seq<char>, b: Seq<(String, JsonValue)>) -> bool {
    if tag == "coep"@ {
        cross_origin_embedder_policy_violation_readable(b)
    } else if tag == "coop"@ {
        cross_origin_opener_policy_violation_readable(b)
    } else if tag == "crash"@ {
        crash_readable(b)
    } else if tag == "csp-hash"@ {
        csp_hash_readable(b)
    } else if tag == "csp-violation"@ {
        csp_violation_readable(b)
    } else if tag == "deprecation"@ {
        deprecation_readable(b)
    } else if tag == "integrity-violation"@ {
        integrity_violation_readable(b)
    } else if tag == "intervention"@ {
        intervention_readable(b)
    } else if tag == "network-error"@ {
        network_error_readable(b)
    } else if tag == "permissions-policy-violation"@ {
        permissions_policy_violation_readable(b)
    } else {
        false
    }
}

/// The members of the `body` object, when there is one.
pub open spec fn body_members(e: Seq<(String, JsonValue)>) -> Option<Seq<(String, JsonValue)>> {
    match lookup(e, "body"@) {
        Some(JsonValue::Object(m)) => Some(m@),
        _ => None,
    }
}

pub open spec fn opt_u32_nat(a: Option<u32>) -> Option<nat> {
    match a {
        Some(n) => Some(n as nat),
        None => None,
    }
}

/// The members of a body, written under their canonical names.
pub open spec fn body_json_view(x: ReportType) -> Seq<(Seq<char>, JsonView)> {
    match x {
        ReportType::COEP(r) => cross_origin_embedder_policy_violation_json_view(r),
        ReportType::COOP(r) => cross_origin_opener_policy_violation_json_view(r),
        ReportType::Crash(r) => crash_json_view(r),
        ReportType::CSPHash(r) => csp_hash_json_view(r),
        ReportType::CSPViolation(r) => csp_violation_json_view(r),
        ReportType::Deprecation(r) => deprecation_json_view(r),
        ReportType::IntegrityViolation(r) => integrity_violation_json_view(r),
        ReportType::Intervention(r) => intervention_json_view(r),
        ReportType::NetworkError(r) => network_error_json_view(r),
        ReportType::PermissionsPolicyViolation(r) => permissions_policy_violation_json_view(r),
    }
}

/// The members that an envelope is written as: `type`, `body`, then `age`
/// when there is one, `url`, and `user_agent` when there is one.
pub open spec fn report_json_view(x: Report) -> Seq<(Seq<char>, JsonView)> {
    let s1 = seq![("type"@, JsonView::Str(kind_name(x.rpt))), ("body"@, JsonView::Object(body_json_view(x.rpt)))];
    let s2 = if x.age is Some { s1.push(("age"@, JsonView::Number(decimal(x.age.unwrap() as nat)))) } else { s1 };
    let s3 = s2.push(("url"@, JsonView::Str(x.url@)));
    if x.user_agent is Some { s3.push(("user_agent"@, JsonView::Str(x.user_agent.unwrap()@))) } else { s3 }
}

/// The names under which an envelope is written.
pub open spec fn envelope_name(k: Seq<char>) -> bool {
    k == "type"@ || k == "body"@ || k == "age"@ || k == "url"@ || k == "user_agent"@
}

/// Whether an envelope's members describe `x`: its `type` names the kind of
/// `x.rpt`, its `body` is read with that kind's schema, and the other fields
/// match.
pub open spec fn report_decodes(e: Seq<(String, JsonValue)>, x: Report) -> bool {
    &&& str_value(lookup(e, "type"@)).is_some()
    &&& str_value(lookup(e, "type"@)).unwrap()@ == kind_name(x.rpt)
    &&& body_members(e).is_some()
    &&& body_decodes(body_members(e).unwrap(), x.rpt)
    &&& opt_uint_value(lookup(e, "age"@), u32::MAX as nat) == Some(opt_u32_nat(x.age))
    &&& str_value(lookup(e, "url"@)) == Some(x.url)
    &&& opt_str_value(lookup(e, "user_agent"@)) == Some(x.user_agent)
}

/// Whether an envelope's members hold a well-typed report.
pub open spec fn report_readable(e: Seq<(String, JsonValue)>) -> bool {
    &&& str_value(lookup(e, "type"@)).is_some()
    &&& body_members(e).is_some()
    &&& body_readable(str_value(lookup(e, "type"@)).unwrap()@, body_members(e).unwrap())
    &&& opt_uint_value(lookup(e, "age"@), u32::MAX as nat).is_some()
    &&& str_value(lookup(e, "url"@)).is_some()
    &&& opt_str_value(lookup(e, "user_agent"@)).is_some()
}

/// Whether a JSON value describes the batch `x`: an object is one report, an
/// array a list of them in order.
pub open spec fn batch_decodes(v: JsonValue, x: ReportingApiReport) -> bool {
    match (v, x) {
        (JsonValue::Object(m), ReportingApiReport::Single(r)) => report_decodes(m@, r),
        (JsonValue::Array(a), ReportingApiReport::Multi(rs)) => {
            &&& a@.len() == rs@.len()
            &&& forall|i: int| 0 <= i < a@.len() ==> (#[trigger] a@[i] is Object && report_decodes(a@[i]->Object_0@, rs@[i]))
        },
        _ => false,
    }
}

/// Whether a JSON value is a report, or an array of which every item is one.
pub open spec fn batch_readable(v: JsonValue) -> bool {
    match v {
        JsonValue::Object(m) => report_readable(m@),
        JsonValue::Array(a) => forall|i: int| 0 <= i < a@.len() ==> (#[trigger] a@[i] is Object && report_readable(a@[i]->Object_0@)),
        _ => false,
    }
}

impl ReportType {
    /// Reads a body with the schema of the kind that `tag` names.
    pub fn decode(tag: &str, b: &Members) -> (r: Option<ReportType>)
        ensures
            r.is_some() == body_readable(tag@, b@),
            r.is_some() ==> kind_name(r.unwrap()) == tag@ && body_decodes(b@, r.unwrap()),
    {
        if str_eq(tag, "coep") {
            match CrossOriginEmbedderPolicyViolation::decode(b) {
                Some(x) => Some(ReportType::COEP(x)),
                None => None,
            }
        } else if str_eq(tag, "coop") {
            match CrossOriginOpenerPolicyViolation::decode(b) {
                Some(x) => Some(ReportType::COOP(x)),
                None => None,
            }
        } else if str_eq(tag, "crash") {
            match Crash::decode(b) {
                Some(x) => Some(ReportType::Crash(x)),
                None => None,
            }
        } else if str_eq(tag, "csp-hash") {
            match CSPHash::decode(b) {
                Some(x) => Some(ReportType::CSPHash(x)),
                None => None,
            }
        } else if str_eq(tag, "csp-violation") {
            match CSPViolation::decode(b) {
                Some(x) => Some(ReportType::CSPViolation(x)),
                None => None,
            }
        } else if str_eq(tag, "deprecation") {
            match Deprecation::decode(b) {
                Some(x) => Some(ReportType::Deprecation(x)),
                None => None,
            }
        } else if str_eq(tag, "integrity-violation") {
            match IntegrityViolation::decode(b) {
                Some(x) => Some(ReportType::IntegrityViolation(x)),
                None => None,
            }
        } else if str_eq(tag, "intervention") {
            match Intervention::decode(b) {
                Some(x) => Some(ReportType::Intervention(x)),
                None => None,
            }
        } else if str_eq(tag, "network-error") {
            match NetworkError::decode(b) {
                Some(x) => Some(ReportType::NetworkError(x)),
                None => None,
            }
        } else if str_eq(tag, "permissions-policy-violation") {
            match PermissionsPolicyViolation::decode(b) {
                Some(x) => Some(ReportType::PermissionsPolicyViolation(x)),
                None => None,
            }
        } else {
            None
        }
    }

    /// The `type` of this kind of report.
    pub fn kind(&self) -> (r: String)
        ensures
            r@ == kind_name(*self),
    {
        match self {
            ReportType::COEP(_) => String::from_str("coep"),
            ReportType::COOP(_) => String::from_str("coop"),
            ReportType::Crash(_) => String::from_str("crash"),
            ReportType::CSPHash(_) => String::from_str("csp-hash"),
            ReportType::CSPViolation(_) => String::from_str("csp-violation"),
            ReportType::Deprecation(_) => String::from_str("deprecation"),
            ReportType::IntegrityViolation(_) => String::from_str("integrity-violation"),
            ReportType::Intervention(_) => String::from_str("intervention"),
            ReportType::NetworkError(_) => String::from_str("network-error"),
            ReportType::PermissionsPolicyViolation(_) => String::from_str("permissions-policy-violation"),
        }
    }

    /// The body's members under their canonical names.
    pub fn encode_body(&self) -> (r: Members)
        ensures
            body_decodes(r@, *self),
            members_view(r@) == body_json_view(*self),
    {
        match self {
            ReportType::COEP(x) => x.encode(),
            ReportType::COOP(x) => x.encode(),
            ReportType::Crash(x) => x.encode(),
            ReportType::CSPHash(x) => x.encode(),
            ReportType::CSPViolation(x) => x.encode(),
            ReportType::Deprecation(x) => x.encode(),
            ReportType::IntegrityViolation(x) => x.encode(),
            ReportType::Intervention(x) => x.encode(),
            ReportType::NetworkError(x) => x.encode(),
            ReportType::PermissionsPolicyViolation(x) => x.encode(),
        }
    }
}

impl Report {
    /// Reads an envelope: the `type` is read first and selects the schema
    /// that the `body` is read with.
    pub fn decode(e: &Members) -> (r: Option<Report>)
        ensures
            r.is_some() == report_readable(e@),
            r.is_some() ==> report_decodes(e@, r.unwrap()),
    {
        let tag = match str_from(find(e, "type")) {
            Some(t) => t,
            None => return None,
        };
        let body = match find(e, "body") {
            Some(JsonValue::Object(m)) => m,
            _ => return None,
        };
        let rpt = match ReportType::decode(tag.as_str(), body) {
            Some(x) => x,
            None => return None,
        };
        let age = match opt_uint_from(find(e, "age"), u32::MAX as u64) {
            Some(Some(n)) => Some(n as u32),
            Some(None) => None,
            None => return None,
        };
        let url = match str_from(find(e, "url")) {
            Some(u) => u,
            None => return None,
        };
        let user_agent = match opt_str_from(find(e, "user_agent")) {
            Some(u) => u,
            None => return None,
        };
        Some(Report { rpt, age, url, user_agent })
    }

    /// The envelope's members, in the order `type`, `body`, `age`, `url`,
    /// `user_agent`; reading them back gives this report.
    pub fn encode(&self) -> (r: Members)
        ensures
            report_decodes(r@, *self),
            forall|i: int| 0 <= i < r@.len() ==> #[trigger] envelope_name(r@[i].0@),
            members_view(r@) == report_json_view(*self),
    {
        proof {
            reveal_strlit("type");
            reveal_strlit("body");
            reveal_strlit("age");
            reveal_strlit("url");
            reveal_strlit("user_agent");
            assert("type"@.len() == 4);
            assert("body"@.len() == 4);
            assert("type"@[0] != "body"@[0]);
            assert("age"@.len() == 3);
            assert("url"@[0] != "age"@[0]);
            assert("user_agent"@.len() == 10);
        }
        let mut e: Members = Vec::new();
        assert(members_view(e@) =~= Seq::<(Seq<char>, JsonView)>::empty());
        put(&mut e, "type", JsonValue::Str(self.rpt.kind()));
        put(&mut e, "body", JsonValue::Object(self.rpt.encode_body()));
        put_opt_uint(&mut e, "age", match self.age {
            Some(n) => Some(n as u64),
            None => None,
        });
        put(&mut e, "url", JsonValue::Str(self.url.clone()));
        put_opt_str(&mut e, "user_agent", &self.user_agent);
        assert(members_view(e@) =~= report_json_view(*self));
        assert(forall|i: int| 0 <= i < e@.len() ==> #[trigger] envelope_name(e@[i].0@));
        e
    }
}

impl ReportingApiReport {
    /// Reads a batch: an object is a single report, an array a list of
    /// reports, of which every one must be readable.
    pub fn decode(v: &JsonValue) -> (r: Option<ReportingApiReport>)
        ensures
            r.is_some() == batch_readable(*v),
            r.is_some() ==> batch_decodes(*v, r.unwrap()),
    {
        match v {
            JsonValue::Object(m) => match Report::decode(m) {
                Some(x) => Some(ReportingApiReport::Single(x)),
                None => None,
            },
            JsonValue::Array(a) => {
                let mut out: Vec<Report> = Vec::new();
                let mut i: usize = 0;
                while i < a.len()
                    invariant
                        i <= a@.len(),
                        *v == JsonValue::Array(*a),
                        out@.len() == i,
                        forall|j: int| 0 <= j < i ==> (#[trigger] a@[j] is Object && report_decodes(a@[j]->Object_0@, out@[j])
                            && report_readable(a@[j]->Object_0@)),
                    decreases a@.len() - i,
                {
                    match &a[i] {
                        JsonValue::Object(m) => match Report::decode(m) {
                            Some(x) => out.push(x),
                            None => return None,
                        },
                        _ => return None,
                    }
                    i = i + 1;
                }
                Some(ReportingApiReport::Multi(out))
            },
            _ => None,
        }
    }

    /// The reports of the batch, in order.
    pub fn reports(&self) -> (r: Vec<&Report>)
        ensures
            match self {
                ReportingApiReport::Single(x) => r@ == seq![x],
                ReportingApiReport::Multi(xs) => r@.len() == xs@.len() && forall|i: int| 0 <= i < xs@.len() ==> #[trigger] r@[i] == &xs@[i],
            },
    {
        match self {
            ReportingApiReport::Single(x) => vec![x],
            ReportingApiReport::Multi(xs) => {
                let mut out: Vec<&Report> = Vec::new();
                let mut i: usize = 0;
                while i < xs.len()
                    invariant
                        i <= xs@.len(),
                        out@.len() == i,
                        forall|j: int| 0 <= j < i ==> #[trigger] out@[j] == &xs@[j],
                    decreases xs@.len() - i,
                {
                    out.push(&xs[i]);
                    i = i + 1;
                }
                out
            },
        }
    }
}

/// Two network error bodies that agree field by field, their header maps
/// holding the same headers with the same values in the same order.
pub open spec fn same_network_error(a: NetworkError, b: NetworkError) -> bool {
    &&& a.elapsed_time == b.elapsed_time
    &&& a.method == b.method
    &&& a.phase == b.phase
    &&& a.protocol == b.protocol
    &&& a.referrer == b.referrer
    &&& opt_headers_view(a.request_headers) == opt_headers_view(b.request_headers)
    &&& opt_headers_view(a.response_headers) == opt_headers_view(b.response_headers)
    &&& a.sampling_fraction == b.sampling_fraction
    &&& a.server_ip == b.server_ip
    &&& a.status_code == b.status_code
    &&& a.kind == b.kind
    &&& a.url == b.url
}

/// Decoding is a function: two reports that the same members describe are
/// the same report, except that header maps of network error bodies are
/// only known to hold the same headers and values (`same_network_error`). With the contracts of
/// `Report::encode` and `Report::decode` this is the round trip: decoding
/// the members that encoding wrote gives back the encoded report.
pub proof fn lemma_decoding_unique(e: Seq<(String, JsonValue)>, x: Report, y: Report)
    requires
        report_decodes(e, x),
        report_decodes(e, y),
    ensures
        x.age == y.age,
        x.url == y.url,
        x.user_agent == y.user_agent,
        kind_name(x.rpt) == kind_name(y.rpt),
        !(x.rpt is NetworkError) ==> x == y,
        x.rpt is NetworkError ==> y.rpt is NetworkError && same_network_error(x.rpt->NetworkError_0, y.rpt->NetworkError_0),
{
    reveal_strlit("coep");
    assert("coep"@.len() == 4);
    reveal_strlit("coop");
    assert("coop"@.len() == 4);
    reveal_strlit("crash");
    assert("crash"@.len() == 5);
    reveal_strlit("csp-hash");
    assert("csp-hash"@.len() == 8);
    reveal_strlit("csp-violation");
    assert("csp-violation"@.len() == 13);
    reveal_strlit("deprecation");
    assert("deprecation"@.len() == 11);
    reveal_strlit("integrity-violation");
    assert("integrity-violation"@.len() == 19);
    reveal_strlit("intervention");
    assert("intervention"@.len() == 12);
    reveal_strlit("network-error");
    assert("network-error"@.len() == 13);
    reveal_strlit("permissions-policy-violation");
    assert("permissions-policy-violation"@.len() == 28);
    assert("coep"@[2] != "coop"@[2]);
    assert("csp-violation"@[0] != "network-error"@[0]);
    reveal_strlit("access-to-opener");
    reveal_strlit("navigation-to-response");
    reveal_strlit("navigation-from-response");
    assert("access-to-opener"@.len() == 16);
    assert("navigation-to-response"@.len() == 22);
    assert("navigation-from-response"@.len() == 24);
    if !(x.rpt is NetworkError) {
        match (x.rpt, y.rpt) {
            (ReportType::COEP(p), ReportType::COEP(q)) => assert(p == q),
            (ReportType::COOP(p), ReportType::COOP(q)) => assert(p == q),
            (ReportType::Crash(p), ReportType::Crash(q)) => assert(p == q),
            (ReportType::CSPHash(p), ReportType::CSPHash(q)) => assert(p == q),
            (ReportType::CSPViolation(p), ReportType::CSPViolation(q)) => assert(p == q),
            (ReportType::Deprecation(p), ReportType::Deprecation(q)) => assert(p == q),
            (ReportType::IntegrityViolation(p), ReportType::IntegrityViolation(q)) => assert(p == q),
            (ReportType::Intervention(p), ReportType::Intervention(q)) => assert(p == q),
            (ReportType::PermissionsPolicyViolation(p), ReportType::PermissionsPolicyViolation(q)) => assert(p == q),
            _ => {},
        }
    }
}

} // verus!
