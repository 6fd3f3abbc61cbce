//! Content Security Policy reports, in the shapes of CSP Level 2 and Level 3.

use vstd::prelude::*;
use vstd::string::*;
use crate::json::{lemma_alias_reads_as_canonical, JsonValue, JsonView, Members, members_view, jview, decimal, lookup, lookup2, lookup3, found, find, find2, find3, str_eq};
use crate::fields::{str_value, opt_str_value, opt_uint_value, str_from, opt_str_from, opt_uint_from, number, put, put_opt_str, put_opt_uint};

verus! {

broadcast use crate::json::lemma_lookup_push, crate::json::lemma_object_view;

/// Whether the violated policy was enforced or only reported.
#[derive(Debug, PartialEq, Eq, Clone, Copy)]
pub enum CSPReportDisposition {
    Enforce,
    Report,
}

/// The csp report disposition that a JSON string names.
pub open spec fn csp_report_disposition_token(s: Seq<char>) -> Option<CSPReportDisposition> {
    if s == "enforce"@ {
        Some(CSPReportDisposition::Enforce)
    } else if s == "report"@ {
        Some(CSPReportDisposition::Report)
    } else {
        None
    }
}

pub open spec fn csp_report_disposition_value(v: Option<JsonValue>) -> Option<CSPReportDisposition> {
    match v {
        Some(JsonValue::Str(s)) => csp_report_disposition_token(s@),
        _ => None,
    }
}

pub open spec fn opt_csp_report_disposition_value(v: Option<JsonValue>) -> Option<Option<CSPReportDisposition>> {
    match v {
        None => Some(None),
        Some(JsonValue::Null) => Some(None),
        _ => if csp_report_disposition_value(v).is_some() {
            Some(csp_report_disposition_value(v))
        } else {
            None
        },
    }
}

fn csp_report_disposition_from(v: Option<&JsonValue>) -> (r: Option<CSPReportDisposition>)
    ensures
        r == csp_report_disposition_value(found(v)),
{
    match v {
        Some(JsonValue::Str(s)) => {
            if str_eq(s.as_str(), "enforce") {
                Some(CSPReportDisposition::Enforce)
            } else if str_eq(s.as_str(), "report") {
                Some(CSPReportDisposition::Report)
            } else {
                None
            }
        },
        _ => None,
    }
}

fn opt_csp_report_disposition_from(v: Option<&JsonValue>) -> (r: Option<Option<CSPReportDisposition>>)
    ensures
        r == opt_csp_report_disposition_value(found(v)),
{
    match v {
        None => Some(None),
        Some(JsonValue::Null) => Some(None),
        Some(_) => match csp_report_disposition_from(v) {
            Some(x) => Some(Some(x)),
            None => None,
        },
    }
}

/// The text that names a csp report disposition.
pub open spec fn csp_report_disposition_text(x: CSPReportDisposition) -> Seq<char> {
    match x {
        CSPReportDisposition::Enforce => "enforce"@,
        CSPReportDisposition::Report => "report"@,
    }
}

/// The JSON string that names a csp report disposition.
pub fn csp_report_disposition_json(x: CSPReportDisposition) -> (r: JsonValue)
    ensures
        csp_report_disposition_value(Some(r)) == Some(x),
        jview(r) == JsonView::Str(csp_report_disposition_text(x)),
{
    proof {
        reveal_strlit("enforce");
        assert("enforce"@.len() == 7);
        reveal_strlit("report");
        assert("report"@.len() == 6);
    }
    let s = match x {
        CSPReportDisposition::Enforce => String::from_str("enforce"),
        CSPReportDisposition::Report => String::from_str("report"),
    };
    JsonValue::Str(s)
}

/// A policy violation. Level 3 names its fields in camel case, Level 2 in kebab case; both are read, and the Level 3 names are written.
#[derive(Debug, PartialEq, Eq)]
pub struct CSPViolation {
    pub document_url: String,
    pub referrer: Option<String>,
    pub blocked_url: Option<String>,
    pub effective_directive: String,
    pub violated_directive: Option<String>,
    pub original_policy: String,
    pub sample: Option<String>,
    pub disposition: Option<CSPReportDisposition>,
    pub status_code: Option<u16>,
    pub source_file: Option<String>,
    pub line_number: Option<u64>,
    pub column_number: Option<u64>,
}

/// Whether the members describe `x`. Each field is read under its Level 3 name, else its Level 2 name, else its plain field name.
pub open spec fn csp_violation_decodes(e: Seq<(String, JsonValue)>, x: CSPViolation) -> bool {
    &&& str_value(lookup3(e, "documentURL"@, "document-uri"@, "document_url"@)) == Some(x.document_url)
    &&& opt_str_value(lookup(e, "referrer"@)) == Some(x.referrer)
    &&& opt_str_value(lookup3(e, "blockedURL"@, "blocked-uri"@, "blocked_url"@)) == Some(x.blocked_url)
    &&& str_value(lookup3(e, "effectiveDirective"@, "effective-directive"@, "effective_directive"@)) == Some(x.effective_directive)
    &&& opt_str_value(lookup2(e, "violatedDirective"@, "violated-directive"@)) == Some(x.violated_directive)
    &&& str_value(lookup3(e, "originalPolicy"@, "original-policy"@, "original_policy"@)) == Some(x.original_policy)
    &&& opt_str_value(lookup(e, "sample"@)) == Some(x.sample)
    &&& opt_csp_report_disposition_value(lookup(e, "disposition"@)) == Some(x.disposition)
    &&& opt_uint_value(lookup3(e, "statusCode"@, "status-code"@, "status_code"@), u16::MAX as nat) == Some(if x.status_code.is_some() { Some(x.status_code.unwrap() as nat) } else { None })
    &&& opt_str_value(lookup3(e, "sourceFile"@, "source-file"@, "source_file"@)) == Some(x.source_file)
    &&& opt_uint_value(lookup3(e, "lineNumber"@, "line-number"@, "line_number"@), u64::MAX as nat) == Some(if x.line_number.is_some() { Some(x.line_number.unwrap() as nat) } else { None })
    &&& opt_uint_value(lookup3(e, "columnNumber"@, "column-number"@, "column_number"@), u64::MAX as nat) == Some(if x.column_number.is_some() { Some(x.column_number.unwrap() as nat) } else { None })
}

/// Whether an object's members hold a well-typed csp violation.
pub open spec fn csp_violation_readable(e: Seq<(String, JsonValue)>) -> bool {
    &&& str_value(lookup3(e, "documentURL"@, "document-uri"@, "document_url"@)).is_some()
    &&& opt_str_value(lookup(e, "referrer"@)).is_some()
    &&& opt_str_value(lookup3(e, "blockedURL"@, "blocked-uri"@, "blocked_url"@)).is_some()
    &&& str_value(lookup3(e, "effectiveDirective"@, "effective-directive"@, "effective_directive"@)).is_some()
    &&& opt_str_value(lookup2(e, "violatedDirective"@, "violated-directive"@)).is_some()
    &&& str_value(lookup3(e, "originalPolicy"@, "original-policy"@, "original_policy"@)).is_some()
    &&& opt_str_value(lookup(e, "sample"@)).is_some()
    &&& opt_csp_report_disposition_value(lookup(e, "disposition"@)).is_some()
    &&& opt_uint_value(lookup3(e, "statusCode"@, "status-code"@, "status_code"@), u16::MAX as nat).is_some()
    &&& opt_str_value(lookup3(e, "sourceFile"@, "source-file"@, "source_file"@)).is_some()
    &&& opt_uint_value(lookup3(e, "lineNumber"@, "line-number"@, "line_number"@), u64::MAX as nat).is_some()
    &&& opt_uint_value(lookup3(e, "columnNumber"@, "column-number"@, "column_number"@), u64::MAX as nat).is_some()
}

/// The members that a csp violation is written as, in order.
pub open spec fn csp_violation_json_view(x: CSPViolation) -> Seq<(Seq<char>, JsonView)> {
    let s0 = Seq::empty();
    let s1 = s0.push(("documentURL"@, JsonView::Str(x.document_url@)));
    let s2 = if x.referrer is Some { s1.push(("referrer"@, JsonView::Str(x.referrer.unwrap()@))) } else { s1 };
    let s3 = if x.blocked_url is Some { s2.push(("blockedURL"@, JsonView::Str(x.blocked_url.unwrap()@))) } else { s2 };
    let s4 = s3.push(("effectiveDirective"@, JsonView::Str(x.effective_directive@)));
    let s5 = if x.violated_directive is Some { s4.push(("violatedDirective"@, JsonView::Str(x.violated_directive.unwrap()@))) } else { s4 };
    let s6 = s5.push(("originalPolicy"@, JsonView::Str(x.original_policy@)));
    let s7 = if x.sample is Some { s6.push(("sample"@, JsonView::Str(x.sample.unwrap()@))) } else { s6 };
    let s8 = if x.disposition is Some { s7.push(("disposition"@, JsonView::Str(csp_report_disposition_text(x.disposition.unwrap())))) } else { s7 };
    let s9 = if x.status_code is Some { s8.push(("statusCode"@, JsonView::Number(decimal(x.status_code.unwrap() as nat)))) } else { s8 };
    let s10 = if x.source_file is Some { s9.push(("sourceFile"@, JsonView::Str(x.source_file.unwrap()@))) } else { s9 };
    let s11 = if x.line_number is Some { s10.push(("lineNumber"@, JsonView::Number(decimal(x.line_number.unwrap() as nat)))) } else { s10 };
    let s12 = if x.column_number is Some { s11.push(("columnNumber"@, JsonView::Number(decimal(x.column_number.unwrap() as nat)))) } else { s11 };
    s12
}

impl CSPViolation {
    /// Reads the body from an object's members.
    pub fn decode(e: &Members) -> (r: Option<CSPViolation>)
        ensures
            r.is_some() == csp_violation_readable(e@),
            r.is_some() ==> csp_violation_decodes(e@, r.unwrap()),
    {
        let document_url = match str_from(find3(e, "documentURL", "document-uri", "document_url")) {
            Some(x) => x,
            None => return None,
        };
        let referrer = match opt_str_from(find(e, "referrer")) {
            Some(x) => x,
            None => return None,
        };
        let blocked_url = match opt_str_from(find3(e, "blockedURL", "blocked-uri", "blocked_url")) {
            Some(x) => x,
            None => return None,
        };
        let effective_directive = match str_from(find3(e, "effectiveDirective", "effective-directive", "effective_directive")) {
            Some(x) => x,
            None => return None,
        };
        let violated_directive = match opt_str_from(find2(e, "violatedDirective", "violated-directive")) {
            Some(x) => x,
            None => return None,
        };
        let original_policy = match str_from(find3(e, "originalPolicy", "original-policy", "original_policy")) {
            Some(x) => x,
            None => return None,
        };
        let sample = match opt_str_from(find(e, "sample")) {
            Some(x) => x,
            None => return None,
        };
        let disposition = match opt_csp_report_disposition_from(find(e, "disposition")) {
            Some(x) => x,
            None => return None,
        };
        let status_code = match opt_uint_from(find3(e, "statusCode", "status-code", "status_code"), u16::MAX as u64) {
            Some(x) => x,
            None => return None,
        };
        let source_file = match opt_str_from(find3(e, "sourceFile", "source-file", "source_file")) {
            Some(x) => x,
            None => return None,
        };
        let line_number = match opt_uint_from(find3(e, "lineNumber", "line-number", "line_number"), u64::MAX) {
            Some(x) => x,
            None => return None,
        };
        let column_number = match opt_uint_from(find3(e, "columnNumber", "column-number", "column_number"), u64::MAX) {
            Some(x) => x,
            None => return None,
        };
        Some(CSPViolation {
            document_url,
            referrer,
            blocked_url,
            effective_directive,
            violated_directive,
            original_policy,
            sample,
            disposition,
            status_code: match status_code {
                Some(n) => Some(n as u16),
                None => None,
            },
            source_file,
            line_number: match line_number {
                Some(n) => Some(n as u64),
                None => None,
            },
            column_number: match column_number {
                Some(n) => Some(n as u64),
                None => None,
            },
        })
    }

    /// The members of this body under their canonical names; reading them
    /// back gives this body.
    #[verifier::rlimit(100)]
    #[verifier::spinoff_prover]
    pub fn encode(&self) -> (r: Members)
        ensures
            csp_violation_decodes(r@, *self),
            members_view(r@) == csp_violation_json_view(*self),
    {
        proof {
            reveal_strlit("documentURL");
            assert("documentURL"@.len() == 11);
            reveal_strlit("document-uri");
            assert("document-uri"@.len() == 12);
            reveal_strlit("document_url");
            assert("document_url"@.len() == 12);
            reveal_strlit("referrer");
            assert("referrer"@.len() == 8);
            reveal_strlit("blockedURL");
            assert("blockedURL"@.len() == 10);
            reveal_strlit("blocked-uri");
            assert("blocked-uri"@.len() == 11);
            reveal_strlit("blocked_url");
            assert("blocked_url"@.len() == 11);
            reveal_strlit("effectiveDirective");
            assert("effectiveDirective"@.len() == 18);
            reveal_strlit("effective-directive");
            assert("effective-directive"@.len() == 19);
            reveal_strlit("effective_directive");
            assert("effective_directive"@.len() == 19);
            reveal_strlit("violatedDirective");
            assert("violatedDirective"@.len() == 17);
            reveal_strlit("violated-directive");
            assert("violated-directive"@.len() == 18);
            reveal_strlit("originalPolicy");
            assert("originalPolicy"@.len() == 14);
            reveal_strlit("original-policy");
            assert("original-policy"@.len() == 15);
            reveal_strlit("original_policy");
            assert("original_policy"@.len() == 15);
            reveal_strlit("sample");
            assert("sample"@.len() == 6);
            reveal_strlit("disposition");
            assert("disposition"@.len() == 11);
            reveal_strlit("statusCode");
            assert("statusCode"@.len() == 10);
            reveal_strlit("status-code");
            assert("status-code"@.len() == 11);
            reveal_strlit("status_code");
            assert("status_code"@.len() == 11);
            reveal_strlit("sourceFile");
            assert("sourceFile"@.len() == 10);
            reveal_strlit("source-file");
            assert("source-file"@.len() == 11);
            reveal_strlit("source_file");
            assert("source_file"@.len() == 11);
            reveal_strlit("lineNumber");
            assert("lineNumber"@.len() == 10);
            reveal_strlit("line-number");
            assert("line-number"@.len() == 11);
            reveal_strlit("line_number");
            assert("line_number"@.len() == 11);
            reveal_strlit("columnNumber");
            assert("columnNumber"@.len() == 12);
            reveal_strlit("column-number");
            assert("column-number"@.len() == 13);
            reveal_strlit("column_number");
            assert("column_number"@.len() == 13);
            assert("blocked-uri"@[7] != "blocked_url"@[7]);
            assert("blocked-uri"@[0] != "disposition"@[0]);
            assert("blocked-uri"@[0] != "documentURL"@[0]);
            assert("blocked-uri"@[0] != "line-number"@[0]);
            assert("blocked-uri"@[0] != "line_number"@[0]);
            assert("blocked-uri"@[0] != "source-file"@[0]);
            assert("blocked-uri"@[0] != "source_file"@[0]);
            assert("blocked-uri"@[0] != "status-code"@[0]);
            assert("blocked-uri"@[0] != "status_code"@[0]);
            assert("blockedURL"@[0] != "lineNumber"@[0]);
            assert("blockedURL"@[0] != "sourceFile"@[0]);
            assert("blockedURL"@[0] != "statusCode"@[0]);
            assert("blocked_url"@[0] != "disposition"@[0]);
            assert("blocked_url"@[0] != "documentURL"@[0]);
            assert("blocked_url"@[0] != "line-number"@[0]);
            assert("blocked_url"@[0] != "line_number"@[0]);
            assert("blocked_url"@[0] != "source-file"@[0]);
            assert("blocked_url"@[0] != "source_file"@[0]);
            assert("blocked_url"@[0] != "status-code"@[0]);
            assert("blocked_url"@[0] != "status_code"@[0]);
            assert("column-number"@[6] != "column_number"@[6]);
            assert("columnNumber"@[0] != "document-uri"@[0]);
            assert("columnNumber"@[0] != "document_url"@[0]);
            assert("disposition"@[1] != "documentURL"@[1]);
            assert("disposition"@[0] != "line-number"@[0]);
            assert("disposition"@[0] != "line_number"@[0]);
            assert("disposition"@[0] != "source-file"@[0]);
            assert("disposition"@[0] != "source_file"@[0]);
            assert("disposition"@[0] != "status-code"@[0]);
            assert("disposition"@[0] != "status_code"@[0]);
            assert("document-uri"@[8] != "document_url"@[8]);
            assert("documentURL"@[0] != "line-number"@[0]);
            assert("documentURL"@[0] != "line_number"@[0]);
            assert("documentURL"@[0] != "source-file"@[0]);
            assert("documentURL"@[0] != "source_file"@[0]);
            assert("documentURL"@[0] != "status-code"@[0]);
            assert("documentURL"@[0] != "status_code"@[0]);
            assert("effective-directive"@[9] != "effective_directive"@[9]);
            assert("effectiveDirective"@[0] != "violated-directive"@[0]);
            assert("line-number"@[4] != "line_number"@[4]);
            assert("line-number"@[0] != "source-file"@[0]);
            assert("line-number"@[0] != "source_file"@[0]);
            assert("line-number"@[0] != "status-code"@[0]);
            assert("line-number"@[0] != "status_code"@[0]);
            assert("lineNumber"@[0] != "sourceFile"@[0]);
            assert("lineNumber"@[0] != "statusCode"@[0]);
            assert("line_number"@[0] != "source-file"@[0]);
            assert("line_number"@[0] != "source_file"@[0]);
            assert("line_number"@[0] != "status-code"@[0]);
            assert("line_number"@[0] != "status_code"@[0]);
            assert("original-policy"@[8] != "original_policy"@[8]);
            assert("source-file"@[6] != "source_file"@[6]);
            assert("source-file"@[1] != "status-code"@[1]);
            assert("source-file"@[1] != "status_code"@[1]);
            assert("sourceFile"@[1] != "statusCode"@[1]);
            assert("source_file"@[1] != "status-code"@[1]);
            assert("source_file"@[1] != "status_code"@[1]);
            assert("status-code"@[6] != "status_code"@[6]);
        }
        let mut e: Members = Vec::new();
        assert(members_view(e@) =~= Seq::<(Seq<char>, JsonView)>::empty());
        let ghost before_1 = members_view(e@);
        put(&mut e, "documentURL", JsonValue::Str(self.document_url.clone()));
        assert(members_view(e@) == before_1.push(("documentURL"@, JsonView::Str(self.document_url@))));
        let ghost before_2 = members_view(e@);
        put_opt_str(&mut e, "referrer", &self.referrer);
        assert(members_view(e@) == if self.referrer is Some { before_2.push(("referrer"@, JsonView::Str(self.referrer.unwrap()@))) } else { before_2 });
        let ghost before_3 = members_view(e@);
        put_opt_str(&mut e, "blockedURL", &self.blocked_url);
        assert(members_view(e@) == if self.blocked_url is Some { before_3.push(("blockedURL"@, JsonView::Str(self.blocked_url.unwrap()@))) } else { before_3 });
        let ghost before_4 = members_view(e@);
        put(&mut e, "effectiveDirective", JsonValue::Str(self.effective_directive.clone()));
        assert(members_view(e@) == before_4.push(("effectiveDirective"@, JsonView::Str(self.effective_directive@))));
        let ghost before_5 = members_view(e@);
        put_opt_str(&mut e, "violatedDirective", &self.violated_directive);
        assert(members_view(e@) == if self.violated_directive is Some { before_5.push(("violatedDirective"@, JsonView::Str(self.violated_directive.unwrap()@))) } else { before_5 });
        let ghost before_6 = members_view(e@);
        put(&mut e, "originalPolicy", JsonValue::Str(self.original_policy.clone()));
        assert(members_view(e@) == before_6.push(("originalPolicy"@, JsonView::Str(self.original_policy@))));
        let ghost before_7 = members_view(e@);
        put_opt_str(&mut e, "sample", &self.sample);
        assert(members_view(e@) == if self.sample is Some { before_7.push(("sample"@, JsonView::Str(self.sample.unwrap()@))) } else { before_7 });
        let ghost before_8 = members_view(e@);
        if let Some(x) = self.disposition {
            put(&mut e, "disposition", csp_report_disposition_json(x));
        }
        assert(members_view(e@) == if self.disposition is Some { before_8.push(("disposition"@, JsonView::Str(csp_report_disposition_text(self.disposition.unwrap())))) } else { before_8 });
        let ghost before_9 = members_view(e@);
        put_opt_uint(&mut e, "statusCode", match self.status_code {
            Some(n) => Some(n as u64),
            None => None,
        });
        assert(members_view(e@) == if self.status_code is Some { before_9.push(("statusCode"@, JsonView::Number(decimal(self.status_code.unwrap() as nat)))) } else { before_9 });
        let ghost before_10 = members_view(e@);
        put_opt_str(&mut e, "sourceFile", &self.source_file);
        assert(members_view(e@) == if self.source_file is Some { before_10.push(("sourceFile"@, JsonView::Str(self.source_file.unwrap()@))) } else { before_10 });
        let ghost before_11 = members_view(e@);
        put_opt_uint(&mut e, "lineNumber", self.line_number);
        assert(members_view(e@) == if self.line_number is Some { before_11.push(("lineNumber"@, JsonView::Number(decimal(self.line_number.unwrap() as nat)))) } else { before_11 });
        let ghost before_12 = members_view(e@);
        put_opt_uint(&mut e, "columnNumber", self.column_number);
        assert(members_view(e@) == if self.column_number is Some { before_12.push(("columnNumber"@, JsonView::Number(decimal(self.column_number.unwrap() as nat)))) } else { before_12 });
        assert(str_value(lookup3(e@, "documentURL"@, "document-uri"@, "document_url"@)) == Some(self.document_url)) by {}
        assert(opt_str_value(lookup(e@, "referrer"@)) == Some(self.referrer)) by {}
        assert(opt_str_value(lookup3(e@, "blockedURL"@, "blocked-uri"@, "blocked_url"@)) == Some(self.blocked_url)) by {}
        assert(str_value(lookup3(e@, "effectiveDirective"@, "effective-directive"@, "effective_directive"@)) == Some(self.effective_directive)) by {}
        assert(opt_str_value(lookup2(e@, "violatedDirective"@, "violated-directive"@)) == Some(self.violated_directive)) by {}
        assert(str_value(lookup3(e@, "originalPolicy"@, "original-policy"@, "original_policy"@)) == Some(self.original_policy)) by {}
        assert(opt_str_value(lookup(e@, "sample"@)) == Some(self.sample)) by {}
        assert(opt_csp_report_disposition_value(lookup(e@, "disposition"@)) == Some(self.disposition)) by {}
        assert(opt_uint_value(lookup3(e@, "statusCode"@, "status-code"@, "status_code"@), u16::MAX as nat) == Some(if self.status_code.is_some() { Some(self.status_code.unwrap() as nat) } else { None })) by {}
        assert(opt_str_value(lookup3(e@, "sourceFile"@, "source-file"@, "source_file"@)) == Some(self.source_file)) by {}
        assert(opt_uint_value(lookup3(e@, "lineNumber"@, "line-number"@, "line_number"@), u64::MAX as nat) == Some(if self.line_number.is_some() { Some(self.line_number.unwrap() as nat) } else { None })) by {}
        assert(opt_uint_value(lookup3(e@, "columnNumber"@, "column-number"@, "column_number"@), u64::MAX as nat) == Some(if self.column_number.is_some() { Some(self.column_number.unwrap() as nat) } else { None })) by {}
        e
    }
}

/// A report of the hash of a loaded subresource.
#[derive(Debug, PartialEq, Eq)]
pub struct CSPHash {
    pub document_url: String,
    pub subresource_url: String,
    pub hash: String,
    pub kind: String,
    pub destination: String,
}

/// Whether the members describe `x`.
pub open spec fn csp_hash_decodes(e: Seq<(String, JsonValue)>, x: CSPHash) -> bool {
    &&& str_value(lookup(e, "document_url"@)) == Some(x.document_url)
    &&& str_value(lookup(e, "subresource_url"@)) == Some(x.subresource_url)
    &&& str_value(lookup(e, "hash"@)) == Some(x.hash)
    &&& str_value(lookup(e, "type"@)) == Some(x.kind)
    &&& str_value(lookup(e, "destination"@)) == Some(x.destination)
}

/// Whether an object's members hold a well-typed csp hash.
pub open spec fn csp_hash_readable(e: Seq<(String, JsonValue)>) -> bool {
    &&& str_value(lookup(e, "document_url"@)).is_some()
    &&& str_value(lookup(e, "subresource_url"@)).is_some()
    &&& str_value(lookup(e, "hash"@)).is_some()
    &&& str_value(lookup(e, "type"@)).is_some()
    &&& str_value(lookup(e, "destination"@)).is_some()
}

/// The members that a csp hash is written as, in order.
pub open spec fn csp_hash_json_view(x: CSPHash) -> Seq<(Seq<char>, JsonView)> {
    let s0 = Seq::empty();
    let s1 = s0.push(("document_url"@, JsonView::Str(x.document_url@)));
    let s2 = s1.push(("subresource_url"@, JsonView::Str(x.subresource_url@)));
    let s3 = s2.push(("hash"@, JsonView::Str(x.hash@)));
    let s4 = s3.push(("type"@, JsonView::Str(x.kind@)));
    let s5 = s4.push(("destination"@, JsonView::Str(x.destination@)));
    s5
}

impl CSPHash {
    /// Reads the body from an object's members.
    pub fn decode(e: &Members) -> (r: Option<CSPHash>)
        ensures
            r.is_some() == csp_hash_readable(e@),
            r.is_some() ==> csp_hash_decodes(e@, r.unwrap()),
    {
        let document_url = match str_from(find(e, "document_url")) {
            Some(x) => x,
            None => return None,
        };
        let subresource_url = match str_from(find(e, "subresource_url")) {
            Some(x) => x,
            None => return None,
        };
        let hash = match str_from(find(e, "hash")) {
            Some(x) => x,
            None => return None,
        };
        let kind = match str_from(find(e, "type")) {
            Some(x) => x,
            None => return None,
        };
        let destination = match str_from(find(e, "destination")) {
            Some(x) => x,
            None => return None,
        };
        Some(CSPHash {
            document_url,
            subresource_url,
            hash,
            kind,
            destination,
        })
    }

    /// The members of this body under their canonical names; reading them
    /// back gives this body.
    pub fn encode(&self) -> (r: Members)
        ensures
            csp_hash_decodes(r@, *self),
            members_view(r@) == csp_hash_json_view(*self),
    {
        proof {
            reveal_strlit("document_url");
            assert("document_url"@.len() == 12);
            reveal_strlit("subresource_url");
            assert("subresource_url"@.len() == 15);
            reveal_strlit("hash");
            assert("hash"@.len() == 4);
            reveal_strlit("type");
            assert("type"@.len() == 4);
            reveal_strlit("destination");
            assert("destination"@.len() == 11);
            assert("hash"@[0] != "type"@[0]);
        }
        let mut e: Members = Vec::new();
        assert(members_view(e@) =~= Seq::<(Seq<char>, JsonView)>::empty());
        let ghost before_1 = members_view(e@);
        put(&mut e, "document_url", JsonValue::Str(self.document_url.clone()));
        assert(members_view(e@) == before_1.push(("document_url"@, JsonView::Str(self.document_url@))));
        let ghost before_2 = members_view(e@);
        put(&mut e, "subresource_url", JsonValue::Str(self.subresource_url.clone()));
        assert(members_view(e@) == before_2.push(("subresource_url"@, JsonView::Str(self.subresource_url@))));
        let ghost before_3 = members_view(e@);
        put(&mut e, "hash", JsonValue::Str(self.hash.clone()));
        assert(members_view(e@) == before_3.push(("hash"@, JsonView::Str(self.hash@))));
        let ghost before_4 = members_view(e@);
        put(&mut e, "type", JsonValue::Str(self.kind.clone()));
        assert(members_view(e@) == before_4.push(("type"@, JsonView::Str(self.kind@))));
        let ghost before_5 = members_view(e@);
        put(&mut e, "destination", JsonValue::Str(self.destination.clone()));
        assert(members_view(e@) == before_5.push(("destination"@, JsonView::Str(self.destination@))));
        e
    }
}

/// A CSP Level 2 report, which wraps one violation and has no envelope.
#[derive(Debug, PartialEq, Eq)]
pub struct CSPReport {
    pub csp_report: CSPViolation,
}

/// Whether the members describe `x`.
pub open spec fn csp_report_decodes(e: Seq<(String, JsonValue)>, x: CSPReport) -> bool {
    &&& match lookup2(e, "csp-report"@, "csp_report"@) {
        Some(JsonValue::Object(m)) => csp_violation_decodes(m@, x.csp_report),
        _ => false,
    }
}

/// Whether an object's members hold a well-typed csp report.
pub open spec fn csp_report_readable(e: Seq<(String, JsonValue)>) -> bool {
    &&& match lookup2(e, "csp-report"@, "csp_report"@) {
        Some(JsonValue::Object(m)) => csp_violation_readable(m@),
        _ => false,
    }
}

/// The members that a csp report is written as, in order.
pub open spec fn csp_report_json_view(x: CSPReport) -> Seq<(Seq<char>, JsonView)> {
    let s0 = Seq::empty();
    let s1 = s0.push(("csp-report"@, JsonView::Object(csp_violation_json_view(x.csp_report))));
    s1
}

impl CSPReport {
    /// Reads the body from an object's members.
    pub fn decode(e: &Members) -> (r: Option<CSPReport>)
        ensures
            r.is_some() == csp_report_readable(e@),
            r.is_some() ==> csp_report_decodes(e@, r.unwrap()),
    {
        let csp_report = match match find2(e, "csp-report", "csp_report") {
            Some(JsonValue::Object(m)) => CSPViolation::decode(m),
            _ => None,
        } {
            Some(x) => x,
            None => return None,
        };
        Some(CSPReport {
            csp_report,
        })
    }

    /// The members of this body under their canonical names; reading them
    /// back gives this body.
    pub fn encode(&self) -> (r: Members)
        ensures
            csp_report_decodes(r@, *self),
            members_view(r@) == csp_report_json_view(*self),
    {
        proof {
            reveal_strlit("csp-report");
            assert("csp-report"@.len() == 10);
            reveal_strlit("csp_report");
            assert("csp_report"@.len() == 10);
            assert("csp-report"@[3] != "csp_report"@[3]);
        }
        let mut e: Members = Vec::new();
        assert(members_view(e@) =~= Seq::<(Seq<char>, JsonView)>::empty());
        let ghost before_1 = members_view(e@);
        put(&mut e, "csp-report", JsonValue::Object(self.csp_report.encode()));
        assert(members_view(e@) == before_1.push(("csp-report"@, JsonView::Object(csp_violation_json_view(self.csp_report)))));
        e
    }
}

/// The names of each CSP field that has three: its Level 3 name, its
/// Level 2 name and its plain field name.
pub open spec fn csp_alias_names(a: Seq<char>, b: Seq<char>, c: Seq<char>) -> bool {
    ||| (a == "documentURL"@ && b == "document-uri"@ && c == "document_url"@)
    ||| (a == "blockedURL"@ && b == "blocked-uri"@ && c == "blocked_url"@)
    ||| (a == "effectiveDirective"@ && b == "effective-directive"@ && c == "effective_directive"@)
    ||| (a == "originalPolicy"@ && b == "original-policy"@ && c == "original_policy"@)
    ||| (a == "statusCode"@ && b == "status-code"@ && c == "status_code"@)
    ||| (a == "sourceFile"@ && b == "source-file"@ && c == "source_file"@)
    ||| (a == "lineNumber"@ && b == "line-number"@ && c == "line_number"@)
    ||| (a == "columnNumber"@ && b == "column-number"@ && c == "column_number"@)
}

/// A CSP violation reads the same when one of its fields is given under a
/// Level 2 or plain name as when that member carries the Level 3 name,
/// provided no other member names the same field.
pub proof fn lemma_csp_alias_reads_alike(
    e1: Seq<(String, JsonValue)>,
    e2: Seq<(String, JsonValue)>,
    i: int,
    a: Seq<char>,
    b: Seq<char>,
    c: Seq<char>,
)
    requires
        csp_alias_names(a, b, c),
        0 <= i < e1.len(),
        e2.len() == e1.len(),
        e1[i].0@ == b || e1[i].0@ == c,
        e2[i].0@ == a,
        e2[i].1 == e1[i].1,
        forall|j: int| 0 <= j < e1.len() && j != i ==> #[trigger] e2[j] == e1[j],
        forall|j: int| 0 <= j < e1.len() && j != i ==> (#[trigger] e1[j]).0@ != a && e1[j].0@ != b && e1[j].0@ != c,
    ensures
        csp_violation_readable(e1) == csp_violation_readable(e2),
        forall|x: CSPViolation| csp_violation_decodes(e1, x) == #[trigger] csp_violation_decodes(e2, x),
{
    reveal_strlit("documentURL");
    assert("documentURL"@.len() == 11);
    reveal_strlit("document-uri");
    assert("document-uri"@.len() == 12);
    reveal_strlit("document_url");
    assert("document_url"@.len() == 12);
    reveal_strlit("blockedURL");
    assert("blockedURL"@.len() == 10);
    reveal_strlit("blocked-uri");
    assert("blocked-uri"@.len() == 11);
    reveal_strlit("blocked_url");
    assert("blocked_url"@.len() == 11);
    reveal_strlit("effectiveDirective");
    assert("effectiveDirective"@.len() == 18);
    reveal_strlit("effective-directive");
    assert("effective-directive"@.len() == 19);
    reveal_strlit("effective_directive");
    assert("effective_directive"@.len() == 19);
    reveal_strlit("originalPolicy");
    assert("originalPolicy"@.len() == 14);
    reveal_strlit("original-policy");
    assert("original-policy"@.len() == 15);
    reveal_strlit("original_policy");
    assert("original_policy"@.len() == 15);
    reveal_strlit("statusCode");
    assert("statusCode"@.len() == 10);
    reveal_strlit("status-code");
    assert("status-code"@.len() == 11);
    reveal_strlit("status_code");
    assert("status_code"@.len() == 11);
    reveal_strlit("sourceFile");
    assert("sourceFile"@.len() == 10);
    reveal_strlit("source-file");
    assert("source-file"@.len() == 11);
    reveal_strlit("source_file");
    assert("source_file"@.len() == 11);
    reveal_strlit("lineNumber");
    assert("lineNumber"@.len() == 10);
    reveal_strlit("line-number");
    assert("line-number"@.len() == 11);
    reveal_strlit("line_number");
    assert("line_number"@.len() == 11);
    reveal_strlit("columnNumber");
    assert("columnNumber"@.len() == 12);
    reveal_strlit("column-number");
    assert("column-number"@.len() == 13);
    reveal_strlit("column_number");
    assert("column_number"@.len() == 13);
    reveal_strlit("violatedDirective");
    assert("violatedDirective"@.len() == 17);
    reveal_strlit("violated-directive");
    assert("violated-directive"@.len() == 18);
    reveal_strlit("referrer");
    assert("referrer"@.len() == 8);
    reveal_strlit("sample");
    assert("sample"@.len() == 6);
    reveal_strlit("disposition");
    assert("disposition"@.len() == 11);
    assert("blocked-uri"@[7] != "blocked_url"@[7]);
    assert("blocked-uri"@[0] != "disposition"@[0]);
    assert("blocked-uri"@[0] != "documentURL"@[0]);
    assert("blocked-uri"@[0] != "line-number"@[0]);
    assert("blocked-uri"@[0] != "line_number"@[0]);
    assert("blocked-uri"@[0] != "source-file"@[0]);
    assert("blocked-uri"@[0] != "source_file"@[0]);
    assert("blocked-uri"@[0] != "status-code"@[0]);
    assert("blocked-uri"@[0] != "status_code"@[0]);
    assert("blockedURL"@[0] != "lineNumber"@[0]);
    assert("blockedURL"@[0] != "sourceFile"@[0]);
    assert("blockedURL"@[0] != "statusCode"@[0]);
    assert("blocked_url"@[0] != "disposition"@[0]);
    assert("blocked_url"@[0] != "documentURL"@[0]);
    assert("blocked_url"@[0] != "line-number"@[0]);
    assert("blocked_url"@[0] != "line_number"@[0]);
    assert("blocked_url"@[0] != "source-file"@[0]);
    assert("blocked_url"@[0] != "source_file"@[0]);
    assert("blocked_url"@[0] != "status-code"@[0]);
    assert("blocked_url"@[0] != "status_code"@[0]);
    assert("column-number"@[6] != "column_number"@[6]);
    assert("columnNumber"@[0] != "document-uri"@[0]);
    assert("columnNumber"@[0] != "document_url"@[0]);
    assert("disposition"@[1] != "documentURL"@[1]);
    assert("disposition"@[0] != "line-number"@[0]);
    assert("disposition"@[0] != "line_number"@[0]);
    assert("disposition"@[0] != "source-file"@[0]);
    assert("disposition"@[0] != "source_file"@[0]);
    assert("disposition"@[0] != "status-code"@[0]);
    assert("disposition"@[0] != "status_code"@[0]);
    assert("document-uri"@[8] != "document_url"@[8]);
    assert("documentURL"@[0] != "line-number"@[0]);
    assert("documentURL"@[0] != "line_number"@[0]);
    assert("documentURL"@[0] != "source-file"@[0]);
    assert("documentURL"@[0] != "source_file"@[0]);
    assert("documentURL"@[0] != "status-code"@[0]);
    assert("documentURL"@[0] != "status_code"@[0]);
    assert("effective-directive"@[9] != "effective_directive"@[9]);
    assert("effectiveDirective"@[0] != "violated-directive"@[0]);
    assert("line-number"@[4] != "line_number"@[4]);
    assert("line-number"@[0] != "source-file"@[0]);
    assert("line-number"@[0] != "source_file"@[0]);
    assert("line-number"@[0] != "status-code"@[0]);
    assert("line-number"@[0] != "status_code"@[0]);
    assert("lineNumber"@[0] != "sourceFile"@[0]);
    assert("lineNumber"@[0] != "statusCode"@[0]);
    assert("line_number"@[0] != "source-file"@[0]);
    assert("line_number"@[0] != "source_file"@[0]);
    assert("line_number"@[0] != "status-code"@[0]);
    assert("line_number"@[0] != "status_code"@[0]);
    assert("original-policy"@[8] != "original_policy"@[8]);
    assert("source-file"@[6] != "source_file"@[6]);
    assert("source-file"@[1] != "status-code"@[1]);
    assert("source-file"@[1] != "status_code"@[1]);
    assert("sourceFile"@[1] != "statusCode"@[1]);
    assert("source_file"@[1] != "status-code"@[1]);
    assert("source_file"@[1] != "status_code"@[1]);
    assert("status-code"@[6] != "status_code"@[6]);
    lemma_alias_reads_as_canonical(e1, e2, i, a, b, c);
}

} // verus!
