//! DMARC aggregate reports, as delivered by mail, and their extraction from a message.

use std::io::Read;
use mail_parser::MimeHeaders;
use vstd::prelude::*;
use vstd::string::*;
use crate::json::{repeated, find_all, lemma_lookup_view, lemma_repeated_view, lemma_object_view, JsonValue, JsonView, Members, members_view, jview, decimal, lookup, found, find, str_eq, uint_to_text};
use crate::xml::{xml_tree, tree_of, xml_events_of};
use crate::fields::{text_uint_value, opt_text_uint_value, text_uint_from, opt_text_uint_from, deref_all, strs_from_refs, lemma_strings_jview, lemma_value_views, lemma_str_list_views, strings_jview, str_list_value, strings_view, str_list_from, strings_json, str_value, opt_str_value, uint_value, opt_uint_value, str_from, opt_str_from, uint_from, opt_uint_from, number, put, put_opt_str, put_opt_uint};

verus! {

broadcast use crate::json::lemma_lookup_push, crate::json::lemma_object_view;

/// DKIM or SPF identifier alignment mode.
#[derive(Debug, PartialEq, Eq, Clone, Copy)]
pub enum Alignment {
    Relaxed,
    Strict,
}

/// The alignment that a JSON string names.
pub open spec fn alignment_token(s: Seq<char>) -> Option<Alignment> {
    if s == "r"@ {
        Some(Alignment::Relaxed)
    } else if s == "s"@ {
        Some(Alignment::Strict)
    } else {
        None
    }
}

pub open spec fn alignment_value(v: Option<JsonValue>) -> Option<Alignment> {
    match v {
        Some(JsonValue::Str(s)) => alignment_token(s@),
        _ => None,
    }
}

pub open spec fn opt_alignment_value(v: Option<JsonValue>) -> Option<Option<Alignment>> {
    match v {
        None => Some(None),
        Some(JsonValue::Null) => Some(None),
        _ => if alignment_value(v).is_some() {
            Some(alignment_value(v))
        } else {
            None
        },
    }
}

fn alignment_from(v: Option<&JsonValue>) -> (r: Option<Alignment>)
    ensures
        r == alignment_value(found(v)),
{
    match v {
        Some(JsonValue::Str(s)) => {
            if str_eq(s.as_str(), "r") {
                Some(Alignment::Relaxed)
            } else if str_eq(s.as_str(), "s") {
                Some(Alignment::Strict)
            } else {
                None
            }
        },
        _ => None,
    }
}

fn opt_alignment_from(v: Option<&JsonValue>) -> (r: Option<Option<Alignment>>)
    ensures
        r == opt_alignment_value(found(v)),
{
    match v {
        None => Some(None),
        Some(JsonValue::Null) => Some(None),
        Some(_) => match alignment_from(v) {
            Some(x) => Some(Some(x)),
            None => None,
        },
    }
}

/// The text that names a alignment.
pub open spec fn alignment_text(x: Alignment) -> Seq<char> {
    match x {
        Alignment::Relaxed => "r"@,
        Alignment::Strict => "s"@,
    }
}

/// The JSON string that names a alignment.
pub fn alignment_json(x: Alignment) -> (r: JsonValue)
    ensures
        alignment_value(Some(r)) == Some(x),
        jview(r) == JsonView::Str(alignment_text(x)),
{
    proof {
        reveal_strlit("r");
        assert("r"@.len() == 1);
        reveal_strlit("s");
        assert("s"@.len() == 1);
        assert("r"@[0] != "s"@[0]);
    }
    let s = match x {
        Alignment::Relaxed => String::from_str("r"),
        Alignment::Strict => String::from_str("s"),
    };
    JsonValue::Str(s)
}

/// What the domain owner asks receivers to do with failing mail.
#[derive(Debug, PartialEq, Eq, Clone, Copy)]
pub enum Disposition {
    NoAction,
    Quarantine,
    Reject,
}

/// The disposition that a JSON string names.
pub open spec fn disposition_token(s: Seq<char>) -> Option<Disposition> {
    if s == "none"@ {
        Some(Disposition::NoAction)
    } else if s == "quarantine"@ {
        Some(Disposition::Quarantine)
    } else if s == "reject"@ {
        Some(Disposition::Reject)
    } else {
        None
    }
}

pub open spec fn disposition_value(v: Option<JsonValue>) -> Option<Disposition> {
    match v {
        Some(JsonValue::Str(s)) => disposition_token(s@),
        _ => None,
    }
}

pub open spec fn opt_disposition_value(v: Option<JsonValue>) -> Option<Option<Disposition>> {
    match v {
        None => Some(None),
        Some(JsonValue::Null) => Some(None),
        _ => if disposition_value(v).is_some() {
            Some(disposition_value(v))
        } else {
            None
        },
    }
}

fn disposition_from(v: Option<&JsonValue>) -> (r: Option<Disposition>)
    ensures
        r == disposition_value(found(v)),
{
    match v {
        Some(JsonValue::Str(s)) => {
            if str_eq(s.as_str(), "none") {
                Some(Disposition::NoAction)
            } else if str_eq(s.as_str(), "quarantine") {
                Some(Disposition::Quarantine)
            } else if str_eq(s.as_str(), "reject") {
                Some(Disposition::Reject)
            } else {
                None
            }
        },
        _ => None,
    }
}

fn opt_disposition_from(v: Option<&JsonValue>) -> (r: Option<Option<Disposition>>)
    ensures
        r == opt_disposition_value(found(v)),
{
    match v {
        None => Some(None),
        Some(JsonValue::Null) => Some(None),
        Some(_) => match disposition_from(v) {
            Some(x) => Some(Some(x)),
            None => None,
        },
    }
}

/// The text that names a disposition.
pub open spec fn disposition_text(x: Disposition) -> Seq<char> {
    match x {
        Disposition::NoAction => "none"@,
        Disposition::Quarantine => "quarantine"@,
        Disposition::Reject => "reject"@,
    }
}

/// The JSON string that names a disposition.
pub fn disposition_json(x: Disposition) -> (r: JsonValue)
    ensures
        disposition_value(Some(r)) == Some(x),
        jview(r) == JsonView::Str(disposition_text(x)),
{
    proof {
        reveal_strlit("none");
        assert("none"@.len() == 4);
        reveal_strlit("quarantine");
        assert("quarantine"@.len() == 10);
        reveal_strlit("reject");
        assert("reject"@.len() == 6);
    }
    let s = match x {
        Disposition::NoAction => String::from_str("none"),
        Disposition::Quarantine => String::from_str("quarantine"),
        Disposition::Reject => String::from_str("reject"),
    };
    JsonValue::Str(s)
}

/// The DMARC-aligned outcome of an authentication method.
#[derive(Debug, PartialEq, Eq, Clone, Copy)]
pub enum DMARCResult {
    Pass,
    Fail,
}

/// The dmarc result that a JSON string names.
pub open spec fn dmarc_result_token(s: Seq<char>) -> Option<DMARCResult> {
    if s == "pass"@ {
        Some(DMARCResult::Pass)
    } else if s == "fail"@ {
        Some(DMARCResult::Fail)
    } else {
        None
    }
}

pub open spec fn dmarc_result_value(v: Option<JsonValue>) -> Option<DMARCResult> {
    match v {
        Some(JsonValue::Str(s)) => dmarc_result_token(s@),
        _ => None,
    }
}

pub open spec fn opt_dmarc_result_value(v: Option<JsonValue>) -> Option<Option<DMARCResult>> {
    match v {
        None => Some(None),
        Some(JsonValue::Null) => Some(None),
        _ => if dmarc_result_value(v).is_some() {
            Some(dmarc_result_value(v))
        } else {
            None
        },
    }
}

fn dmarc_result_from(v: Option<&JsonValue>) -> (r: Option<DMARCResult>)
    ensures
        r == dmarc_result_value(found(v)),
{
    match v {
        Some(JsonValue::Str(s)) => {
            if str_eq(s.as_str(), "pass") {
                Some(DMARCResult::Pass)
            } else if str_eq(s.as_str(), "fail") {
                Some(DMARCResult::Fail)
            } else {
                None
            }
        },
        _ => None,
    }
}

fn opt_dmarc_result_from(v: Option<&JsonValue>) -> (r: Option<Option<DMARCResult>>)
    ensures
        r == opt_dmarc_result_value(found(v)),
{
    match v {
        None => Some(None),
        Some(JsonValue::Null) => Some(None),
        Some(_) => match dmarc_result_from(v) {
            Some(x) => Some(Some(x)),
            None => None,
        },
    }
}

/// The text that names a dmarc result.
pub open spec fn dmarc_result_text(x: DMARCResult) -> Seq<char> {
    match x {
        DMARCResult::Pass => "pass"@,
        DMARCResult::Fail => "fail"@,
    }
}

/// The JSON string that names a dmarc result.
pub fn dmarc_result_json(x: DMARCResult) -> (r: JsonValue)
    ensures
        dmarc_result_value(Some(r)) == Some(x),
        jview(r) == JsonView::Str(dmarc_result_text(x)),
{
    proof {
        reveal_strlit("pass");
        assert("pass"@.len() == 4);
        reveal_strlit("fail");
        assert("fail"@.len() == 4);
        assert("fail"@[0] != "pass"@[0]);
    }
    let s = match x {
        DMARCResult::Pass => String::from_str("pass"),
        DMARCResult::Fail => String::from_str("fail"),
    };
    JsonValue::Str(s)
}

/// Why a receiver applied a policy other than the published one.
#[derive(Debug, PartialEq, Eq, Clone, Copy)]
pub enum PolicyOverrideType {
    Forwarded,
    SampledOut,
    TrustedForwarder,
    MailingList,
    LocalPolicy,
    Other,
}

/// The policy override type that a JSON string names.
pub open spec fn policy_override_type_token(s: Seq<char>) -> Option<PolicyOverrideType> {
    if s == "forwarded"@ {
        Some(PolicyOverrideType::Forwarded)
    } else if s == "sampled_out"@ {
        Some(PolicyOverrideType::SampledOut)
    } else if s == "trusted_forwarder"@ {
        Some(PolicyOverrideType::TrustedForwarder)
    } else if s == "mailing_list"@ {
        Some(PolicyOverrideType::MailingList)
    } else if s == "local_policy"@ {
        Some(PolicyOverrideType::LocalPolicy)
    } else if s == "other"@ {
        Some(PolicyOverrideType::Other)
    } else {
        None
    }
}

pub open spec fn policy_override_type_value(v: Option<JsonValue>) -> Option<PolicyOverrideType> {
    match v {
        Some(JsonValue::Str(s)) => policy_override_type_token(s@),
        _ => None,
    }
}

pub open spec fn opt_policy_override_type_value(v: Option<JsonValue>) -> Option<Option<PolicyOverrideType>> {
    match v {
        None => Some(None),
        Some(JsonValue::Null) => Some(None),
        _ => if policy_override_type_value(v).is_some() {
            Some(policy_override_type_value(v))
        } else {
            None
        },
    }
}

fn policy_override_type_from(v: Option<&JsonValue>) -> (r: Option<PolicyOverrideType>)
    ensures
        r == policy_override_type_value(found(v)),
{
    match v {
        Some(JsonValue::Str(s)) => {
            if str_eq(s.as_str(), "forwarded") {
                Some(PolicyOverrideType::Forwarded)
            } else if str_eq(s.as_str(), "sampled_out") {
                Some(PolicyOverrideType::SampledOut)
            } else if str_eq(s.as_str(), "trusted_forwarder") {
                Some(PolicyOverrideType::TrustedForwarder)
            } else if str_eq(s.as_str(), "mailing_list") {
                Some(PolicyOverrideType::MailingList)
            } else if str_eq(s.as_str(), "local_policy") {
                Some(PolicyOverrideType::LocalPolicy)
            } else if str_eq(s.as_str(), "other") {
                Some(PolicyOverrideType::Other)
            } else {
                None
            }
        },
        _ => None,
    }
}

fn opt_policy_override_type_from(v: Option<&JsonValue>) -> (r: Option<Option<PolicyOverrideType>>)
    ensures
        r == opt_policy_override_type_value(found(v)),
{
    match v {
        None => Some(None),
        Some(JsonValue::Null) => Some(None),
        Some(_) => match policy_override_type_from(v) {
            Some(x) => Some(Some(x)),
            None => None,
        },
    }
}

/// The text that names a policy override type.
pub open spec fn policy_override_type_text(x: PolicyOverrideType) -> Seq<char> {
    match x {
        PolicyOverrideType::Forwarded => "forwarded"@,
        PolicyOverrideType::SampledOut => "sampled_out"@,
        PolicyOverrideType::TrustedForwarder => "trusted_forwarder"@,
        PolicyOverrideType::MailingList => "mailing_list"@,
        PolicyOverrideType::LocalPolicy => "local_policy"@,
        PolicyOverrideType::Other => "other"@,
    }
}

/// The JSON string that names a policy override type.
pub fn policy_override_type_json(x: PolicyOverrideType) -> (r: JsonValue)
    ensures
        policy_override_type_value(Some(r)) == Some(x),
        jview(r) == JsonView::Str(policy_override_type_text(x)),
{
    proof {
        reveal_strlit("forwarded");
        assert("forwarded"@.len() == 9);
        reveal_strlit("sampled_out");
        assert("sampled_out"@.len() == 11);
        reveal_strlit("trusted_forwarder");
        assert("trusted_forwarder"@.len() == 17);
        reveal_strlit("mailing_list");
        assert("mailing_list"@.len() == 12);
        reveal_strlit("local_policy");
        assert("local_policy"@.len() == 12);
        reveal_strlit("other");
        assert("other"@.len() == 5);
        assert("local_policy"@[0] != "mailing_list"@[0]);
    }
    let s = match x {
        PolicyOverrideType::Forwarded => String::from_str("forwarded"),
        PolicyOverrideType::SampledOut => String::from_str("sampled_out"),
        PolicyOverrideType::TrustedForwarder => String::from_str("trusted_forwarder"),
        PolicyOverrideType::MailingList => String::from_str("mailing_list"),
        PolicyOverrideType::LocalPolicy => String::from_str("local_policy"),
        PolicyOverrideType::Other => String::from_str("other"),
    };
    JsonValue::Str(s)
}

/// The outcome of a DKIM check.
#[derive(Debug, PartialEq, Eq, Clone, Copy)]
pub enum DKIMResult {
    NoResult,
    Pass,
    Fail,
    Policy,
    Neutral,
    TemporaryError,
    PermanentError,
}

/// The dkim result that a JSON string names.
pub open spec fn dkim_result_token(s: Seq<char>) -> Option<DKIMResult> {
    if s == "none"@ {
        Some(DKIMResult::NoResult)
    } else if s == "pass"@ {
        Some(DKIMResult::Pass)
    } else if s == "fail"@ {
        Some(DKIMResult::Fail)
    } else if s == "policy"@ {
        Some(DKIMResult::Policy)
    } else if s == "neutral"@ {
        Some(DKIMResult::Neutral)
    } else if s == "temperror"@ {
        Some(DKIMResult::TemporaryError)
    } else if s == "permerror"@ {
        Some(DKIMResult::PermanentError)
    } else {
        None
    }
}

pub open spec fn dkim_result_value(v: Option<JsonValue>) -> Option<DKIMResult> {
    match v {
        Some(JsonValue::Str(s)) => dkim_result_token(s@),
        _ => None,
    }
}

pub open spec fn opt_dkim_result_value(v: Option<JsonValue>) -> Option<Option<DKIMResult>> {
    match v {
        None => Some(None),
        Some(JsonValue::Null) => Some(None),
        _ => if dkim_result_value(v).is_some() {
            Some(dkim_result_value(v))
        } else {
            None
        },
    }
}

fn dkim_result_from(v: Option<&JsonValue>) -> (r: Option<DKIMResult>)
    ensures
        r == dkim_result_value(found(v)),
{
    match v {
        Some(JsonValue::Str(s)) => {
            if str_eq(s.as_str(), "none") {
                Some(DKIMResult::NoResult)
            } else if str_eq(s.as_str(), "pass") {
                Some(DKIMResult::Pass)
            } else if str_eq(s.as_str(), "fail") {
                Some(DKIMResult::Fail)
            } else if str_eq(s.as_str(), "policy") {
                Some(DKIMResult::Policy)
            } else if str_eq(s.as_str(), "neutral") {
                Some(DKIMResult::Neutral)
            } else if str_eq(s.as_str(), "temperror") {
                Some(DKIMResult::TemporaryError)
            } else if str_eq(s.as_str(), "permerror") {
                Some(DKIMResult::PermanentError)
            } else {
                None
            }
        },
        _ => None,
    }
}

fn opt_dkim_result_from(v: Option<&JsonValue>) -> (r: Option<Option<DKIMResult>>)
    ensures
        r == opt_dkim_result_value(found(v)),
{
    match v {
        None => Some(None),
        Some(JsonValue::Null) => Some(None),
        Some(_) => match dkim_result_from(v) {
            Some(x) => Some(Some(x)),
            None => None,
        },
    }
}

/// The text that names a dkim result.
pub open spec fn dkim_result_text(x: DKIMResult) -> Seq<char> {
    match x {
        DKIMResult::NoResult => "none"@,
        DKIMResult::Pass => "pass"@,
        DKIMResult::Fail => "fail"@,
        DKIMResult::Policy => "policy"@,
        DKIMResult::Neutral => "neutral"@,
        DKIMResult::TemporaryError => "temperror"@,
        DKIMResult::PermanentError => "permerror"@,
    }
}

/// The JSON string that names a dkim result.
pub fn dkim_result_json(x: DKIMResult) -> (r: JsonValue)
    ensures
        dkim_result_value(Some(r)) == Some(x),
        jview(r) == JsonView::Str(dkim_result_text(x)),
{
    proof {
        reveal_strlit("none");
        assert("none"@.len() == 4);
        reveal_strlit("pass");
        assert("pass"@.len() == 4);
        reveal_strlit("fail");
        assert("fail"@.len() == 4);
        reveal_strlit("policy");
        assert("policy"@.len() == 6);
        reveal_strlit("neutral");
        assert("neutral"@.len() == 7);
        reveal_strlit("temperror");
        assert("temperror"@.len() == 9);
        reveal_strlit("permerror");
        assert("permerror"@.len() == 9);
        assert("fail"@[0] != "none"@[0]);
        assert("fail"@[0] != "pass"@[0]);
        assert("none"@[0] != "pass"@[0]);
        assert("permerror"@[0] != "temperror"@[0]);
    }
    let s = match x {
        DKIMResult::NoResult => String::from_str("none"),
        DKIMResult::Pass => String::from_str("pass"),
        DKIMResult::Fail => String::from_str("fail"),
        DKIMResult::Policy => String::from_str("policy"),
        DKIMResult::Neutral => String::from_str("neutral"),
        DKIMResult::TemporaryError => String::from_str("temperror"),
        DKIMResult::PermanentError => String::from_str("permerror"),
    };
    JsonValue::Str(s)
}

/// Which identity SPF checked.
#[derive(Debug, PartialEq, Eq, Clone, Copy)]
pub enum SPFDomainScope {
    Helo,
    MailFrom,
}

/// The spf domain scope that a JSON string names.
pub open spec fn spf_domain_scope_token(s: Seq<char>) -> Option<SPFDomainScope> {
    if s == "helo"@ {
        Some(SPFDomainScope::Helo)
    } else if s == "mfrom"@ {
        Some(SPFDomainScope::MailFrom)
    } else {
        None
    }
}

pub open spec fn spf_domain_scope_value(v: Option<JsonValue>) -> Option<SPFDomainScope> {
    match v {
        Some(JsonValue::Str(s)) => spf_domain_scope_token(s@),
        _ => None,
    }
}

pub open spec fn opt_spf_domain_scope_value(v: Option<JsonValue>) -> Option<Option<SPFDomainScope>> {
    match v {
        None => Some(None),
        Some(JsonValue::Null) => Some(None),
        _ => if spf_domain_scope_value(v).is_some() {
            Some(spf_domain_scope_value(v))
        } else {
            None
        },
    }
}

fn spf_domain_scope_from(v: Option<&JsonValue>) -> (r: Option<SPFDomainScope>)
    ensures
        r == spf_domain_scope_value(found(v)),
{
    match v {
        Some(JsonValue::Str(s)) => {
            if str_eq(s.as_str(), "helo") {
                Some(SPFDomainScope::Helo)
            } else if str_eq(s.as_str(), "mfrom") {
                Some(SPFDomainScope::MailFrom)
            } else {
                None
            }
        },
        _ => None,
    }
}

fn opt_spf_domain_scope_from(v: Option<&JsonValue>) -> (r: Option<Option<SPFDomainScope>>)
    ensures
        r == opt_spf_domain_scope_value(found(v)),
{
    match v {
        None => Some(None),
        Some(JsonValue::Null) => Some(None),
        Some(_) => match spf_domain_scope_from(v) {
            Some(x) => Some(Some(x)),
            None => None,
        },
    }
}

/// The text that names a spf domain scope.
pub open spec fn spf_domain_scope_text(x: SPFDomainScope) -> Seq<char> {
    match x {
        SPFDomainScope::Helo => "helo"@,
        SPFDomainScope::MailFrom => "mfrom"@,
    }
}

/// The JSON string that names a spf domain scope.
pub fn spf_domain_scope_json(x: SPFDomainScope) -> (r: JsonValue)
    ensures
        spf_domain_scope_value(Some(r)) == Some(x),
        jview(r) == JsonView::Str(spf_domain_scope_text(x)),
{
    proof {
        reveal_strlit("helo");
        assert("helo"@.len() == 4);
        reveal_strlit("mfrom");
        assert("mfrom"@.len() == 5);
    }
    let s = match x {
        SPFDomainScope::Helo => String::from_str("helo"),
        SPFDomainScope::MailFrom => String::from_str("mfrom"),
    };
    JsonValue::Str(s)
}

/// The outcome of an SPF check.
#[derive(Debug, PartialEq, Eq, Clone, Copy)]
pub enum SPFResult {
    NoResult,
    Neutral,
    Pass,
    Fail,
    Softfail,
    TemporaryError,
    PermanentError,
}

/// The spf result that a JSON string names.
pub open spec fn spf_result_token(s: Seq<char>) -> Option<SPFResult> {
    if s == "none"@ {
        Some(SPFResult::NoResult)
    } else if s == "neutral"@ {
        Some(SPFResult::Neutral)
    } else if s == "pass"@ {
        Some(SPFResult::Pass)
    } else if s == "fail"@ {
        Some(SPFResult::Fail)
    } else if s == "softfail"@ {
        Some(SPFResult::Softfail)
    } else if s == "temperror"@ {
        Some(SPFResult::TemporaryError)
    } else if s == "permerror"@ {
        Some(SPFResult::PermanentError)
    } else {
        None
    }
}

pub open spec fn spf_result_value(v: Option<JsonValue>) -> Option<SPFResult> {
    match v {
        Some(JsonValue::Str(s)) => spf_result_token(s@),
        _ => None,
    }
}

pub open spec fn opt_spf_result_value(v: Option<JsonValue>) -> Option<Option<SPFResult>> {
    match v {
        None => Some(None),
        Some(JsonValue::Null) => Some(None),
        _ => if spf_result_value(v).is_some() {
            Some(spf_result_value(v))
        } else {
            None
        },
    }
}

fn spf_result_from(v: Option<&JsonValue>) -> (r: Option<SPFResult>)
    ensures
        r == spf_result_value(found(v)),
{
    match v {
        Some(JsonValue::Str(s)) => {
            if str_eq(s.as_str(), "none") {
                Some(SPFResult::NoResult)
            } else if str_eq(s.as_str(), "neutral") {
                Some(SPFResult::Neutral)
            } else if str_eq(s.as_str(), "pass") {
                Some(SPFResult::Pass)
            } else if str_eq(s.as_str(), "fail") {
                Some(SPFResult::Fail)
            } else if str_eq(s.as_str(), "softfail") {
                Some(SPFResult::Softfail)
            } else if str_eq(s.as_str(), "temperror") {
                Some(SPFResult::TemporaryError)
            } else if str_eq(s.as_str(), "permerror") {
                Some(SPFResult::PermanentError)
            } else {
                None
            }
        },
        _ => None,
    }
}

fn opt_spf_result_from(v: Option<&JsonValue>) -> (r: Option<Option<SPFResult>>)
    ensures
        r == opt_spf_result_value(found(v)),
{
    match v {
        None => Some(None),
        Some(JsonValue::Null) => Some(None),
        Some(_) => match spf_result_from(v) {
            Some(x) => Some(Some(x)),
            None => None,
        },
    }
}

/// The text that names a spf result.
pub open spec fn spf_result_text(x: SPFResult) -> Seq<char> {
    match x {
        SPFResult::NoResult => "none"@,
        SPFResult::Neutral => "neutral"@,
        SPFResult::Pass => "pass"@,
        SPFResult::Fail => "fail"@,
        SPFResult::Softfail => "softfail"@,
        SPFResult::TemporaryError => "temperror"@,
        SPFResult::PermanentError => "permerror"@,
    }
}

/// The JSON string that names a spf result.
pub fn spf_result_json(x: SPFResult) -> (r: JsonValue)
    ensures
        spf_result_value(Some(r)) == Some(x),
        jview(r) == JsonView::Str(spf_result_text(x)),
{
    proof {
        reveal_strlit("none");
        assert("none"@.len() == 4);
        reveal_strlit("neutral");
        assert("neutral"@.len() == 7);
        reveal_strlit("pass");
        assert("pass"@.len() == 4);
        reveal_strlit("fail");
        assert("fail"@.len() == 4);
        reveal_strlit("softfail");
        assert("softfail"@.len() == 8);
        reveal_strlit("temperror");
        assert("temperror"@.len() == 9);
        reveal_strlit("permerror");
        assert("permerror"@.len() == 9);
        assert("fail"@[0] != "none"@[0]);
        assert("fail"@[0] != "pass"@[0]);
        assert("none"@[0] != "pass"@[0]);
        assert("permerror"@[0] != "temperror"@[0]);
    }
    let s = match x {
        SPFResult::NoResult => String::from_str("none"),
        SPFResult::Neutral => String::from_str("neutral"),
        SPFResult::Pass => String::from_str("pass"),
        SPFResult::Fail => String::from_str("fail"),
        SPFResult::Softfail => String::from_str("softfail"),
        SPFResult::TemporaryError => String::from_str("temperror"),
        SPFResult::PermanentError => String::from_str("permerror"),
    };
    JsonValue::Str(s)
}

/// The period a report covers, in seconds since the epoch.
#[derive(Debug, PartialEq, Eq)]
pub struct DateRange {
    pub begin: u64,
    pub end: u64,
}

/// Whether the members of a JSON object describe `x`.
pub open spec fn date_range_decodes(e: Seq<(String, JsonValue)>, x: DateRange) -> bool {
    &&& uint_value(lookup(e, "begin"@), u64::MAX as nat) == Some(x.begin as nat)
    &&& uint_value(lookup(e, "end"@), u64::MAX as nat) == Some(x.end as nat)
}

/// Whether an object's members hold a well-typed date range.
pub open spec fn date_range_readable(e: Seq<(String, JsonValue)>) -> bool {
    &&& uint_value(lookup(e, "begin"@), u64::MAX as nat).is_some()
    &&& uint_value(lookup(e, "end"@), u64::MAX as nat).is_some()
}

/// The members that a date range is written as, in order.
pub open spec fn date_range_json_view(x: DateRange) -> Seq<(Seq<char>, JsonView)> {
    let s0 = Seq::empty();
    let s1 = s0.push(("begin"@, JsonView::Number(decimal(x.begin as nat))));
    let s2 = s1.push(("end"@, JsonView::Number(decimal(x.end as nat))));
    s2
}

impl DateRange {
    /// Reads the body from an object's members.
    pub fn decode(e: &Members) -> (r: Option<DateRange>)
        ensures
            r.is_some() == date_range_readable(e@),
            r.is_some() ==> date_range_decodes(e@, r.unwrap()),
    {
        let begin = match uint_from(find(e, "begin"), u64::MAX) {
            Some(x) => x,
            None => return None,
        };
        let end = match uint_from(find(e, "end"), u64::MAX) {
            Some(x) => x,
            None => return None,
        };
        Some(DateRange {
            begin: begin as u64,
            end: end as u64,
        })
    }

    /// The members of this body under their canonical names; reading them
    /// back gives this body.
    pub fn encode(&self) -> (r: Members)
        ensures
            date_range_decodes(r@, *self),
            members_view(r@) == date_range_json_view(*self),
    {
        proof {
            reveal_strlit("begin");
            assert("begin"@.len() == 5);
            reveal_strlit("end");
            assert("end"@.len() == 3);
        }
        let mut e: Members = Vec::new();
        assert(members_view(e@) =~= Seq::<(Seq<char>, JsonView)>::empty());
        let ghost before_1 = members_view(e@);
        put(&mut e, "begin", number(self.begin));
        assert(members_view(e@) == before_1.push(("begin"@, JsonView::Number(decimal(self.begin as nat)))));
        let ghost before_2 = members_view(e@);
        put(&mut e, "end", number(self.end));
        assert(members_view(e@) == before_2.push(("end"@, JsonView::Number(decimal(self.end as nat)))));
        e
    }
}

/// Whether the members of a markup element describe `x`: numbers are text,
/// and a list is the run of child elements that share its name.
pub open spec fn date_range_xml_decodes(e: Seq<(String, JsonValue)>, x: DateRange) -> bool {
    &&& text_uint_value(lookup(e, "begin"@), u64::MAX as nat) == Some(x.begin as nat)
    &&& text_uint_value(lookup(e, "end"@), u64::MAX as nat) == Some(x.end as nat)
}

pub open spec fn date_range_xml_readable(e: Seq<(String, JsonValue)>) -> bool {
    &&& text_uint_value(lookup(e, "begin"@), u64::MAX as nat).is_some()
    &&& text_uint_value(lookup(e, "end"@), u64::MAX as nat).is_some()
}

impl DateRange {
    /// Reads the value from the members of a markup element.
    pub fn from_xml(e: &Members) -> (r: Option<DateRange>)
        ensures
            r.is_some() == date_range_xml_readable(e@),
            r.is_some() ==> date_range_xml_decodes(e@, r.unwrap()),
    {
        let begin = match text_uint_from(find(e, "begin"), u64::MAX) {
            Some(x) => x,
            None => return None,
        };
        let end = match text_uint_from(find(e, "end"), u64::MAX) {
            Some(x) => x,
            None => return None,
        };
        Some(DateRange {
            begin: begin as u64,
            end: end as u64,
        })
    }
}

/// Members with the same view hold a readable date range alike.
pub proof fn lemma_date_range_xml_readable_view(e1: Seq<(String, JsonValue)>, e2: Seq<(String, JsonValue)>)
    requires
        members_view(e1) == members_view(e2),
    ensures
        date_range_xml_readable(e1) == date_range_xml_readable(e2),
{
    lemma_lookup_view(e1, e2, "begin"@);
    lemma_value_views(lookup(e1, "begin"@), lookup(e2, "begin"@), u64::MAX as nat);
    lemma_lookup_view(e1, e2, "end"@);
    lemma_value_views(lookup(e1, "end"@), lookup(e2, "end"@), u64::MAX as nat);
}

/// Members with the same view describe date range values with the same JSON view.
pub proof fn lemma_date_range_xml_decodes_view(e1: Seq<(String, JsonValue)>, e2: Seq<(String, JsonValue)>, x: DateRange, y: DateRange)
    requires
        members_view(e1) == members_view(e2),
        date_range_xml_decodes(e1, x),
        date_range_xml_decodes(e2, y),
    ensures
        date_range_json_view(x) == date_range_json_view(y),
{
    lemma_lookup_view(e1, e2, "begin"@);
    lemma_value_views(lookup(e1, "begin"@), lookup(e2, "begin"@), u64::MAX as nat);
    lemma_lookup_view(e1, e2, "end"@);
    lemma_value_views(lookup(e1, "end"@), lookup(e2, "end"@), u64::MAX as nat);
}

/// Who sent a report, and about which period.
#[derive(Debug, PartialEq, Eq)]
pub struct ReportMetadata {
    pub org_name: String,
    pub email: String,
    pub extra_contact_info: Option<String>,
    pub report_id: String,
    pub date_range: DateRange,
    pub error: Vec<String>,
}

/// Whether the members of a JSON object describe `x`.
pub open spec fn report_metadata_decodes(e: Seq<(String, JsonValue)>, x: ReportMetadata) -> bool {
    &&& str_value(lookup(e, "org_name"@)) == Some(x.org_name)
    &&& str_value(lookup(e, "email"@)) == Some(x.email)
    &&& opt_str_value(lookup(e, "extra_contact_info"@)) == Some(x.extra_contact_info)
    &&& str_value(lookup(e, "report_id"@)) == Some(x.report_id)
    &&& match lookup(e, "date_range"@) {
        Some(JsonValue::Object(m)) => date_range_decodes(m@, x.date_range),
        _ => false,
    }
    &&& match lookup(e, "error"@) {
        Some(JsonValue::Array(a)) => str_list_value(a@) == Some(strings_view(x.error@)),
        _ => false,
    }
}

/// Whether an object's members hold a well-typed report metadata.
pub open spec fn report_metadata_readable(e: Seq<(String, JsonValue)>) -> bool {
    &&& str_value(lookup(e, "org_name"@)).is_some()
    &&& str_value(lookup(e, "email"@)).is_some()
    &&& opt_str_value(lookup(e, "extra_contact_info"@)).is_some()
    &&& str_value(lookup(e, "report_id"@)).is_some()
    &&& match lookup(e, "date_range"@) {
        Some(JsonValue::Object(m)) => date_range_readable(m@),
        _ => false,
    }
    &&& match lookup(e, "error"@) {
        Some(JsonValue::Array(a)) => str_list_value(a@).is_some(),
        _ => false,
    }
}

/// The members that a report metadata is written as, in order.
pub open spec fn report_metadata_json_view(x: ReportMetadata) -> Seq<(Seq<char>, JsonView)> {
    let s0 = Seq::empty();
    let s1 = s0.push(("org_name"@, JsonView::Str(x.org_name@)));
    let s2 = s1.push(("email"@, JsonView::Str(x.email@)));
    let s3 = if x.extra_contact_info is Some { s2.push(("extra_contact_info"@, JsonView::Str(x.extra_contact_info.unwrap()@))) } else { s2 };
    let s4 = s3.push(("report_id"@, JsonView::Str(x.report_id@)));
    let s5 = s4.push(("date_range"@, JsonView::Object(date_range_json_view(x.date_range))));
    let s6 = s5.push(("error"@, JsonView::Array(strings_jview(x.error@))));
    s6
}

impl ReportMetadata {
    /// Reads the body from an object's members.
    pub fn decode(e: &Members) -> (r: Option<ReportMetadata>)
        ensures
            r.is_some() == report_metadata_readable(e@),
            r.is_some() ==> report_metadata_decodes(e@, r.unwrap()),
    {
        let org_name = match str_from(find(e, "org_name")) {
            Some(x) => x,
            None => return None,
        };
        let email = match str_from(find(e, "email")) {
            Some(x) => x,
            None => return None,
        };
        let extra_contact_info = match opt_str_from(find(e, "extra_contact_info")) {
            Some(x) => x,
            None => return None,
        };
        let report_id = match str_from(find(e, "report_id")) {
            Some(x) => x,
            None => return None,
        };
        let date_range = match match find(e, "date_range") {
            Some(JsonValue::Object(m)) => DateRange::decode(m),
            _ => None,
        } {
            Some(x) => x,
            None => return None,
        };
        let error = match match find(e, "error") {
            Some(JsonValue::Array(a)) => str_list_from(a),
            _ => None,
        } {
            Some(x) => x,
            None => return None,
        };
        Some(ReportMetadata {
            org_name,
            email,
            extra_contact_info,
            report_id,
            date_range,
            error,
        })
    }

    /// The members of this body under their canonical names; reading them
    /// back gives this body.
    #[verifier::rlimit(100)]
    #[verifier::spinoff_prover]
    pub fn encode(&self) -> (r: Members)
        ensures
            report_metadata_decodes(r@, *self),
            members_view(r@) == report_metadata_json_view(*self),
    {
        proof {
            reveal_strlit("org_name");
            assert("org_name"@.len() == 8);
            reveal_strlit("email");
            assert("email"@.len() == 5);
            reveal_strlit("extra_contact_info");
            assert("extra_contact_info"@.len() == 18);
            reveal_strlit("report_id");
            assert("report_id"@.len() == 9);
            reveal_strlit("date_range");
            assert("date_range"@.len() == 10);
            reveal_strlit("error");
            assert("error"@.len() == 5);
            assert("email"@[1] != "error"@[1]);
        }
        let mut e: Members = Vec::new();
        assert(members_view(e@) =~= Seq::<(Seq<char>, JsonView)>::empty());
        let ghost before_1 = members_view(e@);
        put(&mut e, "org_name", JsonValue::Str(self.org_name.clone()));
        assert(members_view(e@) == before_1.push(("org_name"@, JsonView::Str(self.org_name@))));
        let ghost before_2 = members_view(e@);
        put(&mut e, "email", JsonValue::Str(self.email.clone()));
        assert(members_view(e@) == before_2.push(("email"@, JsonView::Str(self.email@))));
        let ghost before_3 = members_view(e@);
        put_opt_str(&mut e, "extra_contact_info", &self.extra_contact_info);
        assert(members_view(e@) == if self.extra_contact_info is Some { before_3.push(("extra_contact_info"@, JsonView::Str(self.extra_contact_info.unwrap()@))) } else { before_3 });
        let ghost before_4 = members_view(e@);
        put(&mut e, "report_id", JsonValue::Str(self.report_id.clone()));
        assert(members_view(e@) == before_4.push(("report_id"@, JsonView::Str(self.report_id@))));
        let ghost before_5 = members_view(e@);
        put(&mut e, "date_range", JsonValue::Object(self.date_range.encode()));
        assert(members_view(e@) == before_5.push(("date_range"@, JsonView::Object(date_range_json_view(self.date_range)))));
        let ghost before_6 = members_view(e@);
        put(&mut e, "error", strings_json(&self.error));
        assert(members_view(e@) == before_6.push(("error"@, JsonView::Array(strings_jview(self.error@)))));
        e
    }
}

/// Whether the members of a markup element describe `x`: numbers are text,
/// and a list is the run of child elements that share its name.
pub open spec fn report_metadata_xml_decodes(e: Seq<(String, JsonValue)>, x: ReportMetadata) -> bool {
    &&& str_value(lookup(e, "org_name"@)) == Some(x.org_name)
    &&& str_value(lookup(e, "email"@)) == Some(x.email)
    &&& opt_str_value(lookup(e, "extra_contact_info"@)) == Some(x.extra_contact_info)
    &&& str_value(lookup(e, "report_id"@)) == Some(x.report_id)
    &&& match lookup(e, "date_range"@) {
        Some(JsonValue::Object(m)) => date_range_xml_decodes(m@, x.date_range),
        _ => false,
    }
    &&& str_list_value(repeated(e, "error"@)) == Some(strings_view(x.error@))
}

pub open spec fn report_metadata_xml_readable(e: Seq<(String, JsonValue)>) -> bool {
    &&& str_value(lookup(e, "org_name"@)).is_some()
    &&& str_value(lookup(e, "email"@)).is_some()
    &&& opt_str_value(lookup(e, "extra_contact_info"@)).is_some()
    &&& str_value(lookup(e, "report_id"@)).is_some()
    &&& match lookup(e, "date_range"@) {
        Some(JsonValue::Object(m)) => date_range_xml_readable(m@),
        _ => false,
    }
    &&& str_list_value(repeated(e, "error"@)).is_some()
}

impl ReportMetadata {
    /// Reads the value from the members of a markup element.
    pub fn from_xml(e: &Members) -> (r: Option<ReportMetadata>)
        ensures
            r.is_some() == report_metadata_xml_readable(e@),
            r.is_some() ==> report_metadata_xml_decodes(e@, r.unwrap()),
    {
        let org_name = match str_from(find(e, "org_name")) {
            Some(x) => x,
            None => return None,
        };
        let email = match str_from(find(e, "email")) {
            Some(x) => x,
            None => return None,
        };
        let extra_contact_info = match opt_str_from(find(e, "extra_contact_info")) {
            Some(x) => x,
            None => return None,
        };
        let report_id = match str_from(find(e, "report_id")) {
            Some(x) => x,
            None => return None,
        };
        let date_range = match match find(e, "date_range") {
            Some(JsonValue::Object(m)) => DateRange::from_xml(m),
            _ => None,
        } {
            Some(x) => x,
            None => return None,
        };
        let error_run = find_all(e, "error");
        assert(deref_all(error_run@) =~= repeated(e@, "error"@));
        let error = match strs_from_refs(&error_run) {
            Some(x) => x,
            None => return None,
        };
        Some(ReportMetadata {
            org_name,
            email,
            extra_contact_info,
            report_id,
            date_range,
            error,
        })
    }
}

/// Members with the same view hold a readable report metadata alike.
pub proof fn lemma_report_metadata_xml_readable_view(e1: Seq<(String, JsonValue)>, e2: Seq<(String, JsonValue)>)
    requires
        members_view(e1) == members_view(e2),
    ensures
        report_metadata_xml_readable(e1) == report_metadata_xml_readable(e2),
{
    lemma_lookup_view(e1, e2, "org_name"@);
    lemma_value_views(lookup(e1, "org_name"@), lookup(e2, "org_name"@), 0);
    lemma_lookup_view(e1, e2, "email"@);
    lemma_value_views(lookup(e1, "email"@), lookup(e2, "email"@), 0);
    lemma_lookup_view(e1, e2, "extra_contact_info"@);
    lemma_value_views(lookup(e1, "extra_contact_info"@), lookup(e2, "extra_contact_info"@), 0);
    lemma_lookup_view(e1, e2, "report_id"@);
    lemma_value_views(lookup(e1, "report_id"@), lookup(e2, "report_id"@), 0);
    lemma_lookup_view(e1, e2, "date_range"@);
    match (lookup(e1, "date_range"@), lookup(e2, "date_range"@)) {
        (Some(JsonValue::Object(m1)), Some(JsonValue::Object(m2))) => {
            lemma_object_view(m1);
            lemma_object_view(m2);
            lemma_date_range_xml_readable_view(m1@, m2@);
        },
        _ => {},
    }
    lemma_repeated_view(e1, e2, "error"@);
    lemma_str_list_views(repeated(e1, "error"@), repeated(e2, "error"@));
}

/// Members with the same view describe report metadata values with the same JSON view.
pub proof fn lemma_report_metadata_xml_decodes_view(e1: Seq<(String, JsonValue)>, e2: Seq<(String, JsonValue)>, x: ReportMetadata, y: ReportMetadata)
    requires
        members_view(e1) == members_view(e2),
        report_metadata_xml_decodes(e1, x),
        report_metadata_xml_decodes(e2, y),
    ensures
        report_metadata_json_view(x) == report_metadata_json_view(y),
{
    lemma_lookup_view(e1, e2, "org_name"@);
    lemma_value_views(lookup(e1, "org_name"@), lookup(e2, "org_name"@), 0);
    lemma_lookup_view(e1, e2, "email"@);
    lemma_value_views(lookup(e1, "email"@), lookup(e2, "email"@), 0);
    lemma_lookup_view(e1, e2, "extra_contact_info"@);
    lemma_value_views(lookup(e1, "extra_contact_info"@), lookup(e2, "extra_contact_info"@), 0);
    lemma_lookup_view(e1, e2, "report_id"@);
    lemma_value_views(lookup(e1, "report_id"@), lookup(e2, "report_id"@), 0);
    lemma_lookup_view(e1, e2, "date_range"@);
    match (lookup(e1, "date_range"@), lookup(e2, "date_range"@)) {
        (Some(JsonValue::Object(m1)), Some(JsonValue::Object(m2))) => {
            lemma_date_range_xml_decodes_view(m1@, m2@, x.date_range, y.date_range);
        },
        _ => {},
    }
    lemma_repeated_view(e1, e2, "error"@);
    lemma_str_list_views(repeated(e1, "error"@), repeated(e2, "error"@));
    lemma_strings_jview(x.error@, y.error@);
}

/// The policy that the domain published.
#[derive(Debug, PartialEq, Eq)]
pub struct PolicyPublished {
    pub domain: String,
    pub adkim: Option<Alignment>,
    pub aspf: Option<Alignment>,
    pub p: Disposition,
    pub sp: Option<Disposition>,
    pub pct: Option<u8>,
    pub fo: Option<String>,
}

/// Whether the members of a JSON object describe `x`.
pub open spec fn policy_published_decodes(e: Seq<(String, JsonValue)>, x: PolicyPublished) -> bool {
    &&& str_value(lookup(e, "domain"@)) == Some(x.domain)
    &&& opt_alignment_value(lookup(e, "adkim"@)) == Some(x.adkim)
    &&& opt_alignment_value(lookup(e, "aspf"@)) == Some(x.aspf)
    &&& disposition_value(lookup(e, "p"@)) == Some(x.p)
    &&& opt_disposition_value(lookup(e, "sp"@)) == Some(x.sp)
    &&& opt_uint_value(lookup(e, "pct"@), u8::MAX as nat) == Some(if x.pct.is_some() { Some(x.pct.unwrap() as nat) } else { None })
    &&& opt_str_value(lookup(e, "fo"@)) == Some(x.fo)
}

/// Whether an object's members hold a well-typed policy published.
pub open spec fn policy_published_readable(e: Seq<(String, JsonValue)>) -> bool {
    &&& str_value(lookup(e, "domain"@)).is_some()
    &&& opt_alignment_value(lookup(e, "adkim"@)).is_some()
    &&& opt_alignment_value(lookup(e, "aspf"@)).is_some()
    &&& disposition_value(lookup(e, "p"@)).is_some()
    &&& opt_disposition_value(lookup(e, "sp"@)).is_some()
    &&& opt_uint_value(lookup(e, "pct"@), u8::MAX as nat).is_some()
    &&& opt_str_value(lookup(e, "fo"@)).is_some()
}

/// The members that a policy published is written as, in order.
pub open spec fn policy_published_json_view(x: PolicyPublished) -> Seq<(Seq<char>, JsonView)> {
    let s0 = Seq::empty();
    let s1 = s0.push(("domain"@, JsonView::Str(x.domain@)));
    let s2 = if x.adkim is Some { s1.push(("adkim"@, JsonView::Str(alignment_text(x.adkim.unwrap())))) } else { s1 };
    let s3 = if x.aspf is Some { s2.push(("aspf"@, JsonView::Str(alignment_text(x.aspf.unwrap())))) } else { s2 };
    let s4 = s3.push(("p"@, JsonView::Str(disposition_text(x.p))));
    let s5 = if x.sp is Some { s4.push(("sp"@, JsonView::Str(disposition_text(x.sp.unwrap())))) } else { s4 };
    let s6 = if x.pct is Some { s5.push(("pct"@, JsonView::Number(decimal(x.pct.unwrap() as nat)))) } else { s5 };
    let s7 = if x.fo is Some { s6.push(("fo"@, JsonView::Str(x.fo.unwrap()@))) } else { s6 };
    s7
}

impl PolicyPublished {
    /// Reads the body from an object's members.
    pub fn decode(e: &Members) -> (r: Option<PolicyPublished>)
        ensures
            r.is_some() == policy_published_readable(e@),
            r.is_some() ==> policy_published_decodes(e@, r.unwrap()),
    {
        let domain = match str_from(find(e, "domain")) {
            Some(x) => x,
            None => return None,
        };
        let adkim = match opt_alignment_from(find(e, "adkim")) {
            Some(x) => x,
            None => return None,
        };
        let aspf = match opt_alignment_from(find(e, "aspf")) {
            Some(x) => x,
            None => return None,
        };
        let p = match disposition_from(find(e, "p")) {
            Some(x) => x,
            None => return None,
        };
        let sp = match opt_disposition_from(find(e, "sp")) {
            Some(x) => x,
            None => return None,
        };
        let pct = match opt_uint_from(find(e, "pct"), u8::MAX as u64) {
            Some(x) => x,
            None => return None,
        };
        let fo = match opt_str_from(find(e, "fo")) {
            Some(x) => x,
            None => return None,
        };
        Some(PolicyPublished {
            domain,
            adkim,
            aspf,
            p,
            sp,
            pct: match pct {
                Some(n) => Some(n as u8),
                None => None,
            },
            fo,
        })
    }

    /// The members of this body under their canonical names; reading them
    /// back gives this body.
    #[verifier::rlimit(100)]
    #[verifier::spinoff_prover]
    pub fn encode(&self) -> (r: Members)
        ensures
            policy_published_decodes(r@, *self),
            members_view(r@) == policy_published_json_view(*self),
    {
        proof {
            reveal_strlit("domain");
            assert("domain"@.len() == 6);
            reveal_strlit("adkim");
            assert("adkim"@.len() == 5);
            reveal_strlit("aspf");
            assert("aspf"@.len() == 4);
            reveal_strlit("p");
            assert("p"@.len() == 1);
            reveal_strlit("sp");
            assert("sp"@.len() == 2);
            reveal_strlit("pct");
            assert("pct"@.len() == 3);
            reveal_strlit("fo");
            assert("fo"@.len() == 2);
            assert("fo"@[0] != "sp"@[0]);
        }
        let mut e: Members = Vec::new();
        assert(members_view(e@) =~= Seq::<(Seq<char>, JsonView)>::empty());
        let ghost before_1 = members_view(e@);
        put(&mut e, "domain", JsonValue::Str(self.domain.clone()));
        assert(members_view(e@) == before_1.push(("domain"@, JsonView::Str(self.domain@))));
        let ghost before_2 = members_view(e@);
        if let Some(x) = self.adkim {
            put(&mut e, "adkim", alignment_json(x));
        }
        assert(members_view(e@) == if self.adkim is Some { before_2.push(("adkim"@, JsonView::Str(alignment_text(self.adkim.unwrap())))) } else { before_2 });
        let ghost before_3 = members_view(e@);
        if let Some(x) = self.aspf {
            put(&mut e, "aspf", alignment_json(x));
        }
        assert(members_view(e@) == if self.aspf is Some { before_3.push(("aspf"@, JsonView::Str(alignment_text(self.aspf.unwrap())))) } else { before_3 });
        let ghost before_4 = members_view(e@);
        put(&mut e, "p", disposition_json(self.p));
        assert(members_view(e@) == before_4.push(("p"@, JsonView::Str(disposition_text(self.p)))));
        let ghost before_5 = members_view(e@);
        if let Some(x) = self.sp {
            put(&mut e, "sp", disposition_json(x));
        }
        assert(members_view(e@) == if self.sp is Some { before_5.push(("sp"@, JsonView::Str(disposition_text(self.sp.unwrap())))) } else { before_5 });
        let ghost before_6 = members_view(e@);
        put_opt_uint(&mut e, "pct", match self.pct {
            Some(n) => Some(n as u64),
            None => None,
        });
        assert(members_view(e@) == if self.pct is Some { before_6.push(("pct"@, JsonView::Number(decimal(self.pct.unwrap() as nat)))) } else { before_6 });
        let ghost before_7 = members_view(e@);
        put_opt_str(&mut e, "fo", &self.fo);
        assert(members_view(e@) == if self.fo is Some { before_7.push(("fo"@, JsonView::Str(self.fo.unwrap()@))) } else { before_7 });
        e
    }
}

/// Whether the members of a markup element describe `x`: numbers are text,
/// and a list is the run of child elements that share its name.
pub open spec fn policy_published_xml_decodes(e: Seq<(String, JsonValue)>, x: PolicyPublished) -> bool {
    &&& str_value(lookup(e, "domain"@)) == Some(x.domain)
    &&& opt_alignment_value(lookup(e, "adkim"@)) == Some(x.adkim)
    &&& opt_alignment_value(lookup(e, "aspf"@)) == Some(x.aspf)
    &&& disposition_value(lookup(e, "p"@)) == Some(x.p)
    &&& opt_disposition_value(lookup(e, "sp"@)) == Some(x.sp)
    &&& opt_text_uint_value(lookup(e, "pct"@), u8::MAX as nat) == Some(if x.pct.is_some() { Some(x.pct.unwrap() as nat) } else { None })
    &&& opt_str_value(lookup(e, "fo"@)) == Some(x.fo)
}

pub open spec fn policy_published_xml_readable(e: Seq<(String, JsonValue)>) -> bool {
    &&& str_value(lookup(e, "domain"@)).is_some()
    &&& opt_alignment_value(lookup(e, "adkim"@)).is_some()
    &&& opt_alignment_value(lookup(e, "aspf"@)).is_some()
    &&& disposition_value(lookup(e, "p"@)).is_some()
    &&& opt_disposition_value(lookup(e, "sp"@)).is_some()
    &&& opt_text_uint_value(lookup(e, "pct"@), u8::MAX as nat).is_some()
    &&& opt_str_value(lookup(e, "fo"@)).is_some()
}

impl PolicyPublished {
    /// Reads the value from the members of a markup element.
    pub fn from_xml(e: &Members) -> (r: Option<PolicyPublished>)
        ensures
            r.is_some() == policy_published_xml_readable(e@),
            r.is_some() ==> policy_published_xml_decodes(e@, r.unwrap()),
    {
        let domain = match str_from(find(e, "domain")) {
            Some(x) => x,
            None => return None,
        };
        let adkim = match opt_alignment_from(find(e, "adkim")) {
            Some(x) => x,
            None => return None,
        };
        let aspf = match opt_alignment_from(find(e, "aspf")) {
            Some(x) => x,
            None => return None,
        };
        let p = match disposition_from(find(e, "p")) {
            Some(x) => x,
            None => return None,
        };
        let sp = match opt_disposition_from(find(e, "sp")) {
            Some(x) => x,
            None => return None,
        };
        let pct = match opt_text_uint_from(find(e, "pct"), u8::MAX as u64) {
            Some(x) => x,
            None => return None,
        };
        let fo = match opt_str_from(find(e, "fo")) {
            Some(x) => x,
            None => return None,
        };
        Some(PolicyPublished {
            domain,
            adkim,
            aspf,
            p,
            sp,
            pct: match pct {
                Some(n) => Some(n as u8),
                None => None,
            },
            fo,
        })
    }
}

/// Members with the same view hold a readable policy published alike.
pub proof fn lemma_policy_published_xml_readable_view(e1: Seq<(String, JsonValue)>, e2: Seq<(String, JsonValue)>)
    requires
        members_view(e1) == members_view(e2),
    ensures
        policy_published_xml_readable(e1) == policy_published_xml_readable(e2),
{
    lemma_lookup_view(e1, e2, "domain"@);
    lemma_value_views(lookup(e1, "domain"@), lookup(e2, "domain"@), 0);
    lemma_lookup_view(e1, e2, "adkim"@);
    lemma_value_views(lookup(e1, "adkim"@), lookup(e2, "adkim"@), 0);
    lemma_lookup_view(e1, e2, "aspf"@);
    lemma_value_views(lookup(e1, "aspf"@), lookup(e2, "aspf"@), 0);
    lemma_lookup_view(e1, e2, "p"@);
    lemma_value_views(lookup(e1, "p"@), lookup(e2, "p"@), 0);
    lemma_lookup_view(e1, e2, "sp"@);
    lemma_value_views(lookup(e1, "sp"@), lookup(e2, "sp"@), 0);
    lemma_lookup_view(e1, e2, "pct"@);
    lemma_value_views(lookup(e1, "pct"@), lookup(e2, "pct"@), u8::MAX as nat);
    lemma_lookup_view(e1, e2, "fo"@);
    lemma_value_views(lookup(e1, "fo"@), lookup(e2, "fo"@), 0);
}

/// Members with the same view describe policy published values with the same JSON view.
pub proof fn lemma_policy_published_xml_decodes_view(e1: Seq<(String, JsonValue)>, e2: Seq<(String, JsonValue)>, x: PolicyPublished, y: PolicyPublished)
    requires
        members_view(e1) == members_view(e2),
        policy_published_xml_decodes(e1, x),
        policy_published_xml_decodes(e2, y),
    ensures
        policy_published_json_view(x) == policy_published_json_view(y),
{
    lemma_lookup_view(e1, e2, "domain"@);
    lemma_value_views(lookup(e1, "domain"@), lookup(e2, "domain"@), 0);
    lemma_lookup_view(e1, e2, "adkim"@);
    lemma_value_views(lookup(e1, "adkim"@), lookup(e2, "adkim"@), 0);
    lemma_lookup_view(e1, e2, "aspf"@);
    lemma_value_views(lookup(e1, "aspf"@), lookup(e2, "aspf"@), 0);
    lemma_lookup_view(e1, e2, "p"@);
    lemma_value_views(lookup(e1, "p"@), lookup(e2, "p"@), 0);
    lemma_lookup_view(e1, e2, "sp"@);
    lemma_value_views(lookup(e1, "sp"@), lookup(e2, "sp"@), 0);
    lemma_lookup_view(e1, e2, "pct"@);
    lemma_value_views(lookup(e1, "pct"@), lookup(e2, "pct"@), u8::MAX as nat);
    lemma_lookup_view(e1, e2, "fo"@);
    lemma_value_views(lookup(e1, "fo"@), lookup(e2, "fo"@), 0);
}

/// A reason for overriding the published policy.
#[derive(Debug, PartialEq, Eq)]
pub struct PolicyOverrideReason {
    pub kind: PolicyOverrideType,
    pub comment: Option<String>,
}

/// Whether the members of a JSON object describe `x`.
pub open spec fn policy_override_reason_decodes(e: Seq<(String, JsonValue)>, x: PolicyOverrideReason) -> bool {
    &&& policy_override_type_value(lookup(e, "type"@)) == Some(x.kind)
    &&& opt_str_value(lookup(e, "comment"@)) == Some(x.comment)
}

/// Whether an object's members hold a well-typed policy override reason.
pub open spec fn policy_override_reason_readable(e: Seq<(String, JsonValue)>) -> bool {
    &&& policy_override_type_value(lookup(e, "type"@)).is_some()
    &&& opt_str_value(lookup(e, "comment"@)).is_some()
}

/// The members that a policy override reason is written as, in order.
pub open spec fn policy_override_reason_json_view(x: PolicyOverrideReason) -> Seq<(Seq<char>, JsonView)> {
    let s0 = Seq::empty();
    let s1 = s0.push(("type"@, JsonView::Str(policy_override_type_text(x.kind))));
    let s2 = if x.comment is Some { s1.push(("comment"@, JsonView::Str(x.comment.unwrap()@))) } else { s1 };
    s2
}

impl PolicyOverrideReason {
    /// Reads the body from an object's members.
    pub fn decode(e: &Members) -> (r: Option<PolicyOverrideReason>)
        ensures
            r.is_some() == policy_override_reason_readable(e@),
            r.is_some() ==> policy_override_reason_decodes(e@, r.unwrap()),
    {
        let kind = match policy_override_type_from(find(e, "type")) {
            Some(x) => x,
            None => return None,
        };
        let comment = match opt_str_from(find(e, "comment")) {
            Some(x) => x,
            None => return None,
        };
        Some(PolicyOverrideReason {
            kind,
            comment,
        })
    }

    /// The members of this body under their canonical names; reading them
    /// back gives this body.
    pub fn encode(&self) -> (r: Members)
        ensures
            policy_override_reason_decodes(r@, *self),
            members_view(r@) == policy_override_reason_json_view(*self),
    {
        proof {
            reveal_strlit("type");
            assert("type"@.len() == 4);
            reveal_strlit("comment");
            assert("comment"@.len() == 7);
        }
        let mut e: Members = Vec::new();
        assert(members_view(e@) =~= Seq::<(Seq<char>, JsonView)>::empty());
        let ghost before_1 = members_view(e@);
        put(&mut e, "type", policy_override_type_json(self.kind));
        assert(members_view(e@) == before_1.push(("type"@, JsonView::Str(policy_override_type_text(self.kind)))));
        let ghost before_2 = members_view(e@);
        put_opt_str(&mut e, "comment", &self.comment);
        assert(members_view(e@) == if self.comment is Some { before_2.push(("comment"@, JsonView::Str(self.comment.unwrap()@))) } else { before_2 });
        e
    }
}

/// Whether a JSON array lists, item by item, objects that describe `xs`.
pub open spec fn policy_override_reason_list_decodes(v: Option<JsonValue>, xs: Seq<PolicyOverrideReason>) -> bool {
    match v {
        Some(JsonValue::Array(a)) => {
            &&& a@.len() == xs.len()
            &&& forall|i: int| 0 <= i < a@.len() ==> (#[trigger] a@[i] is Object && policy_override_reason_decodes(a@[i]->Object_0@, xs[i]))
        },
        _ => false,
    }
}

pub open spec fn policy_override_reason_list_readable(v: Option<JsonValue>) -> bool {
    match v {
        Some(JsonValue::Array(a)) => forall|i: int| 0 <= i < a@.len() ==> (#[trigger] a@[i] is Object && policy_override_reason_readable(a@[i]->Object_0@)),
        _ => false,
    }
}

fn policy_override_reason_list_from(v: Option<&JsonValue>) -> (r: Option<Vec<PolicyOverrideReason>>)
    ensures
        r.is_some() == policy_override_reason_list_readable(found(v)),
        r.is_some() ==> policy_override_reason_list_decodes(found(v), r.unwrap()@),
{
    let a = match v {
        Some(JsonValue::Array(a)) => a,
        _ => return None,
    };
    let mut out: Vec<PolicyOverrideReason> = Vec::new();
    let mut i: usize = 0;
    while i < a.len()
        invariant
            i <= a@.len(),
            found(v) == Some(JsonValue::Array(*a)),
            out@.len() == i,
            forall|j: int| 0 <= j < i ==> (#[trigger] a@[j] is Object && policy_override_reason_decodes(a@[j]->Object_0@, out@[j])
                && policy_override_reason_readable(a@[j]->Object_0@)),
        decreases a@.len() - i,
    {
        match &a[i] {
            JsonValue::Object(m) => match PolicyOverrideReason::decode(m) {
                Some(x) => out.push(x),
                None => return None,
            },
            _ => return None,
        }
        i = i + 1;
    }
    Some(out)
}

/// The views of a list of objects.
pub open spec fn policy_override_reason_list_jview(xs: Seq<PolicyOverrideReason>) -> Seq<JsonView> {
    Seq::new(xs.len(), |i: int| JsonView::Object(policy_override_reason_json_view(xs[i])))
}

fn policy_override_reason_list_json(xs: &Vec<PolicyOverrideReason>) -> (r: JsonValue)
    ensures
        policy_override_reason_list_decodes(Some(r), xs@),
        jview(r) == JsonView::Array(policy_override_reason_list_jview(xs@)),
{
    let mut a: Vec<JsonValue> = Vec::new();
    let mut i: usize = 0;
    while i < xs.len()
        invariant
            i <= xs@.len(),
            a@.len() == i,
            forall|j: int| 0 <= j < i ==> (#[trigger] a@[j] is Object && policy_override_reason_decodes(a@[j]->Object_0@, xs@[j])
                && jview(a@[j]) == JsonView::Object(policy_override_reason_json_view(xs@[j]))),
        decreases xs@.len() - i,
    {
        a.push(JsonValue::Object(xs[i].encode()));
        i = i + 1;
    }
    let r = JsonValue::Array(a);
    assert(jview(r)->Array_0 =~= policy_override_reason_list_jview(xs@));
    r
}

/// Whether the members of a markup element describe `x`: numbers are text,
/// and a list is the run of child elements that share its name.
pub open spec fn policy_override_reason_xml_decodes(e: Seq<(String, JsonValue)>, x: PolicyOverrideReason) -> bool {
    &&& policy_override_type_value(lookup(e, "type"@)) == Some(x.kind)
    &&& opt_str_value(lookup(e, "comment"@)) == Some(x.comment)
}

pub open spec fn policy_override_reason_xml_readable(e: Seq<(String, JsonValue)>) -> bool {
    &&& policy_override_type_value(lookup(e, "type"@)).is_some()
    &&& opt_str_value(lookup(e, "comment"@)).is_some()
}

impl PolicyOverrideReason {
    /// Reads the value from the members of a markup element.
    pub fn from_xml(e: &Members) -> (r: Option<PolicyOverrideReason>)
        ensures
            r.is_some() == policy_override_reason_xml_readable(e@),
            r.is_some() ==> policy_override_reason_xml_decodes(e@, r.unwrap()),
    {
        let kind = match policy_override_type_from(find(e, "type")) {
            Some(x) => x,
            None => return None,
        };
        let comment = match opt_str_from(find(e, "comment")) {
            Some(x) => x,
            None => return None,
        };
        Some(PolicyOverrideReason {
            kind,
            comment,
        })
    }
}

/// Whether a run of sibling elements describes `xs`, one element per item.
pub open spec fn policy_override_reason_xml_run_decodes(vals: Seq<JsonValue>, xs: Seq<PolicyOverrideReason>) -> bool {
    &&& vals.len() == xs.len()
    &&& forall|i: int| 0 <= i < vals.len() ==> (#[trigger] vals[i] is Object && policy_override_reason_xml_decodes(vals[i]->Object_0@, xs[i]))
}

pub open spec fn policy_override_reason_xml_run_readable(vals: Seq<JsonValue>) -> bool {
    forall|i: int| 0 <= i < vals.len() ==> (#[trigger] vals[i] is Object && policy_override_reason_xml_readable(vals[i]->Object_0@))
}

fn policy_override_reason_xml_run_from(vals: &Vec<&JsonValue>) -> (r: Option<Vec<PolicyOverrideReason>>)
    ensures
        r.is_some() == policy_override_reason_xml_run_readable(deref_all(vals@)),
        r.is_some() ==> policy_override_reason_xml_run_decodes(deref_all(vals@), r.unwrap()@),
{
    let mut out: Vec<PolicyOverrideReason> = Vec::new();
    let mut i: usize = 0;
    while i < vals.len()
        invariant
            i <= vals@.len(),
            out@.len() == i,
            forall|j: int| 0 <= j < i ==> (#[trigger] deref_all(vals@)[j] is Object && policy_override_reason_xml_decodes(deref_all(vals@)[j]->Object_0@, out@[j])
                && policy_override_reason_xml_readable(deref_all(vals@)[j]->Object_0@)),
        decreases vals@.len() - i,
    {
        assert(deref_all(vals@)[i as int] == *vals@[i as int]);
        match vals[i] {
            JsonValue::Object(m) => match PolicyOverrideReason::from_xml(m) {
                Some(x) => out.push(x),
                None => return None,
            },
            _ => return None,
        }
        i = i + 1;
    }
    Some(out)
}

/// Members with the same view hold a readable policy override reason alike.
pub proof fn lemma_policy_override_reason_xml_readable_view(e1: Seq<(String, JsonValue)>, e2: Seq<(String, JsonValue)>)
    requires
        members_view(e1) == members_view(e2),
    ensures
        policy_override_reason_xml_readable(e1) == policy_override_reason_xml_readable(e2),
{
    lemma_lookup_view(e1, e2, "type"@);
    lemma_value_views(lookup(e1, "type"@), lookup(e2, "type"@), 0);
    lemma_lookup_view(e1, e2, "comment"@);
    lemma_value_views(lookup(e1, "comment"@), lookup(e2, "comment"@), 0);
}

/// Members with the same view describe policy override reason values with the same JSON view.
pub proof fn lemma_policy_override_reason_xml_decodes_view(e1: Seq<(String, JsonValue)>, e2: Seq<(String, JsonValue)>, x: PolicyOverrideReason, y: PolicyOverrideReason)
    requires
        members_view(e1) == members_view(e2),
        policy_override_reason_xml_decodes(e1, x),
        policy_override_reason_xml_decodes(e2, y),
    ensures
        policy_override_reason_json_view(x) == policy_override_reason_json_view(y),
{
    lemma_lookup_view(e1, e2, "type"@);
    lemma_value_views(lookup(e1, "type"@), lookup(e2, "type"@), 0);
    lemma_lookup_view(e1, e2, "comment"@);
    lemma_value_views(lookup(e1, "comment"@), lookup(e2, "comment"@), 0);
}

/// The policy a receiver applied.
#[derive(Debug, PartialEq, Eq)]
pub struct PolicyEvaluated {
    pub disposition: Disposition,
    pub dkim: DMARCResult,
    pub spf: DMARCResult,
    pub reason: Vec<PolicyOverrideReason>,
}

/// Whether the members of a JSON object describe `x`.
pub open spec fn policy_evaluated_decodes(e: Seq<(String, JsonValue)>, x: PolicyEvaluated) -> bool {
    &&& disposition_value(lookup(e, "disposition"@)) == Some(x.disposition)
    &&& dmarc_result_value(lookup(e, "dkim"@)) == Some(x.dkim)
    &&& dmarc_result_value(lookup(e, "spf"@)) == Some(x.spf)
    &&& policy_override_reason_list_decodes(lookup(e, "reason"@), x.reason@)
}

/// Whether an object's members hold a well-typed policy evaluated.
pub open spec fn policy_evaluated_readable(e: Seq<(String, JsonValue)>) -> bool {
    &&& disposition_value(lookup(e, "disposition"@)).is_some()
    &&& dmarc_result_value(lookup(e, "dkim"@)).is_some()
    &&& dmarc_result_value(lookup(e, "spf"@)).is_some()
    &&& policy_override_reason_list_readable(lookup(e, "reason"@))
}

/// The members that a policy evaluated is written as, in order.
pub open spec fn policy_evaluated_json_view(x: PolicyEvaluated) -> Seq<(Seq<char>, JsonView)> {
    let s0 = Seq::empty();
    let s1 = s0.push(("disposition"@, JsonView::Str(disposition_text(x.disposition))));
    let s2 = s1.push(("dkim"@, JsonView::Str(dmarc_result_text(x.dkim))));
    let s3 = s2.push(("spf"@, JsonView::Str(dmarc_result_text(x.spf))));
    let s4 = s3.push(("reason"@, JsonView::Array(policy_override_reason_list_jview(x.reason@))));
    s4
}

impl PolicyEvaluated {
    /// Reads the body from an object's members.
    pub fn decode(e: &Members) -> (r: Option<PolicyEvaluated>)
        ensures
            r.is_some() == policy_evaluated_readable(e@),
            r.is_some() ==> policy_evaluated_decodes(e@, r.unwrap()),
    {
        let disposition = match disposition_from(find(e, "disposition")) {
            Some(x) => x,
            None => return None,
        };
        let dkim = match dmarc_result_from(find(e, "dkim")) {
            Some(x) => x,
            None => return None,
        };
        let spf = match dmarc_result_from(find(e, "spf")) {
            Some(x) => x,
            None => return None,
        };
        let reason = match policy_override_reason_list_from(find(e, "reason")) {
            Some(x) => x,
            None => return None,
        };
        Some(PolicyEvaluated {
            disposition,
            dkim,
            spf,
            reason,
        })
    }

    /// The members of this body under their canonical names; reading them
    /// back gives this body.
    pub fn encode(&self) -> (r: Members)
        ensures
            policy_evaluated_decodes(r@, *self),
            members_view(r@) == policy_evaluated_json_view(*self),
    {
        proof {
            reveal_strlit("disposition");
            assert("disposition"@.len() == 11);
            reveal_strlit("dkim");
            assert("dkim"@.len() == 4);
            reveal_strlit("spf");
            assert("spf"@.len() == 3);
            reveal_strlit("reason");
            assert("reason"@.len() == 6);
        }
        let mut e: Members = Vec::new();
        assert(members_view(e@) =~= Seq::<(Seq<char>, JsonView)>::empty());
        let ghost before_1 = members_view(e@);
        put(&mut e, "disposition", disposition_json(self.disposition));
        assert(members_view(e@) == before_1.push(("disposition"@, JsonView::Str(disposition_text(self.disposition)))));
        let ghost before_2 = members_view(e@);
        put(&mut e, "dkim", dmarc_result_json(self.dkim));
        assert(members_view(e@) == before_2.push(("dkim"@, JsonView::Str(dmarc_result_text(self.dkim)))));
        let ghost before_3 = members_view(e@);
        put(&mut e, "spf", dmarc_result_json(self.spf));
        assert(members_view(e@) == before_3.push(("spf"@, JsonView::Str(dmarc_result_text(self.spf)))));
        let ghost before_4 = members_view(e@);
        put(&mut e, "reason", policy_override_reason_list_json(&self.reason));
        assert(members_view(e@) == before_4.push(("reason"@, JsonView::Array(policy_override_reason_list_jview(self.reason@)))));
        e
    }
}

/// Whether a JSON array lists, item by item, objects that describe `xs`.
pub open spec fn policy_evaluated_list_decodes(v: Option<JsonValue>, xs: Seq<PolicyEvaluated>) -> bool {
    match v {
        Some(JsonValue::Array(a)) => {
            &&& a@.len() == xs.len()
            &&& forall|i: int| 0 <= i < a@.len() ==> (#[trigger] a@[i] is Object && policy_evaluated_decodes(a@[i]->Object_0@, xs[i]))
        },
        _ => false,
    }
}

pub open spec fn policy_evaluated_list_readable(v: Option<JsonValue>) -> bool {
    match v {
        Some(JsonValue::Array(a)) => forall|i: int| 0 <= i < a@.len() ==> (#[trigger] a@[i] is Object && policy_evaluated_readable(a@[i]->Object_0@)),
        _ => false,
    }
}

fn policy_evaluated_list_from(v: Option<&JsonValue>) -> (r: Option<Vec<PolicyEvaluated>>)
    ensures
        r.is_some() == policy_evaluated_list_readable(found(v)),
        r.is_some() ==> policy_evaluated_list_decodes(found(v), r.unwrap()@),
{
    let a = match v {
        Some(JsonValue::Array(a)) => a,
        _ => return None,
    };
    let mut out: Vec<PolicyEvaluated> = Vec::new();
    let mut i: usize = 0;
    while i < a.len()
        invariant
            i <= a@.len(),
            found(v) == Some(JsonValue::Array(*a)),
            out@.len() == i,
            forall|j: int| 0 <= j < i ==> (#[trigger] a@[j] is Object && policy_evaluated_decodes(a@[j]->Object_0@, out@[j])
                && policy_evaluated_readable(a@[j]->Object_0@)),
        decreases a@.len() - i,
    {
        match &a[i] {
            JsonValue::Object(m) => match PolicyEvaluated::decode(m) {
                Some(x) => out.push(x),
                None => return None,
            },
            _ => return None,
        }
        i = i + 1;
    }
    Some(out)
}

/// The views of a list of objects.
pub open spec fn policy_evaluated_list_jview(xs: Seq<PolicyEvaluated>) -> Seq<JsonView> {
    Seq::new(xs.len(), |i: int| JsonView::Object(policy_evaluated_json_view(xs[i])))
}

fn policy_evaluated_list_json(xs: &Vec<PolicyEvaluated>) -> (r: JsonValue)
    ensures
        policy_evaluated_list_decodes(Some(r), xs@),
        jview(r) == JsonView::Array(policy_evaluated_list_jview(xs@)),
{
    let mut a: Vec<JsonValue> = Vec::new();
    let mut i: usize = 0;
    while i < xs.len()
        invariant
            i <= xs@.len(),
            a@.len() == i,
            forall|j: int| 0 <= j < i ==> (#[trigger] a@[j] is Object && policy_evaluated_decodes(a@[j]->Object_0@, xs@[j])
                && jview(a@[j]) == JsonView::Object(policy_evaluated_json_view(xs@[j]))),
        decreases xs@.len() - i,
    {
        a.push(JsonValue::Object(xs[i].encode()));
        i = i + 1;
    }
    let r = JsonValue::Array(a);
    assert(jview(r)->Array_0 =~= policy_evaluated_list_jview(xs@));
    r
}

/// Whether the members of a markup element describe `x`: numbers are text,
/// and a list is the run of child elements that share its name.
pub open spec fn policy_evaluated_xml_decodes(e: Seq<(String, JsonValue)>, x: PolicyEvaluated) -> bool {
    &&& disposition_value(lookup(e, "disposition"@)) == Some(x.disposition)
    &&& dmarc_result_value(lookup(e, "dkim"@)) == Some(x.dkim)
    &&& dmarc_result_value(lookup(e, "spf"@)) == Some(x.spf)
    &&& policy_override_reason_xml_run_decodes(repeated(e, "reason"@), x.reason@)
}

pub open spec fn policy_evaluated_xml_readable(e: Seq<(String, JsonValue)>) -> bool {
    &&& disposition_value(lookup(e, "disposition"@)).is_some()
    &&& dmarc_result_value(lookup(e, "dkim"@)).is_some()
    &&& dmarc_result_value(lookup(e, "spf"@)).is_some()
    &&& policy_override_reason_xml_run_readable(repeated(e, "reason"@))
}

impl PolicyEvaluated {
    /// Reads the value from the members of a markup element.
    pub fn from_xml(e: &Members) -> (r: Option<PolicyEvaluated>)
        ensures
            r.is_some() == policy_evaluated_xml_readable(e@),
            r.is_some() ==> policy_evaluated_xml_decodes(e@, r.unwrap()),
    {
        let disposition = match disposition_from(find(e, "disposition")) {
            Some(x) => x,
            None => return None,
        };
        let dkim = match dmarc_result_from(find(e, "dkim")) {
            Some(x) => x,
            None => return None,
        };
        let spf = match dmarc_result_from(find(e, "spf")) {
            Some(x) => x,
            None => return None,
        };
        let reason_run = find_all(e, "reason");
        assert(deref_all(reason_run@) =~= repeated(e@, "reason"@));
        let reason = match policy_override_reason_xml_run_from(&reason_run) {
            Some(x) => x,
            None => return None,
        };
        Some(PolicyEvaluated {
            disposition,
            dkim,
            spf,
            reason,
        })
    }
}

/// Whether a run of sibling elements describes `xs`, one element per item.
pub open spec fn policy_evaluated_xml_run_decodes(vals: Seq<JsonValue>, xs: Seq<PolicyEvaluated>) -> bool {
    &&& vals.len() == xs.len()
    &&& forall|i: int| 0 <= i < vals.len() ==> (#[trigger] vals[i] is Object && policy_evaluated_xml_decodes(vals[i]->Object_0@, xs[i]))
}

pub open spec fn policy_evaluated_xml_run_readable(vals: Seq<JsonValue>) -> bool {
    forall|i: int| 0 <= i < vals.len() ==> (#[trigger] vals[i] is Object && policy_evaluated_xml_readable(vals[i]->Object_0@))
}

fn policy_evaluated_xml_run_from(vals: &Vec<&JsonValue>) -> (r: Option<Vec<PolicyEvaluated>>)
    ensures
        r.is_some() == policy_evaluated_xml_run_readable(deref_all(vals@)),
        r.is_some() ==> policy_evaluated_xml_run_decodes(deref_all(vals@), r.unwrap()@),
{
    let mut out: Vec<PolicyEvaluated> = Vec::new();
    let mut i: usize = 0;
    while i < vals.len()
        invariant
            i <= vals@.len(),
            out@.len() == i,
            forall|j: int| 0 <= j < i ==> (#[trigger] deref_all(vals@)[j] is Object && policy_evaluated_xml_decodes(deref_all(vals@)[j]->Object_0@, out@[j])
                && policy_evaluated_xml_readable(deref_all(vals@)[j]->Object_0@)),
        decreases vals@.len() - i,
    {
        assert(deref_all(vals@)[i as int] == *vals@[i as int]);
        match vals[i] {
            JsonValue::Object(m) => match PolicyEvaluated::from_xml(m) {
                Some(x) => out.push(x),
                None => return None,
            },
            _ => return None,
        }
        i = i + 1;
    }
    Some(out)
}

/// Members with the same view hold a readable policy evaluated alike.
pub proof fn lemma_policy_evaluated_xml_readable_view(e1: Seq<(String, JsonValue)>, e2: Seq<(String, JsonValue)>)
    requires
        members_view(e1) == members_view(e2),
    ensures
        policy_evaluated_xml_readable(e1) == policy_evaluated_xml_readable(e2),
{
    lemma_lookup_view(e1, e2, "disposition"@);
    lemma_value_views(lookup(e1, "disposition"@), lookup(e2, "disposition"@), 0);
    lemma_lookup_view(e1, e2, "dkim"@);
    lemma_value_views(lookup(e1, "dkim"@), lookup(e2, "dkim"@), 0);
    lemma_lookup_view(e1, e2, "spf"@);
    lemma_value_views(lookup(e1, "spf"@), lookup(e2, "spf"@), 0);
    lemma_repeated_view(e1, e2, "reason"@);
    let (r1, r2) = (repeated(e1, "reason"@), repeated(e2, "reason"@));
    assert forall|i: int| 0 <= i < r1.len() implies (#[trigger] r1[i] is Object && policy_override_reason_xml_readable(r1[i]->Object_0@)) == (r2[i] is Object && policy_override_reason_xml_readable(r2[i]->Object_0@)) by {
        assert(jview(r1[i]) == jview(r2[i]));
        match (r1[i], r2[i]) {
            (JsonValue::Object(m1), JsonValue::Object(m2)) => {
                lemma_object_view(m1);
                lemma_object_view(m2);
                lemma_policy_override_reason_xml_readable_view(m1@, m2@);
            },
            _ => {},
        }
    }
    assert(policy_override_reason_xml_run_readable(r1) == policy_override_reason_xml_run_readable(r2)) by {
        if policy_override_reason_xml_run_readable(r1) {
            assert forall|i: int| 0 <= i < r2.len() implies (#[trigger] r2[i] is Object && policy_override_reason_xml_readable(r2[i]->Object_0@)) by {
                assert(r1[i] is Object && policy_override_reason_xml_readable(r1[i]->Object_0@));
            }
        }
        if policy_override_reason_xml_run_readable(r2) {
            assert forall|i: int| 0 <= i < r1.len() implies (#[trigger] r1[i] is Object && policy_override_reason_xml_readable(r1[i]->Object_0@)) by {
                assert(r2[i] is Object && policy_override_reason_xml_readable(r2[i]->Object_0@));
            }
        }
    }
}

/// Members with the same view describe policy evaluated values with the same JSON view.
pub proof fn lemma_policy_evaluated_xml_decodes_view(e1: Seq<(String, JsonValue)>, e2: Seq<(String, JsonValue)>, x: PolicyEvaluated, y: PolicyEvaluated)
    requires
        members_view(e1) == members_view(e2),
        policy_evaluated_xml_decodes(e1, x),
        policy_evaluated_xml_decodes(e2, y),
    ensures
        policy_evaluated_json_view(x) == policy_evaluated_json_view(y),
{
    lemma_lookup_view(e1, e2, "disposition"@);
    lemma_value_views(lookup(e1, "disposition"@), lookup(e2, "disposition"@), 0);
    lemma_lookup_view(e1, e2, "dkim"@);
    lemma_value_views(lookup(e1, "dkim"@), lookup(e2, "dkim"@), 0);
    lemma_lookup_view(e1, e2, "spf"@);
    lemma_value_views(lookup(e1, "spf"@), lookup(e2, "spf"@), 0);
    lemma_repeated_view(e1, e2, "reason"@);
    let (r1, r2) = (repeated(e1, "reason"@), repeated(e2, "reason"@));
    assert forall|i: int| 0 <= i < x.reason@.len() implies #[trigger] policy_override_reason_list_jview(x.reason@)[i] == policy_override_reason_list_jview(y.reason@)[i] by {
        assert(jview(r1[i]) == jview(r2[i]));
        assert(r1[i] is Object && policy_override_reason_xml_decodes(r1[i]->Object_0@, x.reason@[i]));
        assert(r2[i] is Object && policy_override_reason_xml_decodes(r2[i]->Object_0@, y.reason@[i]));
        match (r1[i], r2[i]) {
            (JsonValue::Object(m1), JsonValue::Object(m2)) => {
                lemma_policy_override_reason_xml_decodes_view(m1@, m2@, x.reason@[i], y.reason@[i]);
            },
            _ => {},
        }
    }
    assert(policy_override_reason_list_jview(x.reason@) =~= policy_override_reason_list_jview(y.reason@));
}

/// Messages from one source.
#[derive(Debug, PartialEq, Eq)]
pub struct Row {
    pub source_ip: String,
    pub count: u32,
    pub policy_evaluated: Vec<PolicyEvaluated>,
}

/// Whether the members of a JSON object describe `x`.
pub open spec fn row_decodes(e: Seq<(String, JsonValue)>, x: Row) -> bool {
    &&& str_value(lookup(e, "source_ip"@)) == Some(x.source_ip)
    &&& uint_value(lookup(e, "count"@), u32::MAX as nat) == Some(x.count as nat)
    &&& policy_evaluated_list_decodes(lookup(e, "policy_evaluated"@), x.policy_evaluated@)
}

/// Whether an object's members hold a well-typed row.
pub open spec fn row_readable(e: Seq<(String, JsonValue)>) -> bool {
    &&& str_value(lookup(e, "source_ip"@)).is_some()
    &&& uint_value(lookup(e, "count"@), u32::MAX as nat).is_some()
    &&& policy_evaluated_list_readable(lookup(e, "policy_evaluated"@))
}

/// The members that a row is written as, in order.
pub open spec fn row_json_view(x: Row) -> Seq<(Seq<char>, JsonView)> {
    let s0 = Seq::empty();
    let s1 = s0.push(("source_ip"@, JsonView::Str(x.source_ip@)));
    let s2 = s1.push(("count"@, JsonView::Number(decimal(x.count as nat))));
    let s3 = s2.push(("policy_evaluated"@, JsonView::Array(policy_evaluated_list_jview(x.policy_evaluated@))));
    s3
}

impl Row {
    /// Reads the body from an object's members.
    pub fn decode(e: &Members) -> (r: Option<Row>)
        ensures
            r.is_some() == row_readable(e@),
            r.is_some() ==> row_decodes(e@, r.unwrap()),
    {
        let source_ip = match str_from(find(e, "source_ip")) {
            Some(x) => x,
            None => return None,
        };
        let count = match uint_from(find(e, "count"), u32::MAX as u64) {
            Some(x) => x,
            None => return None,
        };
        let policy_evaluated = match policy_evaluated_list_from(find(e, "policy_evaluated")) {
            Some(x) => x,
            None => return None,
        };
        Some(Row {
            source_ip,
            count: count as u32,
            policy_evaluated,
        })
    }

    /// The members of this body under their canonical names; reading them
    /// back gives this body.
    pub fn encode(&self) -> (r: Members)
        ensures
            row_decodes(r@, *self),
            members_view(r@) == row_json_view(*self),
    {
        proof {
            reveal_strlit("source_ip");
            assert("source_ip"@.len() == 9);
            reveal_strlit("count");
            assert("count"@.len() == 5);
            reveal_strlit("policy_evaluated");
            assert("policy_evaluated"@.len() == 16);
        }
        let mut e: Members = Vec::new();
        assert(members_view(e@) =~= Seq::<(Seq<char>, JsonView)>::empty());
        let ghost before_1 = members_view(e@);
        put(&mut e, "source_ip", JsonValue::Str(self.source_ip.clone()));
        assert(members_view(e@) == before_1.push(("source_ip"@, JsonView::Str(self.source_ip@))));
        let ghost before_2 = members_view(e@);
        put(&mut e, "count", number(self.count as u64));
        assert(members_view(e@) == before_2.push(("count"@, JsonView::Number(decimal(self.count as nat)))));
        let ghost before_3 = members_view(e@);
        put(&mut e, "policy_evaluated", policy_evaluated_list_json(&self.policy_evaluated));
        assert(members_view(e@) == before_3.push(("policy_evaluated"@, JsonView::Array(policy_evaluated_list_jview(self.policy_evaluated@)))));
        e
    }
}

/// Whether the members of a markup element describe `x`: numbers are text,
/// and a list is the run of child elements that share its name.
pub open spec fn row_xml_decodes(e: Seq<(String, JsonValue)>, x: Row) -> bool {
    &&& str_value(lookup(e, "source_ip"@)) == Some(x.source_ip)
    &&& text_uint_value(lookup(e, "count"@), u32::MAX as nat) == Some(x.count as nat)
    &&& policy_evaluated_xml_run_decodes(repeated(e, "policy_evaluated"@), x.policy_evaluated@)
}

pub open spec fn row_xml_readable(e: Seq<(String, JsonValue)>) -> bool {
    &&& str_value(lookup(e, "source_ip"@)).is_some()
    &&& text_uint_value(lookup(e, "count"@), u32::MAX as nat).is_some()
    &&& policy_evaluated_xml_run_readable(repeated(e, "policy_evaluated"@))
}

impl Row {
    /// Reads the value from the members of a markup element.
    pub fn from_xml(e: &Members) -> (r: Option<Row>)
        ensures
            r.is_some() == row_xml_readable(e@),
            r.is_some() ==> row_xml_decodes(e@, r.unwrap()),
    {
        let source_ip = match str_from(find(e, "source_ip")) {
            Some(x) => x,
            None => return None,
        };
        let count = match text_uint_from(find(e, "count"), u32::MAX as u64) {
            Some(x) => x,
            None => return None,
        };
        let policy_evaluated_run = find_all(e, "policy_evaluated");
        assert(deref_all(policy_evaluated_run@) =~= repeated(e@, "policy_evaluated"@));
        let policy_evaluated = match policy_evaluated_xml_run_from(&policy_evaluated_run) {
            Some(x) => x,
            None => return None,
        };
        Some(Row {
            source_ip,
            count: count as u32,
            policy_evaluated,
        })
    }
}

/// Members with the same view hold a readable row alike.
pub proof fn lemma_row_xml_readable_view(e1: Seq<(String, JsonValue)>, e2: Seq<(String, JsonValue)>)
    requires
        members_view(e1) == members_view(e2),
    ensures
        row_xml_readable(e1) == row_xml_readable(e2),
{
    lemma_lookup_view(e1, e2, "source_ip"@);
    lemma_value_views(lookup(e1, "source_ip"@), lookup(e2, "source_ip"@), 0);
    lemma_lookup_view(e1, e2, "count"@);
    lemma_value_views(lookup(e1, "count"@), lookup(e2, "count"@), u32::MAX as nat);
    lemma_repeated_view(e1, e2, "policy_evaluated"@);
    let (r1, r2) = (repeated(e1, "policy_evaluated"@), repeated(e2, "policy_evaluated"@));
    assert forall|i: int| 0 <= i < r1.len() implies (#[trigger] r1[i] is Object && policy_evaluated_xml_readable(r1[i]->Object_0@)) == (r2[i] is Object && policy_evaluated_xml_readable(r2[i]->Object_0@)) by {
        assert(jview(r1[i]) == jview(r2[i]));
        match (r1[i], r2[i]) {
            (JsonValue::Object(m1), JsonValue::Object(m2)) => {
                lemma_object_view(m1);
                lemma_object_view(m2);
                lemma_policy_evaluated_xml_readable_view(m1@, m2@);
            },
            _ => {},
        }
    }
    assert(policy_evaluated_xml_run_readable(r1) == policy_evaluated_xml_run_readable(r2)) by {
        if policy_evaluated_xml_run_readable(r1) {
            assert forall|i: int| 0 <= i < r2.len() implies (#[trigger] r2[i] is Object && policy_evaluated_xml_readable(r2[i]->Object_0@)) by {
                assert(r1[i] is Object && policy_evaluated_xml_readable(r1[i]->Object_0@));
            }
        }
        if policy_evaluated_xml_run_readable(r2) {
            assert forall|i: int| 0 <= i < r1.len() implies (#[trigger] r1[i] is Object && policy_evaluated_xml_readable(r1[i]->Object_0@)) by {
                assert(r2[i] is Object && policy_evaluated_xml_readable(r2[i]->Object_0@));
            }
        }
    }
}

/// Members with the same view describe row values with the same JSON view.
pub proof fn lemma_row_xml_decodes_view(e1: Seq<(String, JsonValue)>, e2: Seq<(String, JsonValue)>, x: Row, y: Row)
    requires
        members_view(e1) == members_view(e2),
        row_xml_decodes(e1, x),
        row_xml_decodes(e2, y),
    ensures
        row_json_view(x) == row_json_view(y),
{
    lemma_lookup_view(e1, e2, "source_ip"@);
    lemma_value_views(lookup(e1, "source_ip"@), lookup(e2, "source_ip"@), 0);
    lemma_lookup_view(e1, e2, "count"@);
    lemma_value_views(lookup(e1, "count"@), lookup(e2, "count"@), u32::MAX as nat);
    lemma_repeated_view(e1, e2, "policy_evaluated"@);
    let (r1, r2) = (repeated(e1, "policy_evaluated"@), repeated(e2, "policy_evaluated"@));
    assert forall|i: int| 0 <= i < x.policy_evaluated@.len() implies #[trigger] policy_evaluated_list_jview(x.policy_evaluated@)[i] == policy_evaluated_list_jview(y.policy_evaluated@)[i] by {
        assert(jview(r1[i]) == jview(r2[i]));
        assert(r1[i] is Object && policy_evaluated_xml_decodes(r1[i]->Object_0@, x.policy_evaluated@[i]));
        assert(r2[i] is Object && policy_evaluated_xml_decodes(r2[i]->Object_0@, y.policy_evaluated@[i]));
        match (r1[i], r2[i]) {
            (JsonValue::Object(m1), JsonValue::Object(m2)) => {
                lemma_policy_evaluated_xml_decodes_view(m1@, m2@, x.policy_evaluated@[i], y.policy_evaluated@[i]);
            },
            _ => {},
        }
    }
    assert(policy_evaluated_list_jview(x.policy_evaluated@) =~= policy_evaluated_list_jview(y.policy_evaluated@));
}

/// The identifiers of the messages.
#[derive(Debug, PartialEq, Eq)]
pub struct Identifier {
    pub envelope_to: Option<String>,
    pub envelope_from: Option<String>,
    pub header_from: String,
}

/// Whether the members of a JSON object describe `x`.
pub open spec fn identifier_decodes(e: Seq<(String, JsonValue)>, x: Identifier) -> bool {
    &&& opt_str_value(lookup(e, "envelope_to"@)) == Some(x.envelope_to)
    &&& opt_str_value(lookup(e, "envelope_from"@)) == Some(x.envelope_from)
    &&& str_value(lookup(e, "header_from"@)) == Some(x.header_from)
}

/// Whether an object's members hold a well-typed identifier.
pub open spec fn identifier_readable(e: Seq<(String, JsonValue)>) -> bool {
    &&& opt_str_value(lookup(e, "envelope_to"@)).is_some()
    &&& opt_str_value(lookup(e, "envelope_from"@)).is_some()
    &&& str_value(lookup(e, "header_from"@)).is_some()
}

/// The members that a identifier is written as, in order.
pub open spec fn identifier_json_view(x: Identifier) -> Seq<(Seq<char>, JsonView)> {
    let s0 = Seq::empty();
    let s1 = if x.envelope_to is Some { s0.push(("envelope_to"@, JsonView::Str(x.envelope_to.unwrap()@))) } else { s0 };
    let s2 = if x.envelope_from is Some { s1.push(("envelope_from"@, JsonView::Str(x.envelope_from.unwrap()@))) } else { s1 };
    let s3 = s2.push(("header_from"@, JsonView::Str(x.header_from@)));
    s3
}

impl Identifier {
    /// Reads the body from an object's members.
    pub fn decode(e: &Members) -> (r: Option<Identifier>)
        ensures
            r.is_some() == identifier_readable(e@),
            r.is_some() ==> identifier_decodes(e@, r.unwrap()),
    {
        let envelope_to = match opt_str_from(find(e, "envelope_to")) {
            Some(x) => x,
            None => return None,
        };
        let envelope_from = match opt_str_from(find(e, "envelope_from")) {
            Some(x) => x,
            None => return None,
        };
        let header_from = match str_from(find(e, "header_from")) {
            Some(x) => x,
            None => return None,
        };
        Some(Identifier {
            envelope_to,
            envelope_from,
            header_from,
        })
    }

    /// The members of this body under their canonical names; reading them
    /// back gives this body.
    pub fn encode(&self) -> (r: Members)
        ensures
            identifier_decodes(r@, *self),
            members_view(r@) == identifier_json_view(*self),
    {
        proof {
            reveal_strlit("envelope_to");
            assert("envelope_to"@.len() == 11);
            reveal_strlit("envelope_from");
            assert("envelope_from"@.len() == 13);
            reveal_strlit("header_from");
            assert("header_from"@.len() == 11);
            assert("envelope_to"@[0] != "header_from"@[0]);
        }
        let mut e: Members = Vec::new();
        assert(members_view(e@) =~= Seq::<(Seq<char>, JsonView)>::empty());
        let ghost before_1 = members_view(e@);
        put_opt_str(&mut e, "envelope_to", &self.envelope_to);
        assert(members_view(e@) == if self.envelope_to is Some { before_1.push(("envelope_to"@, JsonView::Str(self.envelope_to.unwrap()@))) } else { before_1 });
        let ghost before_2 = members_view(e@);
        put_opt_str(&mut e, "envelope_from", &self.envelope_from);
        assert(members_view(e@) == if self.envelope_from is Some { before_2.push(("envelope_from"@, JsonView::Str(self.envelope_from.unwrap()@))) } else { before_2 });
        let ghost before_3 = members_view(e@);
        put(&mut e, "header_from", JsonValue::Str(self.header_from.clone()));
        assert(members_view(e@) == before_3.push(("header_from"@, JsonView::Str(self.header_from@))));
        e
    }
}

/// Whether the members of a markup element describe `x`: numbers are text,
/// and a list is the run of child elements that share its name.
pub open spec fn identifier_xml_decodes(e: Seq<(String, JsonValue)>, x: Identifier) -> bool {
    &&& opt_str_value(lookup(e, "envelope_to"@)) == Some(x.envelope_to)
    &&& opt_str_value(lookup(e, "envelope_from"@)) == Some(x.envelope_from)
    &&& str_value(lookup(e, "header_from"@)) == Some(x.header_from)
}

pub open spec fn identifier_xml_readable(e: Seq<(String, JsonValue)>) -> bool {
    &&& opt_str_value(lookup(e, "envelope_to"@)).is_some()
    &&& opt_str_value(lookup(e, "envelope_from"@)).is_some()
    &&& str_value(lookup(e, "header_from"@)).is_some()
}

impl Identifier {
    /// Reads the value from the members of a markup element.
    pub fn from_xml(e: &Members) -> (r: Option<Identifier>)
        ensures
            r.is_some() == identifier_xml_readable(e@),
            r.is_some() ==> identifier_xml_decodes(e@, r.unwrap()),
    {
        let envelope_to = match opt_str_from(find(e, "envelope_to")) {
            Some(x) => x,
            None => return None,
        };
        let envelope_from = match opt_str_from(find(e, "envelope_from")) {
            Some(x) => x,
            None => return None,
        };
        let header_from = match str_from(find(e, "header_from")) {
            Some(x) => x,
            None => return None,
        };
        Some(Identifier {
            envelope_to,
            envelope_from,
            header_from,
        })
    }
}

/// Members with the same view hold a readable identifier alike.
pub proof fn lemma_identifier_xml_readable_view(e1: Seq<(String, JsonValue)>, e2: Seq<(String, JsonValue)>)
    requires
        members_view(e1) == members_view(e2),
    ensures
        identifier_xml_readable(e1) == identifier_xml_readable(e2),
{
    lemma_lookup_view(e1, e2, "envelope_to"@);
    lemma_value_views(lookup(e1, "envelope_to"@), lookup(e2, "envelope_to"@), 0);
    lemma_lookup_view(e1, e2, "envelope_from"@);
    lemma_value_views(lookup(e1, "envelope_from"@), lookup(e2, "envelope_from"@), 0);
    lemma_lookup_view(e1, e2, "header_from"@);
    lemma_value_views(lookup(e1, "header_from"@), lookup(e2, "header_from"@), 0);
}

/// Members with the same view describe identifier values with the same JSON view.
pub proof fn lemma_identifier_xml_decodes_view(e1: Seq<(String, JsonValue)>, e2: Seq<(String, JsonValue)>, x: Identifier, y: Identifier)
    requires
        members_view(e1) == members_view(e2),
        identifier_xml_decodes(e1, x),
        identifier_xml_decodes(e2, y),
    ensures
        identifier_json_view(x) == identifier_json_view(y),
{
    lemma_lookup_view(e1, e2, "envelope_to"@);
    lemma_value_views(lookup(e1, "envelope_to"@), lookup(e2, "envelope_to"@), 0);
    lemma_lookup_view(e1, e2, "envelope_from"@);
    lemma_value_views(lookup(e1, "envelope_from"@), lookup(e2, "envelope_from"@), 0);
    lemma_lookup_view(e1, e2, "header_from"@);
    lemma_value_views(lookup(e1, "header_from"@), lookup(e2, "header_from"@), 0);
}

/// One DKIM check.
#[derive(Debug, PartialEq, Eq)]
pub struct DKIMAuthResult {
    pub domain: String,
    pub selector: Option<String>,
    pub result: DKIMResult,
    pub human_result: Option<String>,
}

/// Whether the members of a JSON object describe `x`.
pub open spec fn dkim_auth_result_decodes(e: Seq<(String, JsonValue)>, x: DKIMAuthResult) -> bool {
    &&& str_value(lookup(e, "domain"@)) == Some(x.domain)
    &&& opt_str_value(lookup(e, "selector"@)) == Some(x.selector)
    &&& dkim_result_value(lookup(e, "result"@)) == Some(x.result)
    &&& opt_str_value(lookup(e, "human_result"@)) == Some(x.human_result)
}

/// Whether an object's members hold a well-typed dkim auth result.
pub open spec fn dkim_auth_result_readable(e: Seq<(String, JsonValue)>) -> bool {
    &&& str_value(lookup(e, "domain"@)).is_some()
    &&& opt_str_value(lookup(e, "selector"@)).is_some()
    &&& dkim_result_value(lookup(e, "result"@)).is_some()
    &&& opt_str_value(lookup(e, "human_result"@)).is_some()
}

/// The members that a dkim auth result is written as, in order.
pub open spec fn dkim_auth_result_json_view(x: DKIMAuthResult) -> Seq<(Seq<char>, JsonView)> {
    let s0 = Seq::empty();
    let s1 = s0.push(("domain"@, JsonView::Str(x.domain@)));
    let s2 = if x.selector is Some { s1.push(("selector"@, JsonView::Str(x.selector.unwrap()@))) } else { s1 };
    let s3 = s2.push(("result"@, JsonView::Str(dkim_result_text(x.result))));
    let s4 = if x.human_result is Some { s3.push(("human_result"@, JsonView::Str(x.human_result.unwrap()@))) } else { s3 };
    s4
}

impl DKIMAuthResult {
    /// Reads the body from an object's members.
    pub fn decode(e: &Members) -> (r: Option<DKIMAuthResult>)
        ensures
            r.is_some() == dkim_auth_result_readable(e@),
            r.is_some() ==> dkim_auth_result_decodes(e@, r.unwrap()),
    {
        let domain = match str_from(find(e, "domain")) {
            Some(x) => x,
            None => return None,
        };
        let selector = match opt_str_from(find(e, "selector")) {
            Some(x) => x,
            None => return None,
        };
        let result = match dkim_result_from(find(e, "result")) {
            Some(x) => x,
            None => return None,
        };
        let human_result = match opt_str_from(find(e, "human_result")) {
            Some(x) => x,
            None => return None,
        };
        Some(DKIMAuthResult {
            domain,
            selector,
            result,
            human_result,
        })
    }

    /// The members of this body under their canonical names; reading them
    /// back gives this body.
    pub fn encode(&self) -> (r: Members)
        ensures
            dkim_auth_result_decodes(r@, *self),
            members_view(r@) == dkim_auth_result_json_view(*self),
    {
        proof {
            reveal_strlit("domain");
            assert("domain"@.len() == 6);
            reveal_strlit("selector");
            assert("selector"@.len() == 8);
            reveal_strlit("result");
            assert("result"@.len() == 6);
            reveal_strlit("human_result");
            assert("human_result"@.len() == 12);
            assert("domain"@[0] != "result"@[0]);
        }
        let mut e: Members = Vec::new();
        assert(members_view(e@) =~= Seq::<(Seq<char>, JsonView)>::empty());
        let ghost before_1 = members_view(e@);
        put(&mut e, "domain", JsonValue::Str(self.domain.clone()));
        assert(members_view(e@) == before_1.push(("domain"@, JsonView::Str(self.domain@))));
        let ghost before_2 = members_view(e@);
        put_opt_str(&mut e, "selector", &self.selector);
        assert(members_view(e@) == if self.selector is Some { before_2.push(("selector"@, JsonView::Str(self.selector.unwrap()@))) } else { before_2 });
        let ghost before_3 = members_view(e@);
        put(&mut e, "result", dkim_result_json(self.result));
        assert(members_view(e@) == before_3.push(("result"@, JsonView::Str(dkim_result_text(self.result)))));
        let ghost before_4 = members_view(e@);
        put_opt_str(&mut e, "human_result", &self.human_result);
        assert(members_view(e@) == if self.human_result is Some { before_4.push(("human_result"@, JsonView::Str(self.human_result.unwrap()@))) } else { before_4 });
        e
    }
}

/// Whether a JSON array lists, item by item, objects that describe `xs`.
pub open spec fn dkim_auth_result_list_decodes(v: Option<JsonValue>, xs: Seq<DKIMAuthResult>) -> bool {
    match v {
        Some(JsonValue::Array(a)) => {
            &&& a@.len() == xs.len()
            &&& forall|i: int| 0 <= i < a@.len() ==> (#[trigger] a@[i] is Object && dkim_auth_result_decodes(a@[i]->Object_0@, xs[i]))
        },
        _ => false,
    }
}

pub open spec fn dkim_auth_result_list_readable(v: Option<JsonValue>) -> bool {
    match v {
        Some(JsonValue::Array(a)) => forall|i: int| 0 <= i < a@.len() ==> (#[trigger] a@[i] is Object && dkim_auth_result_readable(a@[i]->Object_0@)),
        _ => false,
    }
}

fn dkim_auth_result_list_from(v: Option<&JsonValue>) -> (r: Option<Vec<DKIMAuthResult>>)
    ensures
        r.is_some() == dkim_auth_result_list_readable(found(v)),
        r.is_some() ==> dkim_auth_result_list_decodes(found(v), r.unwrap()@),
{
    let a = match v {
        Some(JsonValue::Array(a)) => a,
        _ => return None,
    };
    let mut out: Vec<DKIMAuthResult> = Vec::new();
    let mut i: usize = 0;
    while i < a.len()
        invariant
            i <= a@.len(),
            found(v) == Some(JsonValue::Array(*a)),
            out@.len() == i,
            forall|j: int| 0 <= j < i ==> (#[trigger] a@[j] is Object && dkim_auth_result_decodes(a@[j]->Object_0@, out@[j])
                && dkim_auth_result_readable(a@[j]->Object_0@)),
        decreases a@.len() - i,
    {
        match &a[i] {
            JsonValue::Object(m) => match DKIMAuthResult::decode(m) {
                Some(x) => out.push(x),
                None => return None,
            },
            _ => return None,
        }
        i = i + 1;
    }
    Some(out)
}

/// The views of a list of objects.
pub open spec fn dkim_auth_result_list_jview(xs: Seq<DKIMAuthResult>) -> Seq<JsonView> {
    Seq::new(xs.len(), |i: int| JsonView::Object(dkim_auth_result_json_view(xs[i])))
}

fn dkim_auth_result_list_json(xs: &Vec<DKIMAuthResult>) -> (r: JsonValue)
    ensures
        dkim_auth_result_list_decodes(Some(r), xs@),
        jview(r) == JsonView::Array(dkim_auth_result_list_jview(xs@)),
{
    let mut a: Vec<JsonValue> = Vec::new();
    let mut i: usize = 0;
    while i < xs.len()
        invariant
            i <= xs@.len(),
            a@.len() == i,
            forall|j: int| 0 <= j < i ==> (#[trigger] a@[j] is Object && dkim_auth_result_decodes(a@[j]->Object_0@, xs@[j])
                && jview(a@[j]) == JsonView::Object(dkim_auth_result_json_view(xs@[j]))),
        decreases xs@.len() - i,
    {
        a.push(JsonValue::Object(xs[i].encode()));
        i = i + 1;
    }
    let r = JsonValue::Array(a);
    assert(jview(r)->Array_0 =~= dkim_auth_result_list_jview(xs@));
    r
}

/// Whether the members of a markup element describe `x`: numbers are text,
/// and a list is the run of child elements that share its name.
pub open spec fn dkim_auth_result_xml_decodes(e: Seq<(String, JsonValue)>, x: DKIMAuthResult) -> bool {
    &&& str_value(lookup(e, "domain"@)) == Some(x.domain)
    &&& opt_str_value(lookup(e, "selector"@)) == Some(x.selector)
    &&& dkim_result_value(lookup(e, "result"@)) == Some(x.result)
    &&& opt_str_value(lookup(e, "human_result"@)) == Some(x.human_result)
}

pub open spec fn dkim_auth_result_xml_readable(e: Seq<(String, JsonValue)>) -> bool {
    &&& str_value(lookup(e, "domain"@)).is_some()
    &&& opt_str_value(lookup(e, "selector"@)).is_some()
    &&& dkim_result_value(lookup(e, "result"@)).is_some()
    &&& opt_str_value(lookup(e, "human_result"@)).is_some()
}

impl DKIMAuthResult {
    /// Reads the value from the members of a markup element.
    pub fn from_xml(e: &Members) -> (r: Option<DKIMAuthResult>)
        ensures
            r.is_some() == dkim_auth_result_xml_readable(e@),
            r.is_some() ==> dkim_auth_result_xml_decodes(e@, r.unwrap()),
    {
        let domain = match str_from(find(e, "domain")) {
            Some(x) => x,
            None => return None,
        };
        let selector = match opt_str_from(find(e, "selector")) {
            Some(x) => x,
            None => return None,
        };
        let result = match dkim_result_from(find(e, "result")) {
            Some(x) => x,
            None => return None,
        };
        let human_result = match opt_str_from(find(e, "human_result")) {
            Some(x) => x,
            None => return None,
        };
        Some(DKIMAuthResult {
            domain,
            selector,
            result,
            human_result,
        })
    }
}

/// Whether a run of sibling elements describes `xs`, one element per item.
pub open spec fn dkim_auth_result_xml_run_decodes(vals: Seq<JsonValue>, xs: Seq<DKIMAuthResult>) -> bool {
    &&& vals.len() == xs.len()
    &&& forall|i: int| 0 <= i < vals.len() ==> (#[trigger] vals[i] is Object && dkim_auth_result_xml_decodes(vals[i]->Object_0@, xs[i]))
}

pub open spec fn dkim_auth_result_xml_run_readable(vals: Seq<JsonValue>) -> bool {
    forall|i: int| 0 <= i < vals.len() ==> (#[trigger] vals[i] is Object && dkim_auth_result_xml_readable(vals[i]->Object_0@))
}

fn dkim_auth_result_xml_run_from(vals: &Vec<&JsonValue>) -> (r: Option<Vec<DKIMAuthResult>>)
    ensures
        r.is_some() == dkim_auth_result_xml_run_readable(deref_all(vals@)),
        r.is_some() ==> dkim_auth_result_xml_run_decodes(deref_all(vals@), r.unwrap()@),
{
    let mut out: Vec<DKIMAuthResult> = Vec::new();
    let mut i: usize = 0;
    while i < vals.len()
        invariant
            i <= vals@.len(),
            out@.len() == i,
            forall|j: int| 0 <= j < i ==> (#[trigger] deref_all(vals@)[j] is Object && dkim_auth_result_xml_decodes(deref_all(vals@)[j]->Object_0@, out@[j])
                && dkim_auth_result_xml_readable(deref_all(vals@)[j]->Object_0@)),
        decreases vals@.len() - i,
    {
        assert(deref_all(vals@)[i as int] == *vals@[i as int]);
        match vals[i] {
            JsonValue::Object(m) => match DKIMAuthResult::from_xml(m) {
                Some(x) => out.push(x),
                None => return None,
            },
            _ => return None,
        }
        i = i + 1;
    }
    Some(out)
}

/// Members with the same view hold a readable dkim auth result alike.
pub proof fn lemma_dkim_auth_result_xml_readable_view(e1: Seq<(String, JsonValue)>, e2: Seq<(String, JsonValue)>)
    requires
        members_view(e1) == members_view(e2),
    ensures
        dkim_auth_result_xml_readable(e1) == dkim_auth_result_xml_readable(e2),
{
    lemma_lookup_view(e1, e2, "domain"@);
    lemma_value_views(lookup(e1, "domain"@), lookup(e2, "domain"@), 0);
    lemma_lookup_view(e1, e2, "selector"@);
    lemma_value_views(lookup(e1, "selector"@), lookup(e2, "selector"@), 0);
    lemma_lookup_view(e1, e2, "result"@);
    lemma_value_views(lookup(e1, "result"@), lookup(e2, "result"@), 0);
    lemma_lookup_view(e1, e2, "human_result"@);
    lemma_value_views(lookup(e1, "human_result"@), lookup(e2, "human_result"@), 0);
}

/// Members with the same view describe dkim auth result values with the same JSON view.
pub proof fn lemma_dkim_auth_result_xml_decodes_view(e1: Seq<(String, JsonValue)>, e2: Seq<(String, JsonValue)>, x: DKIMAuthResult, y: DKIMAuthResult)
    requires
        members_view(e1) == members_view(e2),
        dkim_auth_result_xml_decodes(e1, x),
        dkim_auth_result_xml_decodes(e2, y),
    ensures
        dkim_auth_result_json_view(x) == dkim_auth_result_json_view(y),
{
    lemma_lookup_view(e1, e2, "domain"@);
    lemma_value_views(lookup(e1, "domain"@), lookup(e2, "domain"@), 0);
    lemma_lookup_view(e1, e2, "selector"@);
    lemma_value_views(lookup(e1, "selector"@), lookup(e2, "selector"@), 0);
    lemma_lookup_view(e1, e2, "result"@);
    lemma_value_views(lookup(e1, "result"@), lookup(e2, "result"@), 0);
    lemma_lookup_view(e1, e2, "human_result"@);
    lemma_value_views(lookup(e1, "human_result"@), lookup(e2, "human_result"@), 0);
}

/// One SPF check.
#[derive(Debug, PartialEq, Eq)]
pub struct SPFAuthResult {
    pub domain: String,
    pub scope: Option<SPFDomainScope>,
    pub result: SPFResult,
}

/// Whether the members of a JSON object describe `x`.
pub open spec fn spf_auth_result_decodes(e: Seq<(String, JsonValue)>, x: SPFAuthResult) -> bool {
    &&& str_value(lookup(e, "domain"@)) == Some(x.domain)
    &&& opt_spf_domain_scope_value(lookup(e, "scope"@)) == Some(x.scope)
    &&& spf_result_value(lookup(e, "result"@)) == Some(x.result)
}

/// Whether an object's members hold a well-typed spf auth result.
pub open spec fn spf_auth_result_readable(e: Seq<(String, JsonValue)>) -> bool {
    &&& str_value(lookup(e, "domain"@)).is_some()
    &&& opt_spf_domain_scope_value(lookup(e, "scope"@)).is_some()
    &&& spf_result_value(lookup(e, "result"@)).is_some()
}

/// The members that a spf auth result is written as, in order.
pub open spec fn spf_auth_result_json_view(x: SPFAuthResult) -> Seq<(Seq<char>, JsonView)> {
    let s0 = Seq::empty();
    let s1 = s0.push(("domain"@, JsonView::Str(x.domain@)));
    let s2 = if x.scope is Some { s1.push(("scope"@, JsonView::Str(spf_domain_scope_text(x.scope.unwrap())))) } else { s1 };
    let s3 = s2.push(("result"@, JsonView::Str(spf_result_text(x.result))));
    s3
}

impl SPFAuthResult {
    /// Reads the body from an object's members.
    pub fn decode(e: &Members) -> (r: Option<SPFAuthResult>)
        ensures
            r.is_some() == spf_auth_result_readable(e@),
            r.is_some() ==> spf_auth_result_decodes(e@, r.unwrap()),
    {
        let domain = match str_from(find(e, "domain")) {
            Some(x) => x,
            None => return None,
        };
        let scope = match opt_spf_domain_scope_from(find(e, "scope")) {
            Some(x) => x,
            None => return None,
        };
        let result = match spf_result_from(find(e, "result")) {
            Some(x) => x,
            None => return None,
        };
        Some(SPFAuthResult {
            domain,
            scope,
            result,
        })
    }

    /// The members of this body under their canonical names; reading them
    /// back gives this body.
    pub fn encode(&self) -> (r: Members)
        ensures
            spf_auth_result_decodes(r@, *self),
            members_view(r@) == spf_auth_result_json_view(*self),
    {
        proof {
            reveal_strlit("domain");
            assert("domain"@.len() == 6);
            reveal_strlit("scope");
            assert("scope"@.len() == 5);
            reveal_strlit("result");
            assert("result"@.len() == 6);
            assert("domain"@[0] != "result"@[0]);
        }
        let mut e: Members = Vec::new();
        assert(members_view(e@) =~= Seq::<(Seq<char>, JsonView)>::empty());
        let ghost before_1 = members_view(e@);
        put(&mut e, "domain", JsonValue::Str(self.domain.clone()));
        assert(members_view(e@) == before_1.push(("domain"@, JsonView::Str(self.domain@))));
        let ghost before_2 = members_view(e@);
        if let Some(x) = self.scope {
            put(&mut e, "scope", spf_domain_scope_json(x));
        }
        assert(members_view(e@) == if self.scope is Some { before_2.push(("scope"@, JsonView::Str(spf_domain_scope_text(self.scope.unwrap())))) } else { before_2 });
        let ghost before_3 = members_view(e@);
        put(&mut e, "result", spf_result_json(self.result));
        assert(members_view(e@) == before_3.push(("result"@, JsonView::Str(spf_result_text(self.result)))));
        e
    }
}

/// Whether a JSON array lists, item by item, objects that describe `xs`.
pub open spec fn spf_auth_result_list_decodes(v: Option<JsonValue>, xs: Seq<SPFAuthResult>) -> bool {
    match v {
        Some(JsonValue::Array(a)) => {
            &&& a@.len() == xs.len()
            &&& forall|i: int| 0 <= i < a@.len() ==> (#[trigger] a@[i] is Object && spf_auth_result_decodes(a@[i]->Object_0@, xs[i]))
        },
        _ => false,
    }
}

pub open spec fn spf_auth_result_list_readable(v: Option<JsonValue>) -> bool {
    match v {
        Some(JsonValue::Array(a)) => forall|i: int| 0 <= i < a@.len() ==> (#[trigger] a@[i] is Object && spf_auth_result_readable(a@[i]->Object_0@)),
        _ => false,
    }
}

fn spf_auth_result_list_from(v: Option<&JsonValue>) -> (r: Option<Vec<SPFAuthResult>>)
    ensures
        r.is_some() == spf_auth_result_list_readable(found(v)),
        r.is_some() ==> spf_auth_result_list_decodes(found(v), r.unwrap()@),
{
    let a = match v {
        Some(JsonValue::Array(a)) => a,
        _ => return None,
    };
    let mut out: Vec<SPFAuthResult> = Vec::new();
    let mut i: usize = 0;
    while i < a.len()
        invariant
            i <= a@.len(),
            found(v) == Some(JsonValue::Array(*a)),
            out@.len() == i,
            forall|j: int| 0 <= j < i ==> (#[trigger] a@[j] is Object && spf_auth_result_decodes(a@[j]->Object_0@, out@[j])
                && spf_auth_result_readable(a@[j]->Object_0@)),
        decreases a@.len() - i,
    {
        match &a[i] {
            JsonValue::Object(m) => match SPFAuthResult::decode(m) {
                Some(x) => out.push(x),
                None => return None,
            },
            _ => return None,
        }
        i = i + 1;
    }
    Some(out)
}

/// The views of a list of objects.
pub open spec fn spf_auth_result_list_jview(xs: Seq<SPFAuthResult>) -> Seq<JsonView> {
    Seq::new(xs.len(), |i: int| JsonView::Object(spf_auth_result_json_view(xs[i])))
}

fn spf_auth_result_list_json(xs: &Vec<SPFAuthResult>) -> (r: JsonValue)
    ensures
        spf_auth_result_list_decodes(Some(r), xs@),
        jview(r) == JsonView::Array(spf_auth_result_list_jview(xs@)),
{
    let mut a: Vec<JsonValue> = Vec::new();
    let mut i: usize = 0;
    while i < xs.len()
        invariant
            i <= xs@.len(),
            a@.len() == i,
            forall|j: int| 0 <= j < i ==> (#[trigger] a@[j] is Object && spf_auth_result_decodes(a@[j]->Object_0@, xs@[j])
                && jview(a@[j]) == JsonView::Object(spf_auth_result_json_view(xs@[j]))),
        decreases xs@.len() - i,
    {
        a.push(JsonValue::Object(xs[i].encode()));
        i = i + 1;
    }
    let r = JsonValue::Array(a);
    assert(jview(r)->Array_0 =~= spf_auth_result_list_jview(xs@));
    r
}

/// Whether the members of a markup element describe `x`: numbers are text,
/// and a list is the run of child elements that share its name.
pub open spec fn spf_auth_result_xml_decodes(e: Seq<(String, JsonValue)>, x: SPFAuthResult) -> bool {
    &&& str_value(lookup(e, "domain"@)) == Some(x.domain)
    &&& opt_spf_domain_scope_value(lookup(e, "scope"@)) == Some(x.scope)
    &&& spf_result_value(lookup(e, "result"@)) == Some(x.result)
}

pub open spec fn spf_auth_result_xml_readable(e: Seq<(String, JsonValue)>) -> bool {
    &&& str_value(lookup(e, "domain"@)).is_some()
    &&& opt_spf_domain_scope_value(lookup(e, "scope"@)).is_some()
    &&& spf_result_value(lookup(e, "result"@)).is_some()
}

impl SPFAuthResult {
    /// Reads the value from the members of a markup element.
    pub fn from_xml(e: &Members) -> (r: Option<SPFAuthResult>)
        ensures
            r.is_some() == spf_auth_result_xml_readable(e@),
            r.is_some() ==> spf_auth_result_xml_decodes(e@, r.unwrap()),
    {
        let domain = match str_from(find(e, "domain")) {
            Some(x) => x,
            None => return None,
        };
        let scope = match opt_spf_domain_scope_from(find(e, "scope")) {
            Some(x) => x,
            None => return None,
        };
        let result = match spf_result_from(find(e, "result")) {
            Some(x) => x,
            None => return None,
        };
        Some(SPFAuthResult {
            domain,
            scope,
            result,
        })
    }
}

/// Whether a run of sibling elements describes `xs`, one element per item.
pub open spec fn spf_auth_result_xml_run_decodes(vals: Seq<JsonValue>, xs: Seq<SPFAuthResult>) -> bool {
    &&& vals.len() == xs.len()
    &&& forall|i: int| 0 <= i < vals.len() ==> (#[trigger] vals[i] is Object && spf_auth_result_xml_decodes(vals[i]->Object_0@, xs[i]))
}

pub open spec fn spf_auth_result_xml_run_readable(vals: Seq<JsonValue>) -> bool {
    forall|i: int| 0 <= i < vals.len() ==> (#[trigger] vals[i] is Object && spf_auth_result_xml_readable(vals[i]->Object_0@))
}

fn spf_auth_result_xml_run_from(vals: &Vec<&JsonValue>) -> (r: Option<Vec<SPFAuthResult>>)
    ensures
        r.is_some() == spf_auth_result_xml_run_readable(deref_all(vals@)),
        r.is_some() ==> spf_auth_result_xml_run_decodes(deref_all(vals@), r.unwrap()@),
{
    let mut out: Vec<SPFAuthResult> = Vec::new();
    let mut i: usize = 0;
    while i < vals.len()
        invariant
            i <= vals@.len(),
            out@.len() == i,
            forall|j: int| 0 <= j < i ==> (#[trigger] deref_all(vals@)[j] is Object && spf_auth_result_xml_decodes(deref_all(vals@)[j]->Object_0@, out@[j])
                && spf_auth_result_xml_readable(deref_all(vals@)[j]->Object_0@)),
        decreases vals@.len() - i,
    {
        assert(deref_all(vals@)[i as int] == *vals@[i as int]);
        match vals[i] {
            JsonValue::Object(m) => match SPFAuthResult::from_xml(m) {
                Some(x) => out.push(x),
                None => return None,
            },
            _ => return None,
        }
        i = i + 1;
    }
    Some(out)
}

/// Members with the same view hold a readable spf auth result alike.
pub proof fn lemma_spf_auth_result_xml_readable_view(e1: Seq<(String, JsonValue)>, e2: Seq<(String, JsonValue)>)
    requires
        members_view(e1) == members_view(e2),
    ensures
        spf_auth_result_xml_readable(e1) == spf_auth_result_xml_readable(e2),
{
    lemma_lookup_view(e1, e2, "domain"@);
    lemma_value_views(lookup(e1, "domain"@), lookup(e2, "domain"@), 0);
    lemma_lookup_view(e1, e2, "scope"@);
    lemma_value_views(lookup(e1, "scope"@), lookup(e2, "scope"@), 0);
    lemma_lookup_view(e1, e2, "result"@);
    lemma_value_views(lookup(e1, "result"@), lookup(e2, "result"@), 0);
}

/// Members with the same view describe spf auth result values with the same JSON view.
pub proof fn lemma_spf_auth_result_xml_decodes_view(e1: Seq<(String, JsonValue)>, e2: Seq<(String, JsonValue)>, x: SPFAuthResult, y: SPFAuthResult)
    requires
        members_view(e1) == members_view(e2),
        spf_auth_result_xml_decodes(e1, x),
        spf_auth_result_xml_decodes(e2, y),
    ensures
        spf_auth_result_json_view(x) == spf_auth_result_json_view(y),
{
    lemma_lookup_view(e1, e2, "domain"@);
    lemma_value_views(lookup(e1, "domain"@), lookup(e2, "domain"@), 0);
    lemma_lookup_view(e1, e2, "scope"@);
    lemma_value_views(lookup(e1, "scope"@), lookup(e2, "scope"@), 0);
    lemma_lookup_view(e1, e2, "result"@);
    lemma_value_views(lookup(e1, "result"@), lookup(e2, "result"@), 0);
}

/// The authentication checks of the messages.
#[derive(Debug, PartialEq, Eq)]
pub struct AuthResult {
    pub dkim: Vec<DKIMAuthResult>,
    pub spf: Vec<SPFAuthResult>,
}

/// Whether the members of a JSON object describe `x`.
pub open spec fn auth_result_decodes(e: Seq<(String, JsonValue)>, x: AuthResult) -> bool {
    &&& dkim_auth_result_list_decodes(lookup(e, "dkim"@), x.dkim@)
    &&& spf_auth_result_list_decodes(lookup(e, "spf"@), x.spf@)
}

/// Whether an object's members hold a well-typed auth result.
pub open spec fn auth_result_readable(e: Seq<(String, JsonValue)>) -> bool {
    &&& dkim_auth_result_list_readable(lookup(e, "dkim"@))
    &&& spf_auth_result_list_readable(lookup(e, "spf"@))
}

/// The members that a auth result is written as, in order.
pub open spec fn auth_result_json_view(x: AuthResult) -> Seq<(Seq<char>, JsonView)> {
    let s0 = Seq::empty();
    let s1 = s0.push(("dkim"@, JsonView::Array(dkim_auth_result_list_jview(x.dkim@))));
    let s2 = s1.push(("spf"@, JsonView::Array(spf_auth_result_list_jview(x.spf@))));
    s2
}

impl AuthResult {
    /// Reads the body from an object's members.
    pub fn decode(e: &Members) -> (r: Option<AuthResult>)
        ensures
            r.is_some() == auth_result_readable(e@),
            r.is_some() ==> auth_result_decodes(e@, r.unwrap()),
    {
        let dkim = match dkim_auth_result_list_from(find(e, "dkim")) {
            Some(x) => x,
            None => return None,
        };
        let spf = match spf_auth_result_list_from(find(e, "spf")) {
            Some(x) => x,
            None => return None,
        };
        Some(AuthResult {
            dkim,
            spf,
        })
    }

    /// The members of this body under their canonical names; reading them
    /// back gives this body.
    pub fn encode(&self) -> (r: Members)
        ensures
            auth_result_decodes(r@, *self),
            members_view(r@) == auth_result_json_view(*self),
    {
        proof {
            reveal_strlit("dkim");
            assert("dkim"@.len() == 4);
            reveal_strlit("spf");
            assert("spf"@.len() == 3);
        }
        let mut e: Members = Vec::new();
        assert(members_view(e@) =~= Seq::<(Seq<char>, JsonView)>::empty());
        let ghost before_1 = members_view(e@);
        put(&mut e, "dkim", dkim_auth_result_list_json(&self.dkim));
        assert(members_view(e@) == before_1.push(("dkim"@, JsonView::Array(dkim_auth_result_list_jview(self.dkim@)))));
        let ghost before_2 = members_view(e@);
        put(&mut e, "spf", spf_auth_result_list_json(&self.spf));
        assert(members_view(e@) == before_2.push(("spf"@, JsonView::Array(spf_auth_result_list_jview(self.spf@)))));
        e
    }
}

/// Whether the members of a markup element describe `x`: numbers are text,
/// and a list is the run of child elements that share its name.
pub open spec fn auth_result_xml_decodes(e: Seq<(String, JsonValue)>, x: AuthResult) -> bool {
    &&& dkim_auth_result_xml_run_decodes(repeated(e, "dkim"@), x.dkim@)
    &&& spf_auth_result_xml_run_decodes(repeated(e, "spf"@), x.spf@)
}

pub open spec fn auth_result_xml_readable(e: Seq<(String, JsonValue)>) -> bool {
    &&& dkim_auth_result_xml_run_readable(repeated(e, "dkim"@))
    &&& spf_auth_result_xml_run_readable(repeated(e, "spf"@))
}

impl AuthResult {
    /// Reads the value from the members of a markup element.
    pub fn from_xml(e: &Members) -> (r: Option<AuthResult>)
        ensures
            r.is_some() == auth_result_xml_readable(e@),
            r.is_some() ==> auth_result_xml_decodes(e@, r.unwrap()),
    {
        let dkim_run = find_all(e, "dkim");
        assert(deref_all(dkim_run@) =~= repeated(e@, "dkim"@));
        let dkim = match dkim_auth_result_xml_run_from(&dkim_run) {
            Some(x) => x,
            None => return None,
        };
        let spf_run = find_all(e, "spf");
        assert(deref_all(spf_run@) =~= repeated(e@, "spf"@));
        let spf = match spf_auth_result_xml_run_from(&spf_run) {
            Some(x) => x,
            None => return None,
        };
        Some(AuthResult {
            dkim,
            spf,
        })
    }
}

/// Members with the same view hold a readable auth result alike.
pub proof fn lemma_auth_result_xml_readable_view(e1: Seq<(String, JsonValue)>, e2: Seq<(String, JsonValue)>)
    requires
        members_view(e1) == members_view(e2),
    ensures
        auth_result_xml_readable(e1) == auth_result_xml_readable(e2),
{
    lemma_repeated_view(e1, e2, "dkim"@);
    let (r1, r2) = (repeated(e1, "dkim"@), repeated(e2, "dkim"@));
    assert forall|i: int| 0 <= i < r1.len() implies (#[trigger] r1[i] is Object && dkim_auth_result_xml_readable(r1[i]->Object_0@)) == (r2[i] is Object && dkim_auth_result_xml_readable(r2[i]->Object_0@)) by {
        assert(jview(r1[i]) == jview(r2[i]));
        match (r1[i], r2[i]) {
            (JsonValue::Object(m1), JsonValue::Object(m2)) => {
                lemma_object_view(m1);
                lemma_object_view(m2);
                lemma_dkim_auth_result_xml_readable_view(m1@, m2@);
            },
            _ => {},
        }
    }
    assert(dkim_auth_result_xml_run_readable(r1) == dkim_auth_result_xml_run_readable(r2)) by {
        if dkim_auth_result_xml_run_readable(r1) {
            assert forall|i: int| 0 <= i < r2.len() implies (#[trigger] r2[i] is Object && dkim_auth_result_xml_readable(r2[i]->Object_0@)) by {
                assert(r1[i] is Object && dkim_auth_result_xml_readable(r1[i]->Object_0@));
            }
        }
        if dkim_auth_result_xml_run_readable(r2) {
            assert forall|i: int| 0 <= i < r1.len() implies (#[trigger] r1[i] is Object && dkim_auth_result_xml_readable(r1[i]->Object_0@)) by {
                assert(r2[i] is Object && dkim_auth_result_xml_readable(r2[i]->Object_0@));
            }
        }
    }
    lemma_repeated_view(e1, e2, "spf"@);
    let (r1, r2) = (repeated(e1, "spf"@), repeated(e2, "spf"@));
    assert forall|i: int| 0 <= i < r1.len() implies (#[trigger] r1[i] is Object && spf_auth_result_xml_readable(r1[i]->Object_0@)) == (r2[i] is Object && spf_auth_result_xml_readable(r2[i]->Object_0@)) by {
        assert(jview(r1[i]) == jview(r2[i]));
        match (r1[i], r2[i]) {
            (JsonValue::Object(m1), JsonValue::Object(m2)) => {
                lemma_object_view(m1);
                lemma_object_view(m2);
                lemma_spf_auth_result_xml_readable_view(m1@, m2@);
            },
            _ => {},
        }
    }
    assert(spf_auth_result_xml_run_readable(r1) == spf_auth_result_xml_run_readable(r2)) by {
        if spf_auth_result_xml_run_readable(r1) {
            assert forall|i: int| 0 <= i < r2.len() implies (#[trigger] r2[i] is Object && spf_auth_result_xml_readable(r2[i]->Object_0@)) by {
                assert(r1[i] is Object && spf_auth_result_xml_readable(r1[i]->Object_0@));
            }
        }
        if spf_auth_result_xml_run_readable(r2) {
            assert forall|i: int| 0 <= i < r1.len() implies (#[trigger] r1[i] is Object && spf_auth_result_xml_readable(r1[i]->Object_0@)) by {
                assert(r2[i] is Object && spf_auth_result_xml_readable(r2[i]->Object_0@));
            }
        }
    }
}

/// Members with the same view describe auth result values with the same JSON view.
pub proof fn lemma_auth_result_xml_decodes_view(e1: Seq<(String, JsonValue)>, e2: Seq<(String, JsonValue)>, x: AuthResult, y: AuthResult)
    requires
        members_view(e1) == members_view(e2),
        auth_result_xml_decodes(e1, x),
        auth_result_xml_decodes(e2, y),
    ensures
        auth_result_json_view(x) == auth_result_json_view(y),
{
    lemma_repeated_view(e1, e2, "dkim"@);
    let (r1, r2) = (repeated(e1, "dkim"@), repeated(e2, "dkim"@));
    assert forall|i: int| 0 <= i < x.dkim@.len() implies #[trigger] dkim_auth_result_list_jview(x.dkim@)[i] == dkim_auth_result_list_jview(y.dkim@)[i] by {
        assert(jview(r1[i]) == jview(r2[i]));
        assert(r1[i] is Object && dkim_auth_result_xml_decodes(r1[i]->Object_0@, x.dkim@[i]));
        assert(r2[i] is Object && dkim_auth_result_xml_decodes(r2[i]->Object_0@, y.dkim@[i]));
        match (r1[i], r2[i]) {
            (JsonValue::Object(m1), JsonValue::Object(m2)) => {
                lemma_dkim_auth_result_xml_decodes_view(m1@, m2@, x.dkim@[i], y.dkim@[i]);
            },
            _ => {},
        }
    }
    assert(dkim_auth_result_list_jview(x.dkim@) =~= dkim_auth_result_list_jview(y.dkim@));
    lemma_repeated_view(e1, e2, "spf"@);
    let (r1, r2) = (repeated(e1, "spf"@), repeated(e2, "spf"@));
    assert forall|i: int| 0 <= i < x.spf@.len() implies #[trigger] spf_auth_result_list_jview(x.spf@)[i] == spf_auth_result_list_jview(y.spf@)[i] by {
        assert(jview(r1[i]) == jview(r2[i]));
        assert(r1[i] is Object && spf_auth_result_xml_decodes(r1[i]->Object_0@, x.spf@[i]));
        assert(r2[i] is Object && spf_auth_result_xml_decodes(r2[i]->Object_0@, y.spf@[i]));
        match (r1[i], r2[i]) {
            (JsonValue::Object(m1), JsonValue::Object(m2)) => {
                lemma_spf_auth_result_xml_decodes_view(m1@, m2@, x.spf@[i], y.spf@[i]);
            },
            _ => {},
        }
    }
    assert(spf_auth_result_list_jview(x.spf@) =~= spf_auth_result_list_jview(y.spf@));
}

/// One record of a report.
#[derive(Debug, PartialEq, Eq)]
pub struct Record {
    pub row: Row,
    pub identifiers: Identifier,
    pub auth_results: AuthResult,
}

/// Whether the members of a JSON object describe `x`.
pub open spec fn record_decodes(e: Seq<(String, JsonValue)>, x: Record) -> bool {
    &&& match lookup(e, "row"@) {
        Some(JsonValue::Object(m)) => row_decodes(m@, x.row),
        _ => false,
    }
    &&& match lookup(e, "identifiers"@) {
        Some(JsonValue::Object(m)) => identifier_decodes(m@, x.identifiers),
        _ => false,
    }
    &&& match lookup(e, "auth_results"@) {
        Some(JsonValue::Object(m)) => auth_result_decodes(m@, x.auth_results),
        _ => false,
    }
}

/// Whether an object's members hold a well-typed record.
pub open spec fn record_readable(e: Seq<(String, JsonValue)>) -> bool {
    &&& match lookup(e, "row"@) {
        Some(JsonValue::Object(m)) => row_readable(m@),
        _ => false,
    }
    &&& match lookup(e, "identifiers"@) {
        Some(JsonValue::Object(m)) => identifier_readable(m@),
        _ => false,
    }
    &&& match lookup(e, "auth_results"@) {
        Some(JsonValue::Object(m)) => auth_result_readable(m@),
        _ => false,
    }
}

/// The members that a record is written as, in order.
pub open spec fn record_json_view(x: Record) -> Seq<(Seq<char>, JsonView)> {
    let s0 = Seq::empty();
    let s1 = s0.push(("row"@, JsonView::Object(row_json_view(x.row))));
    let s2 = s1.push(("identifiers"@, JsonView::Object(identifier_json_view(x.identifiers))));
    let s3 = s2.push(("auth_results"@, JsonView::Object(auth_result_json_view(x.auth_results))));
    s3
}

impl Record {
    /// Reads the body from an object's members.
    pub fn decode(e: &Members) -> (r: Option<Record>)
        ensures
            r.is_some() == record_readable(e@),
            r.is_some() ==> record_decodes(e@, r.unwrap()),
    {
        let row = match match find(e, "row") {
            Some(JsonValue::Object(m)) => Row::decode(m),
            _ => None,
        } {
            Some(x) => x,
            None => return None,
        };
        let identifiers = match match find(e, "identifiers") {
            Some(JsonValue::Object(m)) => Identifier::decode(m),
            _ => None,
        } {
            Some(x) => x,
            None => return None,
        };
        let auth_results = match match find(e, "auth_results") {
            Some(JsonValue::Object(m)) => AuthResult::decode(m),
            _ => None,
        } {
            Some(x) => x,
            None => return None,
        };
        Some(Record {
            row,
            identifiers,
            auth_results,
        })
    }

    /// The members of this body under their canonical names; reading them
    /// back gives this body.
    pub fn encode(&self) -> (r: Members)
        ensures
            record_decodes(r@, *self),
            members_view(r@) == record_json_view(*self),
    {
        proof {
            reveal_strlit("row");
            assert("row"@.len() == 3);
            reveal_strlit("identifiers");
            assert("identifiers"@.len() == 11);
            reveal_strlit("auth_results");
            assert("auth_results"@.len() == 12);
        }
        let mut e: Members = Vec::new();
        assert(members_view(e@) =~= Seq::<(Seq<char>, JsonView)>::empty());
        let ghost before_1 = members_view(e@);
        put(&mut e, "row", JsonValue::Object(self.row.encode()));
        assert(members_view(e@) == before_1.push(("row"@, JsonView::Object(row_json_view(self.row)))));
        let ghost before_2 = members_view(e@);
        put(&mut e, "identifiers", JsonValue::Object(self.identifiers.encode()));
        assert(members_view(e@) == before_2.push(("identifiers"@, JsonView::Object(identifier_json_view(self.identifiers)))));
        let ghost before_3 = members_view(e@);
        put(&mut e, "auth_results", JsonValue::Object(self.auth_results.encode()));
        assert(members_view(e@) == before_3.push(("auth_results"@, JsonView::Object(auth_result_json_view(self.auth_results)))));
        e
    }
}

/// Whether a JSON array lists, item by item, objects that describe `xs`.
pub open spec fn record_list_decodes(v: Option<JsonValue>, xs: Seq<Record>) -> bool {
    match v {
        Some(JsonValue::Array(a)) => {
            &&& a@.len() == xs.len()
            &&& forall|i: int| 0 <= i < a@.len() ==> (#[trigger] a@[i] is Object && record_decodes(a@[i]->Object_0@, xs[i]))
        },
        _ => false,
    }
}

pub open spec fn record_list_readable(v: Option<JsonValue>) -> bool {
    match v {
        Some(JsonValue::Array(a)) => forall|i: int| 0 <= i < a@.len() ==> (#[trigger] a@[i] is Object && record_readable(a@[i]->Object_0@)),
        _ => false,
    }
}

fn record_list_from(v: Option<&JsonValue>) -> (r: Option<Vec<Record>>)
    ensures
        r.is_some() == record_list_readable(found(v)),
        r.is_some() ==> record_list_decodes(found(v), r.unwrap()@),
{
    let a = match v {
        Some(JsonValue::Array(a)) => a,
        _ => return None,
    };
    let mut out: Vec<Record> = Vec::new();
    let mut i: usize = 0;
    while i < a.len()
        invariant
            i <= a@.len(),
            found(v) == Some(JsonValue::Array(*a)),
            out@.len() == i,
            forall|j: int| 0 <= j < i ==> (#[trigger] a@[j] is Object && record_decodes(a@[j]->Object_0@, out@[j])
                && record_readable(a@[j]->Object_0@)),
        decreases a@.len() - i,
    {
        match &a[i] {
            JsonValue::Object(m) => match Record::decode(m) {
                Some(x) => out.push(x),
                None => return None,
            },
            _ => return None,
        }
        i = i + 1;
    }
    Some(out)
}

/// The views of a list of objects.
pub open spec fn record_list_jview(xs: Seq<Record>) -> Seq<JsonView> {
    Seq::new(xs.len(), |i: int| JsonView::Object(record_json_view(xs[i])))
}

fn record_list_json(xs: &Vec<Record>) -> (r: JsonValue)
    ensures
        record_list_decodes(Some(r), xs@),
        jview(r) == JsonView::Array(record_list_jview(xs@)),
{
    let mut a: Vec<JsonValue> = Vec::new();
    let mut i: usize = 0;
    while i < xs.len()
        invariant
            i <= xs@.len(),
            a@.len() == i,
            forall|j: int| 0 <= j < i ==> (#[trigger] a@[j] is Object && record_decodes(a@[j]->Object_0@, xs@[j])
                && jview(a@[j]) == JsonView::Object(record_json_view(xs@[j]))),
        decreases xs@.len() - i,
    {
        a.push(JsonValue::Object(xs[i].encode()));
        i = i + 1;
    }
    let r = JsonValue::Array(a);
    assert(jview(r)->Array_0 =~= record_list_jview(xs@));
    r
}

/// Whether the members of a markup element describe `x`: numbers are text,
/// and a list is the run of child elements that share its name.
pub open spec fn record_xml_decodes(e: Seq<(String, JsonValue)>, x: Record) -> bool {
    &&& match lookup(e, "row"@) {
        Some(JsonValue::Object(m)) => row_xml_decodes(m@, x.row),
        _ => false,
    }
    &&& match lookup(e, "identifiers"@) {
        Some(JsonValue::Object(m)) => identifier_xml_decodes(m@, x.identifiers),
        _ => false,
    }
    &&& match lookup(e, "auth_results"@) {
        Some(JsonValue::Object(m)) => auth_result_xml_decodes(m@, x.auth_results),
        _ => false,
    }
}

pub open spec fn record_xml_readable(e: Seq<(String, JsonValue)>) -> bool {
    &&& match lookup(e, "row"@) {
        Some(JsonValue::Object(m)) => row_xml_readable(m@),
        _ => false,
    }
    &&& match lookup(e, "identifiers"@) {
        Some(JsonValue::Object(m)) => identifier_xml_readable(m@),
        _ => false,
    }
    &&& match lookup(e, "auth_results"@) {
        Some(JsonValue::Object(m)) => auth_result_xml_readable(m@),
        _ => false,
    }
}

impl Record {
    /// Reads the value from the members of a markup element.
    pub fn from_xml(e: &Members) -> (r: Option<Record>)
        ensures
            r.is_some() == record_xml_readable(e@),
            r.is_some() ==> record_xml_decodes(e@, r.unwrap()),
    {
        let row = match match find(e, "row") {
            Some(JsonValue::Object(m)) => Row::from_xml(m),
            _ => None,
        } {
            Some(x) => x,
            None => return None,
        };
        let identifiers = match match find(e, "identifiers") {
            Some(JsonValue::Object(m)) => Identifier::from_xml(m),
            _ => None,
        } {
            Some(x) => x,
            None => return None,
        };
        let auth_results = match match find(e, "auth_results") {
            Some(JsonValue::Object(m)) => AuthResult::from_xml(m),
            _ => None,
        } {
            Some(x) => x,
            None => return None,
        };
        Some(Record {
            row,
            identifiers,
            auth_results,
        })
    }
}

/// Whether a run of sibling elements describes `xs`, one element per item.
pub open spec fn record_xml_run_decodes(vals: Seq<JsonValue>, xs: Seq<Record>) -> bool {
    &&& vals.len() == xs.len()
    &&& forall|i: int| 0 <= i < vals.len() ==> (#[trigger] vals[i] is Object && record_xml_decodes(vals[i]->Object_0@, xs[i]))
}

pub open spec fn record_xml_run_readable(vals: Seq<JsonValue>) -> bool {
    forall|i: int| 0 <= i < vals.len() ==> (#[trigger] vals[i] is Object && record_xml_readable(vals[i]->Object_0@))
}

fn record_xml_run_from(vals: &Vec<&JsonValue>) -> (r: Option<Vec<Record>>)
    ensures
        r.is_some() == record_xml_run_readable(deref_all(vals@)),
        r.is_some() ==> record_xml_run_decodes(deref_all(vals@), r.unwrap()@),
{
    let mut out: Vec<Record> = Vec::new();
    let mut i: usize = 0;
    while i < vals.len()
        invariant
            i <= vals@.len(),
            out@.len() == i,
            forall|j: int| 0 <= j < i ==> (#[trigger] deref_all(vals@)[j] is Object && record_xml_decodes(deref_all(vals@)[j]->Object_0@, out@[j])
                && record_xml_readable(deref_all(vals@)[j]->Object_0@)),
        decreases vals@.len() - i,
    {
        assert(deref_all(vals@)[i as int] == *vals@[i as int]);
        match vals[i] {
            JsonValue::Object(m) => match Record::from_xml(m) {
                Some(x) => out.push(x),
                None => return None,
            },
            _ => return None,
        }
        i = i + 1;
    }
    Some(out)
}

/// Members with the same view hold a readable record alike.
pub proof fn lemma_record_xml_readable_view(e1: Seq<(String, JsonValue)>, e2: Seq<(String, JsonValue)>)
    requires
        members_view(e1) == members_view(e2),
    ensures
        record_xml_readable(e1) == record_xml_readable(e2),
{
    lemma_lookup_view(e1, e2, "row"@);
    match (lookup(e1, "row"@), lookup(e2, "row"@)) {
        (Some(JsonValue::Object(m1)), Some(JsonValue::Object(m2))) => {
            lemma_object_view(m1);
            lemma_object_view(m2);
            lemma_row_xml_readable_view(m1@, m2@);
        },
        _ => {},
    }
    lemma_lookup_view(e1, e2, "identifiers"@);
    match (lookup(e1, "identifiers"@), lookup(e2, "identifiers"@)) {
        (Some(JsonValue::Object(m1)), Some(JsonValue::Object(m2))) => {
            lemma_object_view(m1);
            lemma_object_view(m2);
            lemma_identifier_xml_readable_view(m1@, m2@);
        },
        _ => {},
    }
    lemma_lookup_view(e1, e2, "auth_results"@);
    match (lookup(e1, "auth_results"@), lookup(e2, "auth_results"@)) {
        (Some(JsonValue::Object(m1)), Some(JsonValue::Object(m2))) => {
            lemma_object_view(m1);
            lemma_object_view(m2);
            lemma_auth_result_xml_readable_view(m1@, m2@);
        },
        _ => {},
    }
}

/// Members with the same view describe record values with the same JSON view.
pub proof fn lemma_record_xml_decodes_view(e1: Seq<(String, JsonValue)>, e2: Seq<(String, JsonValue)>, x: Record, y: Record)
    requires
        members_view(e1) == members_view(e2),
        record_xml_decodes(e1, x),
        record_xml_decodes(e2, y),
    ensures
        record_json_view(x) == record_json_view(y),
{
    lemma_lookup_view(e1, e2, "row"@);
    match (lookup(e1, "row"@), lookup(e2, "row"@)) {
        (Some(JsonValue::Object(m1)), Some(JsonValue::Object(m2))) => {
            lemma_row_xml_decodes_view(m1@, m2@, x.row, y.row);
        },
        _ => {},
    }
    lemma_lookup_view(e1, e2, "identifiers"@);
    match (lookup(e1, "identifiers"@), lookup(e2, "identifiers"@)) {
        (Some(JsonValue::Object(m1)), Some(JsonValue::Object(m2))) => {
            lemma_identifier_xml_decodes_view(m1@, m2@, x.identifiers, y.identifiers);
        },
        _ => {},
    }
    lemma_lookup_view(e1, e2, "auth_results"@);
    match (lookup(e1, "auth_results"@), lookup(e2, "auth_results"@)) {
        (Some(JsonValue::Object(m1)), Some(JsonValue::Object(m2))) => {
            lemma_auth_result_xml_decodes_view(m1@, m2@, x.auth_results, y.auth_results);
        },
        _ => {},
    }
}

/// A DMARC aggregate report. The version is kept as the text it was written with.
#[derive(Debug, PartialEq, Eq)]
pub struct DMARCReport {
    pub version: Option<String>,
    pub report_metadata: ReportMetadata,
    pub policy_published: PolicyPublished,
    pub record: Vec<Record>,
}

/// Whether the members of a JSON object describe `x`.
pub open spec fn dmarc_report_decodes(e: Seq<(String, JsonValue)>, x: DMARCReport) -> bool {
    &&& opt_str_value(lookup(e, "version"@)) == Some(x.version)
    &&& match lookup(e, "report_metadata"@) {
        Some(JsonValue::Object(m)) => report_metadata_decodes(m@, x.report_metadata),
        _ => false,
    }
    &&& match lookup(e, "policy_published"@) {
        Some(JsonValue::Object(m)) => policy_published_decodes(m@, x.policy_published),
        _ => false,
    }
    &&& record_list_decodes(lookup(e, "record"@), x.record@)
}

/// Whether an object's members hold a well-typed dmarc report.
pub open spec fn dmarc_report_readable(e: Seq<(String, JsonValue)>) -> bool {
    &&& opt_str_value(lookup(e, "version"@)).is_some()
    &&& match lookup(e, "report_metadata"@) {
        Some(JsonValue::Object(m)) => report_metadata_readable(m@),
        _ => false,
    }
    &&& match lookup(e, "policy_published"@) {
        Some(JsonValue::Object(m)) => policy_published_readable(m@),
        _ => false,
    }
    &&& record_list_readable(lookup(e, "record"@))
}

/// The members that a dmarc report is written as, in order.
pub open spec fn dmarc_report_json_view(x: DMARCReport) -> Seq<(Seq<char>, JsonView)> {
    let s0 = Seq::empty();
    let s1 = if x.version is Some { s0.push(("version"@, JsonView::Str(x.version.unwrap()@))) } else { s0 };
    let s2 = s1.push(("report_metadata"@, JsonView::Object(report_metadata_json_view(x.report_metadata))));
    let s3 = s2.push(("policy_published"@, JsonView::Object(policy_published_json_view(x.policy_published))));
    let s4 = s3.push(("record"@, JsonView::Array(record_list_jview(x.record@))));
    s4
}

impl DMARCReport {
    /// Reads the body from an object's members.
    pub fn decode(e: &Members) -> (r: Option<DMARCReport>)
        ensures
            r.is_some() == dmarc_report_readable(e@),
            r.is_some() ==> dmarc_report_decodes(e@, r.unwrap()),
    {
        let version = match opt_str_from(find(e, "version")) {
            Some(x) => x,
            None => return None,
        };
        let report_metadata = match match find(e, "report_metadata") {
            Some(JsonValue::Object(m)) => ReportMetadata::decode(m),
            _ => None,
        } {
            Some(x) => x,
            None => return None,
        };
        let policy_published = match match find(e, "policy_published") {
            Some(JsonValue::Object(m)) => PolicyPublished::decode(m),
            _ => None,
        } {
            Some(x) => x,
            None => return None,
        };
        let record = match record_list_from(find(e, "record")) {
            Some(x) => x,
            None => return None,
        };
        Some(DMARCReport {
            version,
            report_metadata,
            policy_published,
            record,
        })
    }

    /// The members of this body under their canonical names; reading them
    /// back gives this body.
    pub fn encode(&self) -> (r: Members)
        ensures
            dmarc_report_decodes(r@, *self),
            members_view(r@) == dmarc_report_json_view(*self),
    {
        proof {
            reveal_strlit("version");
            assert("version"@.len() == 7);
            reveal_strlit("report_metadata");
            assert("report_metadata"@.len() == 15);
            reveal_strlit("policy_published");
            assert("policy_published"@.len() == 16);
            reveal_strlit("record");
            assert("record"@.len() == 6);
        }
        let mut e: Members = Vec::new();
        assert(members_view(e@) =~= Seq::<(Seq<char>, JsonView)>::empty());
        let ghost before_1 = members_view(e@);
        put_opt_str(&mut e, "version", &self.version);
        assert(members_view(e@) == if self.version is Some { before_1.push(("version"@, JsonView::Str(self.version.unwrap()@))) } else { before_1 });
        let ghost before_2 = members_view(e@);
        put(&mut e, "report_metadata", JsonValue::Object(self.report_metadata.encode()));
        assert(members_view(e@) == before_2.push(("report_metadata"@, JsonView::Object(report_metadata_json_view(self.report_metadata)))));
        let ghost before_3 = members_view(e@);
        put(&mut e, "policy_published", JsonValue::Object(self.policy_published.encode()));
        assert(members_view(e@) == before_3.push(("policy_published"@, JsonView::Object(policy_published_json_view(self.policy_published)))));
        let ghost before_4 = members_view(e@);
        put(&mut e, "record", record_list_json(&self.record));
        assert(members_view(e@) == before_4.push(("record"@, JsonView::Array(record_list_jview(self.record@)))));
        e
    }
}

/// Whether the members of a markup element describe `x`: numbers are text,
/// and a list is the run of child elements that share its name.
pub open spec fn dmarc_report_xml_decodes(e: Seq<(String, JsonValue)>, x: DMARCReport) -> bool {
    &&& opt_str_value(lookup(e, "version"@)) == Some(x.version)
    &&& match lookup(e, "report_metadata"@) {
        Some(JsonValue::Object(m)) => report_metadata_xml_decodes(m@, x.report_metadata),
        _ => false,
    }
    &&& match lookup(e, "policy_published"@) {
        Some(JsonValue::Object(m)) => policy_published_xml_decodes(m@, x.policy_published),
        _ => false,
    }
    &&& record_xml_run_decodes(repeated(e, "record"@), x.record@)
}

pub open spec fn dmarc_report_xml_readable(e: Seq<(String, JsonValue)>) -> bool {
    &&& opt_str_value(lookup(e, "version"@)).is_some()
    &&& match lookup(e, "report_metadata"@) {
        Some(JsonValue::Object(m)) => report_metadata_xml_readable(m@),
        _ => false,
    }
    &&& match lookup(e, "policy_published"@) {
        Some(JsonValue::Object(m)) => policy_published_xml_readable(m@),
        _ => false,
    }
    &&& record_xml_run_readable(repeated(e, "record"@))
}

impl DMARCReport {
    /// Reads the value from the members of a markup element.
    pub fn from_xml(e: &Members) -> (r: Option<DMARCReport>)
        ensures
            r.is_some() == dmarc_report_xml_readable(e@),
            r.is_some() ==> dmarc_report_xml_decodes(e@, r.unwrap()),
    {
        let version = match opt_str_from(find(e, "version")) {
            Some(x) => x,
            None => return None,
        };
        let report_metadata = match match find(e, "report_metadata") {
            Some(JsonValue::Object(m)) => ReportMetadata::from_xml(m),
            _ => None,
        } {
            Some(x) => x,
            None => return None,
        };
        let policy_published = match match find(e, "policy_published") {
            Some(JsonValue::Object(m)) => PolicyPublished::from_xml(m),
            _ => None,
        } {
            Some(x) => x,
            None => return None,
        };
        let record_run = find_all(e, "record");
        assert(deref_all(record_run@) =~= repeated(e@, "record"@));
        let record = match record_xml_run_from(&record_run) {
            Some(x) => x,
            None => return None,
        };
        Some(DMARCReport {
            version,
            report_metadata,
            policy_published,
            record,
        })
    }
}

/// Members with the same view hold a readable dmarc report alike.
pub proof fn lemma_dmarc_report_xml_readable_view(e1: Seq<(String, JsonValue)>, e2: Seq<(String, JsonValue)>)
    requires
        members_view(e1) == members_view(e2),
    ensures
        dmarc_report_xml_readable(e1) == dmarc_report_xml_readable(e2),
{
    lemma_lookup_view(e1, e2, "version"@);
    lemma_value_views(lookup(e1, "version"@), lookup(e2, "version"@), 0);
    lemma_lookup_view(e1, e2, "report_metadata"@);
    match (lookup(e1, "report_metadata"@), lookup(e2, "report_metadata"@)) {
        (Some(JsonValue::Object(m1)), Some(JsonValue::Object(m2))) => {
            lemma_object_view(m1);
            lemma_object_view(m2);
            lemma_report_metadata_xml_readable_view(m1@, m2@);
        },
        _ => {},
    }
    lemma_lookup_view(e1, e2, "policy_published"@);
    match (lookup(e1, "policy_published"@), lookup(e2, "policy_published"@)) {
        (Some(JsonValue::Object(m1)), Some(JsonValue::Object(m2))) => {
            lemma_object_view(m1);
            lemma_object_view(m2);
            lemma_policy_published_xml_readable_view(m1@, m2@);
        },
        _ => {},
    }
    lemma_repeated_view(e1, e2, "record"@);
    let (r1, r2) = (repeated(e1, "record"@), repeated(e2, "record"@));
    assert forall|i: int| 0 <= i < r1.len() implies (#[trigger] r1[i] is Object && record_xml_readable(r1[i]->Object_0@)) == (r2[i] is Object && record_xml_readable(r2[i]->Object_0@)) by {
        assert(jview(r1[i]) == jview(r2[i]));
        match (r1[i], r2[i]) {
            (JsonValue::Object(m1), JsonValue::Object(m2)) => {
                lemma_object_view(m1);
                lemma_object_view(m2);
                lemma_record_xml_readable_view(m1@, m2@);
            },
            _ => {},
        }
    }
    assert(record_xml_run_readable(r1) == record_xml_run_readable(r2)) by {
        if record_xml_run_readable(r1) {
            assert forall|i: int| 0 <= i < r2.len() implies (#[trigger] r2[i] is Object && record_xml_readable(r2[i]->Object_0@)) by {
                assert(r1[i] is Object && record_xml_readable(r1[i]->Object_0@));
            }
        }
        if record_xml_run_readable(r2) {
            assert forall|i: int| 0 <= i < r1.len() implies (#[trigger] r1[i] is Object && record_xml_readable(r1[i]->Object_0@)) by {
                assert(r2[i] is Object && record_xml_readable(r2[i]->Object_0@));
            }
        }
    }
}

/// Members with the same view describe dmarc report values with the same JSON view.
pub proof fn lemma_dmarc_report_xml_decodes_view(e1: Seq<(String, JsonValue)>, e2: Seq<(String, JsonValue)>, x: DMARCReport, y: DMARCReport)
    requires
        members_view(e1) == members_view(e2),
        dmarc_report_xml_decodes(e1, x),
        dmarc_report_xml_decodes(e2, y),
    ensures
        dmarc_report_json_view(x) == dmarc_report_json_view(y),
{
    lemma_lookup_view(e1, e2, "version"@);
    lemma_value_views(lookup(e1, "version"@), lookup(e2, "version"@), 0);
    lemma_lookup_view(e1, e2, "report_metadata"@);
    match (lookup(e1, "report_metadata"@), lookup(e2, "report_metadata"@)) {
        (Some(JsonValue::Object(m1)), Some(JsonValue::Object(m2))) => {
            lemma_report_metadata_xml_decodes_view(m1@, m2@, x.report_metadata, y.report_metadata);
        },
        _ => {},
    }
    lemma_lookup_view(e1, e2, "policy_published"@);
    match (lookup(e1, "policy_published"@), lookup(e2, "policy_published"@)) {
        (Some(JsonValue::Object(m1)), Some(JsonValue::Object(m2))) => {
            lemma_policy_published_xml_decodes_view(m1@, m2@, x.policy_published, y.policy_published);
        },
        _ => {},
    }
    lemma_repeated_view(e1, e2, "record"@);
    let (r1, r2) = (repeated(e1, "record"@), repeated(e2, "record"@));
    assert forall|i: int| 0 <= i < x.record@.len() implies #[trigger] record_list_jview(x.record@)[i] == record_list_jview(y.record@)[i] by {
        assert(jview(r1[i]) == jview(r2[i]));
        assert(r1[i] is Object && record_xml_decodes(r1[i]->Object_0@, x.record@[i]));
        assert(r2[i] is Object && record_xml_decodes(r2[i]->Object_0@, y.record@[i]));
        match (r1[i], r2[i]) {
            (JsonValue::Object(m1), JsonValue::Object(m2)) => {
                lemma_record_xml_decodes_view(m1@, m2@, x.record@[i], y.record@[i]);
            },
            _ => {},
        }
    }
    assert(record_list_jview(x.record@) =~= record_list_jview(y.record@));
}

impl DMARCReport {
    pub fn get_published_policys_domain(&self) -> (r: &String)
        ensures
            r == self.policy_published.domain,
    {
        &self.policy_published.domain
    }

    pub fn get_sender_organisation(&self) -> (r: &String)
        ensures
            r == self.report_metadata.org_name,
    {
        &self.report_metadata.org_name
    }
}

/// Why a message did not yield a report.
#[derive(Debug, PartialEq, Eq, Clone, Copy)]
pub enum DmarcError {
    /// The report text is not valid UTF-8.
    Utf8,
    /// The gzip attachment does not decompress to text.
    Gzip,
    /// The zip attachment is not an archive with a readable first entry.
    Zip,
    /// The text is not a DMARC report.
    Parsing,
}

impl DmarcError {
    pub fn message(&self) -> (r: &'static str) {
        match self {
            DmarcError::Utf8 => "DmarcError while decoding UTF-8",
            DmarcError::Gzip => "DmarcError while working with GZIP file",
            DmarcError::Zip => "DmarcError while working with ZIP file",
            DmarcError::Parsing => "DmarcError while parsing",
        }
    }
}

/// How an attachment is to be read, by its declared content type.
#[derive(Debug, PartialEq, Eq, Clone, Copy)]
pub enum AttachmentKind {
    Xml,
    Gzip,
    Zip,
    Other,
}

/// A character with ASCII upper case folded to lower case.
pub open spec fn fold_case(c: char) -> int {
    if 'A' <= c && c <= 'Z' {
        (c as u32) + 32int
    } else {
        c as u32 as int
    }
}

/// Equality up to ASCII case.
pub open spec fn eq_ignore_case(a: Seq<char>, b: Seq<char>) -> bool {
    a.len() == b.len() && forall|i: int| 0 <= i < a.len() ==> fold_case(#[trigger] a[i]) == fold_case(b[i])
}

pub fn str_eq_ignore_case(a: &str, b: &str) -> (r: bool)
    ensures
        r == eq_ignore_case(a@, b@),
{
    let n = a.unicode_len();
    if n != b.unicode_len() {
        return false;
    }
    let mut i: usize = 0;
    while i < n
        invariant
            n == a@.len() && n == b@.len(),
            i <= n,
            forall|j: int| 0 <= j < i ==> fold_case(#[trigger] a@[j]) == fold_case(b@[j]),
        decreases n - i,
    {
        let c = a.get_char(i);
        let d = b.get_char(i);
        let fc: u32 = if 'A' <= c && c <= 'Z' { (c as u32) + 32 } else { c as u32 };
        let fd: u32 = if 'A' <= d && d <= 'Z' { (d as u32) + 32 } else { d as u32 };
        if fc != fd {
            return false;
        }
        i = i + 1;
    }
    true
}

/// A declared content type: the type and, when given, the subtype.
pub open spec fn content_type_is(ct: Option<(Seq<char>, Option<Seq<char>>)>, t: Seq<char>, sub: Seq<char>) -> bool {
    match ct {
        Some((c, Some(s))) => eq_ignore_case(c, t) && eq_ignore_case(s, sub),
        _ => false,
    }
}

pub open spec fn attachment_kind(ct: Option<(Seq<char>, Option<Seq<char>>)>) -> AttachmentKind {
    if content_type_is(ct, "text"@, "xml"@) {
        AttachmentKind::Xml
    } else if content_type_is(ct, "application"@, "gzip"@) {
        AttachmentKind::Gzip
    } else if content_type_is(ct, "application"@, "zip"@) {
        AttachmentKind::Zip
    } else {
        AttachmentKind::Other
    }
}

pub open spec fn content_type_view(ct: Option<(String, Option<String>)>) -> Option<(Seq<char>, Option<Seq<char>>)> {
    match ct {
        Some((c, Some(s))) => Some((c@, Some(s@))),
        Some((c, None)) => Some((c@, None)),
        None => None,
    }
}

pub fn classify(ct: &Option<(String, Option<String>)>) -> (r: AttachmentKind)
    ensures
        r == attachment_kind(content_type_view(*ct)),
{
    match ct {
        Some((c, Some(s))) => if str_eq_ignore_case(c.as_str(), "text") && str_eq_ignore_case(s.as_str(), "xml") {
            AttachmentKind::Xml
        } else if str_eq_ignore_case(c.as_str(), "application") && str_eq_ignore_case(s.as_str(), "gzip") {
            AttachmentKind::Gzip
        } else if str_eq_ignore_case(c.as_str(), "application") && str_eq_ignore_case(s.as_str(), "zip") {
            AttachmentKind::Zip
        } else {
            AttachmentKind::Other
        },
        _ => AttachmentKind::Other,
    }
}

/// The first attachment of a raw message, when it parses and has one: its
/// declared content type, if any, and its decoded contents.
pub uninterp spec fn first_attachment_of(raw: Seq<u8>) -> Option<(Option<(Seq<char>, Option<Seq<char>>)>, Seq<u8>)>;

/// The text that bytes encode in UTF-8, when they are valid UTF-8.
pub uninterp spec fn utf8_text_of(b: Seq<u8>) -> Option<Seq<char>>;

/// The UTF-8 text that gzip data decompresses to, when it does.
pub uninterp spec fn gunzip_text_of(b: Seq<u8>) -> Option<Seq<char>>;

/// The contents of the first entry of a zip archive, when it has a
/// readable one.
pub uninterp spec fn zip_first_entry_of(b: Seq<u8>) -> Option<Seq<u8>>;

/// Relies on `mail_parser::MessageParser::parse`, `Message::attachment(0)`,
/// and the part's `content_type` and `contents`.
#[verifier::external_body]
fn first_attachment(raw: &[u8]) -> (r: Option<(Option<(String, Option<String>)>, Vec<u8>)>)
    ensures
        r is None <==> first_attachment_of(raw@) is None,
        r matches Some(a) ==> first_attachment_of(raw@) == Some((content_type_view(a.0), a.1@)),
{
    let message = mail_parser::MessageParser::default().parse(raw)?;
    let part = message.attachment(0)?;
    let ct = part.content_type().map(|c| (c.ctype().to_string(), c.subtype().map(|s| s.to_string())));
    Some((ct, part.contents().to_vec()))
}

/// Relies on `std::str::from_utf8`.
#[verifier::external_body]
fn utf8_text(b: &[u8]) -> (r: Option<String>)
    ensures
        r is None <==> utf8_text_of(b@) is None,
        r matches Some(s) ==> utf8_text_of(b@) == Some(s@),
{
    std::str::from_utf8(b).ok().map(|s| s.to_string())
}

/// Relies on `flate2::read::GzDecoder` read to a string.
#[verifier::external_body]
fn gunzip_text(b: &[u8]) -> (r: Option<String>)
    ensures
        r is None <==> gunzip_text_of(b@) is None,
        r matches Some(s) ==> gunzip_text_of(b@) == Some(s@),
{
    let mut text = String::new();
    flate2::read::GzDecoder::new(b).read_to_string(&mut text).ok()?;
    Some(text)
}

/// Relies on `zip::ZipArchive::new`, `by_index(0)` and reading that entry
/// to its end.
#[verifier::external_body]
fn zip_first_entry(b: &[u8]) -> (r: Option<Vec<u8>>)
    ensures
        r is None <==> zip_first_entry_of(b@) is None,
        r matches Some(v) ==> zip_first_entry_of(b@) == Some(v@),
{
    let mut archive = zip::ZipArchive::new(std::io::Cursor::new(b)).ok()?;
    let mut entry = archive.by_index(0).ok()?;
    let mut out = Vec::new();
    entry.read_to_end(&mut out).ok()?;
    Some(out)
}

/// The report text that a raw message carries: the first attachment, read
/// by its content type. A message without an attachment, or with one of
/// another type, carries none.
pub open spec fn attachment_text(raw: Seq<u8>) -> Result<Option<Seq<char>>, DmarcError> {
    match first_attachment_of(raw) {
        None => Ok(None),
        Some((ct, body)) => match attachment_kind(ct) {
            AttachmentKind::Xml => match utf8_text_of(body) {
                Some(t) => Ok(Some(t)),
                None => Err(DmarcError::Utf8),
            },
            AttachmentKind::Gzip => match gunzip_text_of(body) {
                Some(t) => Ok(Some(t)),
                None => Err(DmarcError::Gzip),
            },
            AttachmentKind::Zip => match zip_first_entry_of(body) {
                Some(entry) => match utf8_text_of(entry) {
                    Some(t) => Ok(Some(t)),
                    None => Err(DmarcError::Utf8),
                },
                None => Err(DmarcError::Zip),
            },
            AttachmentKind::Other => Ok(None),
        },
    }
}

pub open spec fn text_result_view(r: Result<Option<String>, DmarcError>) -> Result<Option<Seq<char>>, DmarcError> {
    match r {
        Ok(Some(s)) => Ok(Some(s@)),
        Ok(None) => Ok(None),
        Err(e) => Err(e),
    }
}

/// A zip attachment and a gzip attachment that hold the same report text
/// yield the same text, so `parse_message` reads both as that text: both
/// succeed or both fail, and each report is one that the text describes.
pub proof fn lemma_zip_and_gzip_agree(
    zipped: Seq<u8>,
    gzipped: Seq<u8>,
)
    requires
        first_attachment_of(zipped) is Some,
        attachment_kind(first_attachment_of(zipped).unwrap().0) == AttachmentKind::Zip,
        first_attachment_of(gzipped) is Some,
        attachment_kind(first_attachment_of(gzipped).unwrap().0) == AttachmentKind::Gzip,
        zip_first_entry_of(first_attachment_of(zipped).unwrap().1) is Some,
        utf8_text_of(zip_first_entry_of(first_attachment_of(zipped).unwrap().1).unwrap())
            == gunzip_text_of(first_attachment_of(gzipped).unwrap().1),
        gunzip_text_of(first_attachment_of(gzipped).unwrap().1) is Some,
    ensures
        attachment_text(zipped) == attachment_text(gzipped),
        attachment_text(zipped) is Ok,
{
}

/// A document describes one report: two reports that it describes have
/// the same JSON view, so they are emitted alike.
pub proof fn lemma_text_describes_one_report(xml: Seq<char>, x: DMARCReport, y: DMARCReport)
    requires
        dmarc_text_describes(xml, x),
        dmarc_text_describes(xml, y),
    ensures
        dmarc_report_json_view(x) == dmarc_report_json_view(y),
{
    let mv = report_tree(xml).unwrap();
    let m1 = choose|m: Seq<(String, JsonValue)>| members_view(m) == mv && #[trigger] dmarc_report_xml_decodes(m, x);
    let m2 = choose|m: Seq<(String, JsonValue)>| members_view(m) == mv && #[trigger] dmarc_report_xml_decodes(m, y);
    lemma_dmarc_report_xml_decodes_view(m1, m2, x, y);
}

/// The reports that `parse_message` gives for a zip attachment and a gzip
/// attachment holding the same report text have the same JSON view.
pub proof fn lemma_zip_and_gzip_same_report(zipped: Seq<u8>, gzipped: Seq<u8>, x: DMARCReport, y: DMARCReport)
    requires
        first_attachment_of(zipped) is Some,
        attachment_kind(first_attachment_of(zipped).unwrap().0) == AttachmentKind::Zip,
        first_attachment_of(gzipped) is Some,
        attachment_kind(first_attachment_of(gzipped).unwrap().0) == AttachmentKind::Gzip,
        zip_first_entry_of(first_attachment_of(zipped).unwrap().1) is Some,
        utf8_text_of(zip_first_entry_of(first_attachment_of(zipped).unwrap().1).unwrap())
            == gunzip_text_of(first_attachment_of(gzipped).unwrap().1),
        gunzip_text_of(first_attachment_of(gzipped).unwrap().1) is Some,
        dmarc_text_describes(attachment_text(zipped)->Ok_0->Some_0, x),
        dmarc_text_describes(attachment_text(gzipped)->Ok_0->Some_0, y),
    ensures
        dmarc_report_json_view(x) == dmarc_report_json_view(y),
{
    lemma_zip_and_gzip_agree(zipped, gzipped);
    lemma_text_describes_one_report(attachment_text(zipped)->Ok_0->Some_0, x, y);
}

/// Reads DMARC reports out of mail messages.
pub struct DMARCReader {}

impl DMARCReader {
    pub fn new() -> (r: DMARCReader) {
        DMARCReader {}
    }

    /// The report text of a message: see `attachment_text`.
    pub fn extract_text(&self, raw: &[u8]) -> (r: Result<Option<String>, DmarcError>)
        ensures
            text_result_view(r) == attachment_text(raw@),
    {
        let (ct, body) = match first_attachment(raw) {
            Some(a) => a,
            None => return Ok(None),
        };
        match classify(&ct) {
            AttachmentKind::Xml => match utf8_text(body.as_slice()) {
                Some(t) => Ok(Some(t)),
                None => Err(DmarcError::Utf8),
            },
            AttachmentKind::Gzip => match gunzip_text(body.as_slice()) {
                Some(t) => Ok(Some(t)),
                None => Err(DmarcError::Gzip),
            },
            AttachmentKind::Zip => match zip_first_entry(body.as_slice()) {
                Some(entry) => match utf8_text(entry.as_slice()) {
                    Some(t) => Ok(Some(t)),
                    None => Err(DmarcError::Utf8),
                },
                None => Err(DmarcError::Zip),
            },
            AttachmentKind::Other => Ok(None),
        }
    }

    /// A report from a document tree whose root element holds it.
    pub fn report_from_tree(&self, root: &JsonValue) -> (r: Result<DMARCReport, DmarcError>)
        ensures
            r is Ok <==> (root is Object && dmarc_report_xml_readable(root->Object_0@)),
            r matches Ok(x) ==> dmarc_report_xml_decodes(root->Object_0@, x),
            r matches Err(e) ==> e == DmarcError::Parsing,
    {
        match root {
            JsonValue::Object(m) => match DMARCReport::from_xml(m) {
                Some(x) => Ok(x),
                None => Err(DmarcError::Parsing),
            },
            _ => Err(DmarcError::Parsing),
        }
    }

    /// Reads a report from its markup: see `dmarc_text_readable` and
    /// `dmarc_text_describes`.
    pub fn parse_report(&self, xml: &str) -> (r: Result<DMARCReport, DmarcError>)
        ensures
            r is Ok <==> dmarc_text_readable(xml@),
            r matches Ok(x) ==> dmarc_text_describes(xml@, x),
            r matches Err(e) ==> e == DmarcError::Parsing,
    {
        match xml_tree(xml) {
            Some((_, root)) => {
                let r = self.report_from_tree(&root);
                proof {
                    if let JsonValue::Object(m) = root {
                        lemma_object_view(m);
                        assert(report_tree(xml@) == Some(members_view(m@)));
                        if r is Err {
                            assert forall|m2: Seq<(String, JsonValue)>|
                                #[trigger] dmarc_report_xml_readable(m2) implies members_view(m2) != members_view(m@) by {
                                if members_view(m2) == members_view(m@) {
                                    lemma_dmarc_report_xml_readable_view(m2, m@);
                                }
                            }
                        }
                    }
                }
                r
            },
            None => Err(DmarcError::Parsing),
        }
    }

    /// The report that a raw message carries, if any: none without a
    /// report attachment, else the attachment's text read as in
    /// `parse_report`.
    pub fn parse_message(&self, raw: &[u8]) -> (r: Result<Option<DMARCReport>, DmarcError>)
        ensures
            attachment_text(raw@) matches Err(e) ==> r == Err::<Option<DMARCReport>, DmarcError>(e),
            attachment_text(raw@) is Ok && attachment_text(raw@)->Ok_0 is None ==> r == Ok::<Option<DMARCReport>, DmarcError>(None),
            attachment_text(raw@) matches Ok(Some(t)) ==> {
                &&& r is Ok <==> dmarc_text_readable(t)
                &&& r is Ok ==> r->Ok_0 is Some && dmarc_text_describes(t, r->Ok_0->Some_0)
                &&& r is Err ==> r == Err::<Option<DMARCReport>, DmarcError>(DmarcError::Parsing)
            },
    {
        match self.extract_text(raw) {
            Ok(Some(text)) => match self.parse_report(text.as_str()) {
                Ok(x) => Ok(Some(x)),
                Err(e) => Err(e),
            },
            Ok(None) => Ok(None),
            Err(e) => Err(e),
        }
    }
}

/// The members of the root element that a document's events describe,
/// when the root has child elements.
pub open spec fn report_tree(xml: Seq<char>) -> Option<Seq<(Seq<char>, JsonView)>> {
    match tree_of(xml_events_of(xml)) {
        Some((_, JsonView::Object(mv))) => Some(mv),
        _ => None,
    }
}

/// Whether a document holds a readable DMARC report: the markup reads into
/// a tree whose root has child elements that satisfy the schema. Whether
/// they do depends on the tree's view alone.
pub open spec fn dmarc_text_readable(xml: Seq<char>) -> bool {
    &&& report_tree(xml) is Some
    &&& exists|m: Seq<(String, JsonValue)>| members_view(m) == report_tree(xml).unwrap() && #[trigger] dmarc_report_xml_readable(m)
}

/// Whether a document describes the report `x`: the root's members, read
/// with the schema, give `x`.
pub open spec fn dmarc_text_describes(xml: Seq<char>, x: DMARCReport) -> bool {
    &&& report_tree(xml) is Some
    &&& exists|m: Seq<(String, JsonValue)>| members_view(m) == report_tree(xml).unwrap() && #[trigger] dmarc_report_xml_decodes(m, x)
}

/// The decimal identifiers of a message set, separated by commas.
pub open spec fn uid_list_text(uids: Seq<u32>) -> Seq<char>
    decreases uids.len(),
{
    if uids.len() == 0 {
        Seq::empty()
    } else if uids.len() == 1 {
        decimal(uids[0] as nat)
    } else {
        uid_list_text(uids.drop_last()) + ","@ + decimal(uids.last() as nat)
    }
}

/// The message set of a search result, as a fetch command takes it.
pub fn uid_set(uids: &Vec<u32>) -> (r: String)
    ensures
        r@ == uid_list_text(uids@),
{
    proof {
        reveal_strlit(",");
    }
    let mut out = String::new();
    let mut i: usize = 0;
    while i < uids.len()
        invariant
            i <= uids@.len(),
            out@ == uid_list_text(uids@.subrange(0, i as int)),
        decreases uids@.len() - i,
    {
        let ghost prefix = uids@.subrange(0, i + 1);
        assert(prefix.drop_last() =~= uids@.subrange(0, i as int));
        if i > 0 {
            out.append(",");
        }
        let digits = uint_to_text(uids[i] as u64);
        out.append(digits.as_str());
        proof {
            if i == 0 {
                assert(uids@.subrange(0, 0).len() == 0);
                assert(out@ =~= decimal(uids@[0] as nat));
            }
        }
        i = i + 1;
    }
    assert(uids@.subrange(0, uids@.len() as int) =~= uids@);
    out
}


} // verus!
