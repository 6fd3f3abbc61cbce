//! SMTP TLS reports: how TLS negotiation went for mail delivered to a domain.

use vstd::prelude::*;
use vstd::string::*;
use crate::json::{JsonValue, JsonView, Members, members_view, jview, decimal, lookup, found, find, str_eq};
use crate::fields::{strings_jview, str_list_value, strings_view, str_list_from, strings_json, str_value, opt_str_value, uint_value, str_from, opt_str_from, uint_from, number, put, put_opt_str};

verus! {

broadcast use crate::json::lemma_lookup_push, crate::json::lemma_object_view;

/// The kind of policy that the sender applied.
#[derive(Debug, PartialEq, Eq, Clone, Copy)]
pub enum PolicyType {
    TLSA,
    STS,
    NoPolicyFound,
}

/// The policy type that a JSON string names.
pub open spec fn policy_type_token(s: Seq<char>) -> Option<PolicyType> {
    if s == "tlsa"@ {
        Some(PolicyType::TLSA)
    } else if s == "sts"@ {
        Some(PolicyType::STS)
    } else if s == "no-policy-found"@ {
        Some(PolicyType::NoPolicyFound)
    } else {
        None
    }
}

pub open spec fn policy_type_value(v: Option<JsonValue>) -> Option<PolicyType> {
    match v {
        Some(JsonValue::Str(s)) => policy_type_token(s@),
        _ => None,
    }
}

pub open spec fn opt_policy_type_value(v: Option<JsonValue>) -> Option<Option<PolicyType>> {
    match v {
        None => Some(None),
        Some(JsonValue::Null) => Some(None),
        _ => if policy_type_value(v).is_some() {
            Some(policy_type_value(v))
        } else {
            None
        },
    }
}

fn policy_type_from(v: Option<&JsonValue>) -> (r: Option<PolicyType>)
    ensures
        r == policy_type_value(found(v)),
{
    match v {
        Some(JsonValue::Str(s)) => {
            if str_eq(s.as_str(), "tlsa") {
                Some(PolicyType::TLSA)
            } else if str_eq(s.as_str(), "sts") {
                Some(PolicyType::STS)
            } else if str_eq(s.as_str(), "no-policy-found") {
                Some(PolicyType::NoPolicyFound)
            } else {
                None
            }
        },
        _ => None,
    }
}

fn opt_policy_type_from(v: Option<&JsonValue>) -> (r: Option<Option<PolicyType>>)
    ensures
        r == opt_policy_type_value(found(v)),
{
    match v {
        None => Some(None),
        Some(JsonValue::Null) => Some(None),
        Some(_) => match policy_type_from(v) {
            Some(x) => Some(Some(x)),
            None => None,
        },
    }
}

/// The text that names a policy type.
pub open spec fn policy_type_text(x: PolicyType) -> Seq<char> {
    match x {
        PolicyType::TLSA => "tlsa"@,
        PolicyType::STS => "sts"@,
        PolicyType::NoPolicyFound => "no-policy-found"@,
    }
}

/// The JSON string that names a policy type.
pub fn policy_type_json(x: PolicyType) -> (r: JsonValue)
    ensures
        policy_type_value(Some(r)) == Some(x),
        jview(r) == JsonView::Str(policy_type_text(x)),
{
    proof {
        reveal_strlit("tlsa");
        assert("tlsa"@.len() == 4);
        reveal_strlit("sts");
        assert("sts"@.len() == 3);
        reveal_strlit("no-policy-found");
        assert("no-policy-found"@.len() == 15);
    }
    let s = match x {
        PolicyType::TLSA => String::from_str("tlsa"),
        PolicyType::STS => String::from_str("sts"),
        PolicyType::NoPolicyFound => String::from_str("no-policy-found"),
    };
    JsonValue::Str(s)
}

/// The period a report covers.
#[derive(Debug, PartialEq, Eq)]
pub struct DateRange {
    pub start_datetime: String,
    pub end_datetime: String,
}

/// Whether the members describe `x`.
pub open spec fn date_range_decodes(e: Seq<(String, JsonValue)>, x: DateRange) -> bool {
    &&& str_value(lookup(e, "start-datetime"@)) == Some(x.start_datetime)
    &&& str_value(lookup(e, "end-datetime"@)) == Some(x.end_datetime)
}

/// Whether an object's members hold a well-typed date range.
pub open spec fn date_range_readable(e: Seq<(String, JsonValue)>) -> bool {
    &&& str_value(lookup(e, "start-datetime"@)).is_some()
    &&& str_value(lookup(e, "end-datetime"@)).is_some()
}

/// The members that a date range is written as, in order.
pub open spec fn date_range_json_view(x: DateRange) -> Seq<(Seq<char>, JsonView)> {
    let s0 = Seq::empty();
    let s1 = s0.push(("start-datetime"@, JsonView::Str(x.start_datetime@)));
    let s2 = s1.push(("end-datetime"@, JsonView::Str(x.end_datetime@)));
    s2
}

impl DateRange {
    /// Reads the body from an object's members.
    pub fn decode(e: &Members) -> (r: Option<DateRange>)
        ensures
            r.is_some() == date_range_readable(e@),
            r.is_some() ==> date_range_decodes(e@, r.unwrap()),
    {
        let start_datetime = match str_from(find(e, "start-datetime")) {
            Some(x) => x,
            None => return None,
        };
        let end_datetime = match str_from(find(e, "end-datetime")) {
            Some(x) => x,
            None => return None,
        };
        Some(DateRange {
            start_datetime,
            end_datetime,
        })
    }

    /// The members of this body under their canonical names; reading them
    /// back gives this body.
    pub fn encode(&self) -> (r: Members)
        ensures
            date_range_decodes(r@, *self),
            members_view(r@) == date_range_json_view(*self),
    {
        proof {
            reveal_strlit("start-datetime");
            assert("start-datetime"@.len() == 14);
            reveal_strlit("end-datetime");
            assert("end-datetime"@.len() == 12);
        }
        let mut e: Members = Vec::new();
        assert(members_view(e@) =~= Seq::<(Seq<char>, JsonView)>::empty());
        let ghost before_1 = members_view(e@);
        put(&mut e, "start-datetime", JsonValue::Str(self.start_datetime.clone()));
        assert(members_view(e@) == before_1.push(("start-datetime"@, JsonView::Str(self.start_datetime@))));
        let ghost before_2 = members_view(e@);
        put(&mut e, "end-datetime", JsonValue::Str(self.end_datetime.clone()));
        assert(members_view(e@) == before_2.push(("end-datetime"@, JsonView::Str(self.end_datetime@))));
        e
    }
}

/// A policy that the sender applied.
#[derive(Debug, PartialEq, Eq)]
pub struct Policy {
    pub policy_type: PolicyType,
    pub policy_string: Vec<String>,
    pub policy_domain: String,
    pub mx_host: Vec<String>,
}

/// Whether the members describe `x`.
pub open spec fn policy_decodes(e: Seq<(String, JsonValue)>, x: Policy) -> bool {
    &&& policy_type_value(lookup(e, "policy-type"@)) == Some(x.policy_type)
    &&& match lookup(e, "policy-string"@) {
        Some(JsonValue::Array(a)) => str_list_value(a@) == Some(strings_view(x.policy_string@)),
        _ => false,
    }
    &&& str_value(lookup(e, "policy-domain"@)) == Some(x.policy_domain)
    &&& match lookup(e, "mx-host"@) {
        Some(JsonValue::Array(a)) => str_list_value(a@) == Some(strings_view(x.mx_host@)),
        _ => false,
    }
}

/// Whether an object's members hold a well-typed policy.
pub open spec fn policy_readable(e: Seq<(String, JsonValue)>) -> bool {
    &&& policy_type_value(lookup(e, "policy-type"@)).is_some()
    &&& match lookup(e, "policy-string"@) {
        Some(JsonValue::Array(a)) => str_list_value(a@).is_some(),
        _ => false,
    }
    &&& str_value(lookup(e, "policy-domain"@)).is_some()
    &&& match lookup(e, "mx-host"@) {
        Some(JsonValue::Array(a)) => str_list_value(a@).is_some(),
        _ => false,
    }
}

/// The members that a policy is written as, in order.
pub open spec fn policy_json_view(x: Policy) -> Seq<(Seq<char>, JsonView)> {
    let s0 = Seq::empty();
    let s1 = s0.push(("policy-type"@, JsonView::Str(policy_type_text(x.policy_type))));
    let s2 = s1.push(("policy-string"@, JsonView::Array(strings_jview(x.policy_string@))));
    let s3 = s2.push(("policy-domain"@, JsonView::Str(x.policy_domain@)));
    let s4 = s3.push(("mx-host"@, JsonView::Array(strings_jview(x.mx_host@))));
    s4
}

impl Policy {
    /// Reads the body from an object's members.
    pub fn decode(e: &Members) -> (r: Option<Policy>)
        ensures
            r.is_some() == policy_readable(e@),
            r.is_some() ==> policy_decodes(e@, r.unwrap()),
    {
        let policy_type = match policy_type_from(find(e, "policy-type")) {
            Some(x) => x,
            None => return None,
        };
        let policy_string = match match find(e, "policy-string") {
            Some(JsonValue::Array(a)) => str_list_from(a),
            _ => None,
        } {
            Some(x) => x,
            None => return None,
        };
        let policy_domain = match str_from(find(e, "policy-domain")) {
            Some(x) => x,
            None => return None,
        };
        let mx_host = match match find(e, "mx-host") {
            Some(JsonValue::Array(a)) => str_list_from(a),
            _ => None,
        } {
            Some(x) => x,
            None => return None,
        };
        Some(Policy {
            policy_type,
            policy_string,
            policy_domain,
            mx_host,
        })
    }

    /// The members of this body under their canonical names; reading them
    /// back gives this body.
    pub fn encode(&self) -> (r: Members)
        ensures
            policy_decodes(r@, *self),
            members_view(r@) == policy_json_view(*self),
    {
        proof {
            reveal_strlit("policy-type");
            assert("policy-type"@.len() == 11);
            reveal_strlit("policy-string");
            assert("policy-string"@.len() == 13);
            reveal_strlit("policy-domain");
            assert("policy-domain"@.len() == 13);
            reveal_strlit("mx-host");
            assert("mx-host"@.len() == 7);
            assert("policy-domain"@[7] != "policy-string"@[7]);
        }
        let mut e: Members = Vec::new();
        assert(members_view(e@) =~= Seq::<(Seq<char>, JsonView)>::empty());
        let ghost before_1 = members_view(e@);
        put(&mut e, "policy-type", policy_type_json(self.policy_type));
        assert(members_view(e@) == before_1.push(("policy-type"@, JsonView::Str(policy_type_text(self.policy_type)))));
        let ghost before_2 = members_view(e@);
        put(&mut e, "policy-string", strings_json(&self.policy_string));
        assert(members_view(e@) == before_2.push(("policy-string"@, JsonView::Array(strings_jview(self.policy_string@)))));
        let ghost before_3 = members_view(e@);
        put(&mut e, "policy-domain", JsonValue::Str(self.policy_domain.clone()));
        assert(members_view(e@) == before_3.push(("policy-domain"@, JsonView::Str(self.policy_domain@))));
        let ghost before_4 = members_view(e@);
        put(&mut e, "mx-host", strings_json(&self.mx_host));
        assert(members_view(e@) == before_4.push(("mx-host"@, JsonView::Array(strings_jview(self.mx_host@)))));
        e
    }
}

/// Session counts under a policy.
#[derive(Debug, PartialEq, Eq)]
pub struct Summary {
    pub total_successful_session_count: u64,
    pub total_failure_session_count: u64,
}

/// Whether the members describe `x`.
pub open spec fn summary_decodes(e: Seq<(String, JsonValue)>, x: Summary) -> bool {
    &&& uint_value(lookup(e, "total-successful-session-count"@), u64::MAX as nat) == Some(x.total_successful_session_count as nat)
    &&& uint_value(lookup(e, "total-failure-session-count"@), u64::MAX as nat) == Some(x.total_failure_session_count as nat)
}

/// Whether an object's members hold a well-typed summary.
pub open spec fn summary_readable(e: Seq<(String, JsonValue)>) -> bool {
    &&& uint_value(lookup(e, "total-successful-session-count"@), u64::MAX as nat).is_some()
    &&& uint_value(lookup(e, "total-failure-session-count"@), u64::MAX as nat).is_some()
}

/// The members that a summary is written as, in order.
pub open spec fn summary_json_view(x: Summary) -> Seq<(Seq<char>, JsonView)> {
    let s0 = Seq::empty();
    let s1 = s0.push(("total-successful-session-count"@, JsonView::Number(decimal(x.total_successful_session_count as nat))));
    let s2 = s1.push(("total-failure-session-count"@, JsonView::Number(decimal(x.total_failure_session_count as nat))));
    s2
}

impl Summary {
    /// Reads the body from an object's members.
    pub fn decode(e: &Members) -> (r: Option<Summary>)
        ensures
            r.is_some() == summary_readable(e@),
            r.is_some() ==> summary_decodes(e@, r.unwrap()),
    {
        let total_successful_session_count = match uint_from(find(e, "total-successful-session-count"), u64::MAX) {
            Some(x) => x,
            None => return None,
        };
        let total_failure_session_count = match uint_from(find(e, "total-failure-session-count"), u64::MAX) {
            Some(x) => x,
            None => return None,
        };
        Some(Summary {
            total_successful_session_count: total_successful_session_count as u64,
            total_failure_session_count: total_failure_session_count as u64,
        })
    }

    /// The members of this body under their canonical names; reading them
    /// back gives this body.
    pub fn encode(&self) -> (r: Members)
        ensures
            summary_decodes(r@, *self),
            members_view(r@) == summary_json_view(*self),
    {
        proof {
            reveal_strlit("total-successful-session-count");
            assert("total-successful-session-count"@.len() == 30);
            reveal_strlit("total-failure-session-count");
            assert("total-failure-session-count"@.len() == 27);
        }
        let mut e: Members = Vec::new();
        assert(members_view(e@) =~= Seq::<(Seq<char>, JsonView)>::empty());
        let ghost before_1 = members_view(e@);
        put(&mut e, "total-successful-session-count", number(self.total_successful_session_count));
        assert(members_view(e@) == before_1.push(("total-successful-session-count"@, JsonView::Number(decimal(self.total_successful_session_count as nat)))));
        let ghost before_2 = members_view(e@);
        put(&mut e, "total-failure-session-count", number(self.total_failure_session_count));
        assert(members_view(e@) == before_2.push(("total-failure-session-count"@, JsonView::Number(decimal(self.total_failure_session_count as nat)))));
        e
    }
}

/// One kind of failure under a policy.
#[derive(Debug, PartialEq, Eq)]
pub struct FailureDetails {
    pub result_type: String,
    pub sending_mta_ip: String,
    pub receiving_mx_hostname: String,
    pub receiving_mx_helo: Option<String>,
    pub receiving_ip: Option<String>,
    pub failed_session_count: u64,
    pub additional_information: Option<String>,
    pub failure_reason_code: Option<String>,
}

/// Whether the members describe `x`.
pub open spec fn failure_details_decodes(e: Seq<(String, JsonValue)>, x: FailureDetails) -> bool {
    &&& str_value(lookup(e, "result-type"@)) == Some(x.result_type)
    &&& str_value(lookup(e, "sending-mta-ip"@)) == Some(x.sending_mta_ip)
    &&& str_value(lookup(e, "receiving-mx-hostname"@)) == Some(x.receiving_mx_hostname)
    &&& opt_str_value(lookup(e, "receiving-mx-helo"@)) == Some(x.receiving_mx_helo)
    &&& opt_str_value(lookup(e, "receiving-ip"@)) == Some(x.receiving_ip)
    &&& uint_value(lookup(e, "failed-session-count"@), u64::MAX as nat) == Some(x.failed_session_count as nat)
    &&& opt_str_value(lookup(e, "additional-information"@)) == Some(x.additional_information)
    &&& opt_str_value(lookup(e, "failure-reason-code"@)) == Some(x.failure_reason_code)
}

/// Whether an object's members hold a well-typed failure details.
pub open spec fn failure_details_readable(e: Seq<(String, JsonValue)>) -> bool {
    &&& str_value(lookup(e, "result-type"@)).is_some()
    &&& str_value(lookup(e, "sending-mta-ip"@)).is_some()
    &&& str_value(lookup(e, "receiving-mx-hostname"@)).is_some()
    &&& opt_str_value(lookup(e, "receiving-mx-helo"@)).is_some()
    &&& opt_str_value(lookup(e, "receiving-ip"@)).is_some()
    &&& uint_value(lookup(e, "failed-session-count"@), u64::MAX as nat).is_some()
    &&& opt_str_value(lookup(e, "additional-information"@)).is_some()
    &&& opt_str_value(lookup(e, "failure-reason-code"@)).is_some()
}

/// The members that a failure details is written as, in order.
pub open spec fn failure_details_json_view(x: FailureDetails) -> Seq<(Seq<char>, JsonView)> {
    let s0 = Seq::empty();
    let s1 = s0.push(("result-type"@, JsonView::Str(x.result_type@)));
    let s2 = s1.push(("sending-mta-ip"@, JsonView::Str(x.sending_mta_ip@)));
    let s3 = s2.push(("receiving-mx-hostname"@, JsonView::Str(x.receiving_mx_hostname@)));
    let s4 = if x.receiving_mx_helo is Some { s3.push(("receiving-mx-helo"@, JsonView::Str(x.receiving_mx_helo.unwrap()@))) } else { s3 };
    let s5 = if x.receiving_ip is Some { s4.push(("receiving-ip"@, JsonView::Str(x.receiving_ip.unwrap()@))) } else { s4 };
    let s6 = s5.push(("failed-session-count"@, JsonView::Number(decimal(x.failed_session_count as nat))));
    let s7 = if x.additional_information is Some { s6.push(("additional-information"@, JsonView::Str(x.additional_information.unwrap()@))) } else { s6 };
    let s8 = if x.failure_reason_code is Some { s7.push(("failure-reason-code"@, JsonView::Str(x.failure_reason_code.unwrap()@))) } else { s7 };
    s8
}

impl FailureDetails {
    /// Reads the body from an object's members.
    pub fn decode(e: &Members) -> (r: Option<FailureDetails>)
        ensures
            r.is_some() == failure_details_readable(e@),
            r.is_some() ==> failure_details_decodes(e@, r.unwrap()),
    {
        let result_type = match str_from(find(e, "result-type")) {
            Some(x) => x,
            None => return None,
        };
        let sending_mta_ip = match str_from(find(e, "sending-mta-ip")) {
            Some(x) => x,
            None => return None,
        };
        let receiving_mx_hostname = match str_from(find(e, "receiving-mx-hostname")) {
            Some(x) => x,
            None => return None,
        };
        let receiving_mx_helo = match opt_str_from(find(e, "receiving-mx-helo")) {
            Some(x) => x,
            None => return None,
        };
        let receiving_ip = match opt_str_from(find(e, "receiving-ip")) {
            Some(x) => x,
            None => return None,
        };
        let failed_session_count = match uint_from(find(e, "failed-session-count"), u64::MAX) {
            Some(x) => x,
            None => return None,
        };
        let additional_information = match opt_str_from(find(e, "additional-information")) {
            Some(x) => x,
            None => return None,
        };
        let failure_reason_code = match opt_str_from(find(e, "failure-reason-code")) {
            Some(x) => x,
            None => return None,
        };
        Some(FailureDetails {
            result_type,
            sending_mta_ip,
            receiving_mx_hostname,
            receiving_mx_helo,
            receiving_ip,
            failed_session_count: failed_session_count as u64,
            additional_information,
            failure_reason_code,
        })
    }

    /// The members of this body under their canonical names; reading them
    /// back gives this body.
    #[verifier::rlimit(100)]
    #[verifier::spinoff_prover]
    pub fn encode(&self) -> (r: Members)
        ensures
            failure_details_decodes(r@, *self),
            members_view(r@) == failure_details_json_view(*self),
    {
        proof {
            reveal_strlit("result-type");
            assert("result-type"@.len() == 11);
            reveal_strlit("sending-mta-ip");
            assert("sending-mta-ip"@.len() == 14);
            reveal_strlit("receiving-mx-hostname");
            assert("receiving-mx-hostname"@.len() == 21);
            reveal_strlit("receiving-mx-helo");
            assert("receiving-mx-helo"@.len() == 17);
            reveal_strlit("receiving-ip");
            assert("receiving-ip"@.len() == 12);
            reveal_strlit("failed-session-count");
            assert("failed-session-count"@.len() == 20);
            reveal_strlit("additional-information");
            assert("additional-information"@.len() == 22);
            reveal_strlit("failure-reason-code");
            assert("failure-reason-code"@.len() == 19);
        }
        let mut e: Members = Vec::new();
        assert(members_view(e@) =~= Seq::<(Seq<char>, JsonView)>::empty());
        let ghost before_1 = members_view(e@);
        put(&mut e, "result-type", JsonValue::Str(self.result_type.clone()));
        assert(members_view(e@) == before_1.push(("result-type"@, JsonView::Str(self.result_type@))));
        let ghost before_2 = members_view(e@);
        put(&mut e, "sending-mta-ip", JsonValue::Str(self.sending_mta_ip.clone()));
        assert(members_view(e@) == before_2.push(("sending-mta-ip"@, JsonView::Str(self.sending_mta_ip@))));
        let ghost before_3 = members_view(e@);
        put(&mut e, "receiving-mx-hostname", JsonValue::Str(self.receiving_mx_hostname.clone()));
        assert(members_view(e@) == before_3.push(("receiving-mx-hostname"@, JsonView::Str(self.receiving_mx_hostname@))));
        let ghost before_4 = members_view(e@);
        put_opt_str(&mut e, "receiving-mx-helo", &self.receiving_mx_helo);
        assert(members_view(e@) == if self.receiving_mx_helo is Some { before_4.push(("receiving-mx-helo"@, JsonView::Str(self.receiving_mx_helo.unwrap()@))) } else { before_4 });
        let ghost before_5 = members_view(e@);
        put_opt_str(&mut e, "receiving-ip", &self.receiving_ip);
        assert(members_view(e@) == if self.receiving_ip is Some { before_5.push(("receiving-ip"@, JsonView::Str(self.receiving_ip.unwrap()@))) } else { before_5 });
        let ghost before_6 = members_view(e@);
        put(&mut e, "failed-session-count", number(self.failed_session_count));
        assert(members_view(e@) == before_6.push(("failed-session-count"@, JsonView::Number(decimal(self.failed_session_count as nat)))));
        let ghost before_7 = members_view(e@);
        put_opt_str(&mut e, "additional-information", &self.additional_information);
        assert(members_view(e@) == if self.additional_information is Some { before_7.push(("additional-information"@, JsonView::Str(self.additional_information.unwrap()@))) } else { before_7 });
        let ghost before_8 = members_view(e@);
        put_opt_str(&mut e, "failure-reason-code", &self.failure_reason_code);
        assert(members_view(e@) == if self.failure_reason_code is Some { before_8.push(("failure-reason-code"@, JsonView::Str(self.failure_reason_code.unwrap()@))) } else { before_8 });
        e
    }
}

/// Whether a JSON array lists, item by item, objects that describe `xs`.
pub open spec fn failure_details_list_decodes(v: Option<JsonValue>, xs: Seq<FailureDetails>) -> bool {
    match v {
        Some(JsonValue::Array(a)) => {
            &&& a@.len() == xs.len()
            &&& forall|i: int| 0 <= i < a@.len() ==> (#[trigger] a@[i] is Object && failure_details_decodes(a@[i]->Object_0@, xs[i]))
        },
        _ => false,
    }
}

pub open spec fn failure_details_list_readable(v: Option<JsonValue>) -> bool {
    match v {
        Some(JsonValue::Array(a)) => forall|i: int| 0 <= i < a@.len() ==> (#[trigger] a@[i] is Object && failure_details_readable(a@[i]->Object_0@)),
        _ => false,
    }
}

fn failure_details_list_from(v: Option<&JsonValue>) -> (r: Option<Vec<FailureDetails>>)
    ensures
        r.is_some() == failure_details_list_readable(found(v)),
        r.is_some() ==> failure_details_list_decodes(found(v), r.unwrap()@),
{
    let a = match v {
        Some(JsonValue::Array(a)) => a,
        _ => return None,
    };
    let mut out: Vec<FailureDetails> = Vec::new();
    let mut i: usize = 0;
    while i < a.len()
        invariant
            i <= a@.len(),
            found(v) == Some(JsonValue::Array(*a)),
            out@.len() == i,
            forall|j: int| 0 <= j < i ==> (#[trigger] a@[j] is Object && failure_details_decodes(a@[j]->Object_0@, out@[j])
                && failure_details_readable(a@[j]->Object_0@)),
        decreases a@.len() - i,
    {
        match &a[i] {
            JsonValue::Object(m) => match FailureDetails::decode(m) {
                Some(x) => out.push(x),
                None => return None,
            },
            _ => return None,
        }
        i = i + 1;
    }
    Some(out)
}

/// The views of a list of objects.
pub open spec fn failure_details_list_jview(xs: Seq<FailureDetails>) -> Seq<JsonView> {
    Seq::new(xs.len(), |i: int| JsonView::Object(failure_details_json_view(xs[i])))
}

fn failure_details_list_json(xs: &Vec<FailureDetails>) -> (r: JsonValue)
    ensures
        failure_details_list_decodes(Some(r), xs@),
        jview(r) == JsonView::Array(failure_details_list_jview(xs@)),
{
    let mut a: Vec<JsonValue> = Vec::new();
    let mut i: usize = 0;
    while i < xs.len()
        invariant
            i <= xs@.len(),
            a@.len() == i,
            forall|j: int| 0 <= j < i ==> (#[trigger] a@[j] is Object && failure_details_decodes(a@[j]->Object_0@, xs@[j])
                && jview(a@[j]) == JsonView::Object(failure_details_json_view(xs@[j]))),
        decreases xs@.len() - i,
    {
        a.push(JsonValue::Object(xs[i].encode()));
        i = i + 1;
    }
    let r = JsonValue::Array(a);
    assert(jview(r)->Array_0 =~= failure_details_list_jview(xs@));
    r
}

/// A policy with its outcomes.
#[derive(Debug, PartialEq, Eq)]
pub struct PoliciesItem {
    pub policy: Policy,
    pub summary: Summary,
    pub failure_details: Vec<FailureDetails>,
}

/// Whether the members describe `x`.
pub open spec fn policies_item_decodes(e: Seq<(String, JsonValue)>, x: PoliciesItem) -> bool {
    &&& match lookup(e, "policy"@) {
        Some(JsonValue::Object(m)) => policy_decodes(m@, x.policy),
        _ => false,
    }
    &&& match lookup(e, "summary"@) {
        Some(JsonValue::Object(m)) => summary_decodes(m@, x.summary),
        _ => false,
    }
    &&& failure_details_list_decodes(lookup(e, "failure-details"@), x.failure_details@)
}

/// Whether an object's members hold a well-typed policies item.
pub open spec fn policies_item_readable(e: Seq<(String, JsonValue)>) -> bool {
    &&& match lookup(e, "policy"@) {
        Some(JsonValue::Object(m)) => policy_readable(m@),
        _ => false,
    }
    &&& match lookup(e, "summary"@) {
        Some(JsonValue::Object(m)) => summary_readable(m@),
        _ => false,
    }
    &&& failure_details_list_readable(lookup(e, "failure-details"@))
}

/// The members that a policies item is written as, in order.
pub open spec fn policies_item_json_view(x: PoliciesItem) -> Seq<(Seq<char>, JsonView)> {
    let s0 = Seq::empty();
    let s1 = s0.push(("policy"@, JsonView::Object(policy_json_view(x.policy))));
    let s2 = s1.push(("summary"@, JsonView::Object(summary_json_view(x.summary))));
    let s3 = s2.push(("failure-details"@, JsonView::Array(failure_details_list_jview(x.failure_details@))));
    s3
}

impl PoliciesItem {
    /// Reads the body from an object's members.
    pub fn decode(e: &Members) -> (r: Option<PoliciesItem>)
        ensures
            r.is_some() == policies_item_readable(e@),
            r.is_some() ==> policies_item_decodes(e@, r.unwrap()),
    {
        let policy = match match find(e, "policy") {
            Some(JsonValue::Object(m)) => Policy::decode(m),
            _ => None,
        } {
            Some(x) => x,
            None => return None,
        };
        let summary = match match find(e, "summary") {
            Some(JsonValue::Object(m)) => Summary::decode(m),
            _ => None,
        } {
            Some(x) => x,
            None => return None,
        };
        let failure_details = match failure_details_list_from(find(e, "failure-details")) {
            Some(x) => x,
            None => return None,
        };
        Some(PoliciesItem {
            policy,
            summary,
            failure_details,
        })
    }

    /// The members of this body under their canonical names; reading them
    /// back gives this body.
    pub fn encode(&self) -> (r: Members)
        ensures
            policies_item_decodes(r@, *self),
            members_view(r@) == policies_item_json_view(*self),
    {
        proof {
            reveal_strlit("policy");
            assert("policy"@.len() == 6);
            reveal_strlit("summary");
            assert("summary"@.len() == 7);
            reveal_strlit("failure-details");
            assert("failure-details"@.len() == 15);
        }
        let mut e: Members = Vec::new();
        assert(members_view(e@) =~= Seq::<(Seq<char>, JsonView)>::empty());
        let ghost before_1 = members_view(e@);
        put(&mut e, "policy", JsonValue::Object(self.policy.encode()));
        assert(members_view(e@) == before_1.push(("policy"@, JsonView::Object(policy_json_view(self.policy)))));
        let ghost before_2 = members_view(e@);
        put(&mut e, "summary", JsonValue::Object(self.summary.encode()));
        assert(members_view(e@) == before_2.push(("summary"@, JsonView::Object(summary_json_view(self.summary)))));
        let ghost before_3 = members_view(e@);
        put(&mut e, "failure-details", failure_details_list_json(&self.failure_details));
        assert(members_view(e@) == before_3.push(("failure-details"@, JsonView::Array(failure_details_list_jview(self.failure_details@)))));
        e
    }
}

/// Whether a JSON array lists, item by item, objects that describe `xs`.
pub open spec fn policies_item_list_decodes(v: Option<JsonValue>, xs: Seq<PoliciesItem>) -> bool {
    match v {
        Some(JsonValue::Array(a)) => {
            &&& a@.len() == xs.len()
            &&& forall|i: int| 0 <= i < a@.len() ==> (#[trigger] a@[i] is Object && policies_item_decodes(a@[i]->Object_0@, xs[i]))
        },
        _ => false,
    }
}

pub open spec fn policies_item_list_readable(v: Option<JsonValue>) -> bool {
    match v {
        Some(JsonValue::Array(a)) => forall|i: int| 0 <= i < a@.len() ==> (#[trigger] a@[i] is Object && policies_item_readable(a@[i]->Object_0@)),
        _ => false,
    }
}

fn policies_item_list_from(v: Option<&JsonValue>) -> (r: Option<Vec<PoliciesItem>>)
    ensures
        r.is_some() == policies_item_list_readable(found(v)),
        r.is_some() ==> policies_item_list_decodes(found(v), r.unwrap()@),
{
    let a = match v {
        Some(JsonValue::Array(a)) => a,
        _ => return None,
    };
    let mut out: Vec<PoliciesItem> = Vec::new();
    let mut i: usize = 0;
    while i < a.len()
        invariant
            i <= a@.len(),
            found(v) == Some(JsonValue::Array(*a)),
            out@.len() == i,
            forall|j: int| 0 <= j < i ==> (#[trigger] a@[j] is Object && policies_item_decodes(a@[j]->Object_0@, out@[j])
                && policies_item_readable(a@[j]->Object_0@)),
        decreases a@.len() - i,
    {
        match &a[i] {
            JsonValue::Object(m) => match PoliciesItem::decode(m) {
                Some(x) => out.push(x),
                None => return None,
            },
            _ => return None,
        }
        i = i + 1;
    }
    Some(out)
}

/// The views of a list of objects.
pub open spec fn policies_item_list_jview(xs: Seq<PoliciesItem>) -> Seq<JsonView> {
    Seq::new(xs.len(), |i: int| JsonView::Object(policies_item_json_view(xs[i])))
}

fn policies_item_list_json(xs: &Vec<PoliciesItem>) -> (r: JsonValue)
    ensures
        policies_item_list_decodes(Some(r), xs@),
        jview(r) == JsonView::Array(policies_item_list_jview(xs@)),
{
    let mut a: Vec<JsonValue> = Vec::new();
    let mut i: usize = 0;
    while i < xs.len()
        invariant
            i <= xs@.len(),
            a@.len() == i,
            forall|j: int| 0 <= j < i ==> (#[trigger] a@[j] is Object && policies_item_decodes(a@[j]->Object_0@, xs@[j])
                && jview(a@[j]) == JsonView::Object(policies_item_json_view(xs@[j]))),
        decreases xs@.len() - i,
    {
        a.push(JsonValue::Object(xs[i].encode()));
        i = i + 1;
    }
    let r = JsonValue::Array(a);
    assert(jview(r)->Array_0 =~= policies_item_list_jview(xs@));
    r
}

/// An SMTP TLS report.
#[derive(Debug, PartialEq, Eq)]
pub struct SMTPTLSReport {
    pub organization_name: String,
    pub date_range: DateRange,
    pub contact_info: String,
    pub report_id: String,
    pub policies: Vec<PoliciesItem>,
}

/// Whether the members describe `x`.
pub open spec fn smtptls_report_decodes(e: Seq<(String, JsonValue)>, x: SMTPTLSReport) -> bool {
    &&& str_value(lookup(e, "organization-name"@)) == Some(x.organization_name)
    &&& match lookup(e, "date-range"@) {
        Some(JsonValue::Object(m)) => date_range_decodes(m@, x.date_range),
        _ => false,
    }
    &&& str_value(lookup(e, "contact-info"@)) == Some(x.contact_info)
    &&& str_value(lookup(e, "report-id"@)) == Some(x.report_id)
    &&& policies_item_list_decodes(lookup(e, "policies"@), x.policies@)
}

/// Whether an object's members hold a well-typed smtptls report.
pub open spec fn smtptls_report_readable(e: Seq<(String, JsonValue)>) -> bool {
    &&& str_value(lookup(e, "organization-name"@)).is_some()
    &&& match lookup(e, "date-range"@) {
        Some(JsonValue::Object(m)) => date_range_readable(m@),
        _ => false,
    }
    &&& str_value(lookup(e, "contact-info"@)).is_some()
    &&& str_value(lookup(e, "report-id"@)).is_some()
    &&& policies_item_list_readable(lookup(e, "policies"@))
}

/// The members that a smtptls report is written as, in order.
pub open spec fn smtptls_report_json_view(x: SMTPTLSReport) -> Seq<(Seq<char>, JsonView)> {
    let s0 = Seq::empty();
    let s1 = s0.push(("organization-name"@, JsonView::Str(x.organization_name@)));
    let s2 = s1.push(("date-range"@, JsonView::Object(date_range_json_view(x.date_range))));
    let s3 = s2.push(("contact-info"@, JsonView::Str(x.contact_info@)));
    let s4 = s3.push(("report-id"@, JsonView::Str(x.report_id@)));
    let s5 = s4.push(("policies"@, JsonView::Array(policies_item_list_jview(x.policies@))));
    s5
}

impl SMTPTLSReport {
    /// Reads the body from an object's members.
    pub fn decode(e: &Members) -> (r: Option<SMTPTLSReport>)
        ensures
            r.is_some() == smtptls_report_readable(e@),
            r.is_some() ==> smtptls_report_decodes(e@, r.unwrap()),
    {
        let organization_name = match str_from(find(e, "organization-name")) {
            Some(x) => x,
            None => return None,
        };
        let date_range = match match find(e, "date-range") {
            Some(JsonValue::Object(m)) => DateRange::decode(m),
            _ => None,
        } {
            Some(x) => x,
            None => return None,
        };
        let contact_info = match str_from(find(e, "contact-info")) {
            Some(x) => x,
            None => return None,
        };
        let report_id = match str_from(find(e, "report-id")) {
            Some(x) => x,
            None => return None,
        };
        let policies = match policies_item_list_from(find(e, "policies")) {
            Some(x) => x,
            None => return None,
        };
        Some(SMTPTLSReport {
            organization_name,
            date_range,
            contact_info,
            report_id,
            policies,
        })
    }

    /// The members of this body under their canonical names; reading them
    /// back gives this body.
    pub fn encode(&self) -> (r: Members)
        ensures
            smtptls_report_decodes(r@, *self),
            members_view(r@) == smtptls_report_json_view(*self),
    {
        proof {
            reveal_strlit("organization-name");
            assert("organization-name"@.len() == 17);
            reveal_strlit("date-range");
            assert("date-range"@.len() == 10);
            reveal_strlit("contact-info");
            assert("contact-info"@.len() == 12);
            reveal_strlit("report-id");
            assert("report-id"@.len() == 9);
            reveal_strlit("policies");
            assert("policies"@.len() == 8);
        }
        let mut e: Members = Vec::new();
        assert(members_view(e@) =~= Seq::<(Seq<char>, JsonView)>::empty());
        let ghost before_1 = members_view(e@);
        put(&mut e, "organization-name", JsonValue::Str(self.organization_name.clone()));
        assert(members_view(e@) == before_1.push(("organization-name"@, JsonView::Str(self.organization_name@))));
        let ghost before_2 = members_view(e@);
        put(&mut e, "date-range", JsonValue::Object(self.date_range.encode()));
        assert(members_view(e@) == before_2.push(("date-range"@, JsonView::Object(date_range_json_view(self.date_range)))));
        let ghost before_3 = members_view(e@);
        put(&mut e, "contact-info", JsonValue::Str(self.contact_info.clone()));
        assert(members_view(e@) == before_3.push(("contact-info"@, JsonView::Str(self.contact_info@))));
        let ghost before_4 = members_view(e@);
        put(&mut e, "report-id", JsonValue::Str(self.report_id.clone()));
        assert(members_view(e@) == before_4.push(("report-id"@, JsonView::Str(self.report_id@))));
        let ghost before_5 = members_view(e@);
        put(&mut e, "policies", policies_item_list_json(&self.policies));
        assert(members_view(e@) == before_5.push(("policies"@, JsonView::Array(policies_item_list_jview(self.policies@)))));
        e
    }
}

impl SMTPTLSReport {
    /// The domains of the report's policies, in order.
    pub fn get_policy_domains(&self) -> (r: Vec<&str>)
        ensures
            r@.len() == self.policies@.len(),
            forall|i: int| 0 <= i < r@.len() ==> #[trigger] r@[i]@ == self.policies@[i].policy.policy_domain@,
    {
        let mut domains: Vec<&str> = Vec::new();
        let mut i: usize = 0;
        while i < self.policies.len()
            invariant
                i <= self.policies@.len(),
                domains@.len() == i,
                forall|j: int| 0 <= j < i ==> #[trigger] domains@[j]@ == self.policies@[j].policy.policy_domain@,
            decreases self.policies@.len() - i,
        {
            domains.push(self.policies[i].policy.policy_domain.as_str());
            i = i + 1;
        }
        domains
    }
}

} // verus!
