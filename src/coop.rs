//! Cross-Origin-Opener-Policy violation reports.

use vstd::prelude::*;
use vstd::string::*;
use crate::json::{JsonValue, JsonView, Members, members_view, jview, decimal, lookup, found, find, str_eq};
use crate::fields::{str_value, opt_str_value, opt_uint_value, str_from, opt_str_from, opt_uint_from, put, put_opt_str, put_opt_uint};

verus! {

broadcast use crate::json::lemma_lookup_push, crate::json::lemma_object_view;

/// Whether the policy was enforced or only reported.
#[derive(Debug, PartialEq, Eq, Clone, Copy)]
pub enum Disposition {
    Enforce,
    Reporting,
}

/// The disposition that a JSON string names.
pub open spec fn disposition_token(s: Seq<char>) -> Option<Disposition> {
    if s == "enforce"@ {
        Some(Disposition::Enforce)
    } else if s == "reporting"@ {
        Some(Disposition::Reporting)
    } else {
        None
    }
}

pub open spec fn disposition_value(v: Option<JsonValue>) -> Option<Disposition> {
    match v {
        Some(JsonValue::Str(s)) => disposition_token(s@),
        _ => None,
    }
}

pub open spec fn opt_disposition_value(v: Option<JsonValue>) -> Option<Option<Disposition>> {
    match v {
        None => Some(None),
        Some(JsonValue::Null) => Some(None),
        _ => if disposition_value(v).is_some() {
            Some(disposition_value(v))
        } else {
            None
        },
    }
}

fn disposition_from(v: Option<&JsonValue>) -> (r: Option<Disposition>)
    ensures
        r == disposition_value(found(v)),
{
    match v {
        Some(JsonValue::Str(s)) => {
            if str_eq(s.as_str(), "enforce") {
                Some(Disposition::Enforce)
            } else if str_eq(s.as_str(), "reporting") {
                Some(Disposition::Reporting)
            } else {
                None
            }
        },
        _ => None,
    }
}

fn opt_disposition_from(v: Option<&JsonValue>) -> (r: Option<Option<Disposition>>)
    ensures
        r == opt_disposition_value(found(v)),
{
    match v {
        None => Some(None),
        Some(JsonValue::Null) => Some(None),
        Some(_) => match disposition_from(v) {
            Some(x) => Some(Some(x)),
            None => None,
        },
    }
}

/// The text that names a disposition.
pub open spec fn disposition_text(x: Disposition) -> Seq<char> {
    match x {
        Disposition::Enforce => "enforce"@,
        Disposition::Reporting => "reporting"@,
    }
}

/// The JSON string that names a disposition.
pub fn disposition_json(x: Disposition) -> (r: JsonValue)
    ensures
        disposition_value(Some(r)) == Some(x),
        jview(r) == JsonView::Str(disposition_text(x)),
{
    proof {
        reveal_strlit("enforce");
        assert("enforce"@.len() == 7);
        reveal_strlit("reporting");
        assert("reporting"@.len() == 9);
    }
    let s = match x {
        Disposition::Enforce => String::from_str("enforce"),
        Disposition::Reporting => String::from_str("reporting"),
    };
    JsonValue::Str(s)
}

/// The opener policy in effect.
#[derive(Debug, PartialEq, Eq, Clone, Copy)]
pub enum CrossOriginOpenerPolicy {
    UnsafeNone,
    SameOrigin,
    SameOriginAllowPopups,
    SameOriginPlusCOEP,
    NoopenerAllowPopups,
}

/// The cross origin opener policy that a JSON string names.
pub open spec fn cross_origin_opener_policy_token(s: Seq<char>) -> Option<CrossOriginOpenerPolicy> {
    if s == "unsafe-none"@ {
        Some(CrossOriginOpenerPolicy::UnsafeNone)
    } else if s == "same-origin"@ {
        Some(CrossOriginOpenerPolicy::SameOrigin)
    } else if s == "same-origin-allow-popups"@ {
        Some(CrossOriginOpenerPolicy::SameOriginAllowPopups)
    } else if s == "same-origin-plus-coep"@ {
        Some(CrossOriginOpenerPolicy::SameOriginPlusCOEP)
    } else if s == "noopener-allow-popups"@ {
        Some(CrossOriginOpenerPolicy::NoopenerAllowPopups)
    } else {
        None
    }
}

pub open spec fn cross_origin_opener_policy_value(v: Option<JsonValue>) -> Option<CrossOriginOpenerPolicy> {
    match v {
        Some(JsonValue::Str(s)) => cross_origin_opener_policy_token(s@),
        _ => None,
    }
}

pub open spec fn opt_cross_origin_opener_policy_value(v: Option<JsonValue>) -> Option<Option<CrossOriginOpenerPolicy>> {
    match v {
        None => Some(None),
        Some(JsonValue::Null) => Some(None),
        _ => if cross_origin_opener_policy_value(v).is_some() {
            Some(cross_origin_opener_policy_value(v))
        } else {
            None
        },
    }
}

fn cross_origin_opener_policy_from(v: Option<&JsonValue>) -> (r: Option<CrossOriginOpenerPolicy>)
    ensures
        r == cross_origin_opener_policy_value(found(v)),
{
    match v {
        Some(JsonValue::Str(s)) => {
            if str_eq(s.as_str(), "unsafe-none") {
                Some(CrossOriginOpenerPolicy::UnsafeNone)
            } else if str_eq(s.as_str(), "same-origin") {
                Some(CrossOriginOpenerPolicy::SameOrigin)
            } else if str_eq(s.as_str(), "same-origin-allow-popups") {
                Some(CrossOriginOpenerPolicy::SameOriginAllowPopups)
            } else if str_eq(s.as_str(), "same-origin-plus-coep") {
                Some(CrossOriginOpenerPolicy::SameOriginPlusCOEP)
            } else if str_eq(s.as_str(), "noopener-allow-popups") {
                Some(CrossOriginOpenerPolicy::NoopenerAllowPopups)
            } else {
                None
            }
        },
        _ => None,
    }
}

fn opt_cross_origin_opener_policy_from(v: Option<&JsonValue>) -> (r: Option<Option<CrossOriginOpenerPolicy>>)
    ensures
        r == opt_cross_origin_opener_policy_value(found(v)),
{
    match v {
        None => Some(None),
        Some(JsonValue::Null) => Some(None),
        Some(_) => match cross_origin_opener_policy_from(v) {
            Some(x) => Some(Some(x)),
            None => None,
        },
    }
}

/// The text that names a cross origin opener policy.
pub open spec fn cross_origin_opener_policy_text(x: CrossOriginOpenerPolicy) -> Seq<char> {
    match x {
        CrossOriginOpenerPolicy::UnsafeNone => "unsafe-none"@,
        CrossOriginOpenerPolicy::SameOrigin => "same-origin"@,
        CrossOriginOpenerPolicy::SameOriginAllowPopups => "same-origin-allow-popups"@,
        CrossOriginOpenerPolicy::SameOriginPlusCOEP => "same-origin-plus-coep"@,
        CrossOriginOpenerPolicy::NoopenerAllowPopups => "noopener-allow-popups"@,
    }
}

/// The JSON string that names a cross origin opener policy.
pub fn cross_origin_opener_policy_json(x: CrossOriginOpenerPolicy) -> (r: JsonValue)
    ensures
        cross_origin_opener_policy_value(Some(r)) == Some(x),
        jview(r) == JsonView::Str(cross_origin_opener_policy_text(x)),
{
    proof {
        reveal_strlit("unsafe-none");
        assert("unsafe-none"@.len() == 11);
        reveal_strlit("same-origin");
        assert("same-origin"@.len() == 11);
        reveal_strlit("same-origin-allow-popups");
        assert("same-origin-allow-popups"@.len() == 24);
        reveal_strlit("same-origin-plus-coep");
        assert("same-origin-plus-coep"@.len() == 21);
        reveal_strlit("noopener-allow-popups");
        assert("noopener-allow-popups"@.len() == 21);
        assert("noopener-allow-popups"@[0] != "same-origin-plus-coep"@[0]);
        assert("same-origin"@[0] != "unsafe-none"@[0]);
    }
    let s = match x {
        CrossOriginOpenerPolicy::UnsafeNone => String::from_str("unsafe-none"),
        CrossOriginOpenerPolicy::SameOrigin => String::from_str("same-origin"),
        CrossOriginOpenerPolicy::SameOriginAllowPopups => String::from_str("same-origin-allow-popups"),
        CrossOriginOpenerPolicy::SameOriginPlusCOEP => String::from_str("same-origin-plus-coep"),
        CrossOriginOpenerPolicy::NoopenerAllowPopups => String::from_str("noopener-allow-popups"),
    };
    JsonValue::Str(s)
}

/// What the page did that the opener policy reported, with the URLs that
/// each case carries.
#[derive(Debug, PartialEq, Eq)]
pub enum CrossOriginOpenerPolicyType {
    AccessToOpener {
        property: String,
        opener_url: Option<String>,
        opened_window_url: Option<String>,
        opened_window_initial_url: Option<String>,
        other_url: Option<String>,
    },
    NavigationToResponse { previous_response_url: Option<String> },
    NavigationFromResponse { next_response_url: Option<String> },
}

pub open spec fn tag_is(e: Seq<(String, JsonValue)>, tag: Seq<char>) -> bool {
    str_value(lookup(e, "type"@)).is_some() && str_value(lookup(e, "type"@)).unwrap()@ == tag
}

/// Whether the members, selected by their `type`, describe `x`.
pub open spec fn opener_type_decodes(e: Seq<(String, JsonValue)>, x: CrossOriginOpenerPolicyType) -> bool {
    match x {
        CrossOriginOpenerPolicyType::AccessToOpener {
            property,
            opener_url,
            opened_window_url,
            opened_window_initial_url,
            other_url,
        } => {
            &&& tag_is(e, "access-to-opener"@)
            &&& str_value(lookup(e, "property"@)) == Some(property)
            &&& opt_str_value(lookup(e, "openerURL"@)) == Some(opener_url)
            &&& opt_str_value(lookup(e, "openedWindowURL"@)) == Some(opened_window_url)
            &&& opt_str_value(lookup(e, "openedWindowInitialURL"@)) == Some(opened_window_initial_url)
            &&& opt_str_value(lookup(e, "otherURL"@)) == Some(other_url)
        },
        CrossOriginOpenerPolicyType::NavigationToResponse { previous_response_url } => {
            &&& tag_is(e, "navigation-to-response"@)
            &&& opt_str_value(lookup(e, "previousResponseURL"@)) == Some(previous_response_url)
        },
        CrossOriginOpenerPolicyType::NavigationFromResponse { next_response_url } => {
            &&& tag_is(e, "navigation-from-response"@)
            &&& opt_str_value(lookup(e, "nextResponseURL"@)) == Some(next_response_url)
        },
    }
}

pub open spec fn opener_type_readable(e: Seq<(String, JsonValue)>) -> bool {
    ||| (tag_is(e, "access-to-opener"@) && str_value(lookup(e, "property"@)).is_some()
        && opt_str_value(lookup(e, "openerURL"@)).is_some()
        && opt_str_value(lookup(e, "openedWindowURL"@)).is_some()
        && opt_str_value(lookup(e, "openedWindowInitialURL"@)).is_some()
        && opt_str_value(lookup(e, "otherURL"@)).is_some())
    ||| (tag_is(e, "navigation-to-response"@) && opt_str_value(lookup(e, "previousResponseURL"@)).is_some())
    ||| (tag_is(e, "navigation-from-response"@) && opt_str_value(lookup(e, "nextResponseURL"@)).is_some())
}

fn opener_type_from(e: &Members) -> (r: Option<CrossOriginOpenerPolicyType>)
    ensures
        r.is_some() == opener_type_readable(e@),
        r.is_some() ==> opener_type_decodes(e@, r.unwrap()),
{
    proof {
        reveal_strlit("access-to-opener");
        reveal_strlit("navigation-to-response");
        reveal_strlit("navigation-from-response");
        assert("access-to-opener"@.len() == 16);
        assert("navigation-to-response"@.len() == 22);
        assert("navigation-from-response"@.len() == 24);
    }
    let tag = match str_from(find(e, "type")) {
        Some(t) => t,
        None => return None,
    };
    if str_eq(tag.as_str(), "access-to-opener") {
        let property = str_from(find(e, "property"));
        let opener_url = opt_str_from(find(e, "openerURL"));
        let opened_window_url = opt_str_from(find(e, "openedWindowURL"));
        let opened_window_initial_url = opt_str_from(find(e, "openedWindowInitialURL"));
        let other_url = opt_str_from(find(e, "otherURL"));
        match (property, opener_url, opened_window_url, opened_window_initial_url, other_url) {
            (Some(property), Some(opener_url), Some(opened_window_url), Some(opened_window_initial_url), Some(other_url)) => {
                Some(CrossOriginOpenerPolicyType::AccessToOpener {
                    property,
                    opener_url,
                    opened_window_url,
                    opened_window_initial_url,
                    other_url,
                })
            },
            _ => None,
        }
    } else if str_eq(tag.as_str(), "navigation-to-response") {
        match opt_str_from(find(e, "previousResponseURL")) {
            Some(previous_response_url) => Some(CrossOriginOpenerPolicyType::NavigationToResponse { previous_response_url }),
            None => None,
        }
    } else if str_eq(tag.as_str(), "navigation-from-response") {
        match opt_str_from(find(e, "nextResponseURL")) {
            Some(next_response_url) => Some(CrossOriginOpenerPolicyType::NavigationFromResponse { next_response_url }),
            None => None,
        }
    } else {
        None
    }
}

/// Appends the `type` member and the members of its case. Names already
/// present keep their values.
#[verifier::rlimit(100)]
#[verifier::spinoff_prover]
fn put_opener_type(e: &mut Members, x: &CrossOriginOpenerPolicyType)
    requires
        lookup(old(e)@, "type"@) is None,
        lookup(old(e)@, "property"@) is None,
        lookup(old(e)@, "openerURL"@) is None,
        lookup(old(e)@, "openedWindowURL"@) is None,
        lookup(old(e)@, "openedWindowInitialURL"@) is None,
        lookup(old(e)@, "otherURL"@) is None,
        lookup(old(e)@, "previousResponseURL"@) is None,
        lookup(old(e)@, "nextResponseURL"@) is None,
    ensures
        opener_type_decodes(final(e)@, *x),
        members_view(final(e)@) == members_view(old(e)@) + opener_type_view(*x),
        forall|i: int| 0 <= i < old(e)@.len() ==> final(e)@[i] == old(e)@[i],
        forall|i: int| old(e)@.len() <= i < final(e)@.len() ==> opener_key(#[trigger] final(e)@[i].0@),
        forall|k: Seq<char>|
            lookup(old(e)@, k).is_some() || !opener_key(k) ==> #[trigger] lookup(final(e)@, k) == lookup(old(e)@, k),
{
    proof {
        reveal_strlit("type");
        reveal_strlit("property");
        reveal_strlit("openerURL");
        reveal_strlit("openedWindowURL");
        reveal_strlit("openedWindowInitialURL");
        reveal_strlit("otherURL");
        reveal_strlit("previousResponseURL");
        reveal_strlit("nextResponseURL");
        reveal_strlit("access-to-opener");
        reveal_strlit("navigation-to-response");
        reveal_strlit("navigation-from-response");
        assert("type"@.len() == 4);
        assert("property"@.len() == 8);
        assert("openerURL"@.len() == 9);
        assert("openedWindowURL"@.len() == 15);
        assert("openedWindowInitialURL"@.len() == 22);
        assert("otherURL"@.len() == 8);
        assert("previousResponseURL"@.len() == 19);
        assert("nextResponseURL"@.len() == 15);
        assert("property"@[0] != "otherURL"@[0]);
        assert("openedWindowURL"@[0] != "nextResponseURL"@[0]);
    }
    match x {
        CrossOriginOpenerPolicyType::AccessToOpener {
            property,
            opener_url,
            opened_window_url,
            opened_window_initial_url,
            other_url,
        } => {
            let ghost m0 = members_view(e@);
            put(e, "type", JsonValue::Str(String::from_str("access-to-opener")));
            put(e, "property", JsonValue::Str(property.clone()));
            assert(members_view(e@) =~= m0 + seq![("type"@, JsonView::Str("access-to-opener"@)), ("property"@, JsonView::Str(property@))]);
            let ghost m1 = members_view(e@);
            put_opt_str(e, "openerURL", opener_url);
            assert(members_view(e@) =~= m1 + opt_str_member("openerURL"@, *opener_url));
            let ghost m2 = members_view(e@);
            put_opt_str(e, "openedWindowURL", opened_window_url);
            assert(members_view(e@) =~= m2 + opt_str_member("openedWindowURL"@, *opened_window_url));
            let ghost m3 = members_view(e@);
            put_opt_str(e, "openedWindowInitialURL", opened_window_initial_url);
            assert(members_view(e@) =~= m3 + opt_str_member("openedWindowInitialURL"@, *opened_window_initial_url));
            let ghost m4 = members_view(e@);
            put_opt_str(e, "otherURL", other_url);
            assert(members_view(e@) =~= m4 + opt_str_member("otherURL"@, *other_url));
            assert(members_view(e@) =~= m0 + opener_type_view(*x));
        },
        CrossOriginOpenerPolicyType::NavigationToResponse { previous_response_url } => {
            let ghost m0 = members_view(e@);
            put(e, "type", JsonValue::Str(String::from_str("navigation-to-response")));
            let ghost m1 = members_view(e@);
            put_opt_str(e, "previousResponseURL", previous_response_url);
            assert(members_view(e@) =~= m1 + opt_str_member("previousResponseURL"@, *previous_response_url));
            assert(members_view(e@) =~= m0 + opener_type_view(*x));
        },
        CrossOriginOpenerPolicyType::NavigationFromResponse { next_response_url } => {
            let ghost m0 = members_view(e@);
            put(e, "type", JsonValue::Str(String::from_str("navigation-from-response")));
            let ghost m1 = members_view(e@);
            put_opt_str(e, "nextResponseURL", next_response_url);
            assert(members_view(e@) =~= m1 + opt_str_member("nextResponseURL"@, *next_response_url));
            assert(members_view(e@) =~= m0 + opener_type_view(*x));
        },
    }
}

/// An optional string member: present only when there is a value.
pub open spec fn opt_str_member(k: Seq<char>, v: Option<String>) -> Seq<(Seq<char>, JsonView)> {
    match v {
        Some(s) => seq![(k, JsonView::Str(s@))],
        None => seq![],
    }
}

/// The members that the case is written as: `type`, then its own fields.
pub open spec fn opener_type_view(k: CrossOriginOpenerPolicyType) -> Seq<(Seq<char>, JsonView)> {
    match k {
        CrossOriginOpenerPolicyType::AccessToOpener {
            property,
            opener_url,
            opened_window_url,
            opened_window_initial_url,
            other_url,
        } => seq![("type"@, JsonView::Str("access-to-opener"@)), ("property"@, JsonView::Str(property@))]
            + opt_str_member("openerURL"@, opener_url) + opt_str_member("openedWindowURL"@, opened_window_url)
            + opt_str_member("openedWindowInitialURL"@, opened_window_initial_url) + opt_str_member("otherURL"@, other_url),
        CrossOriginOpenerPolicyType::NavigationToResponse { previous_response_url } => seq![
            ("type"@, JsonView::Str("navigation-to-response"@)),
        ] + opt_str_member("previousResponseURL"@, previous_response_url),
        CrossOriginOpenerPolicyType::NavigationFromResponse { next_response_url } => seq![
            ("type"@, JsonView::Str("navigation-from-response"@)),
        ] + opt_str_member("nextResponseURL"@, next_response_url),
    }
}

/// Whether a name is one of those that the case members use.
pub open spec fn opener_key(k: Seq<char>) -> bool {
    ||| k == "type"@
    ||| k == "property"@
    ||| k == "openerURL"@
    ||| k == "openedWindowURL"@
    ||| k == "openedWindowInitialURL"@
    ||| k == "otherURL"@
    ||| k == "previousResponseURL"@
    ||| k == "nextResponseURL"@
}


/// The body of a COOP violation report.
#[derive(Debug, PartialEq, Eq)]
pub struct CrossOriginOpenerPolicyViolation {
    pub disposition: Disposition,
    pub effective_policy: CrossOriginOpenerPolicy,
    pub referrer: Option<String>,
    pub source_file: Option<String>,
    pub line_number: Option<u64>,
    pub column_number: Option<u64>,
    pub kind: CrossOriginOpenerPolicyType,
}

/// Whether the members describe `x`.
pub open spec fn cross_origin_opener_policy_violation_decodes(e: Seq<(String, JsonValue)>, x: CrossOriginOpenerPolicyViolation) -> bool {
    &&& disposition_value(lookup(e, "disposition"@)) == Some(x.disposition)
    &&& cross_origin_opener_policy_value(lookup(e, "effectivePolicy"@)) == Some(x.effective_policy)
    &&& opt_str_value(lookup(e, "referrer"@)) == Some(x.referrer)
    &&& opt_str_value(lookup(e, "sourceFile"@)) == Some(x.source_file)
    &&& opt_uint_value(lookup(e, "lineNumber"@), u64::MAX as nat) == Some(if x.line_number.is_some() { Some(x.line_number.unwrap() as nat) } else { None })
    &&& opt_uint_value(lookup(e, "columnNumber"@), u64::MAX as nat) == Some(if x.column_number.is_some() { Some(x.column_number.unwrap() as nat) } else { None })
    &&& opener_type_decodes(e, x.kind)
}

/// Whether an object's members hold a well-typed cross origin opener policy violation.
pub open spec fn cross_origin_opener_policy_violation_readable(e: Seq<(String, JsonValue)>) -> bool {
    &&& disposition_value(lookup(e, "disposition"@)).is_some()
    &&& cross_origin_opener_policy_value(lookup(e, "effectivePolicy"@)).is_some()
    &&& opt_str_value(lookup(e, "referrer"@)).is_some()
    &&& opt_str_value(lookup(e, "sourceFile"@)).is_some()
    &&& opt_uint_value(lookup(e, "lineNumber"@), u64::MAX as nat).is_some()
    &&& opt_uint_value(lookup(e, "columnNumber"@), u64::MAX as nat).is_some()
    &&& opener_type_readable(e)
}

/// The members that a cross origin opener policy violation is written as, in order.
pub open spec fn cross_origin_opener_policy_violation_json_view(x: CrossOriginOpenerPolicyViolation) -> Seq<(Seq<char>, JsonView)> {
    let s0 = Seq::empty();
    let s1 = s0.push(("disposition"@, JsonView::Str(disposition_text(x.disposition))));
    let s2 = s1.push(("effectivePolicy"@, JsonView::Str(cross_origin_opener_policy_text(x.effective_policy))));
    let s3 = if x.referrer is Some { s2.push(("referrer"@, JsonView::Str(x.referrer.unwrap()@))) } else { s2 };
    let s4 = if x.source_file is Some { s3.push(("sourceFile"@, JsonView::Str(x.source_file.unwrap()@))) } else { s3 };
    let s5 = if x.line_number is Some { s4.push(("lineNumber"@, JsonView::Number(decimal(x.line_number.unwrap() as nat)))) } else { s4 };
    let s6 = if x.column_number is Some { s5.push(("columnNumber"@, JsonView::Number(decimal(x.column_number.unwrap() as nat)))) } else { s5 };
    let s7 = s6 + opener_type_view(x.kind);
    s7
}

impl CrossOriginOpenerPolicyViolation {
    /// Reads the body from an object's members.
    pub fn decode(e: &Members) -> (r: Option<CrossOriginOpenerPolicyViolation>)
        ensures
            r.is_some() == cross_origin_opener_policy_violation_readable(e@),
            r.is_some() ==> cross_origin_opener_policy_violation_decodes(e@, r.unwrap()),
    {
        let disposition = match disposition_from(find(e, "disposition")) {
            Some(x) => x,
            None => return None,
        };
        let effective_policy = match cross_origin_opener_policy_from(find(e, "effectivePolicy")) {
            Some(x) => x,
            None => return None,
        };
        let referrer = match opt_str_from(find(e, "referrer")) {
            Some(x) => x,
            None => return None,
        };
        let source_file = match opt_str_from(find(e, "sourceFile")) {
            Some(x) => x,
            None => return None,
        };
        let line_number = match opt_uint_from(find(e, "lineNumber"), u64::MAX) {
            Some(x) => x,
            None => return None,
        };
        let column_number = match opt_uint_from(find(e, "columnNumber"), u64::MAX) {
            Some(x) => x,
            None => return None,
        };
        let kind = match opener_type_from(e) {
            Some(x) => x,
            None => return None,
        };
        Some(CrossOriginOpenerPolicyViolation {
            disposition,
            effective_policy,
            referrer,
            source_file,
            line_number: match line_number {
                Some(n) => Some(n as u64),
                None => None,
            },
            column_number: match column_number {
                Some(n) => Some(n as u64),
                None => None,
            },
            kind,
        })
    }

    /// The members of this body under their canonical names; reading them
    /// back gives this body.
    #[verifier::rlimit(100)]
    #[verifier::spinoff_prover]
    pub fn encode(&self) -> (r: Members)
        ensures
            cross_origin_opener_policy_violation_decodes(r@, *self),
            members_view(r@) == cross_origin_opener_policy_violation_json_view(*self),
    {
        proof {
            reveal_strlit("disposition");
            assert("disposition"@.len() == 11);
            reveal_strlit("effectivePolicy");
            assert("effectivePolicy"@.len() == 15);
            reveal_strlit("referrer");
            assert("referrer"@.len() == 8);
            reveal_strlit("sourceFile");
            assert("sourceFile"@.len() == 10);
            reveal_strlit("lineNumber");
            assert("lineNumber"@.len() == 10);
            reveal_strlit("columnNumber");
            assert("columnNumber"@.len() == 12);
            reveal_strlit("type");
            assert("type"@.len() == 4);
            reveal_strlit("property");
            assert("property"@.len() == 8);
            reveal_strlit("openerURL");
            assert("openerURL"@.len() == 9);
            reveal_strlit("openedWindowURL");
            assert("openedWindowURL"@.len() == 15);
            reveal_strlit("openedWindowInitialURL");
            assert("openedWindowInitialURL"@.len() == 22);
            reveal_strlit("otherURL");
            assert("otherURL"@.len() == 8);
            reveal_strlit("previousResponseURL");
            assert("previousResponseURL"@.len() == 19);
            reveal_strlit("nextResponseURL");
            assert("nextResponseURL"@.len() == 15);
            assert("effectivePolicy"@[0] != "nextResponseURL"@[0]);
            assert("effectivePolicy"@[0] != "openedWindowURL"@[0]);
            assert("lineNumber"@[0] != "sourceFile"@[0]);
            assert("nextResponseURL"@[0] != "openedWindowURL"@[0]);
            assert("otherURL"@[0] != "property"@[0]);
            assert("otherURL"@[0] != "referrer"@[0]);
            assert("property"@[0] != "referrer"@[0]);
        }
        let mut e: Members = Vec::new();
        assert(members_view(e@) =~= Seq::<(Seq<char>, JsonView)>::empty());
        let ghost before_1 = members_view(e@);
        put(&mut e, "disposition", disposition_json(self.disposition));
        assert(members_view(e@) == before_1.push(("disposition"@, JsonView::Str(disposition_text(self.disposition)))));
        let ghost before_2 = members_view(e@);
        put(&mut e, "effectivePolicy", cross_origin_opener_policy_json(self.effective_policy));
        assert(members_view(e@) == before_2.push(("effectivePolicy"@, JsonView::Str(cross_origin_opener_policy_text(self.effective_policy)))));
        let ghost before_3 = members_view(e@);
        put_opt_str(&mut e, "referrer", &self.referrer);
        assert(members_view(e@) == if self.referrer is Some { before_3.push(("referrer"@, JsonView::Str(self.referrer.unwrap()@))) } else { before_3 });
        let ghost before_4 = members_view(e@);
        put_opt_str(&mut e, "sourceFile", &self.source_file);
        assert(members_view(e@) == if self.source_file is Some { before_4.push(("sourceFile"@, JsonView::Str(self.source_file.unwrap()@))) } else { before_4 });
        let ghost before_5 = members_view(e@);
        put_opt_uint(&mut e, "lineNumber", self.line_number);
        assert(members_view(e@) == if self.line_number is Some { before_5.push(("lineNumber"@, JsonView::Number(decimal(self.line_number.unwrap() as nat)))) } else { before_5 });
        let ghost before_6 = members_view(e@);
        put_opt_uint(&mut e, "columnNumber", self.column_number);
        assert(members_view(e@) == if self.column_number is Some { before_6.push(("columnNumber"@, JsonView::Number(decimal(self.column_number.unwrap() as nat)))) } else { before_6 });
        let ghost before_7 = members_view(e@);
        put_opener_type(&mut e, &self.kind);
        assert(members_view(e@) == before_7 + opener_type_view(self.kind));
        e
    }
}

} // verus!
