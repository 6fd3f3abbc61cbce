//! Cross-Origin-Embedder-Policy violation reports.

use vstd::prelude::*;
use vstd::string::*;
use crate::json::{JsonValue, JsonView, Members, members_view, jview, lookup, found, find, str_eq};
use crate::fields::{str_value, str_from, put};

verus! {

broadcast use crate::json::lemma_lookup_push, crate::json::lemma_object_view;

/// Whether the policy was enforced or only reported.
#[derive(Debug, PartialEq, Eq, Clone, Copy)]
pub enum Disposition {
    Enforce,
    Reporting,
}

/// The disposition that a JSON string names.
pub open spec fn disposition_token(s: Seq<char>) -> Option<Disposition> {
    if s == "enforce"@ {
        Some(Disposition::Enforce)
    } else if s == "reporting"@ {
        Some(Disposition::Reporting)
    } else {
        None
    }
}

pub open spec fn disposition_value(v: Option<JsonValue>) -> Option<Disposition> {
    match v {
        Some(JsonValue::Str(s)) => disposition_token(s@),
        _ => None,
    }
}

pub open spec fn opt_disposition_value(v: Option<JsonValue>) -> Option<Option<Disposition>> {
    match v {
        None => Some(None),
        Some(JsonValue::Null) => Some(None),
        _ => if disposition_value(v).is_some() {
            Some(disposition_value(v))
        } else {
            None
        },
    }
}

fn disposition_from(v: Option<&JsonValue>) -> (r: Option<Disposition>)
    ensures
        r == disposition_value(found(v)),
{
    match v {
        Some(JsonValue::Str(s)) => {
            if str_eq(s.as_str(), "enforce") {
                Some(Disposition::Enforce)
            } else if str_eq(s.as_str(), "reporting") {
                Some(Disposition::Reporting)
            } else {
                None
            }
        },
        _ => None,
    }
}

fn opt_disposition_from(v: Option<&JsonValue>) -> (r: Option<Option<Disposition>>)
    ensures
        r == opt_disposition_value(found(v)),
{
    match v {
        None => Some(None),
        Some(JsonValue::Null) => Some(None),
        Some(_) => match disposition_from(v) {
            Some(x) => Some(Some(x)),
            None => None,
        },
    }
}

/// The text that names a disposition.
pub open spec fn disposition_text(x: Disposition) -> Seq<char> {
    match x {
        Disposition::Enforce => "enforce"@,
        Disposition::Reporting => "reporting"@,
    }
}

/// The JSON string that names a disposition.
pub fn disposition_json(x: Disposition) -> (r: JsonValue)
    ensures
        disposition_value(Some(r)) == Some(x),
        jview(r) == JsonView::Str(disposition_text(x)),
{
    proof {
        reveal_strlit("enforce");
        assert("enforce"@.len() == 7);
        reveal_strlit("reporting");
        assert("reporting"@.len() == 9);
    }
    let s = match x {
        Disposition::Enforce => String::from_str("enforce"),
        Disposition::Reporting => String::from_str("reporting"),
    };
    JsonValue::Str(s)
}

/// The body of a COEP violation report.
#[derive(Debug, PartialEq, Eq)]
pub struct CrossOriginEmbedderPolicyViolation {
    pub kind: String,
    pub blocked_url: String,
    pub disposition: Disposition,
}

/// Whether the members describe `x`.
pub open spec fn cross_origin_embedder_policy_violation_decodes(e: Seq<(String, JsonValue)>, x: CrossOriginEmbedderPolicyViolation) -> bool {
    &&& str_value(lookup(e, "type"@)) == Some(x.kind)
    &&& str_value(lookup(e, "blockedURL"@)) == Some(x.blocked_url)
    &&& disposition_value(lookup(e, "disposition"@)) == Some(x.disposition)
}

/// Whether an object's members hold a well-typed cross origin embedder policy violation.
pub open spec fn cross_origin_embedder_policy_violation_readable(e: Seq<(String, JsonValue)>) -> bool {
    &&& str_value(lookup(e, "type"@)).is_some()
    &&& str_value(lookup(e, "blockedURL"@)).is_some()
    &&& disposition_value(lookup(e, "disposition"@)).is_some()
}

/// The members that a cross origin embedder policy violation is written as, in order.
pub open spec fn cross_origin_embedder_policy_violation_json_view(x: CrossOriginEmbedderPolicyViolation) -> Seq<(Seq<char>, JsonView)> {
    let s0 = Seq::empty();
    let s1 = s0.push(("type"@, JsonView::Str(x.kind@)));
    let s2 = s1.push(("blockedURL"@, JsonView::Str(x.blocked_url@)));
    let s3 = s2.push(("disposition"@, JsonView::Str(disposition_text(x.disposition))));
    s3
}

impl CrossOriginEmbedderPolicyViolation {
    /// Reads the body from an object's members.
    pub fn decode(e: &Members) -> (r: Option<CrossOriginEmbedderPolicyViolation>)
        ensures
            r.is_some() == cross_origin_embedder_policy_violation_readable(e@),
            r.is_some() ==> cross_origin_embedder_policy_violation_decodes(e@, r.unwrap()),
    {
        let kind = match str_from(find(e, "type")) {
            Some(x) => x,
            None => return None,
        };
        let blocked_url = match str_from(find(e, "blockedURL")) {
            Some(x) => x,
            None => return None,
        };
        let disposition = match disposition_from(find(e, "disposition")) {
            Some(x) => x,
            None => return None,
        };
        Some(CrossOriginEmbedderPolicyViolation {
            kind,
            blocked_url,
            disposition,
        })
    }

    /// The members of this body under their canonical names; reading them
    /// back gives this body.
    pub fn encode(&self) -> (r: Members)
        ensures
            cross_origin_embedder_policy_violation_decodes(r@, *self),
            members_view(r@) == cross_origin_embedder_policy_violation_json_view(*self),
    {
        proof {
            reveal_strlit("type");
            assert("type"@.len() == 4);
            reveal_strlit("blockedURL");
            assert("blockedURL"@.len() == 10);
            reveal_strlit("disposition");
            assert("disposition"@.len() == 11);
        }
        let mut e: Members = Vec::new();
        assert(members_view(e@) =~= Seq::<(Seq<char>, JsonView)>::empty());
        let ghost before_1 = members_view(e@);
        put(&mut e, "type", JsonValue::Str(self.kind.clone()));
        assert(members_view(e@) == before_1.push(("type"@, JsonView::Str(self.kind@))));
        let ghost before_2 = members_view(e@);
        put(&mut e, "blockedURL", JsonValue::Str(self.blocked_url.clone()));
        assert(members_view(e@) == before_2.push(("blockedURL"@, JsonView::Str(self.blocked_url@))));
        let ghost before_3 = members_view(e@);
        put(&mut e, "disposition", disposition_json(self.disposition));
        assert(members_view(e@) == before_3.push(("disposition"@, JsonView::Str(disposition_text(self.disposition)))));
        e
    }
}

} // verus!
