//! Integrity violation reports: a subresource failed its integrity check.

use vstd::prelude::*;
use vstd::string::*;
use crate::json::{JsonValue, JsonView, Members, members_view, lookup, find};
use crate::fields::{str_value, bool_value, str_from, bool_from, put};

verus! {

broadcast use crate::json::lemma_lookup_push, crate::json::lemma_object_view;

/// The body of an integrity violation report.
#[derive(Debug, PartialEq, Eq)]
pub struct IntegrityViolation {
    pub document_url: String,
    pub blocked_url: String,
    pub destination: String,
    pub report_only: bool,
}

/// Whether the members describe `x`.
pub open spec fn integrity_violation_decodes(e: Seq<(String, JsonValue)>, x: IntegrityViolation) -> bool {
    &&& str_value(lookup(e, "documentURL"@)) == Some(x.document_url)
    &&& str_value(lookup(e, "blockedURL"@)) == Some(x.blocked_url)
    &&& str_value(lookup(e, "destination"@)) == Some(x.destination)
    &&& bool_value(lookup(e, "reportOnly"@)) == Some(x.report_only)
}

/// Whether an object's members hold a well-typed integrity violation.
pub open spec fn integrity_violation_readable(e: Seq<(String, JsonValue)>) -> bool {
    &&& str_value(lookup(e, "documentURL"@)).is_some()
    &&& str_value(lookup(e, "blockedURL"@)).is_some()
    &&& str_value(lookup(e, "destination"@)).is_some()
    &&& bool_value(lookup(e, "reportOnly"@)).is_some()
}

/// The members that a integrity violation is written as, in order.
pub open spec fn integrity_violation_json_view(x: IntegrityViolation) -> Seq<(Seq<char>, JsonView)> {
    let s0 = Seq::empty();
    let s1 = s0.push(("documentURL"@, JsonView::Str(x.document_url@)));
    let s2 = s1.push(("blockedURL"@, JsonView::Str(x.blocked_url@)));
    let s3 = s2.push(("destination"@, JsonView::Str(x.destination@)));
    let s4 = s3.push(("reportOnly"@, JsonView::Bool(x.report_only)));
    s4
}

impl IntegrityViolation {
    /// Reads the body from an object's members.
    pub fn decode(e: &Members) -> (r: Option<IntegrityViolation>)
        ensures
            r.is_some() == integrity_violation_readable(e@),
            r.is_some() ==> integrity_violation_decodes(e@, r.unwrap()),
    {
        let document_url = match str_from(find(e, "documentURL")) {
            Some(x) => x,
            None => return None,
        };
        let blocked_url = match str_from(find(e, "blockedURL")) {
            Some(x) => x,
            None => return None,
        };
        let destination = match str_from(find(e, "destination")) {
            Some(x) => x,
            None => return None,
        };
        let report_only = match bool_from(find(e, "reportOnly")) {
            Some(x) => x,
            None => return None,
        };
        Some(IntegrityViolation {
            document_url,
            blocked_url,
            destination,
            report_only,
        })
    }

    /// The members of this body under their canonical names; reading them
    /// back gives this body.
    pub fn encode(&self) -> (r: Members)
        ensures
            integrity_violation_decodes(r@, *self),
            members_view(r@) == integrity_violation_json_view(*self),
    {
        proof {
            reveal_strlit("documentURL");
            assert("documentURL"@.len() == 11);
            reveal_strlit("blockedURL");
            assert("blockedURL"@.len() == 10);
            reveal_strlit("destination");
            assert("destination"@.len() == 11);
            reveal_strlit("reportOnly");
            assert("reportOnly"@.len() == 10);
            assert("blockedURL"@[0] != "reportOnly"@[0]);
            assert("destination"@[1] != "documentURL"@[1]);
        }
        let mut e: Members = Vec::new();
        assert(members_view(e@) =~= Seq::<(Seq<char>, JsonView)>::empty());
        let ghost before_1 = members_view(e@);
        put(&mut e, "documentURL", JsonValue::Str(self.document_url.clone()));
        assert(members_view(e@) == before_1.push(("documentURL"@, JsonView::Str(self.document_url@))));
        let ghost before_2 = members_view(e@);
        put(&mut e, "blockedURL", JsonValue::Str(self.blocked_url.clone()));
        assert(members_view(e@) == before_2.push(("blockedURL"@, JsonView::Str(self.blocked_url@))));
        let ghost before_3 = members_view(e@);
        put(&mut e, "destination", JsonValue::Str(self.destination.clone()));
        assert(members_view(e@) == before_3.push(("destination"@, JsonView::Str(self.destination@))));
        let ghost before_4 = members_view(e@);
        put(&mut e, "reportOnly", JsonValue::Bool(self.report_only));
        assert(members_view(e@) == before_4.push(("reportOnly"@, JsonView::Bool(self.report_only))));
        e
    }
}

} // verus!
