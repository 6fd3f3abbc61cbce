//! Permissions-Policy violation reports.

use vstd::prelude::*;
use vstd::string::*;
use crate::json::{JsonValue, JsonView, Members, members_view, decimal, lookup, find};
use crate::fields::{str_value, opt_str_value, opt_uint_value, str_from, opt_str_from, opt_uint_from, put, put_opt_str, put_opt_uint};

verus! {

broadcast use crate::json::lemma_lookup_push, crate::json::lemma_object_view;

/// The body of a permissions policy violation report.
#[derive(Debug, PartialEq, Eq)]
pub struct PermissionsPolicyViolation {
    pub feature_id: String,
    pub source_file: Option<String>,
    pub line_number: Option<u64>,
    pub column_number: Option<u64>,
    pub disposition: String,
    pub message: Option<String>,
}

/// Whether the members describe `x`.
pub open spec fn permissions_policy_violation_decodes(e: Seq<(String, JsonValue)>, x: PermissionsPolicyViolation) -> bool {
    &&& str_value(lookup(e, "featureId"@)) == Some(x.feature_id)
    &&& opt_str_value(lookup(e, "sourceFile"@)) == Some(x.source_file)
    &&& opt_uint_value(lookup(e, "lineNumber"@), u64::MAX as nat) == Some(if x.line_number.is_some() { Some(x.line_number.unwrap() as nat) } else { None })
    &&& opt_uint_value(lookup(e, "columnNumber"@), u64::MAX as nat) == Some(if x.column_number.is_some() { Some(x.column_number.unwrap() as nat) } else { None })
    &&& str_value(lookup(e, "disposition"@)) == Some(x.disposition)
    &&& opt_str_value(lookup(e, "message"@)) == Some(x.message)
}

/// Whether an object's members hold a well-typed permissions policy violation.
pub open spec fn permissions_policy_violation_readable(e: Seq<(String, JsonValue)>) -> bool {
    &&& str_value(lookup(e, "featureId"@)).is_some()
    &&& opt_str_value(lookup(e, "sourceFile"@)).is_some()
    &&& opt_uint_value(lookup(e, "lineNumber"@), u64::MAX as nat).is_some()
    &&& opt_uint_value(lookup(e, "columnNumber"@), u64::MAX as nat).is_some()
    &&& str_value(lookup(e, "disposition"@)).is_some()
    &&& opt_str_value(lookup(e, "message"@)).is_some()
}

/// The members that a permissions policy violation is written as, in order.
pub open spec fn permissions_policy_violation_json_view(x: PermissionsPolicyViolation) -> Seq<(Seq<char>, JsonView)> {
    let s0 = Seq::empty();
    let s1 = s0.push(("featureId"@, JsonView::Str(x.feature_id@)));
    let s2 = if x.source_file is Some { s1.push(("sourceFile"@, JsonView::Str(x.source_file.unwrap()@))) } else { s1 };
    let s3 = if x.line_number is Some { s2.push(("lineNumber"@, JsonView::Number(decimal(x.line_number.unwrap() as nat)))) } else { s2 };
    let s4 = if x.column_number is Some { s3.push(("columnNumber"@, JsonView::Number(decimal(x.column_number.unwrap() as nat)))) } else { s3 };
    let s5 = s4.push(("disposition"@, JsonView::Str(x.disposition@)));
    let s6 = if x.message is Some { s5.push(("message"@, JsonView::Str(x.message.unwrap()@))) } else { s5 };
    s6
}

impl PermissionsPolicyViolation {
    /// Reads the body from an object's members.
    pub fn decode(e: &Members) -> (r: Option<PermissionsPolicyViolation>)
        ensures
            r.is_some() == permissions_policy_violation_readable(e@),
            r.is_some() ==> permissions_policy_violation_decodes(e@, r.unwrap()),
    {
        let feature_id = match str_from(find(e, "featureId")) {
            Some(x) => x,
            None => return None,
        };
        let source_file = match opt_str_from(find(e, "sourceFile")) {
            Some(x) => x,
            None => return None,
        };
        let line_number = match opt_uint_from(find(e, "lineNumber"), u64::MAX) {
            Some(x) => x,
            None => return None,
        };
        let column_number = match opt_uint_from(find(e, "columnNumber"), u64::MAX) {
            Some(x) => x,
            None => return None,
        };
        let disposition = match str_from(find(e, "disposition")) {
            Some(x) => x,
            None => return None,
        };
        let message = match opt_str_from(find(e, "message")) {
            Some(x) => x,
            None => return None,
        };
        Some(PermissionsPolicyViolation {
            feature_id,
            source_file,
            line_number: match line_number {
                Some(n) => Some(n as u64),
                None => None,
            },
            column_number: match column_number {
                Some(n) => Some(n as u64),
                None => None,
            },
            disposition,
            message,
        })
    }

    /// The members of this body under their canonical names; reading them
    /// back gives this body.
    #[verifier::rlimit(100)]
    #[verifier::spinoff_prover]
    pub fn encode(&self) -> (r: Members)
        ensures
            permissions_policy_violation_decodes(r@, *self),
            members_view(r@) == permissions_policy_violation_json_view(*self),
    {
        proof {
            reveal_strlit("featureId");
            assert("featureId"@.len() == 9);
            reveal_strlit("sourceFile");
            assert("sourceFile"@.len() == 10);
            reveal_strlit("lineNumber");
            assert("lineNumber"@.len() == 10);
            reveal_strlit("columnNumber");
            assert("columnNumber"@.len() == 12);
            reveal_strlit("disposition");
            assert("disposition"@.len() == 11);
            reveal_strlit("message");
            assert("message"@.len() == 7);
            assert("lineNumber"@[0] != "sourceFile"@[0]);
        }
        let mut e: Members = Vec::new();
        assert(members_view(e@) =~= Seq::<(Seq<char>, JsonView)>::empty());
        let ghost before_1 = members_view(e@);
        put(&mut e, "featureId", JsonValue::Str(self.feature_id.clone()));
        assert(members_view(e@) == before_1.push(("featureId"@, JsonView::Str(self.feature_id@))));
        let ghost before_2 = members_view(e@);
        put_opt_str(&mut e, "sourceFile", &self.source_file);
        assert(members_view(e@) == if self.source_file is Some { before_2.push(("sourceFile"@, JsonView::Str(self.source_file.unwrap()@))) } else { before_2 });
        let ghost before_3 = members_view(e@);
        put_opt_uint(&mut e, "lineNumber", self.line_number);
        assert(members_view(e@) == if self.line_number is Some { before_3.push(("lineNumber"@, JsonView::Number(decimal(self.line_number.unwrap() as nat)))) } else { before_3 });
        let ghost before_4 = members_view(e@);
        put_opt_uint(&mut e, "columnNumber", self.column_number);
        assert(members_view(e@) == if self.column_number is Some { before_4.push(("columnNumber"@, JsonView::Number(decimal(self.column_number.unwrap() as nat)))) } else { before_4 });
        let ghost before_5 = members_view(e@);
        put(&mut e, "disposition", JsonValue::Str(self.disposition.clone()));
        assert(members_view(e@) == before_5.push(("disposition"@, JsonView::Str(self.disposition@))));
        let ghost before_6 = members_view(e@);
        put_opt_str(&mut e, "message", &self.message);
        assert(members_view(e@) == if self.message is Some { before_6.push(("message"@, JsonView::Str(self.message.unwrap()@))) } else { before_6 });
        e
    }
}

} // verus!
