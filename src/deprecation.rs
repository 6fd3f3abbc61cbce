//! Deprecation reports: a page used an API that is going away.

use vstd::prelude::*;
use vstd::string::*;
use crate::json::{JsonValue, JsonView, Members, members_view, decimal, lookup, find};
use crate::fields::{str_value, opt_str_value, opt_uint_value, str_from, opt_str_from, opt_uint_from, put, put_opt_str, put_opt_uint};

verus! {

broadcast use crate::json::lemma_lookup_push, crate::json::lemma_object_view;

/// The body of a deprecation report.
#[derive(Debug, PartialEq, Eq)]
pub struct Deprecation {
    pub id: String,
    pub anticipated_removal: Option<String>,
    pub message: String,
    pub source_file: Option<String>,
    pub line_number: Option<u64>,
    pub column_number: Option<u64>,
}

/// Whether the members describe `x`.
pub open spec fn deprecation_decodes(e: Seq<(String, JsonValue)>, x: Deprecation) -> bool {
    &&& str_value(lookup(e, "id"@)) == Some(x.id)
    &&& opt_str_value(lookup(e, "anticipatedRemoval"@)) == Some(x.anticipated_removal)
    &&& str_value(lookup(e, "message"@)) == Some(x.message)
    &&& opt_str_value(lookup(e, "sourceFile"@)) == Some(x.source_file)
    &&& opt_uint_value(lookup(e, "lineNumber"@), u64::MAX as nat) == Some(if x.line_number.is_some() { Some(x.line_number.unwrap() as nat) } else { None })
    &&& opt_uint_value(lookup(e, "columnNumber"@), u64::MAX as nat) == Some(if x.column_number.is_some() { Some(x.column_number.unwrap() as nat) } else { None })
}

/// Whether an object's members hold a well-typed deprecation.
pub open spec fn deprecation_readable(e: Seq<(String, JsonValue)>) -> bool {
    &&& str_value(lookup(e, "id"@)).is_some()
    &&& opt_str_value(lookup(e, "anticipatedRemoval"@)).is_some()
    &&& str_value(lookup(e, "message"@)).is_some()
    &&& opt_str_value(lookup(e, "sourceFile"@)).is_some()
    &&& opt_uint_value(lookup(e, "lineNumber"@), u64::MAX as nat).is_some()
    &&& opt_uint_value(lookup(e, "columnNumber"@), u64::MAX as nat).is_some()
}

/// The members that a deprecation is written as, in order.
pub open spec fn deprecation_json_view(x: Deprecation) -> Seq<(Seq<char>, JsonView)> {
    let s0 = Seq::empty();
    let s1 = s0.push(("id"@, JsonView::Str(x.id@)));
    let s2 = if x.anticipated_removal is Some { s1.push(("anticipatedRemoval"@, JsonView::Str(x.anticipated_removal.unwrap()@))) } else { s1 };
    let s3 = s2.push(("message"@, JsonView::Str(x.message@)));
    let s4 = if x.source_file is Some { s3.push(("sourceFile"@, JsonView::Str(x.source_file.unwrap()@))) } else { s3 };
    let s5 = if x.line_number is Some { s4.push(("lineNumber"@, JsonView::Number(decimal(x.line_number.unwrap() as nat)))) } else { s4 };
    let s6 = if x.column_number is Some { s5.push(("columnNumber"@, JsonView::Number(decimal(x.column_number.unwrap() as nat)))) } else { s5 };
    s6
}

impl Deprecation {
    /// Reads the body from an object's members.
    pub fn decode(e: &Members) -> (r: Option<Deprecation>)
        ensures
            r.is_some() == deprecation_readable(e@),
            r.is_some() ==> deprecation_decodes(e@, r.unwrap()),
    {
        let id = match str_from(find(e, "id")) {
            Some(x) => x,
            None => return None,
        };
        let anticipated_removal = match opt_str_from(find(e, "anticipatedRemoval")) {
            Some(x) => x,
            None => return None,
        };
        let message = match str_from(find(e, "message")) {
            Some(x) => x,
            None => return None,
        };
        let source_file = match opt_str_from(find(e, "sourceFile")) {
            Some(x) => x,
            None => return None,
        };
        let line_number = match opt_uint_from(find(e, "lineNumber"), u64::MAX) {
            Some(x) => x,
            None => return None,
        };
        let column_number = match opt_uint_from(find(e, "columnNumber"), u64::MAX) {
            Some(x) => x,
            None => return None,
        };
        Some(Deprecation {
            id,
            anticipated_removal,
            message,
            source_file,
            line_number: match line_number {
                Some(n) => Some(n as u64),
                None => None,
            },
            column_number: match column_number {
                Some(n) => Some(n as u64),
                None => None,
            },
        })
    }

    /// The members of this body under their canonical names; reading them
    /// back gives this body.
    #[verifier::rlimit(100)]
    #[verifier::spinoff_prover]
    pub fn encode(&self) -> (r: Members)
        ensures
            deprecation_decodes(r@, *self),
            members_view(r@) == deprecation_json_view(*self),
    {
        proof {
            reveal_strlit("id");
            assert("id"@.len() == 2);
            reveal_strlit("anticipatedRemoval");
            assert("anticipatedRemoval"@.len() == 18);
            reveal_strlit("message");
            assert("message"@.len() == 7);
            reveal_strlit("sourceFile");
            assert("sourceFile"@.len() == 10);
            reveal_strlit("lineNumber");
            assert("lineNumber"@.len() == 10);
            reveal_strlit("columnNumber");
            assert("columnNumber"@.len() == 12);
            assert("lineNumber"@[0] != "sourceFile"@[0]);
        }
        let mut e: Members = Vec::new();
        assert(members_view(e@) =~= Seq::<(Seq<char>, JsonView)>::empty());
        let ghost before_1 = members_view(e@);
        put(&mut e, "id", JsonValue::Str(self.id.clone()));
        assert(members_view(e@) == before_1.push(("id"@, JsonView::Str(self.id@))));
        let ghost before_2 = members_view(e@);
        put_opt_str(&mut e, "anticipatedRemoval", &self.anticipated_removal);
        assert(members_view(e@) == if self.anticipated_removal is Some { before_2.push(("anticipatedRemoval"@, JsonView::Str(self.anticipated_removal.unwrap()@))) } else { before_2 });
        let ghost before_3 = members_view(e@);
        put(&mut e, "message", JsonValue::Str(self.message.clone()));
        assert(members_view(e@) == before_3.push(("message"@, JsonView::Str(self.message@))));
        let ghost before_4 = members_view(e@);
        put_opt_str(&mut e, "sourceFile", &self.source_file);
        assert(members_view(e@) == if self.source_file is Some { before_4.push(("sourceFile"@, JsonView::Str(self.source_file.unwrap()@))) } else { before_4 });
        let ghost before_5 = members_view(e@);
        put_opt_uint(&mut e, "lineNumber", self.line_number);
        assert(members_view(e@) == if self.line_number is Some { before_5.push(("lineNumber"@, JsonView::Number(decimal(self.line_number.unwrap() as nat)))) } else { before_5 });
        let ghost before_6 = members_view(e@);
        put_opt_uint(&mut e, "columnNumber", self.column_number);
        assert(members_view(e@) == if self.column_number is Some { before_6.push(("columnNumber"@, JsonView::Number(decimal(self.column_number.unwrap() as nat)))) } else { before_6 });
        e
    }
}

} // verus!
