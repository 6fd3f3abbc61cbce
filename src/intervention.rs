//! Intervention reports: the browser refused a request the page made.

use vstd::prelude::*;
use vstd::string::*;
use crate::json::{JsonValue, JsonView, Members, members_view, decimal, lookup, find};
use crate::fields::{str_value, opt_str_value, opt_uint_value, str_from, opt_str_from, opt_uint_from, put, put_opt_str, put_opt_uint};

verus! {

broadcast use crate::json::lemma_lookup_push, crate::json::lemma_object_view;

/// The body of an intervention report; `id` groups reports of one kind.
#[derive(Debug, PartialEq, Eq)]
pub struct Intervention {
    pub id: String,
    pub message: String,
    pub source_file: Option<String>,
    pub line_number: Option<u64>,
    pub column_number: Option<u64>,
}

/// Whether the members describe `x`.
pub open spec fn intervention_decodes(e: Seq<(String, JsonValue)>, x: Intervention) -> bool {
    &&& str_value(lookup(e, "id"@)) == Some(x.id)
    &&& str_value(lookup(e, "message"@)) == Some(x.message)
    &&& opt_str_value(lookup(e, "sourceFile"@)) == Some(x.source_file)
    &&& opt_uint_value(lookup(e, "lineNumber"@), u64::MAX as nat) == Some(if x.line_number.is_some() { Some(x.line_number.unwrap() as nat) } else { None })
    &&& opt_uint_value(lookup(e, "columnNumber"@), u64::MAX as nat) == Some(if x.column_number.is_some() { Some(x.column_number.unwrap() as nat) } else { None })
}

/// Whether an object's members hold a well-typed intervention.
pub open spec fn intervention_readable(e: Seq<(String, JsonValue)>) -> bool {
    &&& str_value(lookup(e, "id"@)).is_some()
    &&& str_value(lookup(e, "message"@)).is_some()
    &&& opt_str_value(lookup(e, "sourceFile"@)).is_some()
    &&& opt_uint_value(lookup(e, "lineNumber"@), u64::MAX as nat).is_some()
    &&& opt_uint_value(lookup(e, "columnNumber"@), u64::MAX as nat).is_some()
}

/// The members that a intervention is written as, in order.
pub open spec fn intervention_json_view(x: Intervention) -> Seq<(Seq<char>, JsonView)> {
    let s0 = Seq::empty();
    let s1 = s0.push(("id"@, JsonView::Str(x.id@)));
    let s2 = s1.push(("message"@, JsonView::Str(x.message@)));
    let s3 = if x.source_file is Some { s2.push(("sourceFile"@, JsonView::Str(x.source_file.unwrap()@))) } else { s2 };
    let s4 = if x.line_number is Some { s3.push(("lineNumber"@, JsonView::Number(decimal(x.line_number.unwrap() as nat)))) } else { s3 };
    let s5 = if x.column_number is Some { s4.push(("columnNumber"@, JsonView::Number(decimal(x.column_number.unwrap() as nat)))) } else { s4 };
    s5
}

impl Intervention {
    /// Reads the body from an object's members.
    pub fn decode(e: &Members) -> (r: Option<Intervention>)
        ensures
            r.is_some() == intervention_readable(e@),
            r.is_some() ==> intervention_decodes(e@, r.unwrap()),
    {
        let id = match str_from(find(e, "id")) {
            Some(x) => x,
            None => return None,
        };
        let message = match str_from(find(e, "message")) {
            Some(x) => x,
            None => return None,
        };
        let source_file = match opt_str_from(find(e, "sourceFile")) {
            Some(x) => x,
            None => return None,
        };
        let line_number = match opt_uint_from(find(e, "lineNumber"), u64::MAX) {
            Some(x) => x,
            None => return None,
        };
        let column_number = match opt_uint_from(find(e, "columnNumber"), u64::MAX) {
            Some(x) => x,
            None => return None,
        };
        Some(Intervention {
            id,
            message,
            source_file,
            line_number: match line_number {
                Some(n) => Some(n as u64),
                None => None,
            },
            column_number: match column_number {
                Some(n) => Some(n as u64),
                None => None,
            },
        })
    }

    /// The members of this body under their canonical names; reading them
    /// back gives this body.
    pub fn encode(&self) -> (r: Members)
        ensures
            intervention_decodes(r@, *self),
            members_view(r@) == intervention_json_view(*self),
    {
        proof {
            reveal_strlit("id");
            assert("id"@.len() == 2);
            reveal_strlit("message");
            assert("message"@.len() == 7);
            reveal_strlit("sourceFile");
            assert("sourceFile"@.len() == 10);
            reveal_strlit("lineNumber");
            assert("lineNumber"@.len() == 10);
            reveal_strlit("columnNumber");
            assert("columnNumber"@.len() == 12);
            assert("lineNumber"@[0] != "sourceFile"@[0]);
        }
        let mut e: Members = Vec::new();
        assert(members_view(e@) =~= Seq::<(Seq<char>, JsonView)>::empty());
        let ghost before_1 = members_view(e@);
        put(&mut e, "id", JsonValue::Str(self.id.clone()));
        assert(members_view(e@) == before_1.push(("id"@, JsonView::Str(self.id@))));
        let ghost before_2 = members_view(e@);
        put(&mut e, "message", JsonValue::Str(self.message.clone()));
        assert(members_view(e@) == before_2.push(("message"@, JsonView::Str(self.message@))));
        let ghost before_3 = members_view(e@);
        put_opt_str(&mut e, "sourceFile", &self.source_file);
        assert(members_view(e@) == if self.source_file is Some { before_3.push(("sourceFile"@, JsonView::Str(self.source_file.unwrap()@))) } else { before_3 });
        let ghost before_4 = members_view(e@);
        put_opt_uint(&mut e, "lineNumber", self.line_number);
        assert(members_view(e@) == if self.line_number is Some { before_4.push(("lineNumber"@, JsonView::Number(decimal(self.line_number.unwrap() as nat)))) } else { before_4 });
        let ghost before_5 = members_view(e@);
        put_opt_uint(&mut e, "columnNumber", self.column_number);
        assert(members_view(e@) == if self.column_number is Some { before_5.push(("columnNumber"@, JsonView::Number(decimal(self.column_number.unwrap() as nat)))) } else { before_5 });
        e
    }
}

} // verus!
