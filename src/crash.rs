//! Crash reports: a page ran out of memory or stopped responding.

use vstd::prelude::*;
use vstd::string::*;
use crate::json::{JsonValue, JsonView, Members, members_view, jview, lookup, lookup2, found, find, find2, str_eq};
use crate::fields::{opt_str_value, opt_bool_value, opt_str_from, opt_bool_from, put, put_opt_str, put_opt_bool};

verus! {

broadcast use crate::json::lemma_lookup_push, crate::json::lemma_object_view;

/// Why the browser reported a crash.
#[derive(Debug, PartialEq, Eq, Clone, Copy)]
pub enum CrashReason {
    OutOfMemory,
    Unresponsive,
}

/// The crash reason that a JSON string names.
pub open spec fn crash_reason_token(s: Seq<char>) -> Option<CrashReason> {
    if s == "oom"@ {
        Some(CrashReason::OutOfMemory)
    } else if s == "unresponsive"@ {
        Some(CrashReason::Unresponsive)
    } else {
        None
    }
}

pub open spec fn crash_reason_value(v: Option<JsonValue>) -> Option<CrashReason> {
    match v {
        Some(JsonValue::Str(s)) => crash_reason_token(s@),
        _ => None,
    }
}

pub open spec fn opt_crash_reason_value(v: Option<JsonValue>) -> Option<Option<CrashReason>> {
    match v {
        None => Some(None),
        Some(JsonValue::Null) => Some(None),
        _ => if crash_reason_value(v).is_some() {
            Some(crash_reason_value(v))
        } else {
            None
        },
    }
}

fn crash_reason_from(v: Option<&JsonValue>) -> (r: Option<CrashReason>)
    ensures
        r == crash_reason_value(found(v)),
{
    match v {
        Some(JsonValue::Str(s)) => {
            if str_eq(s.as_str(), "oom") {
                Some(CrashReason::OutOfMemory)
            } else if str_eq(s.as_str(), "unresponsive") {
                Some(CrashReason::Unresponsive)
            } else {
                None
            }
        },
        _ => None,
    }
}

fn opt_crash_reason_from(v: Option<&JsonValue>) -> (r: Option<Option<CrashReason>>)
    ensures
        r == opt_crash_reason_value(found(v)),
{
    match v {
        None => Some(None),
        Some(JsonValue::Null) => Some(None),
        Some(_) => match crash_reason_from(v) {
            Some(x) => Some(Some(x)),
            None => None,
        },
    }
}

/// The text that names a crash reason.
pub open spec fn crash_reason_text(x: CrashReason) -> Seq<char> {
    match x {
        CrashReason::OutOfMemory => "oom"@,
        CrashReason::Unresponsive => "unresponsive"@,
    }
}

/// The JSON string that names a crash reason.
pub fn crash_reason_json(x: CrashReason) -> (r: JsonValue)
    ensures
        crash_reason_value(Some(r)) == Some(x),
        jview(r) == JsonView::Str(crash_reason_text(x)),
{
    proof {
        reveal_strlit("oom");
        assert("oom"@.len() == 3);
        reveal_strlit("unresponsive");
        assert("unresponsive"@.len() == 12);
    }
    let s = match x {
        CrashReason::OutOfMemory => String::from_str("oom"),
        CrashReason::Unresponsive => String::from_str("unresponsive"),
    };
    JsonValue::Str(s)
}

/// Whether the crashed page was visible.
#[derive(Debug, PartialEq, Eq, Clone, Copy)]
pub enum PageVisibility {
    Visible,
    Hidden,
}

/// The page visibility that a JSON string names.
pub open spec fn page_visibility_token(s: Seq<char>) -> Option<PageVisibility> {
    if s == "visible"@ {
        Some(PageVisibility::Visible)
    } else if s == "hidden"@ {
        Some(PageVisibility::Hidden)
    } else {
        None
    }
}

pub open spec fn page_visibility_value(v: Option<JsonValue>) -> Option<PageVisibility> {
    match v {
        Some(JsonValue::Str(s)) => page_visibility_token(s@),
        _ => None,
    }
}

pub open spec fn opt_page_visibility_value(v: Option<JsonValue>) -> Option<Option<PageVisibility>> {
    match v {
        None => Some(None),
        Some(JsonValue::Null) => Some(None),
        _ => if page_visibility_value(v).is_some() {
            Some(page_visibility_value(v))
        } else {
            None
        },
    }
}

fn page_visibility_from(v: Option<&JsonValue>) -> (r: Option<PageVisibility>)
    ensures
        r == page_visibility_value(found(v)),
{
    match v {
        Some(JsonValue::Str(s)) => {
            if str_eq(s.as_str(), "visible") {
                Some(PageVisibility::Visible)
            } else if str_eq(s.as_str(), "hidden") {
                Some(PageVisibility::Hidden)
            } else {
                None
            }
        },
        _ => None,
    }
}

fn opt_page_visibility_from(v: Option<&JsonValue>) -> (r: Option<Option<PageVisibility>>)
    ensures
        r == opt_page_visibility_value(found(v)),
{
    match v {
        None => Some(None),
        Some(JsonValue::Null) => Some(None),
        Some(_) => match page_visibility_from(v) {
            Some(x) => Some(Some(x)),
            None => None,
        },
    }
}

/// The text that names a page visibility.
pub open spec fn page_visibility_text(x: PageVisibility) -> Seq<char> {
    match x {
        PageVisibility::Visible => "visible"@,
        PageVisibility::Hidden => "hidden"@,
    }
}

/// The JSON string that names a page visibility.
pub fn page_visibility_json(x: PageVisibility) -> (r: JsonValue)
    ensures
        page_visibility_value(Some(r)) == Some(x),
        jview(r) == JsonView::Str(page_visibility_text(x)),
{
    proof {
        reveal_strlit("visible");
        assert("visible"@.len() == 7);
        reveal_strlit("hidden");
        assert("hidden"@.len() == 6);
    }
    let s = match x {
        PageVisibility::Visible => String::from_str("visible"),
        PageVisibility::Hidden => String::from_str("hidden"),
    };
    JsonValue::Str(s)
}

/// The body of a crash report.
#[derive(Debug, PartialEq, Eq)]
pub struct Crash {
    pub reason: CrashReason,
    pub stack: Option<String>,
    pub is_top_level: Option<bool>,
    pub page_visibility: Option<PageVisibility>,
}

/// Whether the members describe `x`. The page visibility is read from `page_visibility`, or else from the older `visibility_state`.
pub open spec fn crash_decodes(e: Seq<(String, JsonValue)>, x: Crash) -> bool {
    &&& crash_reason_value(lookup(e, "reason"@)) == Some(x.reason)
    &&& opt_str_value(lookup(e, "stack"@)) == Some(x.stack)
    &&& opt_bool_value(lookup(e, "is_top_level"@)) == Some(x.is_top_level)
    &&& opt_page_visibility_value(lookup2(e, "page_visibility"@, "visibility_state"@)) == Some(x.page_visibility)
}

/// Whether an object's members hold a well-typed crash.
pub open spec fn crash_readable(e: Seq<(String, JsonValue)>) -> bool {
    &&& crash_reason_value(lookup(e, "reason"@)).is_some()
    &&& opt_str_value(lookup(e, "stack"@)).is_some()
    &&& opt_bool_value(lookup(e, "is_top_level"@)).is_some()
    &&& opt_page_visibility_value(lookup2(e, "page_visibility"@, "visibility_state"@)).is_some()
}

/// The members that a crash is written as, in order.
pub open spec fn crash_json_view(x: Crash) -> Seq<(Seq<char>, JsonView)> {
    let s0 = Seq::empty();
    let s1 = s0.push(("reason"@, JsonView::Str(crash_reason_text(x.reason))));
    let s2 = if x.stack is Some { s1.push(("stack"@, JsonView::Str(x.stack.unwrap()@))) } else { s1 };
    let s3 = if x.is_top_level is Some { s2.push(("is_top_level"@, JsonView::Bool(x.is_top_level.unwrap()))) } else { s2 };
    let s4 = if x.page_visibility is Some { s3.push(("page_visibility"@, JsonView::Str(page_visibility_text(x.page_visibility.unwrap())))) } else { s3 };
    s4
}

impl Crash {
    /// Reads the body from an object's members.
    pub fn decode(e: &Members) -> (r: Option<Crash>)
        ensures
            r.is_some() == crash_readable(e@),
            r.is_some() ==> crash_decodes(e@, r.unwrap()),
    {
        let reason = match crash_reason_from(find(e, "reason")) {
            Some(x) => x,
            None => return None,
        };
        let stack = match opt_str_from(find(e, "stack")) {
            Some(x) => x,
            None => return None,
        };
        let is_top_level = match opt_bool_from(find(e, "is_top_level")) {
            Some(x) => x,
            None => return None,
        };
        let page_visibility = match opt_page_visibility_from(find2(e, "page_visibility", "visibility_state")) {
            Some(x) => x,
            None => return None,
        };
        Some(Crash {
            reason,
            stack,
            is_top_level,
            page_visibility,
        })
    }

    /// The members of this body under their canonical names; reading them
    /// back gives this body.
    pub fn encode(&self) -> (r: Members)
        ensures
            crash_decodes(r@, *self),
            members_view(r@) == crash_json_view(*self),
    {
        proof {
            reveal_strlit("reason");
            assert("reason"@.len() == 6);
            reveal_strlit("stack");
            assert("stack"@.len() == 5);
            reveal_strlit("is_top_level");
            assert("is_top_level"@.len() == 12);
            reveal_strlit("page_visibility");
            assert("page_visibility"@.len() == 15);
            reveal_strlit("visibility_state");
            assert("visibility_state"@.len() == 16);
        }
        let mut e: Members = Vec::new();
        assert(members_view(e@) =~= Seq::<(Seq<char>, JsonView)>::empty());
        let ghost before_1 = members_view(e@);
        put(&mut e, "reason", crash_reason_json(self.reason));
        assert(members_view(e@) == before_1.push(("reason"@, JsonView::Str(crash_reason_text(self.reason)))));
        let ghost before_2 = members_view(e@);
        put_opt_str(&mut e, "stack", &self.stack);
        assert(members_view(e@) == if self.stack is Some { before_2.push(("stack"@, JsonView::Str(self.stack.unwrap()@))) } else { before_2 });
        let ghost before_3 = members_view(e@);
        put_opt_bool(&mut e, "is_top_level", self.is_top_level);
        assert(members_view(e@) == if self.is_top_level is Some { before_3.push(("is_top_level"@, JsonView::Bool(self.is_top_level.unwrap()))) } else { before_3 });
        let ghost before_4 = members_view(e@);
        if let Some(x) = self.page_visibility {
            put(&mut e, "page_visibility", page_visibility_json(x));
        }
        assert(members_view(e@) == if self.page_visibility is Some { before_4.push(("page_visibility"@, JsonView::Str(page_visibility_text(self.page_visibility.unwrap())))) } else { before_4 });
        e
    }
}

} // verus!
