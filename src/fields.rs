//! Typed reading and writing of object members. A field accepts a list of
//! names, tried in order; writing always uses the first, canonical name.

use vstd::prelude::*;
use vstd::string::*;
use crate::json::{JsonValue, JsonView, Members, members_view, found, opt_jview, jview, decimal, uint_text, parse_uint, uint_to_text};

verus! {

broadcast use crate::json::lemma_lookup_push, crate::json::lemma_members_view_push;

pub open spec fn str_value(v: Option<JsonValue>) -> Option<String> {
    match v {
        Some(JsonValue::Str(s)) => Some(s),
        _ => None,
    }
}

/// An optional string: absent and `null` both read as `None`.
pub open spec fn opt_str_value(v: Option<JsonValue>) -> Option<Option<String>> {
    match v {
        None => Some(None),
        Some(JsonValue::Null) => Some(None),
        Some(JsonValue::Str(s)) => Some(Some(s)),
        _ => None,
    }
}

/// An unsigned integer no larger than `max`.
pub open spec fn uint_value(v: Option<JsonValue>, max: nat) -> Option<nat> {
    match v {
        Some(JsonValue::Number(t)) => if uint_text(t@).is_some() && uint_text(t@).unwrap() <= max {
            uint_text(t@)
        } else {
            None
        },
        _ => None,
    }
}

pub open spec fn opt_uint_value(v: Option<JsonValue>, max: nat) -> Option<Option<nat>> {
    match v {
        None => Some(None),
        Some(JsonValue::Null) => Some(None),
        _ => if uint_value(v, max).is_some() {
            Some(uint_value(v, max))
        } else {
            None
        },
    }
}

/// A number, kept as the literal text it was written with.
pub open spec fn number_value(v: Option<JsonValue>) -> Option<String> {
    match v {
        Some(JsonValue::Number(t)) => Some(t),
        _ => None,
    }
}

pub open spec fn bool_value(v: Option<JsonValue>) -> Option<bool> {
    match v {
        Some(JsonValue::Bool(b)) => Some(b),
        _ => None,
    }
}

pub open spec fn opt_bool_value(v: Option<JsonValue>) -> Option<Option<bool>> {
    match v {
        None => Some(None),
        Some(JsonValue::Null) => Some(None),
        Some(JsonValue::Bool(b)) => Some(Some(b)),
        _ => None,
    }
}

pub fn str_from(v: Option<&JsonValue>) -> (r: Option<String>)
    ensures
        r == str_value(found(v)),
{
    match v {
        Some(JsonValue::Str(s)) => Some(s.clone()),
        _ => None,
    }
}

pub fn opt_str_from(v: Option<&JsonValue>) -> (r: Option<Option<String>>)
    ensures
        r == opt_str_value(found(v)),
{
    match v {
        None => Some(None),
        Some(JsonValue::Null) => Some(None),
        Some(JsonValue::Str(s)) => Some(Some(s.clone())),
        _ => None,
    }
}

pub fn uint_from(v: Option<&JsonValue>, max: u64) -> (r: Option<u64>)
    ensures
        r.is_some() == uint_value(found(v), max as nat).is_some(),
        r.is_some() ==> r.unwrap() as nat == uint_value(found(v), max as nat).unwrap(),
{
    match v {
        Some(JsonValue::Number(t)) => match parse_uint(t.as_str()) {
            Some(n) => if n <= max {
                Some(n)
            } else {
                None
            },
            None => None,
        },
        _ => None,
    }
}

pub fn opt_uint_from(v: Option<&JsonValue>, max: u64) -> (r: Option<Option<u64>>)
    ensures
        r.is_some() == opt_uint_value(found(v), max as nat).is_some(),
        r.is_some() ==> (r.unwrap().is_some() == opt_uint_value(found(v), max as nat).unwrap().is_some()),
        r.is_some() && r.unwrap().is_some() ==> r.unwrap().unwrap() as nat == opt_uint_value(found(v), max as nat).unwrap().unwrap(),
{
    match v {
        None => Some(None),
        Some(JsonValue::Null) => Some(None),
        Some(_) => match uint_from(v, max) {
            Some(n) => Some(Some(n)),
            None => None,
        },
    }
}

pub fn number_from(v: Option<&JsonValue>) -> (r: Option<String>)
    ensures
        r == number_value(found(v)),
{
    match v {
        Some(JsonValue::Number(t)) => Some(t.clone()),
        _ => None,
    }
}

pub fn bool_from(v: Option<&JsonValue>) -> (r: Option<bool>)
    ensures
        r == bool_value(found(v)),
{
    match v {
        Some(JsonValue::Bool(b)) => Some(*b),
        _ => None,
    }
}

pub fn opt_bool_from(v: Option<&JsonValue>) -> (r: Option<Option<bool>>)
    ensures
        r == opt_bool_value(found(v)),
{
    match v {
        None => Some(None),
        Some(JsonValue::Null) => Some(None),
        Some(JsonValue::Bool(b)) => Some(Some(*b)),
        _ => None,
    }
}

/// Appends a member named `key`.
pub fn put(e: &mut Members, key: &str, v: JsonValue)
    ensures
        members_view(final(e)@) == members_view(old(e)@).push((key@, jview(v))),
        final(e)@ == old(e)@.push((final(e)@.last().0, v)),
        final(e)@.last().0@ == key@,
{
    e.push((String::from_str(key), v));
}

pub fn put_opt_str(e: &mut Members, key: &str, v: &Option<String>)
    ensures
        v.is_none() ==> final(e)@ == old(e)@,
        v.is_some() ==> final(e)@ == old(e)@.push((final(e)@.last().0, JsonValue::Str(v.unwrap()))),
        v.is_some() ==> final(e)@.last().0@ == key@,
        v.is_none() ==> members_view(final(e)@) == members_view(old(e)@),
        v.is_some() ==> members_view(final(e)@) == members_view(old(e)@).push((key@, JsonView::Str(v.unwrap()@))),
{
    if let Some(s) = v {
        put(e, key, JsonValue::Str(s.clone()));
    }
}

pub fn number(n: u64) -> (r: JsonValue)
    ensures
        jview(r) == JsonView::Number(decimal(n as nat)),
        uint_value(Some(r), n as nat) == Some(n as nat),
        forall|m: nat| m >= n ==> uint_value(Some(r), m) == Some(n as nat),
{
    JsonValue::Number(uint_to_text(n))
}

pub fn put_opt_uint(e: &mut Members, key: &str, v: Option<u64>)
    ensures
        v.is_none() ==> final(e)@ == old(e)@,
        v.is_some() ==> final(e)@.len() == old(e)@.len() + 1,
        v.is_some() ==> final(e)@ == old(e)@.push(final(e)@.last()),
        v.is_some() ==> final(e)@.last().0@ == key@,
        v.is_some() ==> forall|m: nat| m >= v.unwrap() ==> uint_value(Some(final(e)@.last().1), m) == Some(v.unwrap() as nat),
        v.is_some() ==> jview(final(e)@.last().1) == JsonView::Number(decimal(v.unwrap() as nat)),
        v.is_none() ==> members_view(final(e)@) == members_view(old(e)@),
        v.is_some() ==> members_view(final(e)@) == members_view(old(e)@).push((key@, JsonView::Number(decimal(v.unwrap() as nat)))),
{
    if let Some(n) = v {
        put(e, key, number(n));
    }
}

pub fn put_opt_bool(e: &mut Members, key: &str, v: Option<bool>)
    ensures
        v.is_none() ==> members_view(final(e)@) == members_view(old(e)@),
        v.is_some() ==> members_view(final(e)@) == members_view(old(e)@).push((key@, JsonView::Bool(v.unwrap()))),
        v.is_none() ==> final(e)@ == old(e)@,
        v.is_some() ==> final(e)@ == old(e)@.push((final(e)@.last().0, JsonValue::Bool(v.unwrap()))),
        v.is_some() ==> final(e)@.last().0@ == key@,
{
    if let Some(b) = v {
        put(e, key, JsonValue::Bool(b));
    }
}

/// The strings of a JSON array, when every item is a string.
pub open spec fn str_list_value(a: Seq<JsonValue>) -> Option<Seq<Seq<char>>>
    decreases a.len(),
{
    if a.len() == 0 {
        Some(Seq::empty())
    } else {
        let prev = str_list_value(a.drop_last());
        match a.last() {
            JsonValue::Str(s) => if prev.is_some() {
                Some(prev.unwrap().push(s@))
            } else {
                None
            },
            _ => None,
        }
    }
}

pub open spec fn strings_view(l: Seq<String>) -> Seq<Seq<char>> {
    l.map_values(|s: String| s@)
}

pub fn str_list_from(a: &Vec<JsonValue>) -> (r: Option<Vec<String>>)
    ensures
        r.is_some() == str_list_value(a@).is_some(),
        r.is_some() ==> strings_view(r.unwrap()@) == str_list_value(a@).unwrap(),
{
    let mut out: Vec<String> = Vec::new();
    let mut i: usize = 0;
    while i < a.len()
        invariant
            i <= a@.len(),
            str_list_value(a@.subrange(0, i as int)) == Some(strings_view(out@)),
        decreases a@.len() - i,
    {
        assert(a@.subrange(0, i + 1).drop_last() =~= a@.subrange(0, i as int));
        match &a[i] {
            JsonValue::Str(s) => {
                out.push(s.clone());
                assert(strings_view(out@) =~= strings_view(out@.drop_last()).push(s@));
            },
            _ => {
                proof { lemma_str_list_prefix(a@, i as int + 1); }
                return None;
            },
        }
        i = i + 1;
    }
    assert(a@.subrange(0, a@.len() as int) =~= a@);
    Some(out)
}

proof fn lemma_str_list_prefix(a: Seq<JsonValue>, n: int)
    requires
        0 <= n <= a.len(),
        str_list_value(a.subrange(0, n)).is_none(),
    ensures
        str_list_value(a).is_none(),
    decreases a.len() - n,
{
    if n < a.len() {
        assert(a.subrange(0, n + 1).drop_last() =~= a.subrange(0, n));
        lemma_str_list_prefix(a, n + 1);
    } else {
        assert(a.subrange(0, n) =~= a);
    }
}

/// A JSON array of strings.
/// The view of a JSON array of strings.
pub open spec fn strings_jview(l: Seq<String>) -> Seq<JsonView> {
    Seq::new(l.len(), |i: int| JsonView::Str(l[i]@))
}

pub fn strings_json(v: &Vec<String>) -> (r: JsonValue)
    ensures
        r is Array,
        jview(r) == JsonView::Array(strings_jview(v@)),
        str_list_value(r->Array_0@) == Some(strings_view(v@)),
{
    let mut a: Vec<JsonValue> = Vec::new();
    let mut j: usize = 0;
    while j < v.len()
        invariant
            j <= v@.len(),
            str_list_value(a@) == Some(strings_view(v@.subrange(0, j as int))),
            a@.len() == j,
            forall|k: int| 0 <= k < j ==> #[trigger] a@[k] == JsonValue::Str(v@[k]),
        decreases v@.len() - j,
    {
        let ghost prev = a@;
        a.push(JsonValue::Str(v[j].clone()));
        assert(a@.drop_last() =~= prev);
        assert(strings_view(v@.subrange(0, j + 1)) =~= strings_view(v@.subrange(0, j as int)).push(v@[j as int]@));
        j = j + 1;
    }
    assert(v@.subrange(0, v@.len() as int) =~= v@);
    let r = JsonValue::Array(a);
    assert forall|k: int| 0 <= k < a@.len() implies jview(#[trigger] a@[k]) == JsonView::Str(v@[k]@) by {
        assert(a@[k] == JsonValue::Str(v@[k]));
    }
    assert(jview(r)->Array_0 =~= strings_jview(v@));
    r
}

/// An unsigned integer written as text, as markup carries numbers.
pub open spec fn text_uint_value(v: Option<JsonValue>, max: nat) -> Option<nat> {
    match v {
        Some(JsonValue::Str(t)) => if uint_text(t@).is_some() && uint_text(t@).unwrap() <= max {
            uint_text(t@)
        } else {
            None
        },
        _ => None,
    }
}

pub open spec fn opt_text_uint_value(v: Option<JsonValue>, max: nat) -> Option<Option<nat>> {
    match v {
        None => Some(None),
        Some(JsonValue::Null) => Some(None),
        _ => if text_uint_value(v, max).is_some() {
            Some(text_uint_value(v, max))
        } else {
            None
        },
    }
}

pub fn text_uint_from(v: Option<&JsonValue>, max: u64) -> (r: Option<u64>)
    ensures
        r.is_some() == text_uint_value(found(v), max as nat).is_some(),
        r.is_some() ==> r.unwrap() as nat == text_uint_value(found(v), max as nat).unwrap(),
{
    match v {
        Some(JsonValue::Str(t)) => match parse_uint(t.as_str()) {
            Some(n) => if n <= max {
                Some(n)
            } else {
                None
            },
            None => None,
        },
        _ => None,
    }
}

pub fn opt_text_uint_from(v: Option<&JsonValue>, max: u64) -> (r: Option<Option<u64>>)
    ensures
        r.is_some() == opt_text_uint_value(found(v), max as nat).is_some(),
        r.is_some() ==> (r.unwrap().is_some() == opt_text_uint_value(found(v), max as nat).unwrap().is_some()),
        r.is_some() && r.unwrap().is_some() ==> r.unwrap().unwrap() as nat == opt_text_uint_value(found(v), max as nat).unwrap().unwrap(),
{
    match v {
        None => Some(None),
        Some(JsonValue::Null) => Some(None),
        Some(_) => match text_uint_from(v, max) {
            Some(n) => Some(Some(n)),
            None => None,
        },
    }
}

pub open spec fn deref_all(vals: Seq<&JsonValue>) -> Seq<JsonValue> {
    vals.map_values(|v: &JsonValue| *v)
}

/// The strings of a list of values, when every value is a string.
pub fn strs_from_refs(vals: &Vec<&JsonValue>) -> (r: Option<Vec<String>>)
    ensures
        r.is_some() == str_list_value(deref_all(vals@)).is_some(),
        r.is_some() ==> strings_view(r.unwrap()@) == str_list_value(deref_all(vals@)).unwrap(),
{
    let ghost all = deref_all(vals@);
    let mut out: Vec<String> = Vec::new();
    let mut i: usize = 0;
    while i < vals.len()
        invariant
            i <= vals@.len(),
            all == deref_all(vals@),
            str_list_value(all.subrange(0, i as int)) == Some(strings_view(out@)),
        decreases vals@.len() - i,
    {
        assert(all.subrange(0, i + 1).drop_last() =~= all.subrange(0, i as int));
        assert(all.subrange(0, i + 1).last() == *vals@[i as int]);
        match vals[i] {
            JsonValue::Str(s) => {
                out.push(s.clone());
                assert(strings_view(out@) =~= strings_view(out@.drop_last()).push(s@));
            },
            _ => {
                proof { lemma_str_list_prefix(all, i as int + 1); }
                return None;
            },
        }
        i = i + 1;
    }
    assert(all.subrange(0, all.len() as int) =~= all);
    Some(out)
}

/// Lists with the same string views have the same view as JSON arrays.
pub proof fn lemma_strings_jview(l1: Seq<String>, l2: Seq<String>)
    requires
        strings_view(l1) == strings_view(l2),
    ensures
        strings_jview(l1) == strings_jview(l2),
{
    assert(strings_view(l1).len() == l1.len() && strings_view(l2).len() == l2.len());
    assert forall|i: int| 0 <= i < l1.len() implies strings_jview(l1)[i] == strings_jview(l2)[i] by {
        assert(strings_view(l1)[i] == strings_view(l2)[i]);
    }
    assert(strings_jview(l1) =~= strings_jview(l2));
}

/// Values with the same view read alike.
pub proof fn lemma_value_views(v1: Option<JsonValue>, v2: Option<JsonValue>, max: nat)
    requires
        opt_jview(v1) == opt_jview(v2),
    ensures
        str_value(v1).is_some() == str_value(v2).is_some(),
        str_value(v1).is_some() ==> str_value(v1).unwrap()@ == str_value(v2).unwrap()@,
        opt_str_value(v1).is_some() == opt_str_value(v2).is_some(),
        text_uint_value(v1, max) == text_uint_value(v2, max),
        opt_text_uint_value(v1, max) == opt_text_uint_value(v2, max),
        v1 is None == v2 is None,
        v1 matches Some(JsonValue::Null) <==> v2 matches Some(JsonValue::Null),
        opt_str_value(v1).is_some() && opt_str_value(v1).unwrap().is_some() ==> opt_str_value(v2).unwrap().is_some()
            && opt_str_value(v1).unwrap().unwrap()@ == opt_str_value(v2).unwrap().unwrap()@,
        opt_str_value(v1).is_some() && opt_str_value(v1).unwrap().is_none() ==> opt_str_value(v2).unwrap().is_none(),
{
}

/// Runs of values with the same views read alike as string lists.
pub proof fn lemma_str_list_views(a1: Seq<JsonValue>, a2: Seq<JsonValue>)
    requires
        a1.len() == a2.len(),
        forall|i: int| 0 <= i < a1.len() ==> jview(#[trigger] a1[i]) == jview(a2[i]),
    ensures
        str_list_value(a1) == str_list_value(a2),
    decreases a1.len(),
{
    if a1.len() > 0 {
        assert(jview(a1[a1.len() - 1]) == jview(a2[a2.len() - 1]));
        lemma_str_list_views(a1.drop_last(), a2.drop_last());
    }
}

} // verus!
