//! A JSON document as a tree of plain values, and the lookups that the
//! report schemas are decoded with.

use vstd::prelude::*;
use vstd::string::*;

verus! {

/// A JSON value. Numbers keep the literal text they were written with, so
/// that integers and fractions are carried without loss.
#[derive(Debug, PartialEq)]
pub enum JsonValue {
    Null,
    Bool(bool),
    Number(String),
    Str(String),
    Array(Vec<JsonValue>),
    Object(Vec<(String, JsonValue)>),
}

broadcast use vstd::std_specs::vec::axiom_vec_decreases_to_view, vstd::seq::axiom_seq_index_decreases;

/// A JSON value with its strings seen as character sequences.
pub enum JsonView {
    Null,
    Bool(bool),
    Number(Seq<char>),
    Str(Seq<char>),
    Array(Seq<JsonView>),
    Object(Seq<(Seq<char>, JsonView)>),
}

/// The view of a JSON value.
pub open spec fn jview(v: JsonValue) -> JsonView
    decreases v,
{
    match v {
        JsonValue::Null => JsonView::Null,
        JsonValue::Bool(b) => JsonView::Bool(b),
        JsonValue::Number(t) => JsonView::Number(t@),
        JsonValue::Str(s) => JsonView::Str(s@),
        JsonValue::Array(a) => JsonView::Array(
            Seq::new(a@.len(), |i: int| if 0 <= i < a@.len() { jview(a@[i]) } else { JsonView::Null }),
        ),
        JsonValue::Object(m) => JsonView::Object(
            Seq::new(m@.len(), |i: int| if 0 <= i < m@.len() { (m@[i].0@, jview(m@[i].1)) } else { (m@[i].0@, JsonView::Null) }),
        ),
    }
}

/// The view of an object's members.
pub open spec fn members_view(m: Seq<(String, JsonValue)>) -> Seq<(Seq<char>, JsonView)> {
    Seq::new(m.len(), |i: int| (m[i].0@, jview(m[i].1)))
}

/// The view of an object is the view of its members.
pub broadcast proof fn lemma_object_view(m: Members)
    ensures
        #[trigger] jview(JsonValue::Object(m)) == JsonView::Object(members_view(m@)),
{
    assert(jview(JsonValue::Object(m)) is Object);
    assert(jview(JsonValue::Object(m))->Object_0 =~= members_view(m@));
}

/// Appending a member appends its view.
pub broadcast proof fn lemma_members_view_push(s: Seq<(String, JsonValue)>, p: (String, JsonValue))
    ensures
        #[trigger] members_view(s.push(p)) == members_view(s).push((p.0@, jview(p.1))),
{
    assert(members_view(s.push(p)) =~= members_view(s).push((p.0@, jview(p.1))));
}

/// The members of an object, one entry per member, in document order.
pub type Members = Vec<(String, JsonValue)>;

/// Whether two string slices hold the same characters.
pub fn str_eq(a: &str, b: &str) -> (r: bool)
    ensures
        r == (a@ == b@),
{
    let x = String::from_str(a);
    let y = String::from_str(b);
    x == y
}

/// The value of the first member named `key`.
pub open spec fn lookup(entries: Seq<(String, JsonValue)>, key: Seq<char>) -> Option<JsonValue>
    decreases entries.len(),
{
    if entries.len() == 0 {
        None
    } else if entries[0].0@ == key {
        Some(entries[0].1)
    } else {
        lookup(entries.drop_first(), key)
    }
}

/// Appending a member leaves every name already present untouched, and makes
/// the new name visible where it was absent.
pub broadcast proof fn lemma_lookup_push(entries: Seq<(String, JsonValue)>, p: (String, JsonValue), key: Seq<char>)
    ensures
        #[trigger] lookup(entries.push(p), key) == if lookup(entries, key).is_some() {
            lookup(entries, key)
        } else if p.0@ == key {
            Some(p.1)
        } else {
            None
        },
    decreases entries.len(),
{
    let q = entries.push(p);
    if entries.len() > 0 {
        assert(q.drop_first() =~= entries.drop_first().push(p));
        assert(q[0] == entries[0]);
        lemma_lookup_push(entries.drop_first(), p, key);
    } else {
        assert(q.drop_first() =~= Seq::<(String, JsonValue)>::empty());
        assert(q[0] == p);
        assert(lookup(q.drop_first(), key) is None);
        assert(lookup(entries, key) is None);
    }
}

/// The value that a lookup found, as a value.
pub open spec fn found(r: Option<&JsonValue>) -> Option<JsonValue> {
    match r {
        Some(v) => Some(*v),
        None => None,
    }
}

/// The value of a field known under two names, the first preferred.
pub open spec fn lookup2(entries: Seq<(String, JsonValue)>, a: Seq<char>, b: Seq<char>) -> Option<JsonValue> {
    if lookup(entries, a).is_some() {
        lookup(entries, a)
    } else {
        lookup(entries, b)
    }
}

/// The value of a field known under three names, in order of preference.
pub open spec fn lookup3(entries: Seq<(String, JsonValue)>, a: Seq<char>, b: Seq<char>, c: Seq<char>) -> Option<JsonValue> {
    if lookup(entries, a).is_some() {
        lookup(entries, a)
    } else {
        lookup2(entries, b, c)
    }
}

/// Finds the first member named `key`.
pub fn find<'a>(entries: &'a Members, key: &str) -> (r: Option<&'a JsonValue>)
    ensures
        found(r) == lookup(entries@, key@),
{
    let mut i: usize = 0;
    assert(entries@.subrange(0, entries@.len() as int) =~= entries@);
    while i < entries.len()
        invariant
            i <= entries@.len(),
            lookup(entries@, key@) == lookup(entries@.subrange(i as int, entries@.len() as int), key@),
        decreases entries@.len() - i,
    {
        let ghost rest = entries@.subrange(i as int, entries@.len() as int);
        assert(rest.drop_first() =~= entries@.subrange(i + 1, entries@.len() as int));
        if str_eq(entries[i].0.as_str(), key) {
            return Some(&entries[i].1);
        }
        i = i + 1;
    }
    None
}

/// Finds a field known under two names, the first preferred.
pub fn find2<'a>(entries: &'a Members, a: &str, b: &str) -> (r: Option<&'a JsonValue>)
    ensures
        found(r) == lookup2(entries@, a@, b@),
{
    match find(entries, a) {
        Some(v) => Some(v),
        None => find(entries, b),
    }
}

/// Finds a field known under three names, in order of preference.
pub fn find3<'a>(entries: &'a Members, a: &str, b: &str, c: &str) -> (r: Option<&'a JsonValue>)
    ensures
        found(r) == lookup3(entries@, a@, b@, c@),
{
    match find(entries, a) {
        Some(v) => Some(v),
        None => find2(entries, b, c),
    }
}

/// The values of every member named `key`, in document order.
pub open spec fn repeated(entries: Seq<(String, JsonValue)>, key: Seq<char>) -> Seq<JsonValue>
    decreases entries.len(),
{
    if entries.len() == 0 {
        Seq::empty()
    } else if entries.last().0@ == key {
        repeated(entries.drop_last(), key).push(entries.last().1)
    } else {
        repeated(entries.drop_last(), key)
    }
}

/// Finds every member named `key`, in document order.
pub fn find_all<'a>(entries: &'a Members, key: &str) -> (r: Vec<&'a JsonValue>)
    ensures
        r@.len() == repeated(entries@, key@).len(),
        forall|i: int| 0 <= i < r@.len() ==> *#[trigger] r@[i] == repeated(entries@, key@)[i],
{
    let mut out: Vec<&JsonValue> = Vec::new();
    let mut i: usize = 0;
    while i < entries.len()
        invariant
            i <= entries@.len(),
            out@.len() == repeated(entries@.subrange(0, i as int), key@).len(),
            forall|j: int| 0 <= j < out@.len() ==> *#[trigger] out@[j] == repeated(entries@.subrange(0, i as int), key@)[j],
        decreases entries@.len() - i,
    {
        assert(entries@.subrange(0, i + 1).drop_last() =~= entries@.subrange(0, i as int));
        if str_eq(entries[i].0.as_str(), key) {
            out.push(&entries[i].1);
        }
        i = i + 1;
    }
    assert(entries@.subrange(0, entries@.len() as int) =~= entries@);
    out
}

proof fn lemma_lookup_single(e: Seq<(String, JsonValue)>, k: Seq<char>, i: int)
    requires
        0 <= i < e.len(),
        e[i].0@ == k,
        forall|j: int| 0 <= j < e.len() && j != i ==> (#[trigger] e[j]).0@ != k,
    ensures
        lookup(e, k) == Some(e[i].1),
    decreases e.len(),
{
    if i > 0 {
        let t = e.drop_first();
        assert forall|j: int| 0 <= j < t.len() && j != i - 1 implies (#[trigger] t[j]).0@ != k by {
            assert(t[j] == e[j + 1]);
        }
        lemma_lookup_single(t, k, i - 1);
    }
}

proof fn lemma_lookup_agree(e1: Seq<(String, JsonValue)>, e2: Seq<(String, JsonValue)>, k: Seq<char>)
    requires
        e1.len() == e2.len(),
        forall|j: int| 0 <= j < e1.len() ==> ((#[trigger] e1[j]).0@ == k) == (e2[j].0@ == k),
        forall|j: int| 0 <= j < e1.len() && (#[trigger] e1[j]).0@ == k ==> e1[j].1 == e2[j].1,
    ensures
        lookup(e1, k) == lookup(e2, k),
    decreases e1.len(),
{
    if e1.len() > 0 {
        let (t1, t2) = (e1.drop_first(), e2.drop_first());
        assert forall|j: int| 0 <= j < t1.len() implies ((#[trigger] t1[j]).0@ == k) == (t2[j].0@ == k) by {
            assert(t1[j] == e1[j + 1] && t2[j] == e2[j + 1]);
        }
        assert forall|j: int| 0 <= j < t1.len() && (#[trigger] t1[j]).0@ == k implies t1[j].1 == t2[j].1 by {
            assert(t1[j] == e1[j + 1] && t2[j] == e2[j + 1]);
        }
        lemma_lookup_agree(t1, t2, k);
    }
}

/// A field read under three names (the canonical one first, then two older
/// ones) reads the same value when its member carries an older name as when
/// that member is renamed to the canonical name, provided no other member
/// carries a name of the field; every other name reads as before.
pub proof fn lemma_alias_reads_as_canonical(
    e1: Seq<(String, JsonValue)>,
    e2: Seq<(String, JsonValue)>,
    i: int,
    a: Seq<char>,
    b: Seq<char>,
    c: Seq<char>,
)
    requires
        a != b && a != c && b != c,
        0 <= i < e1.len(),
        e2.len() == e1.len(),
        e1[i].0@ == b || e1[i].0@ == c,
        e2[i].0@ == a,
        e2[i].1 == e1[i].1,
        forall|j: int| 0 <= j < e1.len() && j != i ==> #[trigger] e2[j] == e1[j],
        forall|j: int| 0 <= j < e1.len() && j != i ==> (#[trigger] e1[j]).0@ != a && e1[j].0@ != b && e1[j].0@ != c,
    ensures
        lookup3(e1, a, b, c) == Some(e1[i].1),
        lookup3(e2, a, b, c) == Some(e1[i].1),
        forall|k: Seq<char>| k != a && k != b && k != c ==> #[trigger] lookup(e2, k) == lookup(e1, k),
{
    let old_name = e1[i].0@;
    let other = if old_name == b { c } else { b };
    assert forall|j: int| 0 <= j < e1.len() && j != i implies (#[trigger] e1[j]).0@ != old_name by {}
    lemma_lookup_single(e1, old_name, i);
    assert forall|j: int| 0 <= j < e2.len() && j != i implies (#[trigger] e2[j]).0@ != a by {
        assert(e2[j] == e1[j]);
    }
    lemma_lookup_single(e2, a, i);
    assert(lookup(e1, a) is None) by {
        lemma_lookup_absent(e1, a);
    }
    assert(lookup(e1, other) is None) by {
        lemma_lookup_absent(e1, other);
    }
    assert forall|k: Seq<char>| k != a && k != b && k != c implies #[trigger] lookup(e2, k) == lookup(e1, k) by {
        assert forall|j: int| 0 <= j < e1.len() implies ((#[trigger] e1[j]).0@ == k) == (e2[j].0@ == k) by {
            if j != i {
                assert(e2[j] == e1[j]);
            }
        }
        assert forall|j: int| 0 <= j < e1.len() && (#[trigger] e1[j]).0@ == k implies e1[j].1 == e2[j].1 by {
            if j != i {
                assert(e2[j] == e1[j]);
            }
        }
        lemma_lookup_agree(e1, e2, k);
    }
}

proof fn lemma_lookup_absent(e: Seq<(String, JsonValue)>, k: Seq<char>)
    requires
        forall|j: int| 0 <= j < e.len() ==> (#[trigger] e[j]).0@ != k,
    ensures
        lookup(e, k) is None,
    decreases e.len(),
{
    if e.len() > 0 {
        let t = e.drop_first();
        assert forall|j: int| 0 <= j < t.len() implies (#[trigger] t[j]).0@ != k by {
            assert(t[j] == e[j + 1]);
        }
        lemma_lookup_absent(t, k);
    }
}

pub open spec fn opt_jview(v: Option<JsonValue>) -> Option<JsonView> {
    match v {
        Some(x) => Some(jview(x)),
        None => None,
    }
}

/// Objects with the same view hold values with the same view under each
/// name.
pub proof fn lemma_lookup_view(e1: Seq<(String, JsonValue)>, e2: Seq<(String, JsonValue)>, k: Seq<char>)
    requires
        members_view(e1) == members_view(e2),
    ensures
        opt_jview(lookup(e1, k)) == opt_jview(lookup(e2, k)),
    decreases e1.len(),
{
    assert(members_view(e1).len() == e1.len() && members_view(e2).len() == e2.len());
    if e1.len() > 0 {
        assert(members_view(e1)[0] == members_view(e2)[0]);
        assert(members_view(e1.drop_first()) =~= members_view(e1).drop_first());
        assert(members_view(e2.drop_first()) =~= members_view(e2).drop_first());
        lemma_lookup_view(e1.drop_first(), e2.drop_first(), k);
    }
}

/// Objects with the same view hold runs of values with the same views.
pub proof fn lemma_repeated_view(e1: Seq<(String, JsonValue)>, e2: Seq<(String, JsonValue)>, k: Seq<char>)
    requires
        members_view(e1) == members_view(e2),
    ensures
        repeated(e1, k).len() == repeated(e2, k).len(),
        forall|i: int| 0 <= i < repeated(e1, k).len() ==> jview(#[trigger] repeated(e1, k)[i]) == jview(repeated(e2, k)[i]),
    decreases e1.len(),
{
    assert(members_view(e1).len() == e1.len() && members_view(e2).len() == e2.len());
    if e1.len() > 0 {
        assert(members_view(e1)[e1.len() - 1] == members_view(e2)[e2.len() - 1]);
        assert(members_view(e1.drop_last()) =~= members_view(e1).drop_last());
        assert(members_view(e2.drop_last()) =~= members_view(e2).drop_last());
        lemma_repeated_view(e1.drop_last(), e2.drop_last(), k);
    }
}

pub open spec fn is_digit(c: char) -> bool {
    '0' <= c && c <= '9'
}

pub open spec fn digit_value(c: char) -> nat {
    ((c as u32) - ('0' as u32)) as nat
}

/// The number that a string of decimal digits denotes.
pub open spec fn digits_value(s: Seq<char>) -> nat
    decreases s.len(),
{
    if s.len() == 0 {
        0
    } else {
        digits_value(s.drop_last()) * 10 + digit_value(s.last())
    }
}

/// The unsigned integer that a number literal denotes, when it is one.
pub open spec fn uint_text(s: Seq<char>) -> Option<nat> {
    if s.len() > 0 && forall|i: int| 0 <= i < s.len() ==> is_digit(#[trigger] s[i]) {
        Some(digits_value(s))
    } else {
        None
    }
}

proof fn lemma_digits_monotone(s: Seq<char>, i: int)
    requires
        0 <= i <= s.len(),
        forall|k: int| 0 <= k < s.len() ==> is_digit(#[trigger] s[k]),
    ensures
        digits_value(s.subrange(0, i)) <= digits_value(s),
    decreases s.len() - i,
{
    if i < s.len() {
        lemma_digits_monotone(s, i + 1);
        assert(s.subrange(0, i + 1).drop_last() =~= s.subrange(0, i));
    } else {
        assert(s.subrange(0, i) =~= s);
    }
}

/// Reads an unsigned integer literal that fits in 64 bits.
pub fn parse_uint(t: &str) -> (r: Option<u64>)
    ensures
        r.is_some() <==> (uint_text(t@).is_some() && uint_text(t@).unwrap() <= u64::MAX),
        r.is_some() ==> r.unwrap() as nat == uint_text(t@).unwrap(),
{
    let n = t.unicode_len();
    if n == 0 {
        return None;
    }
    let mut acc: u64 = 0;
    let mut i: usize = 0;
    while i < n
        invariant
            n == t@.len(),
            i <= n,
            forall|k: int| 0 <= k < i ==> is_digit(#[trigger] t@[k]),
            acc as nat == digits_value(t@.subrange(0, i as int)),
        decreases n - i,
    {
        let c = t.get_char(i);
        assert(t@.subrange(0, i + 1).drop_last() =~= t@.subrange(0, i as int));
        if c < '0' || c > '9' {
            return None;
        }
        let d = (c as u32 - '0' as u32) as u64;
        if acc > (u64::MAX - d) / 10 {
            proof {
                if forall|k: int| 0 <= k < t@.len() ==> is_digit(#[trigger] t@[k]) {
                    lemma_digits_monotone(t@, i + 1);
                }
            }
            return None;
        }
        acc = acc * 10 + d;
        i = i + 1;
    }
    assert(t@.subrange(0, n as int) =~= t@);
    Some(acc)
}

/// The decimal text of a number, without leading zeros.
pub open spec fn decimal(n: nat) -> Seq<char>
    decreases n,
{
    if n < 10 {
        seq![digit_char(n)]
    } else {
        decimal(n / 10).push(digit_char(n % 10))
    }
}

pub open spec fn digit_char(d: nat) -> char {
    "0123456789"@[d as int]
}

proof fn lemma_digit_char(d: nat)
    requires
        d < 10,
    ensures
        is_digit(digit_char(d)),
        digit_value(digit_char(d)) == d,
{
    reveal_strlit("0123456789");
    let t = "0123456789"@;
    assert(t =~= seq!['0', '1', '2', '3', '4', '5', '6', '7', '8', '9']);
    if d == 0 {
    } else if d == 1 {
    } else if d == 2 {
    } else if d == 3 {
    } else if d == 4 {
    } else if d == 5 {
    } else if d == 6 {
    } else if d == 7 {
    } else if d == 8 {
    } else {
    }
}

/// The decimal text of a number reads back as that number.
pub proof fn lemma_decimal_round_trip(n: nat)
    ensures
        uint_text(decimal(n)) == Some(n),
    decreases n,
{
    lemma_digit_char(n % 10);
    if n < 10 {
        let s = decimal(n);
        assert(s.drop_last() =~= Seq::<char>::empty());
        assert(digits_value(s.drop_last()) == 0);
        assert(s.last() == digit_char(n));
        assert(digits_value(s) == n);
        assert(s.len() == 1 && s[0] == digit_char(n));
        assert forall|i: int| 0 <= i < s.len() implies is_digit(#[trigger] s[i]) by {}
    } else {
        lemma_decimal_round_trip(n / 10);
        let s = decimal(n);
        assert(s.drop_last() =~= decimal(n / 10));
        assert forall|i: int| 0 <= i < s.len() implies is_digit(#[trigger] s[i]) by {
            if i < s.len() - 1 {
                assert(s[i] == decimal(n / 10)[i]);
            }
        }
    }
}

/// Appends the decimal text of `n`.
fn write_decimal(n: u64, out: &mut String)
    ensures
        final(out)@ == old(out)@ + decimal(n as nat),
    decreases n,
{
    proof {
        reveal_strlit("0123456789");
    }
    let digits = "0123456789";
    if n >= 10 {
        write_decimal(n / 10, out);
    }
    let d = (n % 10) as usize;
    let c = digits.substring_char(d, d + 1);
    out.append(c);
    assert(c@ =~= seq![digit_char((n % 10) as nat)]);
    if n < 10 {
        assert(final(out)@ =~= old(out)@ + decimal(n as nat));
    } else {
        assert(final(out)@ =~= old(out)@ + decimal(n as nat));
    }
}

/// The decimal text of an unsigned integer.
pub fn uint_to_text(n: u64) -> (r: String)
    ensures
        r@ == decimal(n as nat),
        uint_text(r@) == Some(n as nat),
{
    let mut s = String::new();
    write_decimal(n, &mut s);
    assert(s@ =~= decimal(n as nat));
    proof {
        lemma_decimal_round_trip(n as nat);
    }
    s
}

} // verus!
