//! Network Error Logging reports: failed or degraded network requests.

use vstd::prelude::*;
use vstd::string::*;
use crate::json::{JsonValue, JsonView, Members, members_view, jview, decimal, lookup, found, find, str_eq};
use crate::fields::{strings_jview, str_list_value, strings_view, str_list_from, strings_json, str_value, opt_str_value, uint_value, number_value, str_from, opt_str_from, uint_from, number_from, number, put, put_opt_str};

verus! {

broadcast use crate::json::lemma_lookup_push, crate::json::lemma_object_view;

/// A header map: each member names a header and lists its values.
pub open spec fn header_members_value(e: Seq<(String, JsonValue)>) -> Option<Seq<(Seq<char>, Seq<Seq<char>>)>>
    decreases e.len(),
{
    if e.len() == 0 {
        Some(Seq::empty())
    } else {
        let prev = header_members_value(e.drop_last());
        match e.last().1 {
            JsonValue::Array(a) => if prev.is_some() && str_list_value(a@).is_some() {
                Some(prev.unwrap().push((e.last().0@, str_list_value(a@).unwrap())))
            } else {
                None
            },
            _ => None,
        }
    }
}

pub open spec fn opt_headers_value(v: Option<JsonValue>) -> Option<Option<Seq<(Seq<char>, Seq<Seq<char>>)>>> {
    match v {
        None => Some(None),
        Some(JsonValue::Null) => Some(None),
        Some(JsonValue::Object(m)) => if header_members_value(m@).is_some() {
            Some(header_members_value(m@))
        } else {
            None
        },
        _ => None,
    }
}

pub open spec fn headers_view(h: Seq<(String, Vec<String>)>) -> Seq<(Seq<char>, Seq<Seq<char>>)> {
    h.map_values(|p: (String, Vec<String>)| (p.0@, strings_view(p.1@)))
}

pub open spec fn opt_headers_view(h: Option<Vec<(String, Vec<String>)>>) -> Option<Seq<(Seq<char>, Seq<Seq<char>>)>> {
    match h {
        Some(v) => Some(headers_view(v@)),
        None => None,
    }
}

proof fn lemma_header_members_prefix(e: Seq<(String, JsonValue)>, n: int)
    requires
        0 <= n <= e.len(),
        header_members_value(e.subrange(0, n)).is_none(),
    ensures
        header_members_value(e).is_none(),
    decreases e.len() - n,
{
    if n < e.len() {
        assert(e.subrange(0, n + 1).drop_last() =~= e.subrange(0, n));
        lemma_header_members_prefix(e, n + 1);
    } else {
        assert(e.subrange(0, n) =~= e);
    }
}

fn opt_headers_from(v: Option<&JsonValue>) -> (r: Option<Option<Vec<(String, Vec<String>)>>>)
    ensures
        r.is_some() == opt_headers_value(found(v)).is_some(),
        r.is_some() ==> opt_headers_view(r.unwrap()) == opt_headers_value(found(v)).unwrap(),
{
    let m = match v {
        None => return Some(None),
        Some(JsonValue::Null) => return Some(None),
        Some(JsonValue::Object(m)) => m,
        _ => return None,
    };
    let mut out: Vec<(String, Vec<String>)> = Vec::new();
    let mut i: usize = 0;
    while i < m.len()
        invariant
            i <= m@.len(),
            found(v) == Some(JsonValue::Object(*m)),
            header_members_value(m@.subrange(0, i as int)) == Some(headers_view(out@)),
        decreases m@.len() - i,
    {
        assert(m@.subrange(0, i + 1).drop_last() =~= m@.subrange(0, i as int));
        match &m[i].1 {
            JsonValue::Array(a) => match str_list_from(a) {
                Some(l) => {
                    out.push((m[i].0.clone(), l));
                    assert(headers_view(out@) =~= headers_view(out@.drop_last()).push(
                        (m@[i as int].0@, str_list_value(a@).unwrap()),
                    ));
                },
                None => {
                    proof {
                        let p = m@.subrange(0, i as int + 1);
                        assert(p.last() == m@[i as int]);
                        assert(header_members_value(p).is_none());
                        lemma_header_members_prefix(m@, i as int + 1);
                    }
                    return None;
                },
            },
            _ => {
                proof {
                    let p = m@.subrange(0, i as int + 1);
                    assert(p.last() == m@[i as int]);
                    assert(header_members_value(p).is_none());
                    lemma_header_members_prefix(m@, i as int + 1);
                }
                return None;
            },
        }
        i = i + 1;
    }
    assert(m@.subrange(0, m@.len() as int) =~= m@);
    Some(Some(out))
}

/// The view of a header map written as a JSON object of string arrays.
pub open spec fn headers_jview(h: Seq<(String, Vec<String>)>) -> Seq<(Seq<char>, JsonView)> {
    Seq::new(h.len(), |i: int| (h[i].0@, JsonView::Array(strings_jview(h[i].1@))))
}

/// A header map as a JSON object of string arrays.
fn headers_json(h: &Vec<(String, Vec<String>)>) -> (r: JsonValue)
    ensures
        opt_headers_value(Some(r)) == Some(Some(headers_view(h@))),
        jview(r) == JsonView::Object(headers_jview(h@)),
{
    broadcast use crate::json::lemma_members_view_push;
    let mut m: Members = Vec::new();
    let mut i: usize = 0;
    assert(members_view(m@) =~= headers_jview(h@.subrange(0, 0)));
    while i < h.len()
        invariant
            i <= h@.len(),
            m@.len() == i,
            header_members_value(m@) == Some(headers_view(h@.subrange(0, i as int))),
            members_view(m@) == headers_jview(h@.subrange(0, i as int)),
        decreases h@.len() - i,
    {
        let a = strings_json(&h[i].1);
        let ghost prev = m@;
        m.push((h[i].0.clone(), a));
        assert(m@.drop_last() =~= prev);
        assert(headers_view(h@.subrange(0, i + 1)) =~= headers_view(h@.subrange(0, i as int)).push((h@[i as int].0@, strings_view(h@[i as int].1@))));
        assert(headers_jview(h@.subrange(0, i + 1)) =~= headers_jview(h@.subrange(0, i as int)).push((h@[i as int].0@, JsonView::Array(strings_jview(h@[i as int].1@)))));
        i = i + 1;
    }
    assert(h@.subrange(0, h@.len() as int) =~= h@);
    JsonValue::Object(m)
}

fn put_opt_headers(e: &mut Members, key: &str, h: &Option<Vec<(String, Vec<String>)>>)
    ensures
        h.is_none() ==> final(e)@ == old(e)@,
        h.is_some() ==> final(e)@ == old(e)@.push(final(e)@.last()),
        h.is_some() ==> final(e)@.last().0@ == key@,
        h.is_some() ==> opt_headers_value(Some(final(e)@.last().1)) == Some(opt_headers_view(*h)),
        h.is_some() ==> jview(final(e)@.last().1) == JsonView::Object(headers_jview(h.unwrap()@)),
{
    if let Some(v) = h {
        put(e, key, headers_json(v));
    }
}


/// The phase of a request in which a network error occurred.
#[derive(Debug, PartialEq, Eq, Clone, Copy)]
pub enum Phase {
    DNS,
    Connection,
    Application,
}

/// The phase that a JSON string names.
pub open spec fn phase_token(s: Seq<char>) -> Option<Phase> {
    if s == "dns"@ {
        Some(Phase::DNS)
    } else if s == "connection"@ {
        Some(Phase::Connection)
    } else if s == "application"@ {
        Some(Phase::Application)
    } else {
        None
    }
}

pub open spec fn phase_value(v: Option<JsonValue>) -> Option<Phase> {
    match v {
        Some(JsonValue::Str(s)) => phase_token(s@),
        _ => None,
    }
}

pub open spec fn opt_phase_value(v: Option<JsonValue>) -> Option<Option<Phase>> {
    match v {
        None => Some(None),
        Some(JsonValue::Null) => Some(None),
        _ => if phase_value(v).is_some() {
            Some(phase_value(v))
        } else {
            None
        },
    }
}

fn phase_from(v: Option<&JsonValue>) -> (r: Option<Phase>)
    ensures
        r == phase_value(found(v)),
{
    match v {
        Some(JsonValue::Str(s)) => {
            if str_eq(s.as_str(), "dns") {
                Some(Phase::DNS)
            } else if str_eq(s.as_str(), "connection") {
                Some(Phase::Connection)
            } else if str_eq(s.as_str(), "application") {
                Some(Phase::Application)
            } else {
                None
            }
        },
        _ => None,
    }
}

fn opt_phase_from(v: Option<&JsonValue>) -> (r: Option<Option<Phase>>)
    ensures
        r == opt_phase_value(found(v)),
{
    match v {
        None => Some(None),
        Some(JsonValue::Null) => Some(None),
        Some(_) => match phase_from(v) {
            Some(x) => Some(Some(x)),
            None => None,
        },
    }
}

/// The text that names a phase.
pub open spec fn phase_text(x: Phase) -> Seq<char> {
    match x {
        Phase::DNS => "dns"@,
        Phase::Connection => "connection"@,
        Phase::Application => "application"@,
    }
}

/// The JSON string that names a phase.
pub fn phase_json(x: Phase) -> (r: JsonValue)
    ensures
        phase_value(Some(r)) == Some(x),
        jview(r) == JsonView::Str(phase_text(x)),
{
    proof {
        reveal_strlit("dns");
        assert("dns"@.len() == 3);
        reveal_strlit("connection");
        assert("connection"@.len() == 10);
        reveal_strlit("application");
        assert("application"@.len() == 11);
    }
    let s = match x {
        Phase::DNS => String::from_str("dns"),
        Phase::Connection => String::from_str("connection"),
        Phase::Application => String::from_str("application"),
    };
    JsonValue::Str(s)
}

/// The body of a network error report. The sampling fraction is a ratio, kept as the decimal text it was reported with; the header maps list the values of each header.
#[derive(Debug, PartialEq, Eq)]
pub struct NetworkError {
    pub elapsed_time: u64,
    pub method: String,
    pub phase: Phase,
    pub protocol: String,
    pub referrer: Option<String>,
    pub request_headers: Option<Vec<(String, Vec<String>)>>,
    pub response_headers: Option<Vec<(String, Vec<String>)>>,
    pub sampling_fraction: String,
    pub server_ip: String,
    pub status_code: u16,
    pub kind: String,
    pub url: Option<String>,
}

/// Whether the members describe `x`; header maps are compared by their contents.
pub open spec fn network_error_decodes(e: Seq<(String, JsonValue)>, x: NetworkError) -> bool {
    &&& uint_value(lookup(e, "elapsed_time"@), u64::MAX as nat) == Some(x.elapsed_time as nat)
    &&& str_value(lookup(e, "method"@)) == Some(x.method)
    &&& phase_value(lookup(e, "phase"@)) == Some(x.phase)
    &&& str_value(lookup(e, "protocol"@)) == Some(x.protocol)
    &&& opt_str_value(lookup(e, "referrer"@)) == Some(x.referrer)
    &&& opt_headers_value(lookup(e, "request_headers"@)) == Some(opt_headers_view(x.request_headers))
    &&& opt_headers_value(lookup(e, "response_headers"@)) == Some(opt_headers_view(x.response_headers))
    &&& number_value(lookup(e, "sampling_fraction"@)) == Some(x.sampling_fraction)
    &&& str_value(lookup(e, "server_ip"@)) == Some(x.server_ip)
    &&& uint_value(lookup(e, "status_code"@), u16::MAX as nat) == Some(x.status_code as nat)
    &&& str_value(lookup(e, "type"@)) == Some(x.kind)
    &&& opt_str_value(lookup(e, "url"@)) == Some(x.url)
}

/// Whether an object's members hold a well-typed network error.
pub open spec fn network_error_readable(e: Seq<(String, JsonValue)>) -> bool {
    &&& uint_value(lookup(e, "elapsed_time"@), u64::MAX as nat).is_some()
    &&& str_value(lookup(e, "method"@)).is_some()
    &&& phase_value(lookup(e, "phase"@)).is_some()
    &&& str_value(lookup(e, "protocol"@)).is_some()
    &&& opt_str_value(lookup(e, "referrer"@)).is_some()
    &&& opt_headers_value(lookup(e, "request_headers"@)).is_some()
    &&& opt_headers_value(lookup(e, "response_headers"@)).is_some()
    &&& number_value(lookup(e, "sampling_fraction"@)).is_some()
    &&& str_value(lookup(e, "server_ip"@)).is_some()
    &&& uint_value(lookup(e, "status_code"@), u16::MAX as nat).is_some()
    &&& str_value(lookup(e, "type"@)).is_some()
    &&& opt_str_value(lookup(e, "url"@)).is_some()
}

/// The members that a network error is written as, in order.
pub open spec fn network_error_json_view(x: NetworkError) -> Seq<(Seq<char>, JsonView)> {
    let s0 = Seq::empty();
    let s1 = s0.push(("elapsed_time"@, JsonView::Number(decimal(x.elapsed_time as nat))));
    let s2 = s1.push(("method"@, JsonView::Str(x.method@)));
    let s3 = s2.push(("phase"@, JsonView::Str(phase_text(x.phase))));
    let s4 = s3.push(("protocol"@, JsonView::Str(x.protocol@)));
    let s5 = if x.referrer is Some { s4.push(("referrer"@, JsonView::Str(x.referrer.unwrap()@))) } else { s4 };
    let s6 = if x.request_headers is Some { s5.push(("request_headers"@, JsonView::Object(headers_jview(x.request_headers.unwrap()@)))) } else { s5 };
    let s7 = if x.response_headers is Some { s6.push(("response_headers"@, JsonView::Object(headers_jview(x.response_headers.unwrap()@)))) } else { s6 };
    let s8 = s7.push(("sampling_fraction"@, JsonView::Number(x.sampling_fraction@)));
    let s9 = s8.push(("server_ip"@, JsonView::Str(x.server_ip@)));
    let s10 = s9.push(("status_code"@, JsonView::Number(decimal(x.status_code as nat))));
    let s11 = s10.push(("type"@, JsonView::Str(x.kind@)));
    let s12 = if x.url is Some { s11.push(("url"@, JsonView::Str(x.url.unwrap()@))) } else { s11 };
    s12
}

impl NetworkError {
    /// Reads the body from an object's members.
    pub fn decode(e: &Members) -> (r: Option<NetworkError>)
        ensures
            r.is_some() == network_error_readable(e@),
            r.is_some() ==> network_error_decodes(e@, r.unwrap()),
    {
        let elapsed_time = match uint_from(find(e, "elapsed_time"), u64::MAX) {
            Some(x) => x,
            None => return None,
        };
        let method = match str_from(find(e, "method")) {
            Some(x) => x,
            None => return None,
        };
        let phase = match phase_from(find(e, "phase")) {
            Some(x) => x,
            None => return None,
        };
        let protocol = match str_from(find(e, "protocol")) {
            Some(x) => x,
            None => return None,
        };
        let referrer = match opt_str_from(find(e, "referrer")) {
            Some(x) => x,
            None => return None,
        };
        let request_headers = match opt_headers_from(find(e, "request_headers")) {
            Some(x) => x,
            None => return None,
        };
        let response_headers = match opt_headers_from(find(e, "response_headers")) {
            Some(x) => x,
            None => return None,
        };
        let sampling_fraction = match number_from(find(e, "sampling_fraction")) {
            Some(x) => x,
            None => return None,
        };
        let server_ip = match str_from(find(e, "server_ip")) {
            Some(x) => x,
            None => return None,
        };
        let status_code = match uint_from(find(e, "status_code"), u16::MAX as u64) {
            Some(x) => x,
            None => return None,
        };
        let kind = match str_from(find(e, "type")) {
            Some(x) => x,
            None => return None,
        };
        let url = match opt_str_from(find(e, "url")) {
            Some(x) => x,
            None => return None,
        };
        Some(NetworkError {
            elapsed_time: elapsed_time as u64,
            method,
            phase,
            protocol,
            referrer,
            request_headers,
            response_headers,
            sampling_fraction,
            server_ip,
            status_code: status_code as u16,
            kind,
            url,
        })
    }

    /// The members of this body under their canonical names; reading them
    /// back gives this body.
    #[verifier::rlimit(100)]
    #[verifier::spinoff_prover]
    pub fn encode(&self) -> (r: Members)
        ensures
            network_error_decodes(r@, *self),
            members_view(r@) == network_error_json_view(*self),
    {
        proof {
            reveal_strlit("elapsed_time");
            assert("elapsed_time"@.len() == 12);
            reveal_strlit("method");
            assert("method"@.len() == 6);
            reveal_strlit("phase");
            assert("phase"@.len() == 5);
            reveal_strlit("protocol");
            assert("protocol"@.len() == 8);
            reveal_strlit("referrer");
            assert("referrer"@.len() == 8);
            reveal_strlit("request_headers");
            assert("request_headers"@.len() == 15);
            reveal_strlit("response_headers");
            assert("response_headers"@.len() == 16);
            reveal_strlit("sampling_fraction");
            assert("sampling_fraction"@.len() == 17);
            reveal_strlit("server_ip");
            assert("server_ip"@.len() == 9);
            reveal_strlit("status_code");
            assert("status_code"@.len() == 11);
            reveal_strlit("type");
            assert("type"@.len() == 4);
            reveal_strlit("url");
            assert("url"@.len() == 3);
            assert("protocol"@[0] != "referrer"@[0]);
        }
        let mut e: Members = Vec::new();
        assert(members_view(e@) =~= Seq::<(Seq<char>, JsonView)>::empty());
        let ghost before_1 = members_view(e@);
        put(&mut e, "elapsed_time", number(self.elapsed_time));
        assert(members_view(e@) == before_1.push(("elapsed_time"@, JsonView::Number(decimal(self.elapsed_time as nat)))));
        let ghost before_2 = members_view(e@);
        put(&mut e, "method", JsonValue::Str(self.method.clone()));
        assert(members_view(e@) == before_2.push(("method"@, JsonView::Str(self.method@))));
        let ghost before_3 = members_view(e@);
        put(&mut e, "phase", phase_json(self.phase));
        assert(members_view(e@) == before_3.push(("phase"@, JsonView::Str(phase_text(self.phase)))));
        let ghost before_4 = members_view(e@);
        put(&mut e, "protocol", JsonValue::Str(self.protocol.clone()));
        assert(members_view(e@) == before_4.push(("protocol"@, JsonView::Str(self.protocol@))));
        let ghost before_5 = members_view(e@);
        put_opt_str(&mut e, "referrer", &self.referrer);
        assert(members_view(e@) == if self.referrer is Some { before_5.push(("referrer"@, JsonView::Str(self.referrer.unwrap()@))) } else { before_5 });
        let ghost before_6 = members_view(e@);
        put_opt_headers(&mut e, "request_headers", &self.request_headers);
        assert(members_view(e@) == if self.request_headers is Some { before_6.push(("request_headers"@, JsonView::Object(headers_jview(self.request_headers.unwrap()@)))) } else { before_6 });
        let ghost before_7 = members_view(e@);
        put_opt_headers(&mut e, "response_headers", &self.response_headers);
        assert(members_view(e@) == if self.response_headers is Some { before_7.push(("response_headers"@, JsonView::Object(headers_jview(self.response_headers.unwrap()@)))) } else { before_7 });
        let ghost before_8 = members_view(e@);
        put(&mut e, "sampling_fraction", JsonValue::Number(self.sampling_fraction.clone()));
        assert(members_view(e@) == before_8.push(("sampling_fraction"@, JsonView::Number(self.sampling_fraction@))));
        let ghost before_9 = members_view(e@);
        put(&mut e, "server_ip", JsonValue::Str(self.server_ip.clone()));
        assert(members_view(e@) == before_9.push(("server_ip"@, JsonView::Str(self.server_ip@))));
        let ghost before_10 = members_view(e@);
        put(&mut e, "status_code", number(self.status_code as u64));
        assert(members_view(e@) == before_10.push(("status_code"@, JsonView::Number(decimal(self.status_code as nat)))));
        let ghost before_11 = members_view(e@);
        put(&mut e, "type", JsonValue::Str(self.kind.clone()));
        assert(members_view(e@) == before_11.push(("type"@, JsonView::Str(self.kind@))));
        let ghost before_12 = members_view(e@);
        put_opt_str(&mut e, "url", &self.url);
        assert(members_view(e@) == if self.url is Some { before_12.push(("url"@, JsonView::Str(self.url.unwrap()@))) } else { before_12 });
        assert(uint_value(lookup(e@, "elapsed_time"@), u64::MAX as nat) == Some(self.elapsed_time as nat)) by {}
        assert(str_value(lookup(e@, "method"@)) == Some(self.method)) by {}
        assert(phase_value(lookup(e@, "phase"@)) == Some(self.phase)) by {}
        assert(str_value(lookup(e@, "protocol"@)) == Some(self.protocol)) by {}
        assert(opt_str_value(lookup(e@, "referrer"@)) == Some(self.referrer)) by {}
        assert(opt_headers_value(lookup(e@, "request_headers"@)) == Some(opt_headers_view(self.request_headers))) by {}
        assert(opt_headers_value(lookup(e@, "response_headers"@)) == Some(opt_headers_view(self.response_headers))) by {}
        assert(number_value(lookup(e@, "sampling_fraction"@)) == Some(self.sampling_fraction)) by {}
        assert(str_value(lookup(e@, "server_ip"@)) == Some(self.server_ip)) by {}
        assert(uint_value(lookup(e@, "status_code"@), u16::MAX as nat) == Some(self.status_code as nat)) by {}
        assert(str_value(lookup(e@, "type"@)) == Some(self.kind)) by {}
        assert(opt_str_value(lookup(e@, "url"@)) == Some(self.url)) by {}
        e
    }
}

} // verus!
