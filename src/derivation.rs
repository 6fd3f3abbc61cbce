//! Best-effort enrichment: a user agent split into client, operating system and device, and a URL split into host, path and query.

use vstd::prelude::*;
use vstd::string::*;
use crate::json::{JsonValue, JsonView, Members, members_view, lookup, find};
use crate::fields::{str_value, opt_str_value, str_from, opt_str_from, put, put_opt_str};

verus! {

broadcast use crate::json::lemma_lookup_push, crate::json::lemma_object_view;

/// A client or an operating system, with its version parts.
#[derive(Debug, PartialEq, Eq)]
pub struct Client {
    pub family: String,
    pub major: Option<String>,
    pub minor: Option<String>,
    pub patch: Option<String>,
    pub patch_minor: Option<String>,
}

/// Whether the members describe `x`.
pub open spec fn client_decodes(e: Seq<(String, JsonValue)>, x: Client) -> bool {
    &&& str_value(lookup(e, "family"@)) == Some(x.family)
    &&& opt_str_value(lookup(e, "major"@)) == Some(x.major)
    &&& opt_str_value(lookup(e, "minor"@)) == Some(x.minor)
    &&& opt_str_value(lookup(e, "patch"@)) == Some(x.patch)
    &&& opt_str_value(lookup(e, "patch_minor"@)) == Some(x.patch_minor)
}

/// Whether an object's members hold a well-typed client.
pub open spec fn client_readable(e: Seq<(String, JsonValue)>) -> bool {
    &&& str_value(lookup(e, "family"@)).is_some()
    &&& opt_str_value(lookup(e, "major"@)).is_some()
    &&& opt_str_value(lookup(e, "minor"@)).is_some()
    &&& opt_str_value(lookup(e, "patch"@)).is_some()
    &&& opt_str_value(lookup(e, "patch_minor"@)).is_some()
}

/// The members that a client is written as, in order.
pub open spec fn client_json_view(x: Client) -> Seq<(Seq<char>, JsonView)> {
    let s0 = Seq::empty();
    let s1 = s0.push(("family"@, JsonView::Str(x.family@)));
    let s2 = if x.major is Some { s1.push(("major"@, JsonView::Str(x.major.unwrap()@))) } else { s1 };
    let s3 = if x.minor is Some { s2.push(("minor"@, JsonView::Str(x.minor.unwrap()@))) } else { s2 };
    let s4 = if x.patch is Some { s3.push(("patch"@, JsonView::Str(x.patch.unwrap()@))) } else { s3 };
    let s5 = if x.patch_minor is Some { s4.push(("patch_minor"@, JsonView::Str(x.patch_minor.unwrap()@))) } else { s4 };
    s5
}

impl Client {
    /// Reads the body from an object's members.
    pub fn decode(e: &Members) -> (r: Option<Client>)
        ensures
            r.is_some() == client_readable(e@),
            r.is_some() ==> client_decodes(e@, r.unwrap()),
    {
        let family = match str_from(find(e, "family")) {
            Some(x) => x,
            None => return None,
        };
        let major = match opt_str_from(find(e, "major")) {
            Some(x) => x,
            None => return None,
        };
        let minor = match opt_str_from(find(e, "minor")) {
            Some(x) => x,
            None => return None,
        };
        let patch = match opt_str_from(find(e, "patch")) {
            Some(x) => x,
            None => return None,
        };
        let patch_minor = match opt_str_from(find(e, "patch_minor")) {
            Some(x) => x,
            None => return None,
        };
        Some(Client {
            family,
            major,
            minor,
            patch,
            patch_minor,
        })
    }

    /// The members of this body under their canonical names; reading them
    /// back gives this body.
    pub fn encode(&self) -> (r: Members)
        ensures
            client_decodes(r@, *self),
            members_view(r@) == client_json_view(*self),
    {
        proof {
            reveal_strlit("family");
            assert("family"@.len() == 6);
            reveal_strlit("major");
            assert("major"@.len() == 5);
            reveal_strlit("minor");
            assert("minor"@.len() == 5);
            reveal_strlit("patch");
            assert("patch"@.len() == 5);
            reveal_strlit("patch_minor");
            assert("patch_minor"@.len() == 11);
            assert("major"@[1] != "minor"@[1]);
            assert("major"@[0] != "patch"@[0]);
            assert("minor"@[0] != "patch"@[0]);
        }
        let mut e: Members = Vec::new();
        assert(members_view(e@) =~= Seq::<(Seq<char>, JsonView)>::empty());
        let ghost before_1 = members_view(e@);
        put(&mut e, "family", JsonValue::Str(self.family.clone()));
        assert(members_view(e@) == before_1.push(("family"@, JsonView::Str(self.family@))));
        let ghost before_2 = members_view(e@);
        put_opt_str(&mut e, "major", &self.major);
        assert(members_view(e@) == if self.major is Some { before_2.push(("major"@, JsonView::Str(self.major.unwrap()@))) } else { before_2 });
        let ghost before_3 = members_view(e@);
        put_opt_str(&mut e, "minor", &self.minor);
        assert(members_view(e@) == if self.minor is Some { before_3.push(("minor"@, JsonView::Str(self.minor.unwrap()@))) } else { before_3 });
        let ghost before_4 = members_view(e@);
        put_opt_str(&mut e, "patch", &self.patch);
        assert(members_view(e@) == if self.patch is Some { before_4.push(("patch"@, JsonView::Str(self.patch.unwrap()@))) } else { before_4 });
        let ghost before_5 = members_view(e@);
        put_opt_str(&mut e, "patch_minor", &self.patch_minor);
        assert(members_view(e@) == if self.patch_minor is Some { before_5.push(("patch_minor"@, JsonView::Str(self.patch_minor.unwrap()@))) } else { before_5 });
        e
    }
}

/// A device.
#[derive(Debug, PartialEq, Eq)]
pub struct Device {
    pub family: String,
    pub brand: Option<String>,
    pub model: Option<String>,
}

/// Whether the members describe `x`.
pub open spec fn device_decodes(e: Seq<(String, JsonValue)>, x: Device) -> bool {
    &&& str_value(lookup(e, "family"@)) == Some(x.family)
    &&& opt_str_value(lookup(e, "brand"@)) == Some(x.brand)
    &&& opt_str_value(lookup(e, "model"@)) == Some(x.model)
}

/// Whether an object's members hold a well-typed device.
pub open spec fn device_readable(e: Seq<(String, JsonValue)>) -> bool {
    &&& str_value(lookup(e, "family"@)).is_some()
    &&& opt_str_value(lookup(e, "brand"@)).is_some()
    &&& opt_str_value(lookup(e, "model"@)).is_some()
}

/// The members that a device is written as, in order.
pub open spec fn device_json_view(x: Device) -> Seq<(Seq<char>, JsonView)> {
    let s0 = Seq::empty();
    let s1 = s0.push(("family"@, JsonView::Str(x.family@)));
    let s2 = if x.brand is Some { s1.push(("brand"@, JsonView::Str(x.brand.unwrap()@))) } else { s1 };
    let s3 = if x.model is Some { s2.push(("model"@, JsonView::Str(x.model.unwrap()@))) } else { s2 };
    s3
}

impl Device {
    /// Reads the body from an object's members.
    pub fn decode(e: &Members) -> (r: Option<Device>)
        ensures
            r.is_some() == device_readable(e@),
            r.is_some() ==> device_decodes(e@, r.unwrap()),
    {
        let family = match str_from(find(e, "family")) {
            Some(x) => x,
            None => return None,
        };
        let brand = match opt_str_from(find(e, "brand")) {
            Some(x) => x,
            None => return None,
        };
        let model = match opt_str_from(find(e, "model")) {
            Some(x) => x,
            None => return None,
        };
        Some(Device {
            family,
            brand,
            model,
        })
    }

    /// The members of this body under their canonical names; reading them
    /// back gives this body.
    pub fn encode(&self) -> (r: Members)
        ensures
            device_decodes(r@, *self),
            members_view(r@) == device_json_view(*self),
    {
        proof {
            reveal_strlit("family");
            assert("family"@.len() == 6);
            reveal_strlit("brand");
            assert("brand"@.len() == 5);
            reveal_strlit("model");
            assert("model"@.len() == 5);
            assert("brand"@[0] != "model"@[0]);
        }
        let mut e: Members = Vec::new();
        assert(members_view(e@) =~= Seq::<(Seq<char>, JsonView)>::empty());
        let ghost before_1 = members_view(e@);
        put(&mut e, "family", JsonValue::Str(self.family.clone()));
        assert(members_view(e@) == before_1.push(("family"@, JsonView::Str(self.family@))));
        let ghost before_2 = members_view(e@);
        put_opt_str(&mut e, "brand", &self.brand);
        assert(members_view(e@) == if self.brand is Some { before_2.push(("brand"@, JsonView::Str(self.brand.unwrap()@))) } else { before_2 });
        let ghost before_3 = members_view(e@);
        put_opt_str(&mut e, "model", &self.model);
        assert(members_view(e@) == if self.model is Some { before_3.push(("model"@, JsonView::Str(self.model.unwrap()@))) } else { before_3 });
        e
    }
}

/// The parts of a URL.
#[derive(Debug, PartialEq, Eq)]
pub struct Url {
    pub host: Option<String>,
    pub path: String,
    pub query: Option<String>,
}

/// Whether the members describe `x`.
pub open spec fn url_decodes(e: Seq<(String, JsonValue)>, x: Url) -> bool {
    &&& opt_str_value(lookup(e, "host"@)) == Some(x.host)
    &&& str_value(lookup(e, "path"@)) == Some(x.path)
    &&& opt_str_value(lookup(e, "query"@)) == Some(x.query)
}

/// Whether an object's members hold a well-typed url.
pub open spec fn url_readable(e: Seq<(String, JsonValue)>) -> bool {
    &&& opt_str_value(lookup(e, "host"@)).is_some()
    &&& str_value(lookup(e, "path"@)).is_some()
    &&& opt_str_value(lookup(e, "query"@)).is_some()
}

/// The members that a url is written as, in order.
pub open spec fn url_json_view(x: Url) -> Seq<(Seq<char>, JsonView)> {
    let s0 = Seq::empty();
    let s1 = if x.host is Some { s0.push(("host"@, JsonView::Str(x.host.unwrap()@))) } else { s0 };
    let s2 = s1.push(("path"@, JsonView::Str(x.path@)));
    let s3 = if x.query is Some { s2.push(("query"@, JsonView::Str(x.query.unwrap()@))) } else { s2 };
    s3
}

impl Url {
    /// Reads the body from an object's members.
    pub fn decode(e: &Members) -> (r: Option<Url>)
        ensures
            r.is_some() == url_readable(e@),
            r.is_some() ==> url_decodes(e@, r.unwrap()),
    {
        let host = match opt_str_from(find(e, "host")) {
            Some(x) => x,
            None => return None,
        };
        let path = match str_from(find(e, "path")) {
            Some(x) => x,
            None => return None,
        };
        let query = match opt_str_from(find(e, "query")) {
            Some(x) => x,
            None => return None,
        };
        Some(Url {
            host,
            path,
            query,
        })
    }

    /// The members of this body under their canonical names; reading them
    /// back gives this body.
    pub fn encode(&self) -> (r: Members)
        ensures
            url_decodes(r@, *self),
            members_view(r@) == url_json_view(*self),
    {
        proof {
            reveal_strlit("host");
            assert("host"@.len() == 4);
            reveal_strlit("path");
            assert("path"@.len() == 4);
            reveal_strlit("query");
            assert("query"@.len() == 5);
            assert("host"@[0] != "path"@[0]);
        }
        let mut e: Members = Vec::new();
        assert(members_view(e@) =~= Seq::<(Seq<char>, JsonView)>::empty());
        let ghost before_1 = members_view(e@);
        put_opt_str(&mut e, "host", &self.host);
        assert(members_view(e@) == if self.host is Some { before_1.push(("host"@, JsonView::Str(self.host.unwrap()@))) } else { before_1 });
        let ghost before_2 = members_view(e@);
        put(&mut e, "path", JsonValue::Str(self.path.clone()));
        assert(members_view(e@) == before_2.push(("path"@, JsonView::Str(self.path@))));
        let ghost before_3 = members_view(e@);
        put_opt_str(&mut e, "query", &self.query);
        assert(members_view(e@) == if self.query is Some { before_3.push(("query"@, JsonView::Str(self.query.unwrap()@))) } else { before_3 });
        e
    }
}

/// What enrichment derives from a report: its client, operating system and device, and the parts of its URL.
#[derive(Debug, PartialEq, Eq)]
pub struct Derived {
    pub client: Client,
    pub os: Client,
    pub device: Device,
    pub url: Url,
}

/// Whether the members describe `x`.
pub open spec fn derived_decodes(e: Seq<(String, JsonValue)>, x: Derived) -> bool {
    &&& match lookup(e, "client"@) {
        Some(JsonValue::Object(m)) => client_decodes(m@, x.client),
        _ => false,
    }
    &&& match lookup(e, "os"@) {
        Some(JsonValue::Object(m)) => client_decodes(m@, x.os),
        _ => false,
    }
    &&& match lookup(e, "device"@) {
        Some(JsonValue::Object(m)) => device_decodes(m@, x.device),
        _ => false,
    }
    &&& match lookup(e, "url"@) {
        Some(JsonValue::Object(m)) => url_decodes(m@, x.url),
        _ => false,
    }
}

/// Whether an object's members hold a well-typed derived.
pub open spec fn derived_readable(e: Seq<(String, JsonValue)>) -> bool {
    &&& match lookup(e, "client"@) {
        Some(JsonValue::Object(m)) => client_readable(m@),
        _ => false,
    }
    &&& match lookup(e, "os"@) {
        Some(JsonValue::Object(m)) => client_readable(m@),
        _ => false,
    }
    &&& match lookup(e, "device"@) {
        Some(JsonValue::Object(m)) => device_readable(m@),
        _ => false,
    }
    &&& match lookup(e, "url"@) {
        Some(JsonValue::Object(m)) => url_readable(m@),
        _ => false,
    }
}

/// The members that a derived is written as, in order.
pub open spec fn derived_json_view(x: Derived) -> Seq<(Seq<char>, JsonView)> {
    let s0 = Seq::empty();
    let s1 = s0.push(("client"@, JsonView::Object(client_json_view(x.client))));
    let s2 = s1.push(("os"@, JsonView::Object(client_json_view(x.os))));
    let s3 = s2.push(("device"@, JsonView::Object(device_json_view(x.device))));
    let s4 = s3.push(("url"@, JsonView::Object(url_json_view(x.url))));
    s4
}

impl Derived {
    /// Reads the body from an object's members.
    pub fn decode(e: &Members) -> (r: Option<Derived>)
        ensures
            r.is_some() == derived_readable(e@),
            r.is_some() ==> derived_decodes(e@, r.unwrap()),
    {
        let client = match match find(e, "client") {
            Some(JsonValue::Object(m)) => Client::decode(m),
            _ => None,
        } {
            Some(x) => x,
            None => return None,
        };
        let os = match match find(e, "os") {
            Some(JsonValue::Object(m)) => Client::decode(m),
            _ => None,
        } {
            Some(x) => x,
            None => return None,
        };
        let device = match match find(e, "device") {
            Some(JsonValue::Object(m)) => Device::decode(m),
            _ => None,
        } {
            Some(x) => x,
            None => return None,
        };
        let url = match match find(e, "url") {
            Some(JsonValue::Object(m)) => Url::decode(m),
            _ => None,
        } {
            Some(x) => x,
            None => return None,
        };
        Some(Derived {
            client,
            os,
            device,
            url,
        })
    }

    /// The members of this body under their canonical names; reading them
    /// back gives this body.
    pub fn encode(&self) -> (r: Members)
        ensures
            derived_decodes(r@, *self),
            members_view(r@) == derived_json_view(*self),
    {
        proof {
            reveal_strlit("client");
            assert("client"@.len() == 6);
            reveal_strlit("os");
            assert("os"@.len() == 2);
            reveal_strlit("device");
            assert("device"@.len() == 6);
            reveal_strlit("url");
            assert("url"@.len() == 3);
            assert("client"@[0] != "device"@[0]);
        }
        let mut e: Members = Vec::new();
        assert(members_view(e@) =~= Seq::<(Seq<char>, JsonView)>::empty());
        let ghost before_1 = members_view(e@);
        put(&mut e, "client", JsonValue::Object(self.client.encode()));
        assert(members_view(e@) == before_1.push(("client"@, JsonView::Object(client_json_view(self.client)))));
        let ghost before_2 = members_view(e@);
        put(&mut e, "os", JsonValue::Object(self.os.encode()));
        assert(members_view(e@) == before_2.push(("os"@, JsonView::Object(client_json_view(self.os)))));
        let ghost before_3 = members_view(e@);
        put(&mut e, "device", JsonValue::Object(self.device.encode()));
        assert(members_view(e@) == before_3.push(("device"@, JsonView::Object(device_json_view(self.device)))));
        let ghost before_4 = members_view(e@);
        put(&mut e, "url", JsonValue::Object(self.url.encode()));
        assert(members_view(e@) == before_4.push(("url"@, JsonView::Object(url_json_view(self.url)))));
        e
    }
}

impl Client {
    pub open spec fn is_empty(&self) -> bool {
        &&& self.family@.len() == 0
        &&& self.major is None
        &&& self.minor is None
        &&& self.patch is None
        &&& self.patch_minor is None
    }
}

impl Device {
    pub open spec fn is_empty(&self) -> bool {
        self.family@.len() == 0 && self.brand is None && self.model is None
    }
}

impl Url {
    pub open spec fn is_empty(&self) -> bool {
        self.host is None && self.path@.len() == 0 && self.query is None
    }
}

impl Default for Client {
    fn default() -> (r: Client)
        ensures
            r.is_empty(),
    {
        Client { family: String::new(), major: None, minor: None, patch: None, patch_minor: None }
    }
}

impl Default for Device {
    fn default() -> (r: Device)
        ensures
            r.is_empty(),
    {
        Device { family: String::new(), brand: None, model: None }
    }
}

impl Default for Derived {
    fn default() -> (r: Derived)
        ensures
            r.client.is_empty() && r.os.is_empty() && r.device.is_empty() && r.url.is_empty(),
    {
        Derived { client: Client::default(), os: Client::default(), device: Device::default(), url: Url::default() }
    }
}

impl Default for Url {
    fn default() -> (r: Url)
        ensures
            r.is_empty(),
    {
        Url { host: None, path: String::new(), query: None }
    }
}

pub open spec fn opt_view(s: Option<String>) -> Option<Seq<char>> {
    match s {
        Some(t) => Some(t@),
        None => None,
    }
}

/// What the URL parser makes of a string: when it parses, its host (if it
/// has one), its path and its query (if it has one).
pub uninterp spec fn url_parts_of(s: Seq<char>) -> Option<(Option<Seq<char>>, Seq<char>, Option<Seq<char>>)>;

#[verifier::external_type_specification]
#[verifier::external_body]
pub struct ExUrlParseError(url::ParseError);

#[verifier::external_type_specification]
#[verifier::external_body]
pub struct ExUAParser(uaparser_rs::UAParser);

/// Relies on `url::Url::parse`, and on `host_str`, `path` and `query` of the
/// URL it returns.
#[verifier::external_body]
pub(crate) fn split_url(s: &str) -> (r: Result<(Option<String>, String, Option<String>), url::ParseError>)
    ensures
        r is Ok <==> url_parts_of(s@) is Some,
        r matches Ok(p) ==> url_parts_of(s@) == Some((opt_view(p.0), p.1@, opt_view(p.2))),
{
    let u = url::Url::parse(s)?;
    Ok((u.host_str().map(|h| h.to_string()), u.path().to_string(), u.query().map(|q| q.to_string())))
}

/// Splits a URL into host, path and query.
pub fn analyze_url(url: &str) -> (r: Result<Url, url::ParseError>)
    ensures
        r is Ok <==> url_parts_of(url@) is Some,
        r matches Ok(u) ==> url_parts_of(url@) == Some((opt_view(u.host), u.path@, opt_view(u.query))),
{
    match split_url(url) {
        Ok((host, path, query)) => Ok(Url { host, path, query }),
        Err(e) => Err(e),
    }
}

/// Relies on `uaparser_rs::UAParser::parse`, which matches the user agent
/// against the rule set the parser was loaded with; the parts it finds are
/// moved over field by field.
#[verifier::external_body]
fn parse_user_agent(parser: &uaparser_rs::UAParser, user_agent: &str) -> (r: (Client, Client, Device)) {
    let c = parser.parse(user_agent);
    let (ua, os, dev) = (c.user_agent, c.os, c.device);
    (
        Client { family: ua.family, major: ua.major, minor: ua.minor, patch: ua.patch, patch_minor: ua.patch_minor },
        Client { family: os.family, major: os.major, minor: os.minor, patch: os.patch, patch_minor: os.patch_minor },
        Device { family: dev.family, brand: dev.brand, model: dev.model },
    )
}

/// Splits a user agent into client, operating system and device, with the
/// rule set if one was loaded; without one all three are empty.
pub fn analyze_user_agent(rules: Option<&uaparser_rs::UAParser>, user_agent: &str) -> (r: (Client, Client, Device))
    ensures
        rules is None ==> r.0.is_empty() && r.1.is_empty() && r.2.is_empty(),
{
    match rules {
        Some(p) => parse_user_agent(p, user_agent),
        None => (Client::default(), Client::default(), Device::default()),
    }
}


} // verus!
