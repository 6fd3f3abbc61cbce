//! Process configuration: listening address, TLS, mailbox access and the
//! domain whitelist.

use vstd::prelude::*;
use vstd::string::*;

verus! {

/// The whole configuration of the service.
#[derive(Debug, Clone)]
pub struct NetworkJournalConfig {
    pub listen: String,
    pub port: u16,
    pub tls: TlsConfig,
    pub imap: ImapConfig,
    pub filter: FilterConfig,
}

/// TLS for the HTTP listener; the paths name PEM files.
#[derive(Debug, Clone)]
pub struct TlsConfig {
    pub enable: bool,
    pub cert: Option<String>,
    pub key: Option<String>,
}

/// Access to the mailbox that DMARC reports are delivered to.
#[derive(Debug, Clone)]
pub struct ImapConfig {
    pub enable: bool,
    pub host: String,
    pub port: u16,
    pub username: String,
    pub password: String,
}

/// The domain admission policy; an empty whitelist admits every domain.
#[derive(Debug, Clone)]
pub struct FilterConfig {
    pub domain_whitelist: Vec<String>,
}

impl Default for NetworkJournalConfig {
    fn default() -> (r: Self)
        ensures
            r.listen@ == "127.0.0.1"@,
            r.port == 8080,
            !r.tls.enable && r.tls.cert is None && r.tls.key is None,
            !r.imap.enable && r.imap.host@ == "127.0.0.1"@ && r.imap.port == 993,
            r.imap.username@.len() == 0 && r.imap.password@.len() == 0,
            r.filter.domain_whitelist@.len() == 0,
    {
        NetworkJournalConfig {
            listen: String::from_str("127.0.0.1"),
            port: 8080,
            tls: TlsConfig::default(),
            imap: ImapConfig::default(),
            filter: FilterConfig::default(),
        }
    }
}

impl Default for TlsConfig {
    fn default() -> (r: Self)
        ensures
            !r.enable && r.cert is None && r.key is None,
    {
        TlsConfig { enable: false, cert: None, key: None }
    }
}

impl Default for ImapConfig {
    fn default() -> (r: Self)
        ensures
            !r.enable,
            r.host@ == "127.0.0.1"@,
            r.port == 993,
            r.username@.len() == 0,
            r.password@.len() == 0,
    {
        proof {
            reveal_strlit("");
        }
        ImapConfig {
            enable: false,
            host: String::from_str("127.0.0.1"),
            port: 993,
            username: String::new(),
            password: String::new(),
        }
    }
}

impl Default for FilterConfig {
    fn default() -> (r: Self)
        ensures
            r.domain_whitelist@.len() == 0,
    {
        FilterConfig { domain_whitelist: Vec::new() }
    }
}

} // verus!
