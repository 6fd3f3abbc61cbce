//! Ingestion of browser and mail-server reports: typed schemas decoded from
//! JSON and markup trees, a domain admission filter, enrichment, dispatch
//! into one decorated record, and the decisions of the mailbox poller.

pub mod json;
pub mod fields;
pub mod xml;

pub mod coep;
pub mod coop;
pub mod crash;
pub mod csp;
pub mod deprecation;
pub mod integrity;
pub mod intervention;
pub mod nel;
pub mod permissions;
pub mod reporting_api;
pub mod smtp_tls;
pub mod dmarc;
pub mod tls_cert;

pub mod config;
pub mod derivation;
pub mod filter;
pub mod reports;
pub mod poller;
