//! What a certificate probe found, and the validity questions asked of it.
//! Times are seconds since the Unix epoch.

use vstd::prelude::*;

verus! {

#[derive(Debug, PartialEq, Eq)]
pub struct CertificateIssuer {
    pub common_name: String,
    pub organization_name: String,
    pub country_name: String,
}

#[derive(Debug, PartialEq, Eq)]
pub struct CertificateSubject {
    pub common_name: String,
}

#[derive(Debug, PartialEq, Eq)]
pub struct CertificateInfo {
    pub serial_number: String,
    pub issuer: CertificateIssuer,
    pub subject: CertificateSubject,
    pub subject_alt_names: Vec<String>,
    pub not_before: i64,
    pub not_after: i64,
}

/// Whole days in a span of seconds, rounded toward zero.
pub open spec fn whole_days(span: int) -> int {
    if span >= 0 {
        span / 86400
    } else {
        -((-span) / 86400)
    }
}

impl CertificateInfo {
    /// Whether `now` lies within the validity period.
    pub fn is_valid(&self, now: i64) -> (r: bool)
        ensures
            r == (self.not_before <= now && now <= self.not_after),
    {
        self.not_before <= now && now <= self.not_after
    }

    /// Whole days from `now` until the certificate expires; negative once it
    /// has.
    pub fn get_days_until_expiration(&self, now: i64) -> (r: i64)
        ensures
            r as int == whole_days(self.not_after - now),
    {
        let span: i128 = self.not_after as i128 - now as i128;
        let days: i128 = if span >= 0 {
            span / 86400
        } else {
            -((-span) / 86400)
        };
        assert(-0x7fff_ffff_ffff_ffffi128 <= days <= 0x7fff_ffff_ffff_ffffi128) by (nonlinear_arith)
            requires
                days == whole_days(span as int),
                -0x1_0000_0000_0000_0000i128 < span < 0x1_0000_0000_0000_0000i128,
        ;
        days as i64
    }
}

} // verus!
