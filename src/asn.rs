//! Normalization of an autonomous-system lookup.
use vstd::prelude::*;
use crate::names::{sentinel, sentinel_string};

verus! {

/// What the ASN source answered for an address; each field may be absent.
pub struct AsnRecord {
    pub autonomous_system_number: Option<u32>,
    pub autonomous_system_organization: Option<String>,
}

/// The normalized ASN facts of an address: always fully populated.
pub struct LookupAsnResult {
    pub asn: u32,
    pub asn_organization: String,
}

/// The mathematical value of a `LookupAsnResult`.
pub ghost struct AsnFacts {
    pub asn: u32,
    pub asn_organization: Seq<char>,
}

impl View for LookupAsnResult {
    type V = AsnFacts;

    open spec fn view(&self) -> AsnFacts {
        AsnFacts { asn: self.asn, asn_organization: self.asn_organization@ }
    }
}

/// The facts that an ASN lookup answer resolves to: the number or 0, the
/// organization or the sentinel, each independently; both defaults when the
/// lookup gave no record.
pub open spec fn resolved_asn(record: Option<AsnRecord>) -> AsnFacts {
    match record {
        Some(r) => AsnFacts {
            asn: match r.autonomous_system_number {
                Some(n) => n,
                None => 0,
            },
            asn_organization: match r.autonomous_system_organization {
                Some(o) => o@,
                None => sentinel(),
            },
        },
        None => AsnFacts { asn: 0, asn_organization: sentinel() },
    }
}

/// Normalizes the ASN source's answer for one address (`None`: not found or
/// the lookup failed).
pub fn lookup_asn(record: Option<AsnRecord>) -> (r: LookupAsnResult)
    ensures
        r@ == resolved_asn(record),
{
    match record {
        Some(rec) => {
            let asn = match rec.autonomous_system_number {
                Some(n) => n,
                None => 0,
            };
            let asn_organization = match rec.autonomous_system_organization {
                Some(o) => o,
                None => sentinel_string(),
            };
            LookupAsnResult { asn, asn_organization }
        },
        None => LookupAsnResult { asn: 0, asn_organization: sentinel_string() },
    }
}

} // verus!
