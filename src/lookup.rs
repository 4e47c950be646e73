//! The composite result for one address: ASN facts, city facts and summary.
use vstd::prelude::*;
use crate::asn::{AsnRecord, lookup_asn, resolved_asn};
use crate::city::{CityRecord, lookup_city, resolved_city, sentinel_pair};
use crate::names::sentinel;
use crate::summary::{get_summary, summary_text};

verus! {

/// An IPv4 or IPv6 address, as the number its bits spell.
#[derive(Clone, Copy, Debug, PartialEq, Eq, Structural)]
pub enum Address {
    V4(u32),
    V6(u128),
}

/// Everything known about one address.
pub struct LookupResult {
    pub address: Address,
    pub asn: u32,
    pub asn_organization: String,
    pub city: String,
    pub continent: (String, String),
    pub country: (String, String),
    pub subdivisions: (String, String),
    pub summary: String,
}

/// The mathematical value of a `LookupResult`.
pub ghost struct LookupFacts {
    pub address: Address,
    pub asn: u32,
    pub asn_organization: Seq<char>,
    pub city: Seq<char>,
    pub continent: (Seq<char>, Seq<char>),
    pub country: (Seq<char>, Seq<char>),
    pub subdivisions: (Seq<char>, Seq<char>),
    pub summary: Seq<char>,
}

impl View for LookupResult {
    type V = LookupFacts;

    open spec fn view(&self) -> LookupFacts {
        LookupFacts {
            address: self.address,
            asn: self.asn,
            asn_organization: self.asn_organization@,
            city: self.city@,
            continent: (self.continent.0@, self.continent.1@),
            country: (self.country.0@, self.country.1@),
            subdivisions: (self.subdivisions.0@, self.subdivisions.1@),
            summary: self.summary@,
        }
    }
}

/// The composite facts of `address`, given what the ASN and the city sources
/// answered for it: each part normalized on its own, and their summary.
pub open spec fn resolved_lookup(
    address: Address,
    asn: Option<AsnRecord>,
    city: Option<CityRecord>,
) -> LookupFacts {
    let a = resolved_asn(asn);
    let c = resolved_city(city);
    LookupFacts {
        address,
        asn: a.asn,
        asn_organization: a.asn_organization,
        city: c.city,
        continent: c.continent,
        country: c.country,
        subdivisions: c.subdivisions,
        summary: summary_text(a, c),
    }
}

/// Merges the two sources' answers for `address` into one result. A missing
/// answer degrades only its own fields to their defaults.
pub fn lookup(address: Address, asn: Option<AsnRecord>, city: Option<CityRecord>) -> (r:
    LookupResult)
    ensures
        r@ == resolved_lookup(address, asn, city),
        r.address == address,
{
    let asn_result = lookup_asn(asn);
    let city_result = lookup_city(city);
    let summary = get_summary(&asn_result, &city_result);
    LookupResult {
        address,
        asn: asn_result.asn,
        asn_organization: asn_result.asn_organization,
        city: city_result.city,
        continent: city_result.continent,
        country: city_result.country,
        subdivisions: city_result.subdivisions,
        summary,
    }
}

/// Where the ASN source has no answer, the result carries ASN 0 and the
/// sentinel organization; where the city source has none, the sentinel in
/// every city, continent, country and subdivision slot.
pub proof fn lemma_absent_answers_default(
    address: Address,
    asn: Option<AsnRecord>,
    city: Option<CityRecord>,
)
    ensures
        asn is None ==> resolved_lookup(address, asn, city).asn == 0
            && resolved_lookup(address, asn, city).asn_organization == sentinel(),
        city is None ==> resolved_lookup(address, asn, city).city == sentinel()
            && resolved_lookup(address, asn, city).continent == sentinel_pair()
            && resolved_lookup(address, asn, city).country == sentinel_pair()
            && resolved_lookup(address, asn, city).subdivisions == sentinel_pair(),
{
}

/// The result names the address that was asked about, whatever the sources
/// answered.
pub proof fn lemma_address_echoed(address: Address, asn: Option<AsnRecord>, city: Option<CityRecord>)
    ensures
        resolved_lookup(address, asn, city).address == address,
{
}

/// Two lookups of one address, against sources that answer the same, give
/// equal results.
pub proof fn lemma_lookup_repeatable(
    address: Address,
    asn: Option<AsnRecord>,
    city: Option<CityRecord>,
    first: LookupResult,
    second: LookupResult,
)
    requires
        first@ == resolved_lookup(address, asn, city),
        second@ == resolved_lookup(address, asn, city),
    ensures
        first@ == second@,
{
}

} // verus!
