//! The one-line human-readable summary of an address's facts.
use vstd::prelude::*;
use crate::asn::{AsnFacts, LookupAsnResult};
use crate::city::{CityFacts, LookupCityResult};

verus! {

/// The decimal digits, in order of value.
pub open spec fn digits() -> Seq<char> {
    seq!['0', '1', '2', '3', '4', '5', '6', '7', '8', '9']
}

/// The decimal notation of `n`, without sign or leading zeros.
pub open spec fn decimal_text(n: nat) -> Seq<char>
    decreases n,
{
    if n < 10 {
        seq![digits()[n as int]]
    } else {
        decimal_text(n / 10).push(digits()[(n % 10) as int])
    }
}

/// The digit of value `d`.
fn digit(d: u64) -> (r: &'static str)
    requires
        d < 10,
    ensures
        r@ == seq![digits()[d as int]],
{
    proof {
        reveal_strlit("0123456789");
    }
    "0123456789".substring_ascii(d as usize, d as usize + 1)
}

/// The decimal notation of `n`.
pub fn decimal_string(n: u64) -> (r: String)
    ensures
        r@ == decimal_text(n as nat),
    decreases n,
{
    if n < 10 {
        String::from_str(digit(n))
    } else {
        let mut s = decimal_string(n / 10);
        s.append(digit(n % 10));
        s
    }
}

/// The summary of an address's facts:
/// `<city>,<subdivision code>/<country code>; <organization> (<asn>);`,
/// with every field written as it stands.
pub open spec fn summary_text(asn: AsnFacts, city: CityFacts) -> Seq<char> {
    city.city + seq![','] + city.subdivisions.0 + seq!['/'] + city.country.0 + seq![';', ' ']
        + asn.asn_organization + seq![' ', '('] + decimal_text(asn.asn as nat) + seq![')', ';']
}

/// Builds the one-line summary of an address's ASN and city facts.
pub fn get_summary(asn: &LookupAsnResult, city: &LookupCityResult) -> (r: String)
    ensures
        r@ == summary_text(asn@, city@),
{
    proof {
        reveal_strlit(",");
        reveal_strlit("/");
        reveal_strlit("; ");
        reveal_strlit(" (");
        reveal_strlit(");");
    }
    let mut summary = city.city.clone();
    summary.append(",");
    summary.append(city.subdivisions.0.as_str());
    summary.append("/");
    summary.append(city.country.0.as_str());
    summary.append("; ");
    summary.append(asn.asn_organization.as_str());
    summary.append(" (");
    summary.append(decimal_string(asn.asn as u64).as_str());
    summary.append(");");
    assert(summary@ =~= summary_text(asn@, city@));
    summary
}

} // verus!
