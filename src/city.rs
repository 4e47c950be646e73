//! Normalization of a city/region/country lookup.
use vstd::prelude::*;
use crate::names::{LocaleNames, locale, locale_string, pick_name, select_locale, sentinel, sentinel_string};

verus! {

/// The city part of a city lookup answer.
pub struct CityEntry {
    pub names: Option<LocaleNames>,
}

/// A continent, a country or a subdivision in a city lookup answer: a code
/// and names, each of which may be absent.
pub struct PlaceEntry {
    pub code: Option<String>,
    pub names: Option<LocaleNames>,
}

/// What the city source answered for an address; each part may be absent.
pub struct CityRecord {
    pub city: Option<CityEntry>,
    pub continent: Option<PlaceEntry>,
    pub country: Option<PlaceEntry>,
    /// Administrative divisions, largest first.
    pub subdivisions: Option<Vec<PlaceEntry>>,
}

/// The normalized city facts of an address: every slot is populated.
pub struct LookupCityResult {
    pub city: String,
    pub continent: (String, String),
    pub country: (String, String),
    pub subdivisions: (String, String),
}

/// The mathematical value of a `LookupCityResult`.
pub ghost struct CityFacts {
    pub city: Seq<char>,
    pub continent: (Seq<char>, Seq<char>),
    pub country: (Seq<char>, Seq<char>),
    pub subdivisions: (Seq<char>, Seq<char>),
}

impl View for LookupCityResult {
    type V = CityFacts;

    open spec fn view(&self) -> CityFacts {
        CityFacts {
            city: self.city@,
            continent: (self.continent.0@, self.continent.1@),
            country: (self.country.0@, self.country.1@),
            subdivisions: (self.subdivisions.0@, self.subdivisions.1@),
        }
    }
}

/// The sentinel pair.
pub open spec fn sentinel_pair() -> (Seq<char>, Seq<char>) {
    (sentinel(), sentinel())
}

/// The (code, name) pair of a place: the code or the sentinel, and the
/// reported locale's name or the sentinel; the sentinel pair when absent.
pub open spec fn place_pair(place: Option<PlaceEntry>) -> (Seq<char>, Seq<char>) {
    match place {
        Some(p) => (
            match p.code {
                Some(c) => c@,
                None => sentinel(),
            },
            pick_name(p.names, locale()),
        ),
        None => sentinel_pair(),
    }
}

/// The first subdivision, if the list is present and not empty.
pub open spec fn first_subdivision(subdivisions: Option<Vec<PlaceEntry>>) -> Option<PlaceEntry> {
    match subdivisions {
        Some(v) => if v@.len() > 0 {
            Some(v@[0])
        } else {
            None
        },
        None => None,
    }
}

/// The facts that a city lookup answer resolves to, each part on its own.
pub open spec fn resolved_city(record: Option<CityRecord>) -> CityFacts {
    match record {
        Some(r) => CityFacts {
            city: match r.city {
                Some(c) => pick_name(c.names, locale()),
                None => sentinel(),
            },
            continent: place_pair(r.continent),
            country: place_pair(r.country),
            subdivisions: place_pair(first_subdivision(r.subdivisions)),
        },
        None => CityFacts {
            city: sentinel(),
            continent: sentinel_pair(),
            country: sentinel_pair(),
            subdivisions: sentinel_pair(),
        },
    }
}

/// Each part of a city answer defaults on its own: an absent part gives its
/// own default, and a present part gives its own code and name whatever the
/// other parts hold.
pub proof fn lemma_parts_default_independently(record: CityRecord)
    ensures
        resolved_city(Some(record)).continent == place_pair(record.continent),
        resolved_city(Some(record)).country == place_pair(record.country),
        record.continent is None ==> resolved_city(Some(record)).continent == sentinel_pair(),
        record.country is None ==> resolved_city(Some(record)).country == sentinel_pair(),
        record.country matches Some(c) ==> resolved_city(Some(record)).country == (
            match c.code {
                Some(code) => code@,
                None => sentinel(),
            },
            pick_name(c.names, locale()),
        ),
        record.continent matches Some(c) ==> resolved_city(Some(record)).continent == (
            match c.code {
                Some(code) => code@,
                None => sentinel(),
            },
            pick_name(c.names, locale()),
        ),
{
}

/// A pair of sentinels.
fn sentinel_strings() -> (r: (String, String))
    ensures
        r.0@ == sentinel(),
        r.1@ == sentinel(),
{
    (sentinel_string(), sentinel_string())
}

/// The (code, name) pair of a present place.
fn place_strings(p: &PlaceEntry) -> (r: (String, String))
    ensures
        (r.0@, r.1@) == place_pair(Some(*p)),
{
    let code = match &p.code {
        Some(c) => c.clone(),
        None => sentinel_string(),
    };
    let name = select_locale(&p.names, &locale_string());
    (code, name)
}

/// The (code, name) pair of a place, with the sentinel for what is absent.
pub fn resolve_place(place: &Option<PlaceEntry>) -> (r: (String, String))
    ensures
        (r.0@, r.1@) == place_pair(*place),
{
    match place {
        Some(p) => place_strings(p),
        None => sentinel_strings(),
    }
}

/// Normalizes the city source's answer for one address (`None`: not found
/// or the lookup failed). Only the first subdivision is reported.
pub fn lookup_city(record: Option<CityRecord>) -> (r: LookupCityResult)
    ensures
        r@ == resolved_city(record),
{
    match record {
        Some(rec) => {
            let city = match &rec.city {
                Some(c) => select_locale(&c.names, &locale_string()),
                None => sentinel_string(),
            };
            let continent = resolve_place(&rec.continent);
            let country = resolve_place(&rec.country);
            let subdivisions = match &rec.subdivisions {
                Some(v) => if v.len() > 0 {
                    place_strings(&v[0])
                } else {
                    sentinel_strings()
                },
                None => sentinel_strings(),
            };
            LookupCityResult { city, continent, country, subdivisions }
        },
        None => {
            let city = sentinel_string();
            LookupCityResult {
                city,
                continent: sentinel_strings(),
                country: sentinel_strings(),
                subdivisions: sentinel_strings(),
            }
        },
    }
}

} // verus!
