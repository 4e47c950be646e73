//! Resolution and normalization of the network and geographic facts known
//! about an IP address, and a freshness check over the data sources.

pub mod names;
pub mod asn;
pub mod city;
pub mod summary;
pub mod lookup;
pub mod metadata;
pub mod freshness;

pub use asn::{AsnRecord, LookupAsnResult, lookup_asn};
pub use city::{CityEntry, CityRecord, LookupCityResult, PlaceEntry, lookup_city};
pub use freshness::{HealthStatus, MAXIMUM_STALE_TTL, check_health, evaluate_freshness};
pub use lookup::{Address, LookupResult, lookup};
pub use metadata::SourceMetadata;
pub use names::{LocaleNames, select_locale};
pub use summary::get_summary;
