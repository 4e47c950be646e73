//! The metadata of a data source and its one-line description.
use vstd::prelude::*;
use chrono::DateTime;
use crate::summary::{decimal_string, decimal_text};

verus! {

/// The earliest build timestamp whose moment can be written out.
pub const BUILD_EPOCH_MIN: i64 = -8_000_000_000_000;

/// The latest build timestamp whose moment can be written out.
pub const BUILD_EPOCH_MAX: i64 = 8_000_000_000_000;

/// The text that chrono's `Display` writes for the UTC moment `secs` seconds
/// after the Unix epoch (`2024-07-30 12:48:06 UTC`).
pub uninterp spec fn utc_datetime_text(secs: int) -> Seq<char>;

/// The text that chrono's `Debug` writes for the UTC moment `secs` seconds
/// after the Unix epoch (`2024-07-30T12:48:06Z`).
pub uninterp spec fn utc_datetime_debug_text(secs: int) -> Seq<char>;

/// Relies on chrono's `DateTime::from_timestamp`, which gives a moment for
/// every second within its years (-262143 to 262142, wider than the bounds
/// required here), and on the `Display` of `DateTime<Utc>`, whose text
/// depends on that moment alone.
#[verifier::external_body]
pub(crate) fn utc_datetime(secs: i64) -> (r: String)
    requires
        BUILD_EPOCH_MIN <= secs <= BUILD_EPOCH_MAX,
    ensures
        r@ == utc_datetime_text(secs as int),
{
    DateTime::from_timestamp(secs, 0).unwrap().to_string()
}

/// Relies on chrono's `DateTime::from_timestamp`, as `utc_datetime` does, and
/// on the `Debug` of `DateTime<Utc>`, whose text depends on the moment alone.
#[verifier::external_body]
fn utc_datetime_debug(secs: i64) -> (r: String)
    requires
        BUILD_EPOCH_MIN <= secs <= BUILD_EPOCH_MAX,
    ensures
        r@ == utc_datetime_debug_text(secs as int),
{
    format!("{:?}", DateTime::from_timestamp(secs, 0).unwrap())
}

/// What the metadata of one data source says of it.
pub struct SourceMetadata {
    pub database_type: String,
    pub build_epoch: i64,
    pub binary_format_major_version: u16,
    pub binary_format_minor_version: u16,
    pub node_count: u64,
    pub record_size: u16,
}

/// The one-line description of a source, whose build moment is written
/// `build_datetime`.
pub open spec fn description_text(meta: SourceMetadata, build_datetime: Seq<char>) -> Seq<char> {
    "Using "@ + meta.database_type@ + " (v"@ + decimal_text(meta.binary_format_major_version as nat)
        + "."@ + decimal_text(meta.binary_format_minor_version as nat) + ") build on: "@
        + build_datetime + ", node count: "@ + decimal_text(meta.node_count as nat)
        + ", record size: "@ + decimal_text(meta.record_size as nat)
}

/// Describes a source in one line, its build moment written `build_datetime`.
pub fn source_description(meta: &SourceMetadata, build_datetime: &String) -> (r: String)
    ensures
        r@ == description_text(*meta, build_datetime@),
{
    let mut line = String::from_str("Using ");
    line.append(meta.database_type.as_str());
    line.append(" (v");
    line.append(decimal_string(meta.binary_format_major_version as u64).as_str());
    line.append(".");
    line.append(decimal_string(meta.binary_format_minor_version as u64).as_str());
    line.append(") build on: ");
    line.append(build_datetime.as_str());
    line.append(", node count: ");
    line.append(decimal_string(meta.node_count).as_str());
    line.append(", record size: ");
    line.append(decimal_string(meta.record_size as u64).as_str());
    line
}

impl SourceMetadata {
    /// Describes the source in one line, with its build moment as chrono's
    /// `Debug` writes it.
    pub fn describe(&self) -> (r: String)
        requires
            BUILD_EPOCH_MIN <= self.build_epoch <= BUILD_EPOCH_MAX,
        ensures
            r@ == description_text(*self, utc_datetime_debug_text(self.build_epoch as int)),
    {
        let build_datetime = utc_datetime_debug(self.build_epoch);
        source_description(self, &build_datetime)
    }
}

} // verus!
