//! The freshness check over the data sources' metadata.
use vstd::prelude::*;
use chrono::Utc;
use crate::metadata::{SourceMetadata, BUILD_EPOCH_MIN, BUILD_EPOCH_MAX, utc_datetime, utc_datetime_text};

verus! {

/// The age, in seconds, from which a source counts as stale: two weeks and
/// one day.
pub const MAXIMUM_STALE_TTL: i64 = 604800 * 2 + 86400;

/// Relies on chrono's `Utc::now` and `DateTime::timestamp`: whole seconds
/// since the Unix epoch; `now` panics on a clock set before the epoch, so
/// what it returns is never negative.
#[verifier::external_body]
fn now_seconds() -> (r: i64)
    ensures
        r >= 0,
{
    Utc::now().timestamp()
}

/// The outcome of a freshness check.
pub struct HealthStatus {
    pub is_healthy: bool,
    pub reason: String,
}

/// The mathematical value of a `HealthStatus`.
pub ghost struct HealthFacts {
    pub is_healthy: bool,
    pub reason: Seq<char>,
}

impl View for HealthStatus {
    type V = HealthFacts;

    open spec fn view(&self) -> HealthFacts {
        HealthFacts { is_healthy: self.is_healthy, reason: self.reason@ }
    }
}

/// A source built at `build_epoch` is stale at `now` when its age has reached
/// `maximum_stale_ttl` seconds.
pub open spec fn stale_at(build_epoch: i64, now: i64, maximum_stale_ttl: i64) -> bool {
    now - build_epoch >= maximum_stale_ttl
}

/// The build timestamp of every source can be written out.
pub open spec fn writable_builds(sources: Seq<SourceMetadata>) -> bool {
    forall|i: int|
        0 <= i < sources.len() ==> BUILD_EPOCH_MIN <= #[trigger] sources[i].build_epoch
            <= BUILD_EPOCH_MAX
}

/// The reason given when every source is fresh.
pub open spec fn passed_reason() -> Seq<char> {
    "Check of databases passed"@
}

/// The reason given for a stale source.
pub open spec fn stale_reason_text(database_type: Seq<char>, build_datetime: Seq<char>) -> Seq<
    char,
> {
    "Database is stale ("@ + database_type + " build date: "@ + build_datetime + ")"@
}

/// The outcome for `sources` examined in order: the first stale one decides,
/// and the check passes when none is stale.
pub open spec fn health_of(sources: Seq<SourceMetadata>, now: i64, maximum_stale_ttl: i64) -> HealthFacts
    decreases sources.len(),
{
    if sources.len() == 0 {
        HealthFacts { is_healthy: true, reason: passed_reason() }
    } else if stale_at(sources[0].build_epoch, now, maximum_stale_ttl) {
        HealthFacts {
            is_healthy: false,
            reason: stale_reason_text(
                sources[0].database_type@,
                utc_datetime_text(sources[0].build_epoch as int),
            ),
        }
    } else {
        health_of(sources.drop_first(), now, maximum_stale_ttl)
    }
}

/// The first stale source decides the outcome: it is reported, and the
/// sources after it do not change the outcome.
pub proof fn lemma_first_stale_decides(
    sources: Seq<SourceMetadata>,
    i: int,
    now: i64,
    maximum_stale_ttl: i64,
)
    requires
        0 <= i < sources.len(),
        stale_at(sources[i].build_epoch, now, maximum_stale_ttl),
        forall|j: int| 0 <= j < i ==> !stale_at(#[trigger] sources[j].build_epoch, now, maximum_stale_ttl),
    ensures
        health_of(sources, now, maximum_stale_ttl) == (HealthFacts {
            is_healthy: false,
            reason: stale_reason_text(
                sources[i].database_type@,
                utc_datetime_text(sources[i].build_epoch as int),
            ),
        }),
        health_of(sources, now, maximum_stale_ttl) == health_of(
            sources.take(i + 1),
            now,
            maximum_stale_ttl,
        ),
    decreases i,
{
    if i > 0 {
        let rest = sources.drop_first();
        assert forall|j: int| 0 <= j < i - 1 implies !stale_at(
            #[trigger] rest[j].build_epoch,
            now,
            maximum_stale_ttl,
        ) by {
            assert(rest[j] == sources[j + 1]);
        }
        assert(!stale_at(sources[0].build_epoch, now, maximum_stale_ttl));
        lemma_first_stale_decides(rest, i - 1, now, maximum_stale_ttl);
        assert(sources.take(i + 1).drop_first() =~= rest.take(i));
    }
}

/// When no source is stale the check passes.
pub proof fn lemma_all_fresh_passes(sources: Seq<SourceMetadata>, now: i64, maximum_stale_ttl: i64)
    requires
        forall|j: int|
            0 <= j < sources.len() ==> !stale_at(#[trigger] sources[j].build_epoch, now, maximum_stale_ttl),
    ensures
        health_of(sources, now, maximum_stale_ttl) == (HealthFacts {
            is_healthy: true,
            reason: passed_reason(),
        }),
    decreases sources.len(),
{
    if sources.len() > 0 {
        let rest = sources.drop_first();
        assert(!stale_at(sources[0].build_epoch, now, maximum_stale_ttl));
        assert forall|j: int| 0 <= j < rest.len() implies !stale_at(
            #[trigger] rest[j].build_epoch,
            now,
            maximum_stale_ttl,
        ) by {
            assert(rest[j] == sources[j + 1]);
        }
        lemma_all_fresh_passes(rest, now, maximum_stale_ttl);
    }
}

/// Whether a source built at `build_epoch` is stale at `now`.
pub fn is_stale(build_epoch: i64, now: i64, maximum_stale_ttl: i64) -> (r: bool)
    ensures
        r == stale_at(build_epoch, now, maximum_stale_ttl),
{
    (now as i128) - (build_epoch as i128) >= maximum_stale_ttl as i128
}

/// The reason given for a stale source of type `database_type`, whose build
/// moment is written `build_datetime`.
pub fn stale_reason(database_type: &String, build_datetime: &String) -> (r: String)
    ensures
        r@ == stale_reason_text(database_type@, build_datetime@),
{
    let mut reason = String::from_str("Database is stale (");
    reason.append(database_type.as_str());
    reason.append(" build date: ");
    reason.append(build_datetime.as_str());
    reason.append(")");
    reason
}

impl HealthStatus {
    /// The outcome when every source is fresh.
    pub fn passed() -> (r: HealthStatus)
        ensures
            r@ == (HealthFacts { is_healthy: true, reason: passed_reason() }),
    {
        HealthStatus { is_healthy: true, reason: String::from_str("Check of databases passed") }
    }
}

/// Checks `sources` in order at time `now`: the first source whose age has
/// reached `maximum_stale_ttl` makes the outcome unhealthy, and the sources
/// after it are not examined.
pub fn evaluate_freshness(sources: &Vec<SourceMetadata>, now: i64, maximum_stale_ttl: i64) -> (r:
    HealthStatus)
    requires
        writable_builds(sources@),
    ensures
        r@ == health_of(sources@, now, maximum_stale_ttl),
{
    let n = sources.len();
    let mut i: usize = 0;
    assert(sources@.skip(0) =~= sources@);
    while i < n
        invariant
            n == sources@.len(),
            0 <= i <= n,
            writable_builds(sources@),
            health_of(sources@, now, maximum_stale_ttl) == health_of(
                sources@.skip(i as int),
                now,
                maximum_stale_ttl,
            ),
        decreases n - i,
    {
        let source = &sources[i];
        assert(sources@.skip(i as int)[0] == sources@[i as int]);
        if is_stale(source.build_epoch, now, maximum_stale_ttl) {
            let build_datetime = utc_datetime(source.build_epoch);
            let reason = stale_reason(&source.database_type, &build_datetime);
            return HealthStatus { is_healthy: false, reason };
        }
        assert(sources@.skip(i as int).drop_first() =~= sources@.skip(i + 1));
        i = i + 1;
    }
    assert(sources@.skip(n as int) =~= Seq::<SourceMetadata>::empty());
    HealthStatus::passed()
}

/// Checks `sources` in order against the current time and the standard
/// threshold of two weeks and one day.
pub fn check_health(sources: &Vec<SourceMetadata>) -> (r: HealthStatus)
    requires
        writable_builds(sources@),
    ensures
        exists|now: i64| now >= 0 && r@ == health_of(sources@, now, MAXIMUM_STALE_TTL),
{
    let now = now_seconds();
    evaluate_freshness(sources, now, MAXIMUM_STALE_TTL)
}

} // verus!
