//! Weather policy: WMO code families, cache freshness, refresh admission
//! (single flight and manual cooldown) and provider response classification.
//! Network access, JSON and the floating-point forecast values stay with the
//! host; it hands the outcomes to these rules.
use vstd::prelude::*;
use vstd::string::StringSliceAdditionalSpecFns;
use crate::text::{owned, trim, trim_exec};

verus! {

/// Seconds after which a cached forecast should be refreshed.
pub const REFRESH_AFTER_SECONDS: i64 = 3600;
/// Seconds from which a cached forecast is stale.
pub const STALE_AFTER_SECONDS: i64 = 7200;
/// Seconds beyond which a cached forecast is very stale.
pub const VERY_STALE_AFTER_SECONDS: i64 = 86400;
/// Milliseconds a manual refresh must wait after the previous one.
pub const MANUAL_REFRESH_COOLDOWN_MS: u64 = 30000;

#[derive(Clone, Copy, Debug, PartialEq, Eq, Structural)]
pub enum WeatherCondition {
    Clear,
    MainlyClear,
    PartlyCloudy,
    Cloudy,
    Fog,
    Drizzle,
    Rain,
    Snow,
    Showers,
    Thunderstorm,
    Unknown,
}

/// The condition family of a WMO weather code.
pub open spec fn wmo_family(code: i32) -> WeatherCondition {
    if code == 0 {
        WeatherCondition::Clear
    } else if code == 1 {
        WeatherCondition::MainlyClear
    } else if code == 2 {
        WeatherCondition::PartlyCloudy
    } else if code == 3 {
        WeatherCondition::Cloudy
    } else if code == 45 || code == 48 {
        WeatherCondition::Fog
    } else if code == 51 || code == 53 || code == 55 || code == 56 || code == 57 {
        WeatherCondition::Drizzle
    } else if code == 61 || code == 63 || code == 65 || code == 66 || code == 67 {
        WeatherCondition::Rain
    } else if code == 71 || code == 73 || code == 75 || code == 77 {
        WeatherCondition::Snow
    } else if 80 <= code <= 86 {
        WeatherCondition::Showers
    } else if code == 95 || code == 96 || code == 99 {
        WeatherCondition::Thunderstorm
    } else {
        WeatherCondition::Unknown
    }
}

/// Maps a WMO weather code to its condition family; unknown codes map to
/// `Unknown`.
pub fn condition_from_wmo(code: i32) -> (r: WeatherCondition)
    ensures
        r == wmo_family(code),
{
    match code {
        0 => WeatherCondition::Clear,
        1 => WeatherCondition::MainlyClear,
        2 => WeatherCondition::PartlyCloudy,
        3 => WeatherCondition::Cloudy,
        45 | 48 => WeatherCondition::Fog,
        51 | 53 | 55 | 56 | 57 => WeatherCondition::Drizzle,
        61 | 63 | 65 | 66 | 67 => WeatherCondition::Rain,
        71 | 73 | 75 | 77 => WeatherCondition::Snow,
        80..=86 => WeatherCondition::Showers,
        95 | 96 | 99 => WeatherCondition::Thunderstorm,
        _ => WeatherCondition::Unknown,
    }
}

/// Freshness of a cached forecast.
#[derive(Clone, Copy, Debug, PartialEq, Eq, Structural)]
pub enum CacheStatus {
    Fresh,
    Stale,
    VeryStale,
    Missing,
}

/// Fresh below two hours, stale up to a day, very stale beyond.
pub open spec fn cache_status_spec(age_seconds: i64) -> CacheStatus {
    if age_seconds < STALE_AFTER_SECONDS {
        CacheStatus::Fresh
    } else if age_seconds <= VERY_STALE_AFTER_SECONDS {
        CacheStatus::Stale
    } else {
        CacheStatus::VeryStale
    }
}

/// Classifies the age of a cached forecast.
pub fn cache_status(age_seconds: i64) -> (r: CacheStatus)
    ensures
        r == cache_status_spec(age_seconds),
{
    if age_seconds < STALE_AFTER_SECONDS {
        CacheStatus::Fresh
    } else if age_seconds <= VERY_STALE_AFTER_SECONDS {
        CacheStatus::Stale
    } else {
        CacheStatus::VeryStale
    }
}

/// Older caches are never fresher: freshness is monotone in age.
pub proof fn cache_status_is_monotone(a: i64, b: i64)
    requires
        a <= b,
    ensures
        cache_status_spec(a) == CacheStatus::VeryStale ==> cache_status_spec(b) == CacheStatus::VeryStale,
        cache_status_spec(b) == CacheStatus::Fresh ==> cache_status_spec(a) == CacheStatus::Fresh,
{
}

impl CacheStatus {
    /// The name diagnostics print.
    pub fn name(self) -> (r: &'static str)
        ensures
            r@ == match self {
                CacheStatus::Fresh => "fresh"@,
                CacheStatus::Stale => "stale"@,
                CacheStatus::VeryStale => "very-stale"@,
                CacheStatus::Missing => "missing"@,
            },
    {
        match self {
            CacheStatus::Fresh => "fresh",
            CacheStatus::Stale => "stale",
            CacheStatus::VeryStale => "very-stale",
            CacheStatus::Missing => "missing",
        }
    }
}

/// Age of a cached forecast in seconds, never negative (a clock set back
/// reads as age zero).
pub open spec fn cache_age_spec(now: i64, fetched_at: i64) -> i64 {
    let d = now - fetched_at;
    if d < 0 {
        0
    } else if d > i64::MAX {
        i64::MAX
    } else {
        d as i64
    }
}

/// `now - fetched_at`, saturating, and at least zero.
pub fn cache_age(now: i64, fetched_at: i64) -> (r: i64)
    ensures
        r == cache_age_spec(now, fetched_at),
{
    let d: i128 = (now as i128) - (fetched_at as i128);
    if d < 0 {
        0
    } else if d > 9223372036854775807i128 {
        9223372036854775807i64
    } else {
        d as i64
    }
}

/// The freshness part of the weather view: a missing snapshot is `Missing`
/// and recommends a refresh; otherwise the age decides both.
pub fn cache_view(age: Option<i64>) -> (r: (CacheStatus, bool))
    ensures
        match age {
            None => r == (CacheStatus::Missing, true),
            Some(a) => r == (cache_status_spec(a), a >= REFRESH_AFTER_SECONDS),
        },
{
    match age {
        None => (CacheStatus::Missing, true),
        Some(a) => (cache_status(a), a >= REFRESH_AFTER_SECONDS),
    }
}

/// A cached snapshot is used only for the configured location and unit and
/// only when it is the row's own payload.
pub fn cached_snapshot_matches(
    snapshot_key: &str,
    snapshot_unit_matches: bool,
    snapshot_fetched_at: i64,
    location_key: &str,
    row_fetched_at: i64,
) -> (r: bool)
    ensures
        r == (snapshot_key@ == location_key@ && snapshot_unit_matches && snapshot_fetched_at == row_fetched_at),
{
    crate::text::str_eq(snapshot_key, location_key) && snapshot_unit_matches && snapshot_fetched_at == row_fetched_at
}

/// Why a weather operation failed, as the frontend sees it.
#[derive(Clone, Copy, Debug, PartialEq, Eq, Structural)]
pub enum WeatherError {
    NoLocation,
    Network,
    Timeout,
    InvalidResponse,
    ProviderError,
    InProgress,
    Cooldown,
}

impl WeatherError {
    /// The normalized failure class written to logs.
    pub fn diagnostic_label(&self) -> (r: &'static str)
        ensures
            r@ == match *self {
                WeatherError::NoLocation => "no-location"@,
                WeatherError::Network => "network-error"@,
                WeatherError::Timeout => "timeout"@,
                WeatherError::InvalidResponse => "invalid-response"@,
                WeatherError::ProviderError => "provider-error"@,
                WeatherError::InProgress => "in-progress"@,
                WeatherError::Cooldown => "cooldown"@,
            },
    {
        match self {
            WeatherError::NoLocation => "no-location",
            WeatherError::Network => "network-error",
            WeatherError::Timeout => "timeout",
            WeatherError::InvalidResponse => "invalid-response",
            WeatherError::ProviderError => "provider-error",
            WeatherError::InProgress => "in-progress",
            WeatherError::Cooldown => "cooldown",
        }
    }
}

/// A provider reply is usable only with a 2xx status.
pub fn checked_status(status: u16) -> (r: Result<(), WeatherError>)
    ensures
        r is Ok <==> 200 <= status < 300,
        r matches Err(e) ==> e == WeatherError::ProviderError,
{
    if 200 <= status && status < 300 {
        Ok(())
    } else {
        Err(WeatherError::ProviderError)
    }
}

/// A location search runs only for a trimmed query of at least two
/// characters; shorter queries return no candidates without a request.
pub fn search_query(query: &str) -> (r: Option<String>)
    ensures
        match r {
            Some(q) => q@ == trim(query@) && trim(query@).len() >= 2,
            None => trim(query@).len() < 2,
        },
{
    let t = trim_exec(query);
    if t.unicode_len() < 2 {
        None
    } else {
        Some(owned(t))
    }
}

/// Diagnostics of the weather view (no location data).
#[derive(Clone, Debug, PartialEq, Eq)]
pub struct WeatherDiagnosticSnapshot {
    pub configured: bool,
    pub cache_status: &'static str,
    pub cache_age_seconds: Option<i64>,
    pub last_refresh: String,
}

/// Builds the diagnostics of a weather view.
pub fn diagnostic_snapshot(configured: bool, status: CacheStatus, age: Option<i64>, last_refresh: String) -> (d: WeatherDiagnosticSnapshot)
    ensures
        d.configured == configured,
        d.cache_status@ == match status {
            CacheStatus::Fresh => "fresh"@,
            CacheStatus::Stale => "stale"@,
            CacheStatus::VeryStale => "very-stale"@,
            CacheStatus::Missing => "missing"@,
        },
        d.cache_age_seconds == age,
        d.last_refresh == last_refresh,
{
    WeatherDiagnosticSnapshot { configured, cache_status: status.name(), cache_age_seconds: age, last_refresh }
}

/// A manual refresh requested less than the cooldown after the previous
/// manual one.
pub open spec fn in_cooldown(manual: bool, last_manual: Option<u64>, now_ms: u64) -> bool {
    match last_manual {
        Some(t) => manual && (if now_ms >= t { now_ms - t } else { 0 }) < MANUAL_REFRESH_COOLDOWN_MS,
        None => false,
    }
}

/// Refresh bookkeeping of one running instance: whether a refresh is in
/// flight, when the last manual refresh started (monotonic milliseconds), and
/// the outcome of the last refresh.
#[derive(Debug)]
pub struct WeatherRuntime {
    refreshing: bool,
    last_manual_refresh: Option<u64>,
    last_refresh: String,
}

impl WeatherRuntime {
    pub closed spec fn in_flight(&self) -> bool {
        self.refreshing
    }

    pub closed spec fn last_manual(&self) -> Option<u64> {
        self.last_manual_refresh
    }

    pub closed spec fn outcome(&self) -> Seq<char> {
        self.last_refresh@
    }

    /// No refresh yet.
    pub fn new() -> (r: Self)
        ensures
            !r.in_flight(),
            r.last_manual() is None,
            r.outcome().len() == 0,
    {
        WeatherRuntime { refreshing: false, last_manual_refresh: None, last_refresh: String::new() }
    }

    /// Whether a refresh is in flight.
    pub fn refreshing(&self) -> (r: bool)
        ensures
            r == self.in_flight(),
    {
        self.refreshing
    }

    /// The outcome of the last refresh, or `none`.
    pub fn last_refresh(&self) -> (r: String)
        ensures
            r@ == if self.outcome().len() == 0 { "none"@ } else { self.outcome() },
    {
        if self.last_refresh.unicode_len() == 0 {
            "none".to_string()
        } else {
            owned(self.last_refresh.as_str())
        }
    }

    /// Records the outcome of a refresh.
    pub fn record(&mut self, value: &str)
        ensures
            final(self).outcome() == value@,
            final(self).in_flight() == old(self).in_flight(),
            final(self).last_manual() == old(self).last_manual(),
    {
        self.last_refresh = owned(value);
    }

    /// Admits a refresh at monotonic time `now_ms`. A manual refresh within
    /// the cooldown of the previous manual one is refused (and does not
    /// restart the cooldown); an admitted manual refresh restarts it even if
    /// another refresh then turns out to be in flight. Only one refresh runs
    /// at a time.
    pub fn begin_refresh(&mut self, manual: bool, now_ms: u64) -> (r: Result<(), WeatherError>)
        ensures
            in_cooldown(manual, old(self).last_manual(), now_ms)
                ==> r == Err::<(), WeatherError>(WeatherError::Cooldown) && *final(self) == *old(self),
            !in_cooldown(manual, old(self).last_manual(), now_ms) ==> {
                &&& final(self).last_manual() == (if manual { Some(now_ms) } else { old(self).last_manual() })
                &&& (old(self).in_flight() ==> r == Err::<(), WeatherError>(WeatherError::InProgress))
                &&& (!old(self).in_flight() ==> r is Ok)
                &&& final(self).in_flight()
                &&& final(self).outcome() == old(self).outcome()
            },
    {
        if manual {
            if let Some(t) = self.last_manual_refresh {
                let elapsed = now_ms.saturating_sub(t);
                if elapsed < MANUAL_REFRESH_COOLDOWN_MS {
                    return Err(WeatherError::Cooldown);
                }
            }
            self.last_manual_refresh = Some(now_ms);
        }
        if self.refreshing {
            return Err(WeatherError::InProgress);
        }
        self.refreshing = true;
        Ok(())
    }

    /// Ends the refresh in flight.
    pub fn finish_refresh(&mut self)
        ensures
            !final(self).in_flight(),
            final(self).last_manual() == old(self).last_manual(),
            final(self).outcome() == old(self).outcome(),
    {
        self.refreshing = false;
    }
}

/// The first `n` bytes of `s` can be cut off as text: `n` lies on a
/// character boundary.
pub open spec fn byte_boundary(s: Seq<u8>, n: int) -> bool {
    n >= s.len() || !(0x80 <= s[n] && s[n] < 0xC0)
}

fn bytes_equal(a: &[u8], b: &[u8], n: usize) -> (r: bool)
    requires
        n <= a@.len(),
        n <= b@.len(),
    ensures
        r == (a@.take(n as int) == b@.take(n as int)),
{
    let mut i: usize = 0;
    while i < n
        invariant
            i <= n,
            n <= a@.len(),
            n <= b@.len(),
            forall|k: int| 0 <= k < i ==> a@[k] == b@[k],
        decreases n - i,
    {
        if a[i] != b[i] {
            assert(a@.take(n as int)[i as int] != b@.take(n as int)[i as int]);
            return false;
        }
        i = i + 1;
    }
    assert(a@.take(n as int) =~= b@.take(n as int));
    true
}

/// The UTF-8 bytes of a text.
pub open spec fn utf8(s: Seq<char>) -> Seq<u8> {
    vstd::utf8::encode_utf8(s)
}

/// Finds the forecast day of the current observation: the first day whose
/// text equals the first ten bytes of the observation time. The response is
/// refused when its current block is unusable (wrong time zone or no finite
/// temperature: `current_ok` false), when the time is shorter than a date,
/// or when no day matches. Cutting the time needs its tenth byte to end a
/// character.
pub fn forecast_day_index(current_ok: bool, time: &str, days: &Vec<String>) -> (r: Result<usize, WeatherError>)
    requires
        byte_boundary(time.spec_bytes(), 10),
    ensures
        match r {
            Ok(i) => {
                &&& i < days@.len()
                &&& utf8(days@[i as int]@) == time.spec_bytes().take(10)
                &&& forall|k: int| 0 <= k < i ==> utf8(days@[k]@) != time.spec_bytes().take(10)
            },
            Err(e) => e == WeatherError::InvalidResponse && (!current_ok || time.spec_bytes().len() < 10
                || forall|k: int| 0 <= k < days@.len() ==> utf8(days@[k]@) != time.spec_bytes().take(10)),
        },
{
    let t = time.as_bytes();
    if !current_ok || t.len() < 10 {
        return Err(WeatherError::InvalidResponse);
    }
    let mut i: usize = 0;
    while i < days.len()
        invariant
            i <= days@.len(),
            t@ == time.spec_bytes(),
            t@.len() >= 10,
            forall|k: int| 0 <= k < i ==> utf8(days@[k]@) != time.spec_bytes().take(10),
        decreases days.len() - i,
    {
        let d = days[i].as_str().as_bytes();
        if d.len() == 10 && bytes_equal(d, t, 10) {
            assert(d@ =~= d@.take(10));
            return Ok(i);
        }
        proof {
            if d@.len() == 10 {
                assert(d@ =~= d@.take(10));
            } else {
                assert(d@.len() != time.spec_bytes().take(10).len());
            }
        }
        i = i + 1;
    }
    Err(WeatherError::InvalidResponse)
}

/// The day's precipitation probability, which must be a percentage.
pub fn precipitation_at(values: &Vec<u8>, index: usize) -> (r: Result<u8, WeatherError>)
    ensures
        (index < values@.len() && values@[index as int] <= 100) ==> r == Ok::<u8, WeatherError>(values@[index as int]),
        !(index < values@.len() && values@[index as int] <= 100) ==> r == Err::<u8, WeatherError>(WeatherError::InvalidResponse),
{
    if index < values.len() && values[index] <= 100 {
        Ok(values[index])
    } else {
        Err(WeatherError::InvalidResponse)
    }
}

} // verus!
