//! The wallpaper pictures fetched from Unsplash and cached in the database.
use vstd::prelude::*;

verus! {

/// How long a cached picture stays fresh before a new one is fetched.
pub const MAX_AGE_HOURS: i64 = 6;

/// Minimum number of cached rows before `/unsplash/random` stops fetching
/// from upstream and selects locally instead.
pub const RANDOM_CACHE_MIN_ROWS: i64 = 5;

/// The layout of `created_at`, as the database writes it.
pub const CREATED_AT_FORMAT: &'static str = "%Y-%m-%d %H:%M:%S";

/// A picture served by the `/unsplash` endpoint, persisted in the
/// `unsplash_pictures` table.
pub struct Picture {
    pub url: String,
    pub photographer: String,
    pub photographer_url: String,
    pub created_at: String,
}

/// The instant that `chrono::NaiveDateTime::parse_from_str` reads from
/// `text` with `format`, as whole seconds since the Unix epoch and the
/// nanoseconds past that second; `None` when the text does not parse.
pub uninterp spec fn spec_parse_naive_datetime(text: Seq<char>, format: Seq<char>) -> Option<(i64, u32)>;

/// Calls `chrono::NaiveDateTime::parse_from_str` and takes the parsed
/// instant as UTC seconds and nanoseconds. The contract claims only that
/// the result is what that call gives for these arguments.
#[verifier::external_body]
fn parse_naive_datetime(text: &str, format: &str) -> (r: Option<(i64, u32)>)
    ensures
        r == spec_parse_naive_datetime(text@, format@),
{
    match chrono::NaiveDateTime::parse_from_str(text, format) {
        Ok(t) => Some((t.and_utc().timestamp(), t.and_utc().timestamp_subsec_nanos())),
        Err(_) => None,
    }
}

/// Calls `chrono::Utc::now`, as UTC seconds and nanoseconds since the Unix
/// epoch. The clock's reading is not stated; `Utc::now` builds it from a
/// `Duration` since the epoch, so the seconds are not negative and the
/// nanoseconds are below one second.
#[verifier::external_body]
fn utc_now() -> (r: (i64, u32))
    ensures
        r.0 >= 0,
        r.1 < 1_000_000_000,
{
    let now = chrono::Utc::now();
    (now.timestamp(), now.timestamp_subsec_nanos())
}

/// Nanoseconds since the Unix epoch of an instant given as seconds and
/// nanoseconds.
pub open spec fn total_nanos(t: (i64, u32)) -> int {
    t.0 as int * 1_000_000_000 + t.1 as int
}

/// The second of its day at which an instant, given as whole seconds since
/// the epoch, falls.
pub open spec fn second_of_day(secs: i64) -> int {
    secs as int % 86400
}

/// The leap-second correction of chrono's subtraction of `created` from
/// `now`: an instant whose nanoseconds reach one second is a leap second,
/// counted once more when the other instant's time of day is later, and
/// once less when it is earlier.
pub open spec fn leap_correction(created: (i64, u32), now: (i64, u32)) -> int {
    if second_of_day(now.0) > second_of_day(created.0) && created.1 >= 1_000_000_000 {
        1
    } else if second_of_day(now.0) < second_of_day(created.0) && now.1 >= 1_000_000_000 {
        -1
    } else {
        0
    }
}

/// Nanoseconds from `created` to `now` as chrono's `now - created` counts
/// them for two naive date-times.
pub open spec fn elapsed_nanos(created: (i64, u32), now: (i64, u32)) -> int {
    (now.0 - created.0 + leap_correction(created, now)) * 1_000_000_000 + now.1 - created.1
}

/// A picture created at `created` is stale at `now` when it is more than
/// six hours old; one whose creation time could not be read is always
/// stale.
pub open spec fn stale_at(created: Option<(i64, u32)>, now: (i64, u32)) -> bool {
    match created {
        None => true,
        Some(c) => elapsed_nanos(c, now) > MAX_AGE_HOURS * 3600 * 1_000_000_000,
    }
}

/// A whole number of days, more seconds than any `i64` holds, so that adding
/// it to a timestamp makes it non-negative without moving its time of day.
const DAY_SHIFT: i128 = 12_159_718_993_900_339_200;

/// The second of its day at which `secs` falls.
fn second_of_day_of(secs: i64) -> (r: i128)
    ensures
        r == second_of_day(secs),
{
    proof {
        assert(DAY_SHIFT == 86400 * 140_737_488_355_328int);
        vstd::arithmetic::div_mod::lemma_mod_multiples_vanish(140_737_488_355_328int, secs as int, 86400);
    }
    (secs as i128 + DAY_SHIFT) % 86400
}

/// Whether a picture created at `created` is stale at `now`.
pub fn is_stale_at(created: Option<(i64, u32)>, now: (i64, u32)) -> (b: bool)
    ensures
        b == stale_at(created, now),
{
    match created {
        None => true,
        Some(c) => {
            let now_second = second_of_day_of(now.0);
            let created_second = second_of_day_of(c.0);
            let correction: i128 = if now_second > created_second && c.1 >= 1_000_000_000 {
                1
            } else if now_second < created_second && now.1 >= 1_000_000_000 {
                -1
            } else {
                0
            };
            let elapsed = (now.0 as i128 - c.0 as i128 + correction) * 1_000_000_000 + now.1 as i128 - c.1 as i128;
            elapsed > MAX_AGE_HOURS as i128 * 3600 * 1_000_000_000
        },
    }
}

/// How far before the epoch a creation time must lie for the picture to be
/// stale at every reading of the clock (which never reads before the
/// epoch): six hours, and a margin for the nanoseconds.
pub open spec fn long_before_epoch(created: (i64, u32)) -> bool {
    created.0 <= -(MAX_AGE_HOURS * 3600 + 6)
}

proof fn lemma_long_before_epoch_is_stale(created: (i64, u32), now: (i64, u32))
    requires
        long_before_epoch(created),
        now.0 >= 0,
        now.1 < 1_000_000_000,
    ensures
        stale_at(Some(created), now),
{
}

impl Picture {
    /// The creation instant read from `created_at`, if it parses.
    pub fn created_instant(&self) -> (r: Option<(i64, u32)>)
        ensures
            r == spec_parse_naive_datetime(self.created_at@, CREATED_AT_FORMAT@),
    {
        parse_naive_datetime(self.created_at.as_str(), CREATED_AT_FORMAT)
    }

    /// Whether the picture is older than the staleness window at the current
    /// time. An unparseable timestamp is treated as stale, forcing a refresh.
    pub fn is_stale(&self) -> (b: bool)
        ensures
            spec_parse_naive_datetime(self.created_at@, CREATED_AT_FORMAT@) is None ==> b,
            spec_parse_naive_datetime(self.created_at@, CREATED_AT_FORMAT@) matches Some(c)
                && long_before_epoch(c) ==> b,
            exists|now: (i64, u32)| clock_reading(now) && b == #[trigger] stale_at(
                spec_parse_naive_datetime(self.created_at@, CREATED_AT_FORMAT@),
                now,
            ),
    {
        let created = self.created_instant();
        let now = utc_now();
        proof {
            if let Some(c) = created {
                if long_before_epoch(c) {
                    lemma_long_before_epoch_is_stale(c, now);
                }
            }
        }
        let b = is_stale_at(created, now);
        assert(clock_reading(now) && b == stale_at(created, now));
        b
    }

    /// A picture built from an Unsplash random-photo answer; the database
    /// fills `created_at` on insert.
    pub fn from_random_photo(url: String, photographer: String, photographer_url: String) -> (p: Picture)
        ensures
            p.url == url,
            p.photographer == photographer,
            p.photographer_url == photographer_url,
            p.created_at@ == Seq::<char>::empty(),
    {
        Picture { url, photographer, photographer_url, created_at: String::new() }
    }
}

/// The wallpaper URL, photographer name and photographer URL to render
/// with, from the cached picture if there is one. Without one they are all
/// empty, so the page renders without a wallpaper instead of failing.
pub fn wallpaper_fields(picture: Option<Picture>) -> (r: (String, String, String))
    ensures
        match picture {
            Some(p) => r.0 == p.url && r.1 == p.photographer && r.2 == p.photographer_url,
            None => r.0@.len() == 0 && r.1@.len() == 0 && r.2@.len() == 0,
        },
{
    match picture {
        Some(p) => (p.url, p.photographer, p.photographer_url),
        None => (String::new(), String::new(), String::new()),
    }
}

/// The cached picture to serve at `now`: the latest one if it is still
/// fresh, `None` when there is none or it is stale.
pub open spec fn fresh_at(latest: Option<Picture>, now: (i64, u32)) -> Option<Picture> {
    match latest {
        Some(p) => if stale_at(spec_parse_naive_datetime(p.created_at@, CREATED_AT_FORMAT@), now) {
            None
        } else {
            Some(p)
        },
        None => None,
    }
}

/// A reading that the UTC clock can give: not before the epoch, and with
/// the nanoseconds below one second.
pub open spec fn clock_reading(now: (i64, u32)) -> bool {
    now.0 >= 0 && now.1 < 1_000_000_000
}

/// The cached picture to serve at `now`: the latest one if it is still
/// fresh, `None` when there is none or it is stale (so a new one is
/// fetched).
pub fn fresh_cached_at(latest: Option<Picture>, now: (i64, u32)) -> (r: Option<Picture>)
    ensures
        r == (match latest {
            Some(p) => if stale_at(spec_parse_naive_datetime(p.created_at@, CREATED_AT_FORMAT@), now) {
                None
            } else {
                Some(p)
            },
            None => None,
        }),
        r == fresh_at(latest, now),
{
    match latest {
        Some(p) => {
            let created = p.created_instant();
            if is_stale_at(created, now) {
                None
            } else {
                Some(p)
            }
        },
        None => None,
    }
}

/// The cached picture to serve now: the latest one if it is still fresh by
/// the current time, `None` when there is none or it is stale. A picture
/// whose timestamp cannot be read is never served.
pub fn fresh_cached(latest: Option<Picture>) -> (r: Option<Picture>)
    ensures
        r is Some ==> r == latest,
        latest is None ==> r is None,
        latest matches Some(p) && spec_parse_naive_datetime(p.created_at@, CREATED_AT_FORMAT@) is None ==> r is None,
        latest matches Some(p) && spec_parse_naive_datetime(p.created_at@, CREATED_AT_FORMAT@) matches Some(c)
            && long_before_epoch(c) ==> r is None,
        exists|now: (i64, u32)| clock_reading(now) && r == #[trigger] fresh_at(latest, now),
{
    let now = utc_now();
    proof {
        if latest is Some {
            let parsed = spec_parse_naive_datetime(latest->Some_0.created_at@, CREATED_AT_FORMAT@);
            if parsed is Some && long_before_epoch(parsed->Some_0) {
                lemma_long_before_epoch_is_stale(parsed->Some_0, now);
            }
        }
    }
    let r = fresh_cached_at(latest, now);
    assert(clock_reading(now) && r == fresh_at(latest, now));
    r
}

/// Whether `/unsplash/random` must fetch a new picture from upstream: it
/// does while fewer than `RANDOM_CACHE_MIN_ROWS` pictures are cached.
pub fn random_needs_refill(cached_rows: i64) -> (b: bool)
    ensures
        b == (cached_rows < RANDOM_CACHE_MIN_ROWS),
{
    cached_rows < RANDOM_CACHE_MIN_ROWS
}

/// A stale picture stays stale as time passes, for instants none of which
/// is a leap second. (chrono counts a leap second only against times of
/// day on the far side of it, so at midnight after a leap-second creation
/// the age it computes can fall back by up to a second.)
pub proof fn lemma_stale_stays_stale(created: Option<(i64, u32)>, now: (i64, u32), later: (i64, u32))
    requires
        created matches Some(c) ==> c.1 < 1_000_000_000,
        now.1 < 1_000_000_000,
        later.1 < 1_000_000_000,
        stale_at(created, now),
        total_nanos(now) <= total_nanos(later),
    ensures
        stale_at(created, later),
{
}

/// A picture whose timestamp cannot be read is stale at every instant.
pub proof fn lemma_unreadable_timestamp_is_stale(now: (i64, u32))
    ensures
        stale_at(None, now),
{
}

} // verus!
