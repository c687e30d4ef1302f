use vardy::picture::{
    fresh_cached, fresh_cached_at, is_stale_at, random_needs_refill, wallpaper_fields, Picture,
};

fn picture(created_at: &str) -> Picture {
    Picture {
        url: "https://example.com/x.jpg".into(),
        photographer: "Someone".into(),
        photographer_url: "https://unsplash.com/@someone".into(),
        created_at: created_at.into(),
    }
}

#[test]
fn created_at_is_read_as_utc() {
    assert_eq!(picture("2015-02-18 23:16:09").created_instant(), Some((1424301369, 0)));
    assert_eq!(picture("not a time").created_instant(), None);
    assert_eq!(picture("").created_instant(), None);
}

#[test]
fn unparseable_timestamp_is_stale() {
    assert!(picture("yesterday").is_stale());
    assert!(picture("").is_stale());
}

#[test]
fn old_picture_is_stale_and_future_one_is_fresh() {
    assert!(picture("2000-01-01 00:00:00").is_stale());
    assert!(!picture("2999-01-01 00:00:00").is_stale());
}

#[test]
fn staleness_window_is_six_hours() {
    let created = Some((1_000_000, 0));
    assert!(!is_stale_at(created, (1_000_000 + 6 * 3600, 0)));
    assert!(is_stale_at(created, (1_000_000 + 6 * 3600, 1)));
    assert!(!is_stale_at(created, (1_000_000 + 6 * 3600 - 1, 999_999_999)));
    assert!(is_stale_at(None, (0, 0)));
}

#[test]
fn wallpaper_degrades_to_empty_fields() {
    let (url, name, link) = wallpaper_fields(None);
    assert!(url.is_empty() && name.is_empty() && link.is_empty());
    let (url, name, link) = wallpaper_fields(Some(picture("2015-02-18 23:16:09")));
    assert_eq!(url, "https://example.com/x.jpg");
    assert_eq!(name, "Someone");
    assert_eq!(link, "https://unsplash.com/@someone");
}

#[test]
fn random_refills_below_five_rows() {
    assert!(random_needs_refill(0));
    assert!(random_needs_refill(4));
    assert!(!random_needs_refill(5));
    assert!(!random_needs_refill(100));
}

#[test]
fn random_photo_becomes_picture_without_timestamp() {
    let p = Picture::from_random_photo(
        "https://example.com/img.jpg".into(),
        "Test Photographer".into(),
        "https://unsplash.com/@test".into(),
    );
    assert_eq!(p.photographer_url, "https://unsplash.com/@test");
    assert_eq!(p.created_at, "");
}

#[test]
fn stale_picture_stays_stale_later() {
    let created = Some((0, 0));
    let now = (6 * 3600 + 1, 0);
    assert!(is_stale_at(created, now));
    for later in [(6 * 3600 + 2, 0), (1_000_000, 5), (i64::MAX, 999_999_999)] {
        assert!(is_stale_at(created, later));
    }
}

#[test]
fn cache_serves_fresh_picture_and_refreshes_stale_one() {
    let created = Picture::from_random_photo("u".into(), "p".into(), "l".into());
    let mut fresh = created;
    fresh.created_at = "1970-01-12 13:46:40".into(); // 1_000_000 s after the epoch
    let now = (1_000_000 + 6 * 3600, 0);
    let served = fresh_cached_at(Some(fresh), now).expect("still fresh");
    assert_eq!(served.url, "u");
    let mut old = Picture::from_random_photo("u".into(), "p".into(), "l".into());
    old.created_at = "1970-01-12 13:46:40".into();
    assert!(fresh_cached_at(Some(old), (1_000_000 + 6 * 3600, 1)).is_none());
    assert!(fresh_cached_at(None, now).is_none());
    assert!(fresh_cached(Some(picture("not a time"))).is_none());
    assert!(fresh_cached(Some(picture("2999-01-01 00:00:00"))).is_some());
}

#[test]
fn leap_second_creation_counts_one_extra_second() {
    // "2024-01-01 12:00:60" reads as 12:00:59 plus a whole second of nanos.
    let created = picture("2024-01-01 12:00:60").created_instant();
    assert_eq!(created, Some((1_704_110_459, 1_000_000_000)));
    // At 18:00:59.5 chrono counts 6h 0.5s since then: stale.
    assert!(is_stale_at(created, (1_704_110_459 + 6 * 3600, 500_000_000)));
    // At 18:00:59.0 it counts exactly 6h: not yet stale.
    assert!(!is_stale_at(created, (1_704_110_459 + 6 * 3600, 0)));
}

#[test]
fn leap_second_creation_near_midnight_follows_time_of_day() {
    // Created at the leap second after 17:59:59 (second 64799 of the day).
    let created = Some((64_799, 1_000_000_000));
    // At 23:59:59.95 the later time of day adds the leap second: stale.
    assert!(is_stale_at(created, (86_399, 950_000_000)));
    // At 00:00:00 the next day the time of day is earlier, so it is not
    // added, and the age is exactly six hours: not stale.
    assert!(!is_stale_at(created, (86_400, 0)));
}

#[test]
fn pictures_from_long_before_the_epoch_are_stale() {
    assert!(picture("1969-12-31 17:59:00").is_stale());
    assert!(fresh_cached(Some(picture("1969-12-31 17:59:00"))).is_none());
}
