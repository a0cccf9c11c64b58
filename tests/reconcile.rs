use sonarr_qb::reconcile::{category, is_fresh, seasons_to_process, seasons_to_update, submission, SkipSet};
use sonarr_qb::sonarr::{Release, Season, Series, SeriesId, Statistics};

fn season(number: usize, monitored: bool, percent_hundredths: u32) -> Season {
    Season {
        season_number: number,
        monitored,
        statistics: Statistics {
            percent_of_episodes: percent_hundredths,
        },
    }
}

#[test]
fn needs_update_when_monitored_and_incomplete() {
    assert!(season(1, true, 4000).needs_update());
    assert!(season(1, true, 0).needs_update());
    assert!(season(1, true, 9999).needs_update());
    assert!(!season(1, true, 10000).needs_update());
    assert!(!season(1, false, 4000).needs_update());
    assert!(!season(1, false, 0).needs_update());
}

#[test]
fn seasons_to_update_keeps_order() {
    let series = Series {
        id: SeriesId(3),
        title: "Bar".to_string(),
        seasons: vec![season(0, false, 0), season(2, true, 5000), season(1, true, 10000), season(3, true, 100)],
    };
    assert_eq!(seasons_to_update(&series), vec![2, 3]);
}

#[test]
fn freshness_boundary_expires() {
    assert!(!is_fresh(100, 50, 150));
    assert!(is_fresh(100, 50, 149));
    assert!(!is_fresh(100, 50, 151));
    assert!(is_fresh(200, 0, 100));
    assert!(!is_fresh(100, 0, 100));
    assert!(is_fresh(u64::MAX, u64::MAX, u64::MAX));
}

#[test]
fn boundary_release_is_not_submitted() {
    let r = Release {
        guid: "abc".to_string(),
        download_url: "http://x/abc.torrent".to_string(),
        publish_date: 1000,
    };
    assert!(submission(Ok(Some(r)), 500, 1500).is_none());
    let r = Release {
        guid: "abc".to_string(),
        download_url: "http://x/abc.torrent".to_string(),
        publish_date: 1001,
    };
    assert_eq!(submission(Ok(Some(r)), 500, 1500).unwrap().download_url, "http://x/abc.torrent");
}

#[test]
fn category_label() {
    assert_eq!(category(), "tv-sonarr");
}

#[test]
fn skip_set_clears_all_at_once() {
    let mut skip = SkipSet::new(100, 1000);
    assert!(!skip.should_skip(SeriesId(1)));
    skip.mark(SeriesId(1));
    skip.maybe_reset(1050);
    skip.mark(SeriesId(2));
    skip.mark(SeriesId(2));
    assert!(skip.should_skip(SeriesId(1)));
    assert!(skip.should_skip(SeriesId(2)));
    assert!(!skip.should_skip(SeriesId(3)));
    skip.maybe_reset(1099);
    assert!(skip.should_skip(SeriesId(1)));
    skip.maybe_reset(1100);
    assert!(!skip.should_skip(SeriesId(1)));
    assert!(!skip.should_skip(SeriesId(2)));
    skip.mark(SeriesId(2));
    skip.maybe_reset(1199);
    assert!(skip.should_skip(SeriesId(2)));
    skip.maybe_reset(1200);
    assert!(!skip.should_skip(SeriesId(2)));
}

#[test]
fn skipped_series_has_no_seasons_to_process() {
    let series = Series {
        id: SeriesId(7),
        title: "Baz".to_string(),
        seasons: vec![season(1, true, 4000), season(2, false, 0)],
    };
    let mut skip = SkipSet::new(60, 0);
    assert_eq!(seasons_to_process(Some(&skip), &series), vec![1]);
    assert_eq!(seasons_to_process(None, &series), vec![1]);
    skip.mark(SeriesId(7));
    assert!(seasons_to_process(Some(&skip), &series).is_empty());
    skip.maybe_reset(60);
    assert_eq!(seasons_to_process(Some(&skip), &series), vec![1]);
}
