use dearrow_browser::fetch::{present, Presentation, FetchError, FetchKey, FetchResult, Fetcher, FAILURE_MESSAGE, LOADING_MESSAGE};
use dearrow_browser::freshness::{minutes_since, update_line_at, update_line_from, Freshness, POLL_INTERVAL_MS};
use dearrow_browser::scope::{DetailKind, Origin, Page, RouteScope, Visibility};
use dearrow_browser::table::{DetailList, TitleRecord};

fn key(kind: DetailKind, url: &str, freshness: Option<i64>) -> FetchKey {
    FetchKey { kind, url: url.to_string(), freshness }
}

fn one_title(uuid: &str) -> DetailList {
    DetailList::Titles(vec![TitleRecord {
        uuid: uuid.to_string(),
        video_id: "v".to_string(),
        user_id: "u".to_string(),
        title: "T".to_string(),
        time_submitted: 0,
        score: 0,
        votes: 0,
        unverified: false,
        locked: false,
        shadow_hidden: false,
        original: false,
    }])
}

fn success_uuid(f: &Fetcher) -> Option<String> {
    match &f.result {
        FetchResult::Success(DetailList::Titles(list)) => Some(list[0].uuid.clone()),
        _ => None,
    }
}

const SHOW_ALL: Visibility = Visibility { hide_video_id: false, hide_user_id: false };

#[test]
fn stale_response_after_newer_one_is_dropped() {
    let k1 = key(DetailKind::Titles, "https://e/api/titles", None);
    let k2 = key(DetailKind::Titles, "https://e/api/titles/video_id/v", None);
    let mut f = Fetcher::new();
    assert!(f.observe(k1.clone()).is_some());
    assert!(f.observe(k2.clone()).is_some());
    assert!(f.deliver(&k2, Ok(one_title("second"))));
    assert!(!f.deliver(&k1, Ok(one_title("first"))));
    assert_eq!(success_uuid(&f), Some("second".to_string()));
}

#[test]
fn stale_response_before_newer_one_is_dropped() {
    let k1 = key(DetailKind::Titles, "https://e/api/titles", None);
    let k2 = key(DetailKind::Titles, "https://e/api/titles", Some(1));
    let mut f = Fetcher::new();
    f.observe(k1.clone());
    f.observe(k2.clone());
    assert!(!f.deliver(&k1, Ok(one_title("first"))));
    assert!(matches!(f.result, FetchResult::Pending));
    assert!(f.deliver(&k2, Err(FetchError::Transport)));
    assert!(matches!(f.result, FetchResult::Failure(FetchError::Transport)));
}

#[test]
fn same_key_fetches_once() {
    let k = key(DetailKind::Titles, "https://e/api/titles", Some(5));
    let mut f = Fetcher::new();
    assert!(f.observe(k.clone()).is_some());
    assert!(f.observe(k.clone()).is_none());
    assert!(f.deliver(&k, Ok(one_title("a"))));
    assert!(!f.deliver(&k, Ok(one_title("b"))));
    assert_eq!(success_uuid(&f), Some("a".to_string()));
}

#[test]
fn freshness_change_alone_refetches_once() {
    let origin = Origin { base: "https://example.org".to_string(), logo_url: None };
    let page = Page::new(RouteScope::Global);
    let mut f = Fetcher::new();
    let (k1, _) = page.fetch_key(&origin, Some(100)).unwrap();
    assert!(f.observe(k1.clone()).is_some());
    f.deliver(&k1, Ok(one_title("old")));
    let (k2, _) = page.fetch_key(&origin, Some(200)).unwrap();
    assert!(!k1.same(&k2));
    let issued = f.observe(k2.clone()).unwrap();
    assert!(issued.same(&k2));
    assert!(matches!(f.result, FetchResult::Pending));
    assert!(f.observe(k2.clone()).is_none());
}

#[test]
fn server_error_shows_failure_message_and_no_rows() {
    let k = key(DetailKind::Titles, "https://e/api/titles", None);
    let mut f = Fetcher::new();
    f.observe(k.clone());
    assert!(f.deliver(&k, Err(FetchError::Status(500))));
    assert!(matches!(f.result, FetchResult::Failure(FetchError::Status(500))));
    match present(&f.result, SHOW_ALL) {
        Presentation::Failed(msg) => assert_eq!(msg, "Failed to fetch details from the API :/"),
        _ => panic!("expected the failure message"),
    }
    assert_eq!(FAILURE_MESSAGE, "Failed to fetch details from the API :/");
}

#[test]
fn decode_error_is_a_failure_too() {
    let k = key(DetailKind::Thumbnails, "https://e/api/thumbnails", None);
    let mut f = Fetcher::new();
    f.observe(k.clone());
    f.deliver(&k, Err(FetchError::Decode));
    assert!(matches!(present(&f.result, SHOW_ALL), Presentation::Failed(_)));
}

#[test]
fn pending_shows_loading() {
    match present(&FetchResult::Pending, SHOW_ALL) {
        Presentation::Loading(msg) => assert_eq!(msg, LOADING_MESSAGE),
        _ => panic!("expected the loading text"),
    }
    assert!(matches!(present(&FetchResult::Success(one_title("a")), SHOW_ALL), Presentation::Table(_)));
}

#[test]
fn mode_switch_refetches_and_drops_titles() {
    let origin = Origin { base: "https://example.org".to_string(), logo_url: None };
    let mut page = Page::new(RouteScope::ByVideo("v2".to_string()));
    let mut f = Fetcher::new();
    let (titles_key, vis) = page.fetch_key(&origin, None).unwrap();
    assert!(vis.hide_video_id && !vis.hide_user_id);
    f.observe(titles_key.clone()).unwrap();
    page.set_mode(DetailKind::Thumbnails);
    let (thumbs_key, _) = page.fetch_key(&origin, None).unwrap();
    let issued = f.observe(thumbs_key.clone()).unwrap();
    assert_eq!(issued.url, "https://example.org/api/thumbnails/video_id/v2");
    assert_eq!(issued.kind, DetailKind::Thumbnails);
    assert!(!f.deliver(&titles_key, Ok(one_title("late"))));
    assert!(matches!(f.result, FetchResult::Pending));
}

#[test]
fn poll_updates_only_on_success() {
    assert_eq!(POLL_INTERVAL_MS, 60000);
    let mut s = Freshness::new();
    let p1 = s.tick();
    assert_eq!(p1, 1);
    assert!(s.finish(p1, Some(1700000000000)));
    assert_eq!(s.last_updated, Some(1700000000000));
    let p2 = s.tick();
    assert!(!s.finish(p2, None));
    assert_eq!(s.last_updated, Some(1700000000000));
}

#[test]
fn every_tick_polls_while_a_request_is_in_flight() {
    let mut s = Freshness::new();
    let p1 = s.tick();
    let p2 = s.tick();
    let p3 = s.tick();
    assert_eq!((p1, p2, p3), (1, 2, 3));
    assert_eq!(s.issued, 3);
}

#[test]
fn late_status_answer_does_not_overwrite_newer_one() {
    let mut s = Freshness::new();
    let p1 = s.tick();
    let p2 = s.tick();
    assert!(s.finish(p2, Some(200)));
    assert!(!s.finish(p1, Some(100)));
    assert_eq!(s.last_updated, Some(200));
    assert!(!s.finish(7, Some(300)));
    assert_eq!(s.last_updated, Some(200));
}

#[test]
fn footer_update_line() {
    assert_eq!(update_line_at(None, 0), "Last update: ...");
    assert_eq!(update_line_at(Some(i64::MAX), 0), "Last update: ...");
    assert_eq!(
        update_line_at(Some(1700000000000), 1700000000000 + 5 * 60000 + 59999),
        "Last update: 2023-11-14 22:13:20 UTC (5 minutes ago)"
    );
    assert_eq!(update_line_from(Some(0), Some("x".to_string()), -60000), "Last update: x UTC (-1 minutes ago)");
    assert_eq!(update_line_from(Some(0), None, 0), "Last update: ...");
}

#[test]
fn minutes_round_toward_zero_without_overflow() {
    assert_eq!(minutes_since(0, 119999), 1);
    assert_eq!(minutes_since(0, -119999), -1);
    assert_eq!(minutes_since(i64::MIN, i64::MAX), (u64::MAX / 60000) as i64);
    assert_eq!(minutes_since(i64::MAX, i64::MIN), -((u64::MAX / 60000) as i64));
}

#[test]
fn list_of_the_wrong_kind_is_a_decode_failure() {
    let k = key(DetailKind::Thumbnails, "https://e/api/thumbnails", None);
    let mut f = Fetcher::new();
    f.observe(k.clone());
    assert!(f.deliver(&k, Ok(one_title("a"))));
    assert!(matches!(f.result, FetchResult::Failure(FetchError::Decode)));
    assert_eq!(one_title("a").kind(), DetailKind::Titles);
}

#[test]
fn status_address() {
    let origin = Origin { base: "https://example.org".to_string(), logo_url: None };
    assert_eq!(dearrow_browser::scope::status_url(&origin).unwrap(), "https://example.org/api/status");
}
