use prelate_rs::error::{FetchError, UrlError};
use prelate_rs::pagination::{
    check_status, pages_needed, turn_page, Page, PaginatedRequest, Pagination, TurnedPage,
    DEFAULT_COUNT_PER_PAGE, DEFAULT_PAGES_CONCURRENCY,
};
use prelate_rs::text::decimal;
use prelate_rs::time::Timestamp;
use prelate_rs::urls::{build_url, MAX_URL_BYTES};

fn info(page: u32, per_page: u32, count: u32, total_count: Option<u32>, offset: u32) -> Pagination {
    Pagination { page, per_page, count, total_count, offset }
}

#[test]
fn defaults() {
    assert_eq!(DEFAULT_COUNT_PER_PAGE, 50);
    assert_eq!(DEFAULT_PAGES_CONCURRENCY, 8);
}

#[test]
fn pages_needed_rounds_up() {
    assert_eq!(pages_needed(0, 50), 0);
    assert_eq!(pages_needed(1, 50), 1);
    assert_eq!(pages_needed(10, 50), 1);
    assert_eq!(pages_needed(50, 50), 1);
    assert_eq!(pages_needed(51, 50), 2);
    assert_eq!(pages_needed(100, 50), 2);
    assert_eq!(pages_needed(120, 50), 3);
    assert_eq!(pages_needed(7, 1), 7);
    assert_eq!(pages_needed(usize::MAX, 1), usize::MAX);
    assert_eq!(pages_needed(usize::MAX, 2), usize::MAX / 2 + 1);
    assert_eq!(pages_needed(usize::MAX, usize::MAX), 1);
    assert_eq!(pages_needed(usize::MAX - 1, usize::MAX), 1);
}

#[test]
fn well_formed_records() {
    assert!(info(1, 50, 50, Some(120), 0).is_well_formed());
    assert!(info(3, 50, 20, Some(120), 100).is_well_formed());
    assert!(info(1, 50, 0, Some(0), 0).is_well_formed());
    assert!(info(2, 50, 13, None, 50).is_well_formed());
    assert!(info(1, 1, 1, Some(u32::MAX), u32::MAX - 1).is_well_formed());
    // pages are counted from 1
    assert!(!info(0, 50, 50, Some(120), 0).is_well_formed());
    // a page holds items
    assert!(!info(1, 0, 0, Some(120), 0).is_well_formed());
    // a page is not overfull
    assert!(!info(1, 50, 51, Some(120), 0).is_well_formed());
    // a page does not reach past the end
    assert!(!info(3, 50, 21, Some(120), 100).is_well_formed());
    assert!(!info(1, u32::MAX, u32::MAX, Some(u32::MAX), 1).is_well_formed());
}

#[test]
fn has_next_compares_with_the_total() {
    assert!(info(1, 50, 50, Some(120), 0).has_next());
    assert!(info(2, 50, 50, Some(120), 50).has_next());
    assert!(!info(3, 50, 20, Some(120), 100).has_next());
    assert!(!info(2, 50, 50, Some(100), 50).has_next());
    assert!(!info(1, 50, 0, Some(0), 0).has_next());
    // a short page goes on as long as the reported total is not reached
    assert!(info(1, 50, 30, Some(120), 0).has_next());
    assert!(info(1, 50, 0, Some(120), 0).has_next());
    // the sum is not cut to 32 bits
    assert!(!info(1, 50, u32::MAX, Some(5), u32::MAX).has_next());
    assert!(!info(1, 50, 2, Some(u32::MAX), u32::MAX - 1).has_next());
    assert!(info(1, 50, 1, Some(u32::MAX), u32::MAX - 2).has_next());
    assert!(!info(1, 50, 1, Some(u32::MAX), u32::MAX - 1).has_next());
}

#[test]
fn has_next_without_total_asks_for_a_full_page() {
    // a full page is taken to be followed by another
    assert!(info(1, 50, 50, None, 0).has_next());
    assert!(info(2, 50, 50, None, 50).has_next());
    assert!(info(1, 1, 1, None, 0).has_next());
    assert!(info(1, 50, 50, None, u32::MAX).has_next());
    assert!(info(1, 50, u32::MAX, None, 1).has_next());
    // a short page is the last
    assert!(!info(3, 50, 13, None, 100).has_next());
    assert!(!info(1, 50, 49, None, 0).has_next());
    assert!(!info(1, 50, 1, None, u32::MAX - 2).has_next());
    // and so is an empty one
    assert!(!info(1, 50, 0, None, 0).has_next());
    assert!(!info(4, 50, 0, None, 150).has_next());
    assert!(!info(1, 0, 0, None, 0).has_next());
}

#[test]
fn page_hands_out_its_parts() {
    let page = Page { pagination: info(2, 50, 3, Some(53), 50), items: vec![7, 8, 9] };
    assert_eq!(page.pagination(), &info(2, 50, 3, Some(53), 50));
    assert_eq!(page.data(), vec![7, 8, 9]);
}

#[test]
fn requests_are_made_by_value() {
    let first = PaginatedRequest::new("https://aoe4world.com/api/v0/games".to_string());
    assert_eq!(first.page, 1);
    assert_eq!(first.url, "https://aoe4world.com/api/v0/games");
    let second = first.next_request();
    assert_eq!(second.page, 2);
    assert_eq!(second.url, first.url);
    assert_eq!(first.page, 1);
    let third = second.next_request();
    assert_eq!(third.page, 3);
    let far = first.for_page(u32::MAX);
    assert_eq!(far.page, u32::MAX);
    assert_eq!(far.url, first.url);
    assert_eq!(first.for_page(2).page, first.next_request().page);
}

#[test]
fn page_params_are_limit_and_page() {
    let request = PaginatedRequest::new("https://aoe4world.com/api/v0/games".to_string()).for_page(7);
    assert_eq!(request.per_page, 50);
    assert_eq!(
        request.page_params(),
        vec![("limit".to_string(), "50".to_string()), ("page".to_string(), "7".to_string())]
    );
    let request = request.with_per_page(13).next_request();
    assert_eq!((request.page, request.per_page), (8, 13));
    assert_eq!(
        request.page_params(),
        vec![("limit".to_string(), "13".to_string()), ("page".to_string(), "8".to_string())]
    );
    assert_eq!(
        request.page_url().unwrap(),
        "https://aoe4world.com/api/v0/games?limit=13&page=8"
    );
}

#[test]
fn page_url_appends_to_the_query() {
    let first = PaginatedRequest::new("https://aoe4world.com/api/v0/games".to_string());
    assert_eq!(first.page_url().unwrap(), "https://aoe4world.com/api/v0/games?limit=50&page=1");
    let filtered = PaginatedRequest::new(
        "https://aoe4world.com/api/v0/players/search?query=jigly&exact=true".to_string(),
    )
    .for_page(3);
    assert_eq!(
        filtered.page_url().unwrap(),
        "https://aoe4world.com/api/v0/players/search?query=jigly&exact=true&limit=50&page=3"
    );
    let broken = PaginatedRequest::new("/api/v0/games".to_string());
    assert_eq!(broken.page_url(), Err(UrlError::Invalid));
}

#[test]
fn probe_asks_for_one_item() {
    let request = PaginatedRequest::new("https://aoe4world.com/api/v0/games?order=updated_at".to_string())
        .for_page(4);
    assert_eq!(
        request.probe_url().unwrap(),
        "https://aoe4world.com/api/v0/games?order=updated_at&limit=1&page=1"
    );
    assert_eq!(PaginatedRequest::new("games".to_string()).probe_url(), Err(UrlError::Invalid));
}

#[test]
fn build_url_encodes_pairs() {
    let pairs = vec![
        ("query".to_string(), "[DEBILS] HousedHorse".to_string()),
        ("na me".to_string(), "a&b=c".to_string()),
        ("saisons".to_string(), "\u{00C9}t\u{00E9}+hiver".to_string()),
    ];
    assert_eq!(
        build_url("https://example.net?lang=fr#nav", &pairs).unwrap(),
        "https://example.net/?lang=fr&query=%5BDEBILS%5D+HousedHorse&na+me=a%26b%3Dc&saisons=%C3%89t%C3%A9%2Bhiver#nav"
    );
    assert_eq!(build_url("https://example.net/a", &vec![]).unwrap(), "https://example.net/a?");
    assert_eq!(
        build_url("https://example.net/a", &vec![(String::new(), String::new())]).unwrap(),
        "https://example.net/a?="
    );
}

#[test]
fn build_url_refuses_what_is_no_url() {
    assert_eq!(build_url("not a url", &vec![]), Err(UrlError::Invalid));
    assert_eq!(build_url("", &vec![]), Err(UrlError::Invalid));
    assert_eq!(
        build_url("//aoe4world.com/api", &vec![("a".to_string(), "b".to_string())]),
        Err(UrlError::Invalid)
    );
}

#[test]
fn build_url_refuses_what_weighs_too_much() {
    let base = "https://example.net/";
    // the weight is the bytes of the base, and for each pair its bytes and two
    let room = MAX_URL_BYTES - base.len() - 2;
    let fits = vec![("a".repeat(room / 2), "b".repeat(room - room / 2))];
    assert!(build_url(base, &fits).is_ok());
    let over = vec![("a".repeat(room / 2), "b".repeat(room - room / 2 + 1))];
    assert_eq!(build_url(base, &over), Err(UrlError::TooLong));
    let long_base = format!("https://example.net/{}", "p".repeat(MAX_URL_BYTES));
    assert_eq!(build_url(&long_base, &vec![]), Err(UrlError::TooLong));
    // the two separators of each pair count
    let name_len = (MAX_URL_BYTES - base.len()) / 1000;
    let many = vec![("n".repeat(name_len), String::new()); 1000];
    assert!(base.len() + 1000 * name_len <= MAX_URL_BYTES);
    assert_eq!(build_url(base, &many), Err(UrlError::TooLong));
    let fewer = vec![("n".repeat(name_len - 2), String::new()); 1000];
    assert!(build_url(base, &fewer).is_ok());
    // bytes count, not characters
    let wide = vec![("\u{00E9}".repeat(MAX_URL_BYTES / 2), String::new())];
    assert_eq!(build_url(base, &wide), Err(UrlError::TooLong));
    // too long comes before not a URL
    assert_eq!(build_url("not a url, and a long one", &over), Err(UrlError::TooLong));
    assert_eq!(build_url("not a url", &over), Err(UrlError::Invalid));
}

#[test]
fn turn_page_follows_the_record() {
    let request = PaginatedRequest::new("https://aoe4world.com/api/v0/games".to_string()).for_page(2);
    let page = Page { pagination: info(2, 50, 50, Some(120), 50), items: vec![1, 2, 3] };
    let turned = turn_page(request, page);
    assert_eq!(turned.items, vec![1, 2, 3]);
    let next = turned.next_request.expect("a page follows");
    assert_eq!(next.page, 3);
    assert_eq!(next.url, "https://aoe4world.com/api/v0/games");

    let request = PaginatedRequest::new("https://aoe4world.com/api/v0/games".to_string()).for_page(3);
    let page = Page { pagination: info(3, 50, 20, Some(120), 100), items: vec![4, 5] };
    let turned = turn_page(request, page);
    assert_eq!(turned.items, vec![4, 5]);
    assert!(turned.next_request.is_none());
}

#[test]
fn turn_page_without_total_ends_on_a_short_page() {
    // page 3 with 13 of 50 items and no total: 13 < 50 signals the last page
    let request = PaginatedRequest::new("https://aoe4world.com/api/v0/games".to_string()).for_page(3);
    let items: Vec<u32> = (100..113).collect();
    let page = Page { pagination: info(3, 50, 13, None, 100), items: items.clone() };
    let turned = turn_page(request, page);
    assert_eq!(turned.items, items);
    assert!(turned.next_request.is_none());
    // an empty page ends the result as well
    let request = PaginatedRequest::new("https://aoe4world.com/api/v0/games".to_string());
    let page: Page<u8> = Page { pagination: info(1, 50, 0, None, 0), items: vec![] };
    let turned = turn_page(request, page);
    assert!(turned.items.is_empty());
    assert!(turned.next_request.is_none());
}

#[test]
fn turn_page_without_total_goes_on_after_a_full_page() {
    let request = PaginatedRequest::new("https://aoe4world.com/api/v0/games".to_string()).for_page(2);
    let items: Vec<u32> = (50..100).collect();
    let page = Page { pagination: info(2, 50, 50, None, 50), items: items.clone() };
    let turned = turn_page(request, page);
    assert_eq!(turned.items, items);
    let next = turned.next_request.expect("a page follows");
    assert_eq!((next.page, next.per_page), (3, 50));
    assert_eq!(next.url, "https://aoe4world.com/api/v0/games");
}

#[test]
fn turn_page_with_total_goes_on_after_a_short_page() {
    // 30 of 120 items: the reported total is not reached
    let request = PaginatedRequest::new("https://aoe4world.com/api/v0/games".to_string());
    let page = Page { pagination: info(1, 50, 30, Some(120), 0), items: vec![0u8; 30] };
    let turned = turn_page(request, page);
    assert_eq!(turned.items.len(), 30);
    assert_eq!(turned.next_request.map(|r| r.page), Some(2));
}

#[test]
fn turn_page_stops_at_the_last_page_number() {
    let request =
        PaginatedRequest::new("https://aoe4world.com/api/v0/games".to_string()).for_page(u32::MAX);
    let page = Page { pagination: info(u32::MAX, 50, 50, None, 0), items: vec![1] };
    let turned = turn_page(request, page);
    assert_eq!(turned.items, vec![1]);
    assert!(turned.next_request.is_none());
}

#[test]
fn turned_page_constructors() {
    let next = TurnedPage::next(vec![1, 2], PaginatedRequest::new("https://a.b/".to_string()));
    assert_eq!(next.items, vec![1, 2]);
    assert_eq!(next.next_request.map(|r| r.page), Some(1));
    let last = TurnedPage::last(vec![3]);
    assert_eq!(last.items, vec![3]);
    assert!(last.next_request.is_none());
}

#[test]
fn decimal_notation() {
    assert_eq!(decimal(0), "0");
    assert_eq!(decimal(7), "7");
    assert_eq!(decimal(10), "10");
    assert_eq!(decimal(50), "50");
    assert_eq!(decimal(10433860), "10433860");
    assert_eq!(decimal(1234567890), "1234567890");
    assert_eq!(decimal(u64::MAX), "18446744073709551615");
    for n in 0..2000u64 {
        assert_eq!(decimal(n), n.to_string());
    }
}

#[test]
fn timestamps_as_rfc3339() {
    assert_eq!(
        Timestamp::new(1431648000, 0).to_rfc3339().as_deref(),
        Some("2015-05-15T00:00:00+00:00")
    );
    assert_eq!(Timestamp::new(0, 0).to_rfc3339().as_deref(), Some("1970-01-01T00:00:00+00:00"));
    assert_eq!(
        Timestamp::new(-1, 500_000_000).to_rfc3339().as_deref(),
        Some("1969-12-31T23:59:59.500+00:00")
    );
    assert_eq!(
        Timestamp::new(1710720000, 123_456_000).to_rfc3339().as_deref(),
        Some("2024-03-18T00:00:00.123456+00:00")
    );
    assert_eq!(
        Timestamp::new(1710720000, 1).to_rfc3339().as_deref(),
        Some("2024-03-18T00:00:00.000000001+00:00")
    );
    let time = Timestamp::new(5, 6);
    assert_eq!((time.secs, time.nanos), (5, 6));
}

#[test]
fn timestamps_out_of_the_calendar() {
    assert_eq!(Timestamp::new(i64::MAX, 0).to_rfc3339(), None);
    assert_eq!(Timestamp::new(i64::MIN, 0).to_rfc3339(), None);
    assert_eq!(Timestamp::new(0, 2_000_000_000).to_rfc3339(), None);
    // a leap second can only stand at the end of a minute
    assert_eq!(Timestamp::new(0, 1_500_000_000).to_rfc3339(), None);
    assert!(Timestamp::new(59, 1_500_000_000).to_rfc3339().is_some());
}

#[test]
fn status_outside_2xx_fails_the_page() {
    assert_eq!(check_status(200), Ok(()));
    assert_eq!(check_status(204), Ok(()));
    assert_eq!(check_status(299), Ok(()));
    assert_eq!(check_status(199), Err(FetchError::HttpStatus(199)));
    assert_eq!(check_status(300), Err(FetchError::HttpStatus(300)));
    assert_eq!(check_status(304), Err(FetchError::HttpStatus(304)));
    assert_eq!(check_status(404), Err(FetchError::HttpStatus(404)));
    assert_eq!(check_status(500), Err(FetchError::HttpStatus(500)));
    assert_eq!(check_status(0), Err(FetchError::HttpStatus(0)));
    assert_eq!(check_status(u16::MAX), Err(FetchError::HttpStatus(u16::MAX)));
    for status in 0..=u16::MAX {
        assert_eq!(check_status(status).is_ok(), (200..=299).contains(&status));
    }
}
