//! Extraction: link resolution, self-selector fallback, ordering and the
//! item cap, and the round trip from HTML to a finished feed.

use chrono::TimeZone;

use mk_rss::generate_feed;
use mk_rss::FeedOrder;
use mk_rss::FeedRequest;
use mk_rss::FeedItem;
use mk_rss::Website;

fn ts(y: i32, mo: u32, d: u32, h: u32, mi: u32, s: u32) -> i64 {
    chrono::Utc.with_ymd_and_hms(y, mo, d, h, mi, s).unwrap().timestamp()
}

fn plain_request(name: &str, url: &str, item_selector: &str) -> FeedRequest {
    FeedRequest {
        name: name.to_string(),
        url: url.to_string(),
        item_selector: scraper::Selector::parse(item_selector).unwrap(),
        title_selector: None,
        link_selector: None,
        pub_date_selector: None,
        order: FeedOrder::Normal,
        max_items: 30,
    }
}

#[test]
pub fn parse_relative_links() {
    let request = plain_request(
        "Parse Relative RSS Links Test",
        "https://example.com/feed/",
        ".item",
    );

    let html_body = "<!DOCTYPE html>\n<html lang=\"en-US\">\n<body>\n    <a class=\"item\" href=\"item-1\">Item 1</a>\n    <a class=\"item\" href=\"item-2\">Item 2</a>\n</body>\n";

    let now = ts(2021, 02, 01, 13, 0, 0);
    let feed = Website::scrape(&request, html_body, now);

    assert_eq!(
        feed.elements.get(0).map(|i| i.url.to_string()),
        Some("https://example.com/feed/item-1".to_string())
    )
}

#[test]
pub fn parse_human_dates() {
    let mut request = plain_request("Parse Human Dates Test", "https://example.com/feed/", ".item");
    request.title_selector = scraper::Selector::parse(".link").ok();
    request.link_selector = scraper::Selector::parse(".link").ok();
    request.pub_date_selector = scraper::Selector::parse(".published").ok();

    let html_body = "<!DOCTYPE html>\n<html lang=\"en-US\">\n<body>\n  <div class=\"item\">\n    <a class=\"link\" href=\"item-1\">The Story</a>\n    <p class=\"published\">Jan 10, 2021</p>\n  </div>\n</body>\n";

    let now = ts(2021, 02, 01, 13, 0, 0);
    let feed = Website::scrape(&request, html_body, now);

    assert_eq!(
        feed.elements.get(0).and_then(|i| i.pub_date),
        Some(ts(2021, 01, 10, 0, 0, 0))
    );
}

#[test]
fn absolute_links_pass_through_and_items_without_href_are_dropped() {
    let request = plain_request("Link Rules", "https://example.com/feed/", ".item");

    let html_body = "<body>\n  <a class=\"item\" href=\"https://other.example/story\">Absolute</a>\n  <a class=\"item\" href=\"sub/story\">Relative</a>\n  <span class=\"item\">No Link At All</span>\n</body>\n";

    let feed = Website::scrape(&request, html_body, ts(2021, 02, 01, 13, 0, 0));

    assert_eq!(feed.elements.len(), 2);
    assert_eq!(feed.elements[0].url, "https://other.example/story");
    assert_eq!(feed.elements[1].url, "https://example.com/feed/sub/story");
}

#[test]
fn titles_are_trimmed_and_fall_back_to_the_item_node() {
    let request = plain_request("Trim", "https://example.com/feed/", ".item");

    let html_body =
        "<body>\n  <a class=\"item\" href=\"item-1\">  Spaced Out Title\n  </a>\n</body>\n";

    let feed = Website::scrape(&request, html_body, ts(2021, 02, 01, 13, 0, 0));

    assert_eq!(feed.elements[0].title, "Spaced Out Title");
}

#[test]
fn reversed_order_reverses_before_the_cap() {
    let html_body = "<body>\n  <a class=\"item\" href=\"a\">A</a>\n  <a class=\"item\" href=\"b\">B</a>\n  <a class=\"item\" href=\"c\">C</a>\n  <a class=\"item\" href=\"d\">D</a>\n</body>\n";
    let now = ts(2021, 02, 01, 13, 0, 0);

    let mut normal = plain_request("Order", "https://example.com/feed/", ".item");
    normal.max_items = 2;
    let feed = Website::scrape(&normal, html_body, now);
    let titles: Vec<&str> = feed.elements.iter().map(|e| e.title.as_str()).collect();
    assert_eq!(titles, vec!["A", "B"]);

    let mut reversed = plain_request("Order", "https://example.com/feed/", ".item");
    reversed.max_items = 2;
    reversed.order = FeedOrder::Reversed;
    let feed = Website::scrape(&reversed, html_body, now);
    let titles: Vec<&str> = feed.elements.iter().map(|e| e.title.as_str()).collect();
    assert_eq!(titles, vec!["D", "C"]);
}

#[test]
fn max_items_is_never_exceeded() {
    let html_body = "<body>\n  <a class=\"item\" href=\"a\">A</a>\n  <a class=\"item\" href=\"b\">B</a>\n  <a class=\"item\" href=\"c\">C</a>\n</body>\n";
    let mut request = plain_request("Cap", "https://example.com/feed/", ".item");
    request.max_items = 1;

    let feed = Website::scrape(&request, html_body, ts(2021, 02, 01, 13, 0, 0));

    assert_eq!(feed.elements.len(), 1);
}

#[test]
fn generate_feed_round_trip_on_relative_links() {
    let request = plain_request("Round Trip", "https://example.com/feed/", ".item");

    let html_body = "<body>\n  <a class=\"item\" href=\"item-1\">First</a>\n  <a class=\"item\" href=\"item-2\">Second</a>\n</body>\n";

    let now = ts(2021, 02, 01, 13, 0, 0);
    let feed = generate_feed(&request, html_body, now);

    assert_eq!(feed.items.len(), 2);
    assert_eq!(feed.items[0].url, "https://example.com/feed/item-1");
    assert_eq!(feed.items[1].url, "https://example.com/feed/item-2");
    assert!(feed.items[0].pub_date > feed.items[1].pub_date);
}

#[test]
fn generate_feed_with_no_matches_yields_an_empty_feed() {
    let request = plain_request("Nothing Here", "https://example.com/feed/", ".item");

    let html_body = "<body>\n  <p>No items on this page.</p>\n</body>\n";

    let feed = generate_feed(&request, html_body, ts(2021, 02, 01, 13, 0, 0));

    assert_eq!(feed.name, "Nothing Here");
    assert!(feed.items.is_empty());
}

#[test]
fn scrape_all_spreads_timestamps_an_hour_apart() {
    let request = plain_request("Hourly", "https://example.com/feed/", ".item");

    let html_body =
        "<body>\n  <a class=\"item\" href=\"a\">A</a>\n  <a class=\"item\" href=\"b\">B</a>\n</body>\n";

    let now = ts(2021, 02, 01, 13, 0, 0);
    let items = FeedItem::scrape_all(&request, html_body, now);

    assert_eq!(items.len(), 2);
    assert_eq!(items[0].pub_date, now);
    assert_eq!(items[1].pub_date, now - 3600);
    assert_eq!(items[0].title, "A");
    assert_eq!(items[1].title, "B");
}

#[test]
fn wild_date_text_yields_no_date_instead_of_a_fault() {
    let mut request = plain_request("Wild Dates", "https://example.com/feed/", ".item");
    request.link_selector = scraper::Selector::parse("a").ok();
    request.pub_date_selector = scraper::Selector::parse(".published").ok();

    // Each date text here drives the human-date parser into unchecked 32-bit
    // arithmetic or mid-character byte slicing if handed over unfiltered.
    let html_body = "<body>\n  <div class=\"item\"><a href=\"a\">A</a><p class=\"published\">4294967290pm</p></div>\n  <div class=\"item\"><a href=\"b\">B</a><p class=\"published\">12:30+4294967295</p></div>\n  <div class=\"item\"><a href=\"c\">C</a><p class=\"published\">12:30+9999999</p></div>\n  <div class=\"item\"><a href=\"d\">D</a><p class=\"published\">999999999 months ago</p></div>\n  <div class=\"item\"><a href=\"e\">E</a><p class=\"published\">10 \u{fc}\u{fc}</p></div>\n</body>\n";

    let feed = Website::scrape(&request, html_body, ts(2021, 02, 01, 13, 0, 0));

    assert_eq!(feed.elements.len(), 5);
    for element in &feed.elements {
        assert_eq!(element.pub_date, None);
    }
}

#[test]
fn relative_date_text_still_parses() {
    let mut request = plain_request("Relative Dates", "https://example.com/feed/", ".item");
    request.link_selector = scraper::Selector::parse("a").ok();
    request.pub_date_selector = scraper::Selector::parse(".published").ok();

    let html_body = "<body>\n  <div class=\"item\"><a href=\"a\">A</a><p class=\"published\">2 days ago</p></div>\n</body>\n";

    let now = ts(2021, 02, 01, 13, 0, 0);
    let feed = Website::scrape(&request, html_body, now);

    assert_eq!(feed.elements[0].pub_date, Some(now - 2 * 86_400));
}
