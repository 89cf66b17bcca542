//! Date synthesis: inheritance of missing dates and the monotonicity repair
//! pass.

use chrono::TimeZone;

use mk_rss::Feed;
use mk_rss::Website;
use mk_rss::WebsiteElement;

fn ts(y: i32, mo: u32, d: u32, h: u32, mi: u32, s: u32) -> i64 {
    chrono::Utc.with_ymd_and_hms(y, mo, d, h, mi, s).unwrap().timestamp()
}

fn website_element(title: &str, pub_date: Option<i64>) -> WebsiteElement {
    WebsiteElement {
        title: title.to_string(),
        url: "https://example.com/feed/".to_string(),
        pub_date,
    }
}

#[test]
pub fn from_website_should_infer_missing_dates_from_previous_date() {
    let website = Website {
        name: "Test Website".to_string(),
        url: "https://example.com/feed/".to_string(),
        elements: vec![
            website_element("The Story A", None),
            website_element("The Story B", None),
            website_element("The Story C", Some(ts(2020, 02, 01, 13, 0, 0))),
            website_element("The Story D", Some(ts(2020, 02, 01, 13, 0, 0))),
            website_element("The Story E", Some(ts(2020, 03, 01, 13, 0, 0))),
            website_element("The Story F", Some(ts(2020, 03, 01, 13, 0, 0))),
        ],
    };

    let now = ts(2021, 02, 01, 13, 0, 0);
    let feed = Feed::from_website(website, now);

    for window in feed.items.windows(2) {
        let earlier_item = window.get(0).expect("earlier_item should exist");
        let later_item = window.get(1).expect("later_item should exist");
        assert!(
            earlier_item.pub_date > later_item.pub_date,
            "{} should be published after {}. earlier_pub_date = {}, later_pub_date = {}",
            earlier_item.title,
            later_item.title,
            earlier_item.pub_date,
            later_item.pub_date
        )
    }
}

#[test]
pub fn from_website_should_reorder_pub_date_by_input_order() {
    let website = Website {
        name: "Test Website".to_string(),
        url: "https://example.com/feed/".to_string(),
        elements: vec![
            website_element("The Story A", Some(ts(2020, 03, 01, 13, 0, 0))),
            website_element("The Story B", Some(ts(2020, 03, 02, 13, 0, 0))),
            website_element("The Story C", Some(ts(2020, 02, 01, 13, 0, 0))),
        ],
    };

    let now = ts(2021, 02, 01, 13, 0, 0);
    let feed = Feed::from_website(website, now);

    for window in feed.items.windows(2) {
        let earlier_item = window.get(0).expect("earlier_item should exist");
        let later_item = window.get(1).expect("later_item should exist");
        assert!(
            earlier_item.pub_date > later_item.pub_date,
            "{} should be published after {}. earlier_pub_date = {}, later_pub_date = {}",
            earlier_item.title,
            later_item.title,
            earlier_item.pub_date,
            later_item.pub_date
        )
    }
}

#[test]
fn identical_dates_become_distinct_and_ordered() {
    let same = ts(2020, 02, 01, 13, 0, 0);
    let website = Website {
        name: "Twins".to_string(),
        url: "https://example.com/feed/".to_string(),
        elements: vec![
            website_element("First On Page", Some(same)),
            website_element("Second On Page", Some(same)),
        ],
    };

    let feed = Feed::from_website(website, ts(2021, 02, 01, 13, 0, 0));

    assert_eq!(feed.items.len(), 2);
    let earlier = &feed.items[0];
    let later = &feed.items[1];
    assert_ne!(earlier.pub_date, later.pub_date);
    assert!(earlier.pub_date > later.pub_date);
    assert!(earlier.pub_date - later.pub_date >= 1);
    assert_eq!(earlier.pub_date, same);
    assert_eq!(later.pub_date, same - 1);
}

#[test]
fn missing_dates_inherit_then_get_repaired() {
    let real = ts(2020, 06, 01, 8, 0, 0);
    let website = Website {
        name: "Gaps".to_string(),
        url: "https://example.com/feed/".to_string(),
        elements: vec![
            website_element("Dated", Some(real)),
            website_element("Undated", None),
        ],
    };

    let feed = Feed::from_website(website, ts(2021, 02, 01, 13, 0, 0));

    // The undated item inherits its predecessor's date and the repair pass
    // pushes it one second below it.
    assert_eq!(feed.items[0].pub_date, real);
    assert_eq!(feed.items[1].pub_date, real - 1);
}

#[test]
fn no_dates_at_all_start_from_now() {
    let website = Website {
        name: "Undated".to_string(),
        url: "https://example.com/feed/".to_string(),
        elements: vec![
            website_element("A", None),
            website_element("B", None),
            website_element("C", None),
        ],
    };

    let now = ts(2021, 02, 01, 13, 0, 0);
    let feed = Feed::from_website(website, now);

    assert_eq!(feed.items[0].pub_date, now);
    assert_eq!(feed.items[1].pub_date, now - 1);
    assert_eq!(feed.items[2].pub_date, now - 2);
}

#[test]
fn empty_website_yields_empty_feed() {
    let website = Website {
        name: "Empty".to_string(),
        url: "https://example.com/feed/".to_string(),
        elements: vec![],
    };

    let feed = Feed::from_website(website, ts(2021, 02, 01, 13, 0, 0));

    assert_eq!(feed.name, "Empty");
    assert_eq!(feed.url, "https://example.com/feed/");
    assert!(feed.items.is_empty());
}
