//! Rendering: the fixed RSS 2.0 document structure, XML escaping, and
//! RFC 2822 publication dates.

use chrono::TimeZone;

use mk_rss::rss::xml_string;
use mk_rss::text::escape_xml;
use mk_rss::Feed;
use mk_rss::FeedItem;
use mk_rss::FeedOrder;
use mk_rss::FeedRequest;

fn ts(y: i32, mo: u32, d: u32, h: u32, mi: u32, s: u32) -> i64 {
    chrono::Utc.with_ymd_and_hms(y, mo, d, h, mi, s).unwrap().timestamp()
}

#[test]
fn escape_xml_replaces_the_five_special_characters() {
    assert_eq!(escape_xml("A & B <C> \"quoted\" 'single'"),
        "A &amp; B &lt;C&gt; &quot;quoted&quot; &apos;single&apos;");
    assert_eq!(escape_xml("plain"), "plain");
    assert_eq!(escape_xml(""), "");
}

#[test]
fn item_block_has_the_fixed_structure() {
    let item = FeedItem {
        title: "Story & More".to_string(),
        url: "https://example.com/feed/item-1".to_string(),
        pub_date: ts(2021, 02, 01, 13, 0, 0),
    };

    let xml = item.to_rss_xml();

    assert_eq!(
        xml,
        "<item>\n    <title>Story &amp; More</title>\n    <link>https://example.com/feed/item-1</link>\n    <guid>https://example.com/feed/item-1</guid>\n    <pubDate>Mon, 1 Feb 2021 13:00:00 +0000</pubDate>\n    <description/>\n</item>\n"
    );
}

#[test]
fn feed_document_lists_items_in_feed_order() {
    let feed = Feed {
        name: "My Feed".to_string(),
        url: "https://example.com/feed/".to_string(),
        items: vec![
            FeedItem {
                title: "First".to_string(),
                url: "https://example.com/feed/item-1".to_string(),
                pub_date: ts(2021, 02, 01, 13, 0, 0),
            },
            FeedItem {
                title: "Second".to_string(),
                url: "https://example.com/feed/item-2".to_string(),
                pub_date: ts(2021, 02, 01, 12, 0, 0),
            },
        ],
    };

    let xml = feed.to_rss_xml();

    assert!(xml.starts_with(
        "<rss version=\"2.0\">\n<channel>\n\n<title>My Feed</title>\n<link>https://example.com/feed/</link>\n<guid>https://example.com/feed/</guid>\n<description/>\n\n"
    ));
    assert!(xml.ends_with("\n</channel>\n</rss>\n"));
    let first = xml.find("item-1").expect("first item should be rendered");
    let second = xml.find("item-2").expect("second item should be rendered");
    assert!(first < second);
}

#[test]
fn empty_feed_renders_an_empty_channel() {
    let feed = Feed {
        name: "Empty".to_string(),
        url: "https://example.com/".to_string(),
        items: vec![],
    };

    let xml = feed.to_rss_xml();

    assert_eq!(
        xml,
        "<rss version=\"2.0\">\n<channel>\n\n<title>Empty</title>\n<link>https://example.com/</link>\n<guid>https://example.com/</guid>\n<description/>\n\n\n</channel>\n</rss>\n"
    );
}

#[test]
fn xml_string_renders_under_the_configured_identity() {
    let request = FeedRequest {
        name: "Configured <Name>".to_string(),
        url: "https://example.com/feed".to_string(),
        item_selector: scraper::Selector::parse(".item").unwrap(),
        title_selector: None,
        link_selector: None,
        pub_date_selector: None,
        order: FeedOrder::Normal,
        max_items: 30,
    };
    let items = vec![FeedItem {
        title: "Only".to_string(),
        url: "https://example.com/feed/only".to_string(),
        pub_date: ts(2021, 02, 01, 13, 0, 0),
    }];

    let xml = xml_string(&request, &items);

    assert!(xml.contains("<title>Configured &lt;Name&gt;</title>"));
    assert!(xml.contains("<pubDate>Mon, 1 Feb 2021 13:00:00 +0000</pubDate>"));
}
