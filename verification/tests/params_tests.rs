//! Request parameters: lookup, validation, the error taxonomy, the item-cap
//! clamp, and the mapping back to a query URL.

use mk_rss::dates::date_text_is_tame;
use mk_rss::params::get_param;
use mk_rss::params::make_feed_request;
use mk_rss::params::to_rss_url;
use mk_rss::text::parse_usize;
use mk_rss::Error;
use mk_rss::FeedOrder;
use mk_rss::FeedRequestBuilder;

fn params(pairs: Vec<(&str, &str)>) -> Vec<(String, String)> {
    pairs.into_iter().map(|(k, v)| (k.to_string(), v.to_string())).collect()
}

fn full_params() -> Vec<(String, String)> {
    params(vec![
        ("name", "Example RSS"),
        ("url", "https://example.com/feed"),
        ("item_selector", ".class"),
        ("title_selector", ".title-class"),
        ("link_selector", ".link-class"),
        ("pub_date_selector", ".pub-date-class"),
        ("order", "reversed"),
        ("max_items", "25"),
    ])
}

#[test]
pub fn parse_valid_request() {
    let expected = FeedRequestBuilder::new(
        "Example RSS",
        "https://example.com/feed",
        ".class",
    )
        .title_selector(".title-class")
        .link_selector(".link-class")
        .pub_date_selector(".pub-date-class")
        .order(FeedOrder::Reversed)
        .max_items(25)
        .build()
        .unwrap();

    let feed_request = make_feed_request(&full_params()).unwrap();

    assert_eq!(feed_request, expected);
}

#[test]
fn missing_name_is_reported() {
    let r = make_feed_request(&params(vec![("url", "https://example.com/")]));
    assert_eq!(r.unwrap_err(), Error::RequiredParam("name".to_string()));
}

#[test]
fn bad_url_is_reported() {
    let r = make_feed_request(&params(vec![
        ("name", "X"),
        ("url", "not a url"),
        ("item_selector", ".item"),
    ]));
    assert_eq!(r.unwrap_err(), Error::InvalidUrl);
}

#[test]
fn missing_item_selector_is_reported() {
    let r = make_feed_request(&params(vec![("name", "X"), ("url", "https://example.com/")]));
    assert_eq!(r.unwrap_err(), Error::RequiredParam("item_selector".to_string()));
}

#[test]
fn bad_max_items_is_reported() {
    let r = make_feed_request(&params(vec![
        ("name", "X"),
        ("url", "https://example.com/"),
        ("item_selector", ".item"),
        ("max_items", "plenty"),
    ]));
    assert_eq!(r.unwrap_err(), Error::InvalidMaxItems);
}

#[test]
fn bad_order_is_reported() {
    let r = make_feed_request(&params(vec![
        ("name", "X"),
        ("url", "https://example.com/"),
        ("item_selector", ".item"),
        ("order", "sideways"),
    ]));
    assert_eq!(r.unwrap_err(), Error::InvalidFeedOrder("sideways".to_string()));
}

#[test]
fn bad_item_selector_is_reported() {
    let r = make_feed_request(&params(vec![
        ("name", "X"),
        ("url", "https://example.com/"),
        ("item_selector", "]["),
    ]));
    assert_eq!(r.unwrap_err(), Error::InvalidSelector("item_selector".to_string()));
}

#[test]
fn bad_title_selector_is_reported_by_build() {
    let builder = FeedRequestBuilder::new("X", "https://example.com/", ".item")
        .title_selector("][");
    assert_eq!(
        builder.build().unwrap_err(),
        Error::InvalidSelector("title_selector".to_string())
    );
}

#[test]
fn oversized_max_items_is_clamped_to_thirty() {
    let mut pairs = full_params();
    pairs.retain(|(k, _)| k != "max_items");
    pairs.push(("max_items".to_string(), "9999".to_string()));
    let request = make_feed_request(&pairs).unwrap();
    assert_eq!(request.max_items, 30);

    let built = FeedRequestBuilder::new("X", "https://example.com/", ".item")
        .max_items(9999)
        .build()
        .unwrap();
    assert_eq!(built.max_items, 30);
}

#[test]
fn order_defaults_to_normal_and_max_items_to_thirty() {
    let request = make_feed_request(&params(vec![
        ("name", "X"),
        ("url", "https://example.com/"),
        ("item_selector", ".item"),
    ]))
    .unwrap();
    assert_eq!(request.order, FeedOrder::Normal);
    assert_eq!(request.max_items, 30);
}

#[test]
fn get_param_takes_the_first_occurrence() {
    let pairs = params(vec![("name", "First"), ("name", "Second")]);
    assert_eq!(get_param(&pairs, "name"), Some("First".to_string()));
    assert_eq!(get_param(&pairs, "url"), None);
}

#[test]
fn feed_order_words_round_trip() {
    assert_eq!(FeedOrder::try_from("normal").unwrap(), FeedOrder::Normal);
    assert_eq!(FeedOrder::try_from("reversed").unwrap(), FeedOrder::Reversed);
    assert_eq!(
        FeedOrder::try_from("upside-down").unwrap_err(),
        Error::InvalidFeedOrder("upside-down".to_string())
    );
    assert_eq!(FeedOrder::Normal.to_string(), "normal");
    assert_eq!(FeedOrder::Reversed.to_string(), "reversed");
}

#[test]
fn parse_usize_reads_plain_decimals() {
    assert_eq!(parse_usize("25"), Some(25));
    assert_eq!(parse_usize("+7"), Some(7));
    assert_eq!(parse_usize("0"), Some(0));
    assert_eq!(parse_usize(""), None);
    assert_eq!(parse_usize("+"), None);
    assert_eq!(parse_usize("12a"), None);
    assert_eq!(parse_usize("-3"), None);
    assert_eq!(parse_usize("99999999999999999999999999"), None);
}

#[test]
fn to_rss_url_carries_every_parameter() {
    let builder = FeedRequestBuilder::new(
        "Example RSS",
        "https://example.com/feed",
        ".class",
    )
        .title_selector(".title-class")
        .order(FeedOrder::Reversed)
        .max_items(25);

    let url = to_rss_url("https://lambda.example.com/mk-rss", &builder).unwrap();

    assert!(url.starts_with("https://lambda.example.com/mk-rss?"));
    assert!(url.contains("name=Example+RSS"));
    assert!(url.contains("url=https%3A%2F%2Fexample.com%2Ffeed"));
    assert!(url.contains("item_selector=.class"));
    assert!(url.contains("title_selector=.title-class"));
    assert!(!url.contains("link_selector"));
    assert!(url.contains("order=reversed"));
    assert!(url.contains("max_items=25"));
}

#[test]
fn to_rss_url_defaults_order_and_cap() {
    let builder = FeedRequestBuilder::new("X", "https://example.com/", ".item");
    let url = to_rss_url("https://lambda.example.com/mk-rss", &builder).unwrap();
    assert!(url.contains("order=normal"));
    assert!(url.contains("max_items=30"));
}

#[test]
fn error_messages_name_the_fault() {
    assert_eq!(Error::required_param("name").message(), "name is required");
    assert_eq!(
        Error::InvalidFeedOrder("sideways".to_string()).message(),
        "sideways is not a valid feed order. Must be 'normal' or 'reversed'"
    );
    assert_eq!(
        Error::InvalidSelector("item_selector".to_string()).message(),
        "Could not parse item_selector"
    );
    assert_eq!(Error::InvalidUrl.message(), "invalid url");
    assert_eq!(Error::InvalidMaxItems.message(), "max_items must be a number");
}

#[test]
fn date_text_tameness_is_by_digit_runs_and_ascii_words() {
    assert!(date_text_is_tame("Jan 10, 2021"));
    assert!(date_text_is_tame("12:30+02:00"));
    assert!(date_text_is_tame("123456"));
    assert!(!date_text_is_tame("1234567"));
    assert!(!date_text_is_tame("4294967290pm"));
    assert!(!date_text_is_tame("\u{fc}\u{fc}"));
    // Non-ASCII punctuation and spacing stay acceptable.
    assert!(date_text_is_tame("Jan\u{a0}10, 2021 \u{2014} news"));
    assert!(date_text_is_tame(""));
}
