//! Turns an arbitrary HTML page into a well-formed, temporally ordered
//! syndication feed, given a declarative description of where on the page the
//! relevant items live.

use vstd::prelude::*;

pub mod error;
pub mod fetch;
pub mod feed;
pub mod feed_request;
pub mod html;
pub mod params;
pub mod rss;
pub mod dates;
pub mod text;
pub mod urls;
pub mod website;

pub use error::Error;
pub use feed::Feed;
pub use feed::FeedItem;
pub use feed_request::FeedOrder;
pub use feed_request::FeedRequest;
pub use feed_request::FeedRequestBuilder;
pub use website::Website;
pub use website::WebsiteElement;

use crate::dates::ts_wf;
use crate::feed::item_views;
use crate::feed::strictly_descending;

verus! {

/// The single entry point of the pipeline on a fetched page: extracts the
/// configured items from `html_body`, resolves their links, synthesizes
/// publication instants anchored at `now`, and assembles the feed. It always
/// yields a feed — a page where nothing matches yields one with an empty item
/// sequence — with at most the configured number of items, strictly ordered
/// by publication instant, most recent first.
pub fn generate_feed(request: &FeedRequest, html_body: &str, now: i64) -> (feed: Feed)
    requires
        request.wf(),
        ts_wf(now as int),
    ensures
        feed.name@ == request.name@,
        feed.url@ == request.url@,
        feed.items@.len() <= request.max_items,
        strictly_descending(item_views(feed.items@)),
        feed.renderable(),
{
    let website = Website::scrape(request, html_body, now);
    Feed::from_website(website, now)
}

} // verus!
