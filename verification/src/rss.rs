//! Rendering a feed to the wire format: a fixed-structure RSS 2.0 document,
//! one channel, one `<item>` block per entry in feed order, the entry link
//! doubling as its guid, publication dates in RFC 2822, and an empty
//! description placeholder on the channel and on every entry. Special XML
//! characters in names, titles and links are escaped.

use vstd::prelude::*;

use crate::dates::format_rfc2822;
use crate::dates::rfc2822_of;
use crate::dates::ts_renderable;
use crate::feed::item_views;
use crate::feed::Feed;
use crate::feed::FeedItem;
use crate::feed::FeedItemView;
use crate::feed_request::FeedRequest;
use crate::text::escape_xml;
use crate::text::xml_escaped;

verus! {

/// The `<item>` block of one entry.
pub open spec fn item_xml(item: FeedItemView) -> Seq<char> {
    "<item>\n    <title>"@ + xml_escaped(item.title) + "</title>\n    <link>"@ + xml_escaped(
        item.url,
    ) + "</link>\n    <guid>"@ + xml_escaped(item.url) + "</guid>\n    <pubDate>"@ + rfc2822_of(
        item.pub_date as i64,
    ) + "</pubDate>\n    <description/>\n</item>\n"@
}

/// The concatenated `<item>` blocks, in feed order.
pub open spec fn items_xml(items: Seq<FeedItemView>) -> Seq<char>
    decreases items.len(),
{
    if items.len() == 0 {
        Seq::empty()
    } else {
        items_xml(items.drop_last()) + item_xml(items.last())
    }
}

/// The whole document for a channel named `name` at `url` with the given
/// entries.
pub open spec fn feed_xml(name: Seq<char>, url: Seq<char>, items: Seq<FeedItemView>) -> Seq<
    char,
> {
    "<rss version=\"2.0\">\n<channel>\n\n<title>"@ + xml_escaped(name) + "</title>\n<link>"@
        + xml_escaped(url) + "</link>\n<guid>"@ + xml_escaped(url) + "</guid>\n<description/>\n\n"@
        + items_xml(items) + "\n</channel>\n</rss>\n"@
}

impl FeedItem {
    /// Renders this entry's `<item>` block.
    pub fn to_rss_xml(&self) -> (r: String)
        requires
            ts_renderable(self@.pub_date),
        ensures
            r@ == item_xml(self@),
    {
        let mut r = String::from_str("<item>\n    <title>");
        let title = escape_xml(self.title.as_str());
        r.append(title.as_str());
        r.append("</title>\n    <link>");
        let url = escape_xml(self.url.as_str());
        r.append(url.as_str());
        r.append("</link>\n    <guid>");
        r.append(url.as_str());
        r.append("</guid>\n    <pubDate>");
        let date = format_rfc2822(self.pub_date);
        r.append(date.as_str());
        r.append("</pubDate>\n    <description/>\n</item>\n");
        proof {
            assert(r@ =~= item_xml(self@));
        }
        r
    }
}

/// Renders the document for a channel and its entries.
fn render_channel(name: &str, url: &str, items: &Vec<FeedItem>) -> (r: String)
    requires
        forall|k: int| 0 <= k < items@.len() ==> ts_renderable(#[trigger] items@[k]@.pub_date),
    ensures
        r@ == feed_xml(name@, url@, item_views(items@)),
{
    let ghost iv = item_views(items@);
    let mut body = String::new();
    let mut i: usize = 0;
    proof {
        assert(iv.subrange(0, 0) =~= Seq::<FeedItemView>::empty());
    }
    while i < items.len()
        invariant
            forall|k: int| 0 <= k < items@.len() ==> ts_renderable(#[trigger] items@[k]@.pub_date),
            iv == item_views(items@),
            i <= items@.len(),
            body@ == items_xml(iv.subrange(0, i as int)),
        decreases items@.len() - i,
    {
        proof {
            assert(iv[i as int] == items@[i as int]@);
            assert(iv.subrange(0, i + 1).drop_last() =~= iv.subrange(0, i as int));
            assert(iv.subrange(0, i + 1).last() == iv[i as int]);
        }
        let t = items[i].to_rss_xml();
        body.append(t.as_str());
        i = i + 1;
    }
    proof {
        assert(iv.subrange(0, items@.len() as int) =~= iv);
    }
    let mut r = String::from_str("<rss version=\"2.0\">\n<channel>\n\n<title>");
    let name_escaped = escape_xml(name);
    r.append(name_escaped.as_str());
    r.append("</title>\n<link>");
    let url_escaped = escape_xml(url);
    r.append(url_escaped.as_str());
    r.append("</link>\n<guid>");
    r.append(url_escaped.as_str());
    r.append("</guid>\n<description/>\n\n");
    r.append(body.as_str());
    r.append("\n</channel>\n</rss>\n");
    proof {
        assert(r@ =~= feed_xml(name@, url@, iv));
    }
    r
}

impl Feed {
    /// Renders the whole feed document; entry order is exactly the order of
    /// the items, index 0 first.
    pub fn to_rss_xml(&self) -> (r: String)
        requires
            self.renderable(),
        ensures
            r@ == feed_xml(self.name@, self.url@, item_views(self.items@)),
    {
        render_channel(self.name.as_str(), self.url.as_str(), &self.items)
    }
}

/// Renders the document for a configuration and the items scraped under it;
/// the channel carries the configured name and source URL.
pub fn xml_string(request: &FeedRequest, items: &Vec<FeedItem>) -> (r: String)
    requires
        forall|k: int| 0 <= k < items@.len() ==> ts_renderable(#[trigger] items@[k]@.pub_date),
    ensures
        r@ == feed_xml(request.name@, request.url@, item_views(items@)),
{
    render_channel(request.name.as_str(), request.url.as_str(), items)
}

} // verus!
