//! The declarative description of what to scrape: feed identity, the source
//! URL, selectors for items and their parts, ordering, and the item cap.
//!
//! A `FeedRequest` is built once per request by a validating constructor:
//! selector texts must compile, the source URL must parse, and the item cap
//! is silently clamped to at most 30 — a hard ceiling protecting feed
//! consumers, never an error.

use vstd::prelude::*;

use crate::error::Error;
use crate::html::parse_selector;
use crate::html::selector_ok;
use crate::urls::parse_abs_url;
use crate::urls::parsed_abs_url;

verus! {

/// The hard ceiling on the number of items a feed may return.
pub const MAX_ITEM_CAP: usize = 30;

/// The order in which matched elements become feed items. `Normal` takes the
/// page top to bottom as most recent first; `Reversed` takes the bottom-most
/// element as most recent.
#[derive(Debug, PartialEq, Eq, Copy, Clone, Structural)]
pub enum FeedOrder {
    Normal,
    Reversed,
}

impl FeedOrder {
    /// Reads an order from its request-parameter word.
    pub fn try_from(value: &str) -> (r: Result<FeedOrder, Error>)
        ensures
            value@ == "normal"@ ==> r == Ok::<FeedOrder, Error>(FeedOrder::Normal),
            value@ == "reversed"@ ==> r == Ok::<FeedOrder, Error>(FeedOrder::Reversed),
            value@ != "normal"@ && value@ != "reversed"@ ==> (r matches Err(
                Error::InvalidFeedOrder(s),
            ) && s@ == value@),
    {
        proof {
            reveal_strlit("normal");
            reveal_strlit("reversed");
            assert("normal"@.len() == 6);
            assert("reversed"@.len() == 8);
            assert("normal"@ != "reversed"@);
        }
        let v = String::from_str(value);
        if v == String::from_str("normal") {
            Ok(FeedOrder::Normal)
        } else if v == String::from_str("reversed") {
            Ok(FeedOrder::Reversed)
        } else {
            Err(Error::InvalidFeedOrder(v))
        }
    }

    /// The request-parameter word for this order.
    pub fn to_string(&self) -> (r: String)
        ensures
            self is Normal ==> r@ == "normal"@,
            self is Reversed ==> r@ == "reversed"@,
    {
        match self {
            FeedOrder::Normal => String::from_str("normal"),
            FeedOrder::Reversed => String::from_str("reversed"),
        }
    }
}

/// A validated feed configuration. `url` holds the normalized serialization
/// of the source URL; the selectors are compiled matchers of the selector
/// collaborator. An absent optional selector means the item node itself is
/// the search target.
#[derive(Debug, PartialEq)]
pub struct FeedRequest {
    /// The name of this feed.
    pub name: String,
    /// The source page to scrape, as a normalized absolute URL.
    pub url: String,
    /// Matches the repeating node that holds one feed entry.
    pub item_selector: scraper::Selector,
    /// Matches the node within an item that holds its title.
    pub title_selector: Option<scraper::Selector>,
    /// Matches the node within an item whose `href` is the entry link.
    pub link_selector: Option<scraper::Selector>,
    /// Matches the node within an item that holds its publication date text.
    pub pub_date_selector: Option<scraper::Selector>,
    /// The order in which elements become feed items.
    pub order: FeedOrder,
    /// The maximum number of items to return, clamped at construction.
    pub max_items: usize,
}

impl FeedRequest {
    /// A configuration the validating constructor can produce: the item cap
    /// respects the hard ceiling.
    pub open spec fn wf(&self) -> bool {
        self.max_items <= MAX_ITEM_CAP
    }

    /// Checks well-formedness of a configuration assembled by hand.
    pub fn is_wf(&self) -> (b: bool)
        ensures
            b == self.wf(),
    {
        self.max_items <= MAX_ITEM_CAP
    }
}

/// The raw, not yet validated request: selector and URL text as the caller
/// sent it, with the optional fields still absent where unspecified.
pub struct FeedRequestBuilder {
    pub name: String,
    pub url: String,
    pub item_selector: String,
    pub title_selector: Option<String>,
    pub link_selector: Option<String>,
    pub pub_date_selector: Option<String>,
    pub order: Option<FeedOrder>,
    pub max_items: Option<usize>,
}

impl FeedRequestBuilder {
    pub fn new(name: &str, url: &str, item_selector: &str) -> (b: FeedRequestBuilder)
        ensures
            b.name@ == name@,
            b.url@ == url@,
            b.item_selector@ == item_selector@,
            b.title_selector is None,
            b.link_selector is None,
            b.pub_date_selector is None,
            b.order is None,
            b.max_items is None,
    {
        FeedRequestBuilder {
            name: String::from_str(name),
            url: String::from_str(url),
            item_selector: String::from_str(item_selector),
            title_selector: None,
            link_selector: None,
            pub_date_selector: None,
            order: None,
            max_items: None,
        }
    }

    pub fn maybe_title_selector(self, selector: Option<&str>) -> (b: FeedRequestBuilder)
        ensures
            b.title_selector is Some <==> selector is Some,
            selector matches Some(s) ==> b.title_selector matches Some(t) && t@ == s@,
            b == (FeedRequestBuilder { title_selector: b.title_selector, ..self }),
    {
        FeedRequestBuilder {
            title_selector: match selector {
                Some(s) => Some(String::from_str(s)),
                None => None,
            },
            ..self
        }
    }

    pub fn title_selector(self, selector: &str) -> (b: FeedRequestBuilder)
        ensures
            b.title_selector matches Some(t) && t@ == selector@,
            b == (FeedRequestBuilder { title_selector: b.title_selector, ..self }),
    {
        self.maybe_title_selector(Some(selector))
    }

    pub fn link_selector(self, selector: &str) -> (b: FeedRequestBuilder)
        ensures
            b.link_selector matches Some(t) && t@ == selector@,
            b == (FeedRequestBuilder { link_selector: b.link_selector, ..self }),
    {
        FeedRequestBuilder { link_selector: Some(String::from_str(selector)), ..self }
    }

    pub fn pub_date_selector(self, selector: &str) -> (b: FeedRequestBuilder)
        ensures
            b.pub_date_selector matches Some(t) && t@ == selector@,
            b == (FeedRequestBuilder { pub_date_selector: b.pub_date_selector, ..self }),
    {
        FeedRequestBuilder { pub_date_selector: Some(String::from_str(selector)), ..self }
    }

    pub fn order(self, order: FeedOrder) -> (b: FeedRequestBuilder)
        ensures
            b == (FeedRequestBuilder { order: Some(order), ..self }),
    {
        FeedRequestBuilder { order: Some(order), ..self }
    }

    pub fn max_items(self, max_items: usize) -> (b: FeedRequestBuilder)
        ensures
            b == (FeedRequestBuilder { max_items: Some(max_items), ..self }),
    {
        FeedRequestBuilder { max_items: Some(max_items), ..self }
    }

    /// Whether every selector text of this builder compiles and the source
    /// URL parses: exactly when validation produces a configuration.
    pub open spec fn valid(&self) -> bool {
        &&& selector_ok(self.item_selector@)
        &&& (self.title_selector matches Some(s) ==> selector_ok(s@))
        &&& (self.link_selector matches Some(s) ==> selector_ok(s@))
        &&& (self.pub_date_selector matches Some(s) ==> selector_ok(s@))
        &&& parsed_abs_url(self.url@) is Some
    }

    /// Validates the request: compiles each selector (reporting the first
    /// field that fails), parses the source URL, defaults the order to
    /// `Normal`, and clamps the item cap into `[0, 30]`.
    pub fn build(&self) -> (r: Result<FeedRequest, Error>)
        ensures
            r is Ok <==> self.valid(),
            !selector_ok(self.item_selector@) ==> (r matches Err(Error::InvalidSelector(f))
                && f@ == "item_selector"@),
            selector_ok(self.item_selector@) && (self.title_selector matches Some(s)
                && !selector_ok(s@)) ==> (r matches Err(Error::InvalidSelector(f))
                && f@ == "title_selector"@),
            selector_ok(self.item_selector@) && (self.title_selector matches Some(s)
                ==> selector_ok(s@)) && (self.link_selector matches Some(s) && !selector_ok(s@))
                ==> (r matches Err(Error::InvalidSelector(f)) && f@ == "link_selector"@),
            selector_ok(self.item_selector@) && (self.title_selector matches Some(s)
                ==> selector_ok(s@)) && (self.link_selector matches Some(s) ==> selector_ok(s@))
                && (self.pub_date_selector matches Some(s) && !selector_ok(s@)) ==> (r matches
            Err(Error::InvalidSelector(f)) && f@ == "pub_date_selector"@),
            selector_ok(self.item_selector@) && (self.title_selector matches Some(s)
                ==> selector_ok(s@)) && (self.link_selector matches Some(s) ==> selector_ok(s@))
                && (self.pub_date_selector matches Some(s) ==> selector_ok(s@)) && parsed_abs_url(
                self.url@,
            ) is None ==> r == Err::<FeedRequest, Error>(Error::InvalidUrl),
            r matches Ok(q) ==> {
                &&& q.name@ == self.name@
                &&& q.url@ == parsed_abs_url(self.url@).unwrap()
                &&& q.title_selector is Some <==> self.title_selector is Some
                &&& q.link_selector is Some <==> self.link_selector is Some
                &&& q.pub_date_selector is Some <==> self.pub_date_selector is Some
                &&& q.order == (if self.order is Some {
                    self.order.unwrap()
                } else {
                    FeedOrder::Normal
                })
                &&& q.max_items == (if self.max_items is Some {
                    if self.max_items.unwrap() <= MAX_ITEM_CAP {
                        self.max_items.unwrap()
                    } else {
                        MAX_ITEM_CAP
                    }
                } else {
                    MAX_ITEM_CAP
                })
                &&& q.wf()
            },
    {
        let item_selector = match parse_selector(self.item_selector.as_str()) {
            Some(s) => s,
            None => {
                return Err(Error::InvalidSelector(String::from_str("item_selector")));
            },
        };
        let title_selector = match &self.title_selector {
            Some(text) => match parse_selector(text.as_str()) {
                Some(s) => Some(s),
                None => {
                    return Err(Error::InvalidSelector(String::from_str("title_selector")));
                },
            },
            None => None,
        };
        let link_selector = match &self.link_selector {
            Some(text) => match parse_selector(text.as_str()) {
                Some(s) => Some(s),
                None => {
                    return Err(Error::InvalidSelector(String::from_str("link_selector")));
                },
            },
            None => None,
        };
        let pub_date_selector = match &self.pub_date_selector {
            Some(text) => match parse_selector(text.as_str()) {
                Some(s) => Some(s),
                None => {
                    return Err(Error::InvalidSelector(String::from_str("pub_date_selector")));
                },
            },
            None => None,
        };
        let url = match parse_abs_url(self.url.as_str()) {
            Some(u) => u,
            None => {
                return Err(Error::InvalidUrl);
            },
        };
        let order = match self.order {
            Some(o) => o,
            None => FeedOrder::Normal,
        };
        let max_items = match self.max_items {
            Some(m) => if m <= MAX_ITEM_CAP {
                m
            } else {
                MAX_ITEM_CAP
            },
            None => MAX_ITEM_CAP,
        };
        Ok(
            FeedRequest {
                name: self.name.clone(),
                url,
                item_selector,
                title_selector,
                link_selector,
                pub_date_selector,
                order,
                max_items,
            },
        )
    }
}

} // verus!
