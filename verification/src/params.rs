//! Building a validated feed configuration from plain request parameters.
//!
//! Front ends hand the query parameters over as a list of key/value pairs;
//! everything from lookup to validation is verified here. A key that occurs
//! more than once counts by its first occurrence.

use vstd::prelude::*;

use crate::error::Error;
use crate::feed_request::FeedOrder;
use crate::feed_request::FeedRequest;
use crate::feed_request::FeedRequestBuilder;
use crate::feed_request::MAX_ITEM_CAP;
use crate::html::selector_ok;
use crate::text::parse_usize;
use crate::text::parsed_usize;
use crate::text::decimal_of;
use crate::text::u64_to_decimal;
use crate::urls::append_query_pair;
use crate::urls::appended_pair;
use crate::urls::parse_abs_url;
use crate::urls::parsed_abs_url;

verus! {

/// The value under the first occurrence of `key`, if any.
pub open spec fn lookup(params: Seq<(Seq<char>, Seq<char>)>, key: Seq<char>) -> Option<Seq<char>>
    decreases params.len(),
{
    if params.len() == 0 {
        None
    } else if params[0].0 == key {
        Some(params[0].1)
    } else {
        lookup(params.drop_first(), key)
    }
}

/// The parameter list as the character sequences it holds.
pub open spec fn params_view(params: Seq<(String, String)>) -> Seq<(Seq<char>, Seq<char>)> {
    params.map_values(|p: (String, String)| (p.0@, p.1@))
}

/// Looks a parameter up by key, by first occurrence.
pub fn get_param(params: &Vec<(String, String)>, key: &str) -> (r: Option<String>)
    ensures
        r is Some <==> lookup(params_view(params@), key@) is Some,
        r matches Some(v) ==> v@ == lookup(params_view(params@), key@).unwrap(),
{
    let k = String::from_str(key);
    let mut i: usize = 0;
    proof {
        assert(params_view(params@).skip(0) =~= params_view(params@));
    }
    while i < params.len()
        invariant
            i <= params@.len(),
            k@ == key@,
            lookup(params_view(params@), key@) == lookup(
                params_view(params@).skip(i as int),
                key@,
            ),
        decreases params@.len() - i,
    {
        let p = &params[i];
        proof {
            assert(params_view(params@).skip(i as int)[0] == (params@[i as int].0@,
            params@[i as int].1@));
            assert(params_view(params@).skip(i as int).drop_first() =~= params_view(
                params@,
            ).skip(i + 1));
        }
        if p.0 == k {
            return Some(p.1.clone());
        }
        i = i + 1;
    }
    None
}

/// The order word a parameter list asks for is one of the two accepted ones.
pub open spec fn order_param_ok(p: Seq<(Seq<char>, Seq<char>)>) -> bool {
    lookup(p, "order"@) matches Some(o) ==> (o == "normal"@ || o == "reversed"@)
}

/// The item cap a parameter list asks for, if present, reads as a number.
pub open spec fn max_items_param_ok(p: Seq<(Seq<char>, Seq<char>)>) -> bool {
    lookup(p, "max_items"@) matches Some(m) ==> parsed_usize(m) is Some
}

/// An optional selector parameter, if present, compiles.
pub open spec fn opt_selector_param_ok(p: Seq<(Seq<char>, Seq<char>)>, key: Seq<char>) -> bool {
    lookup(p, key) matches Some(s) ==> selector_ok(s)
}

/// Everything a parameter list must satisfy to yield a configuration.
pub open spec fn request_params_valid(p: Seq<(Seq<char>, Seq<char>)>) -> bool {
    &&& lookup(p, "name"@) is Some
    &&& (lookup(p, "url"@) matches Some(u) && parsed_abs_url(u) is Some)
    &&& (lookup(p, "item_selector"@) matches Some(s) && selector_ok(s))
    &&& max_items_param_ok(p)
    &&& order_param_ok(p)
    &&& opt_selector_param_ok(p, "title_selector"@)
    &&& opt_selector_param_ok(p, "link_selector"@)
    &&& opt_selector_param_ok(p, "pub_date_selector"@)
}

/// The order a parameter word names.
pub open spec fn order_of_word(w: Seq<char>) -> FeedOrder {
    if w == "reversed"@ {
        FeedOrder::Reversed
    } else {
        FeedOrder::Normal
    }
}

/// The clamped item cap a parameter list yields.
pub open spec fn max_items_of_params(p: Seq<(Seq<char>, Seq<char>)>) -> usize {
    if lookup(p, "max_items"@) is Some {
        let m = parsed_usize(lookup(p, "max_items"@).unwrap()).unwrap();
        if m <= MAX_ITEM_CAP {
            m
        } else {
            MAX_ITEM_CAP
        }
    } else {
        MAX_ITEM_CAP
    }
}

/// One more key/value pair on an already possibly-failed URL.
pub open spec fn appended_opt(u: Option<Seq<char>>, key: Seq<char>, value: Seq<char>) -> Option<
    Seq<char>,
> {
    match u {
        None => None,
        Some(s) => appended_pair(s, key, value),
    }
}

/// The request-parameter word of an order.
pub open spec fn order_word(o: FeedOrder) -> Seq<char> {
    if o is Reversed {
        "reversed"@
    } else {
        "normal"@
    }
}

/// The query URL that asks a serving endpoint for the feed this builder
/// describes: every field of the builder as one query parameter, in a fixed
/// order, the optional selectors only where present, order and item cap
/// filled with their defaults.
pub open spec fn rss_url_spec(lambda_url: Seq<char>, b: FeedRequestBuilder) -> Option<Seq<char>> {
    let u = appended_pair(lambda_url, "name"@, b.name@);
    let u = appended_opt(u, "url"@, b.url@);
    let u = appended_opt(u, "item_selector"@, b.item_selector@);
    let u = if b.title_selector is Some {
        appended_opt(u, "title_selector"@, b.title_selector.unwrap()@)
    } else {
        u
    };
    let u = if b.link_selector is Some {
        appended_opt(u, "link_selector"@, b.link_selector.unwrap()@)
    } else {
        u
    };
    let u = if b.pub_date_selector is Some {
        appended_opt(u, "pub_date_selector"@, b.pub_date_selector.unwrap()@)
    } else {
        u
    };
    let u = appended_opt(
        u,
        "order"@,
        order_word(
            if b.order is Some {
                b.order.unwrap()
            } else {
                FeedOrder::Normal
            },
        ),
    );
    appended_opt(
        u,
        "max_items"@,
        decimal_of(
            (if b.max_items is Some {
                b.max_items.unwrap()
            } else {
                MAX_ITEM_CAP
            }) as nat,
        ),
    )
}

/// Turns a raw request into the query URL that asks a serving endpoint for
/// the same feed; `None` only when `lambda_url` does not parse.
pub fn to_rss_url(lambda_url: &str, builder: &FeedRequestBuilder) -> (r: Option<String>)
    ensures
        r is Some <==> rss_url_spec(lambda_url@, *builder) is Some,
        r matches Some(u) ==> u@ == rss_url_spec(lambda_url@, *builder).unwrap(),
{
    let u = match append_query_pair(lambda_url, "name", builder.name.as_str()) {
        Some(u) => u,
        None => {
            return None;
        },
    };
    let u = match append_query_pair(u.as_str(), "url", builder.url.as_str()) {
        Some(u) => u,
        None => {
            return None;
        },
    };
    let u = match append_query_pair(u.as_str(), "item_selector", builder.item_selector.as_str()) {
        Some(u) => u,
        None => {
            return None;
        },
    };
    let u = match &builder.title_selector {
        Some(t) => match append_query_pair(u.as_str(), "title_selector", t.as_str()) {
            Some(u) => u,
            None => {
                return None;
            },
        },
        None => u,
    };
    let u = match &builder.link_selector {
        Some(t) => match append_query_pair(u.as_str(), "link_selector", t.as_str()) {
            Some(u) => u,
            None => {
                return None;
            },
        },
        None => u,
    };
    let u = match &builder.pub_date_selector {
        Some(t) => match append_query_pair(u.as_str(), "pub_date_selector", t.as_str()) {
            Some(u) => u,
            None => {
                return None;
            },
        },
        None => u,
    };
    let order = match builder.order {
        Some(o) => o,
        None => FeedOrder::Normal,
    };
    let order_text = order.to_string();
    let u = match append_query_pair(u.as_str(), "order", order_text.as_str()) {
        Some(u) => u,
        None => {
            return None;
        },
    };
    let max_items: usize = match builder.max_items {
        Some(m) => m,
        None => MAX_ITEM_CAP,
    };
    let max_text = u64_to_decimal(max_items as u64);
    append_query_pair(u.as_str(), "max_items", max_text.as_str())
}

/// Builds a validated feed configuration from request parameters, reporting
/// the first fault in the order the parameters are examined: missing name,
/// missing or unparsable url, missing item selector, malformed item cap,
/// unknown order word, then each selector that does not compile.
pub fn make_feed_request(params: &Vec<(String, String)>) -> (r: Result<FeedRequest, Error>)
    ensures
        r is Ok <==> request_params_valid(params_view(params@)),
        ({
            let p = params_view(params@);
            &&& (lookup(p, "name"@) is None ==> (r matches Err(Error::RequiredParam(s)) && s@
                == "name"@))
            &&& (lookup(p, "name"@) is Some && lookup(p, "url"@) is None ==> (r matches Err(
                Error::RequiredParam(s),
            ) && s@ == "url"@))
            &&& (lookup(p, "name"@) is Some && (lookup(p, "url"@) matches Some(u)
                && parsed_abs_url(u) is None) ==> r == Err::<FeedRequest, Error>(Error::InvalidUrl))
            &&& (lookup(p, "name"@) is Some && (lookup(p, "url"@) matches Some(u)
                && parsed_abs_url(u) is Some) && lookup(p, "item_selector"@) is None ==> (r matches
            Err(Error::RequiredParam(s)) && s@ == "item_selector"@))
            &&& (lookup(p, "name"@) is Some && (lookup(p, "url"@) matches Some(u)
                && parsed_abs_url(u) is Some) && lookup(p, "item_selector"@) is Some
                && !max_items_param_ok(p) ==> r == Err::<FeedRequest, Error>(
                Error::InvalidMaxItems,
            ))
            &&& (lookup(p, "name"@) is Some && (lookup(p, "url"@) matches Some(u)
                && parsed_abs_url(u) is Some) && lookup(p, "item_selector"@) is Some
                && max_items_param_ok(p) && !order_param_ok(p) ==> (r matches Err(
                Error::InvalidFeedOrder(s),
            ) && Some(s@) == lookup(p, "order"@)))
            &&& (lookup(p, "name"@) is Some && (lookup(p, "url"@) matches Some(u)
                && parsed_abs_url(u) is Some) && lookup(p, "item_selector"@) is Some
                && max_items_param_ok(p) && order_param_ok(p) && !selector_ok(
                lookup(p, "item_selector"@).unwrap(),
            ) ==> (r matches Err(Error::InvalidSelector(s)) && s@ == "item_selector"@))
            &&& (lookup(p, "name"@) is Some && (lookup(p, "url"@) matches Some(u)
                && parsed_abs_url(u) is Some) && lookup(p, "item_selector"@) is Some
                && max_items_param_ok(p) && order_param_ok(p) && selector_ok(
                lookup(p, "item_selector"@).unwrap(),
            ) && (lookup(p, "title_selector"@) matches Some(s) && !selector_ok(s)) ==> (r matches
            Err(Error::InvalidSelector(f)) && f@ == "title_selector"@))
            &&& (lookup(p, "name"@) is Some && (lookup(p, "url"@) matches Some(u)
                && parsed_abs_url(u) is Some) && lookup(p, "item_selector"@) is Some
                && max_items_param_ok(p) && order_param_ok(p) && selector_ok(
                lookup(p, "item_selector"@).unwrap(),
            ) && opt_selector_param_ok(p, "title_selector"@) && (lookup(p, "link_selector"@)
                matches Some(s) && !selector_ok(s)) ==> (r matches Err(Error::InvalidSelector(f))
                && f@ == "link_selector"@))
            &&& (lookup(p, "name"@) is Some && (lookup(p, "url"@) matches Some(u)
                && parsed_abs_url(u) is Some) && lookup(p, "item_selector"@) is Some
                && max_items_param_ok(p) && order_param_ok(p) && selector_ok(
                lookup(p, "item_selector"@).unwrap(),
            ) && opt_selector_param_ok(p, "title_selector"@) && opt_selector_param_ok(
                p,
                "link_selector"@,
            ) && (lookup(p, "pub_date_selector"@) matches Some(s) && !selector_ok(s)) ==> (
            r matches Err(Error::InvalidSelector(f)) && f@ == "pub_date_selector"@))
        }),
        r matches Ok(q) ==> ({
            let p = params_view(params@);
            &&& Some(q.name@) == lookup(p, "name"@)
            &&& q.url@ == parsed_abs_url(lookup(p, "url"@).unwrap()).unwrap()
            &&& (q.title_selector is Some <==> lookup(p, "title_selector"@) is Some)
            &&& (q.link_selector is Some <==> lookup(p, "link_selector"@) is Some)
            &&& (q.pub_date_selector is Some <==> lookup(p, "pub_date_selector"@) is Some)
            &&& q.order == (if lookup(p, "order"@) is Some {
                order_of_word(lookup(p, "order"@).unwrap())
            } else {
                FeedOrder::Normal
            })
            &&& q.max_items == max_items_of_params(p)
            &&& q.wf()
        }),
{
    let name = match get_param(params, "name") {
        Some(n) => n,
        None => {
            return Err(Error::required_param("name"));
        },
    };
    let url = match get_param(params, "url") {
        Some(u) => u,
        None => {
            return Err(Error::required_param("url"));
        },
    };
    match parse_abs_url(url.as_str()) {
        Some(_) => (),
        None => {
            return Err(Error::InvalidUrl);
        },
    };
    let item_selector = match get_param(params, "item_selector") {
        Some(s) => s,
        None => {
            return Err(Error::required_param("item_selector"));
        },
    };
    let max_items = match get_param(params, "max_items") {
        Some(m) => match parse_usize(m.as_str()) {
            Some(v) => Some(v),
            None => {
                return Err(Error::InvalidMaxItems);
            },
        },
        None => None,
    };
    let order = match get_param(params, "order") {
        Some(o) => match FeedOrder::try_from(o.as_str()) {
            Ok(v) => Some(v),
            Err(e) => {
                return Err(e);
            },
        },
        None => None,
    };
    proof {
        reveal_strlit("normal");
        reveal_strlit("reversed");
        assert("normal"@.len() == 6);
        assert("reversed"@.len() == 8);
        assert("normal"@ != "reversed"@);
    }
    let builder = FeedRequestBuilder {
        name,
        url,
        item_selector,
        title_selector: get_param(params, "title_selector"),
        link_selector: get_param(params, "link_selector"),
        pub_date_selector: get_param(params, "pub_date_selector"),
        order,
        max_items,
    };
    builder.build()
}

} // verus!
