//! The item extractor: applies a validated configuration to an HTML body and
//! produces the ordered list of candidate items.
//!
//! Extraction has two halves. `collect_parts` walks the opaque document and
//! brings back, for every node the item selector matches, the plain strings
//! the pipeline needs (title text, `href`, date text), resolving each
//! sub-target by the self-selector fallback rule. Everything after that is
//! verified value-level logic: trimming, link resolution (items without a
//! resolvable link are dropped silently), date reading, ordering and the item
//! cap.

use vstd::prelude::*;

use crate::dates::date_text_is_tame;
use crate::dates::date_text_tame;
use crate::dates::parse_human_date;
use crate::dates::parsed_date;
use crate::dates::ts_wf;
use crate::dates::TS_BOUND;
use crate::feed_request::FeedOrder;
use crate::feed_request::FeedRequest;
use crate::html::element_href;
use crate::html::element_text;
use crate::html::parse_html;
use crate::html::select_all;
use crate::html::select_first_within;
use crate::text::trim_str;
use crate::text::trimmed;
use crate::urls::joined_url;
use crate::urls::parsed_abs_url;
use crate::urls::resolve_url;
use crate::urls::resolved_url;

verus! {

/// The most elements a well-formed website value may hold; far beyond what a
/// real page yields, but small enough that date synthesis stays in range.
pub const MAX_ELEMS: usize = 10_000_000;

/// The plain strings extracted for one matched item node, before any
/// value-level processing.
pub struct ItemParts {
    /// Concatenated text of the title target, untrimmed.
    pub title_text: String,
    /// The `href` attribute of the link target, if the target has one.
    pub href: Option<String>,
    /// Concatenated text of the date target; absent when no date selector is
    /// configured or it matches nothing within the item.
    pub date_text: Option<String>,
}

/// The mathematical content of an `ItemParts`.
pub ghost struct PartsView {
    pub title_text: Seq<char>,
    pub href: Option<Seq<char>>,
    pub date_text: Option<Seq<char>>,
}

impl View for ItemParts {
    type V = PartsView;

    open spec fn view(&self) -> PartsView {
        PartsView {
            title_text: self.title_text@,
            href: match self.href {
                Some(h) => Some(h@),
                None => None,
            },
            date_text: match self.date_text {
                Some(t) => Some(t@),
                None => None,
            },
        }
    }
}

/// One candidate feed entry: trimmed title, absolute URL, and the publication
/// instant read from the page, if any.
pub struct WebsiteElement {
    pub title: String,
    pub url: String,
    pub pub_date: Option<i64>,
}

/// The mathematical content of a `WebsiteElement`.
pub ghost struct ElemView {
    pub title: Seq<char>,
    pub url: Seq<char>,
    pub pub_date: Option<int>,
}

impl View for WebsiteElement {
    type V = ElemView;

    open spec fn view(&self) -> ElemView {
        ElemView {
            title: self.title@,
            url: self.url@,
            pub_date: match self.pub_date {
                Some(d) => Some(d as int),
                None => None,
            },
        }
    }
}

/// A scraped page: feed identity plus the ordered, capped candidate items.
pub struct Website {
    pub name: String,
    pub url: String,
    pub elements: Vec<WebsiteElement>,
}

/// A publication instant an element may carry, if it carries one, is in
/// range.
pub open spec fn elem_ts_wf(e: ElemView) -> bool {
    e.pub_date matches Some(d) ==> ts_wf(d)
}

impl Website {
    /// What extraction guarantees of its output: a bounded element count and
    /// in-range publication instants.
    pub open spec fn wf(&self) -> bool {
        &&& self.elements@.len() <= MAX_ELEMS
        &&& forall|i: int|
            0 <= i < self.elements@.len() ==> elem_ts_wf(#[trigger] self.elements@[i]@)
    }
}

/// The views of a sequence of parts.
pub open spec fn parts_views(ps: Seq<ItemParts>) -> Seq<PartsView> {
    ps.map_values(|p: ItemParts| p@)
}

/// The views of a sequence of elements.
pub open spec fn elem_views(es: Seq<WebsiteElement>) -> Seq<ElemView> {
    es.map_values(|e: WebsiteElement| e@)
}

/// The publication instant that extracted date text yields: absent text stays
/// absent; present text is trimmed and read by the human-date parser; text too
/// wild for the parser (`date_text_tame`) and dates out of the accepted range
/// count as unreadable.
pub open spec fn date_of_text(dt: Option<Seq<char>>, now: i64) -> Option<int> {
    match dt {
        None => None,
        Some(t) => if !date_text_tame(trimmed(t)) {
            None
        } else {
            match parsed_date(trimmed(t), now) {
                Some(d) => if ts_wf(d as int) {
                    Some(d as int)
                } else {
                    None
                },
                None => None,
            }
        },
    }
}

/// The element one matched item yields, if any: an item without an `href`, or
/// whose `href` resolves to no absolute URL, is dropped.
pub open spec fn element_of_part(base: Seq<char>, p: PartsView, now: i64) -> Option<ElemView> {
    match p.href {
        None => None,
        Some(h) => match resolved_url(base, h) {
            None => None,
            Some(u) => Some(
                ElemView {
                    title: trimmed(p.title_text),
                    url: u,
                    pub_date: date_of_text(p.date_text, now),
                },
            ),
        },
    }
}

/// Law: how one matched item's link is resolved. Href text that parses as an
/// absolute URL is passed through (as its normalized serialization), taking
/// precedence over joining; anything else is joined against the source URL as
/// a relative reference; an item without an href, or whose href does neither,
/// yields no element at all.
pub proof fn lemma_link_resolution(base: Seq<char>, p: PartsView, now: i64)
    ensures
        (p.href matches Some(h) && parsed_abs_url(h) is Some) ==> (element_of_part(base, p, now)
            matches Some(e) && e.url == parsed_abs_url(p.href.unwrap()).unwrap()),
        (p.href matches Some(h) && parsed_abs_url(h) is None && joined_url(base, h) is Some) ==> (
        element_of_part(base, p, now) matches Some(e) && e.url == joined_url(
            base,
            p.href.unwrap(),
        ).unwrap()),
        (p.href matches Some(h) && parsed_abs_url(h) is None && joined_url(base, h) is None)
            ==> element_of_part(base, p, now) is None,
        p.href is None ==> element_of_part(base, p, now) is None,
{
}

/// The elements a sequence of matched items yields, in extraction order,
/// items without a resolvable link excluded.
pub open spec fn elements_of_parts(base: Seq<char>, ps: Seq<PartsView>, now: i64) -> Seq<ElemView>
    decreases ps.len(),
{
    if ps.len() == 0 {
        Seq::empty()
    } else {
        elements_of_parts(base, ps.drop_last(), now) + (match element_of_part(
            base,
            ps.last(),
            now,
        ) {
            Some(e) => seq![e],
            None => Seq::empty(),
        })
    }
}

/// The configured ordering and cap: `Reversed` reverses the whole extracted
/// sequence before the cap is applied, so the cap keeps the most recent
/// elements under the configured ordering.
pub open spec fn apply_order_cap(elems: Seq<ElemView>, order: FeedOrder, max: int) -> Seq<
    ElemView,
> {
    let ordered = if order is Reversed {
        elems.reverse()
    } else {
        elems
    };
    if max < ordered.len() {
        ordered.take(max)
    } else {
        ordered
    }
}

/// The text of the sub-target that `sel` picks within `item`: its first match
/// within the item, or the item node itself when no selector is configured or
/// nothing matches.
fn target_text(item: &scraper::ElementRef<'_>, sel: &Option<scraper::Selector>) -> String {
    match sel {
        Some(s) => match select_first_within(item, s) {
            Some(n) => element_text(&n),
            None => element_text(item),
        },
        None => element_text(item),
    }
}

/// The `href` of the sub-target that `sel` picks within `item`, by the same
/// fallback rule as the title target.
fn target_href(item: &scraper::ElementRef<'_>, sel: &Option<scraper::Selector>) -> Option<
    String,
> {
    match sel {
        Some(s) => match select_first_within(item, s) {
            Some(n) => element_href(&n),
            None => element_href(item),
        },
        None => element_href(item),
    }
}

/// The date text of an item: present only when a date selector is configured
/// and matches within the item — the item node is not its own date target.
fn target_date_text(item: &scraper::ElementRef<'_>, sel: &Option<scraper::Selector>) -> Option<
    String,
> {
    match sel {
        Some(s) => match select_first_within(item, s) {
            Some(n) => Some(element_text(&n)),
            None => None,
        },
        None => None,
    }
}

/// Walks the parsed document and brings back the plain strings of every node
/// the item selector matches, in document order. The document and its nodes
/// are opaque to verification — which nodes match is the selector
/// collaborator's answer — so nothing can be stated here; all value-level
/// processing of what comes back is verified downstream.
pub(crate) fn collect_parts(request: &FeedRequest, html_body: &str) -> Vec<ItemParts> {
    let document = parse_html(html_body);
    let nodes = select_all(&document, &request.item_selector);
    let mut parts: Vec<ItemParts> = Vec::new();
    let mut i: usize = 0;
    while i < nodes.len()
        decreases nodes@.len() - i,
    {
        let item = &nodes[i];
        let title_text = target_text(item, &request.title_selector);
        let href = target_href(item, &request.link_selector);
        let date_text = target_date_text(item, &request.pub_date_selector);
        parts.push(ItemParts { title_text, href, date_text });
        i = i + 1;
    }
    parts
}

/// Processes one matched item: resolves its link (dropping the item when that
/// fails), trims its title, and reads its date text.
fn element_of_part_exec(base: &str, p: &ItemParts, now: i64) -> (r: Option<WebsiteElement>)
    requires
        ts_wf(now as int),
    ensures
        r is Some <==> element_of_part(base@, p@, now) is Some,
        r matches Some(e) ==> e@ == element_of_part(base@, p@, now).unwrap(),
        r matches Some(e) ==> elem_ts_wf(e@),
{
    let h = match &p.href {
        Some(h) => h,
        None => {
            return None;
        },
    };
    let u = match resolve_url(base, h.as_str()) {
        Some(u) => u,
        None => {
            return None;
        },
    };
    let title = String::from_str(trim_str(p.title_text.as_str()));
    let pub_date: Option<i64> = match &p.date_text {
        None => None,
        Some(dt) => {
            let tamed = trim_str(dt.as_str());
            if !date_text_is_tame(tamed) {
                None
            } else {
                match parse_human_date(tamed, now) {
                    Some(d) => if -TS_BOUND <= d && d <= TS_BOUND {
                        Some(d)
                    } else {
                        None
                    },
                    None => None,
                }
            }
        },
    };
    Some(WebsiteElement { title, url: u, pub_date })
}

/// Turns the extracted parts into candidate elements, in extraction order:
/// titles trimmed, links resolved against `base` (items without a resolvable
/// link dropped), date text read relative to `now`.
pub fn elements_from_parts(base: &str, parts: &Vec<ItemParts>, now: i64) -> (r: Vec<
    WebsiteElement,
>)
    requires
        ts_wf(now as int),
    ensures
        elem_views(r@) == elements_of_parts(base@, parts_views(parts@), now),
        forall|k: int| 0 <= k < r@.len() ==> elem_ts_wf(#[trigger] r@[k]@),
{
    let mut r: Vec<WebsiteElement> = Vec::new();
    let mut i: usize = 0;
    proof {
        assert(parts_views(parts@).subrange(0, 0) =~= Seq::<PartsView>::empty());
        assert(elem_views(r@) =~= Seq::<ElemView>::empty());
    }
    while i < parts.len()
        invariant
            ts_wf(now as int),
            i <= parts@.len(),
            elem_views(r@) == elements_of_parts(
                base@,
                parts_views(parts@).subrange(0, i as int),
                now,
            ),
            forall|k: int| 0 <= k < r@.len() ==> elem_ts_wf(#[trigger] r@[k]@),
        decreases parts@.len() - i,
    {
        let ghost pv = parts_views(parts@);
        proof {
            assert(pv[i as int] == parts@[i as int]@);
            assert(pv.subrange(0, i + 1).drop_last() =~= pv.subrange(0, i as int));
            assert(pv.subrange(0, i + 1).last() == pv[i as int]);
        }
        let p = &parts[i];
        match element_of_part_exec(base, p, now) {
            Some(e) => {
                r.push(e);
            },
            None => {},
        }
        proof {
            assert(elem_views(r@) =~= elements_of_parts(base@, pv.subrange(0, i + 1), now));
        }
        i = i + 1;
    }
    proof {
        assert(parts_views(parts@).subrange(0, parts@.len() as int) =~= parts_views(parts@));
    }
    r
}

/// Reverses the element order.
fn reverse_vec(v: Vec<WebsiteElement>) -> (r: Vec<WebsiteElement>)
    ensures
        r@ == v@.reverse(),
{
    let ghost g = v@;
    let mut v = v;
    let mut r: Vec<WebsiteElement> = Vec::new();
    proof {
        assert(v@ =~= g.subrange(0, v@.len() as int));
        assert(r@ =~= g.subrange(v@.len() as int, g.len() as int).reverse());
    }
    while v.len() > 0
        invariant
            v@.len() <= g.len(),
            v@ == g.subrange(0, v@.len() as int),
            r@ == g.subrange(v@.len() as int, g.len() as int).reverse(),
        decreases v@.len(),
    {
        let ghost n = v@.len() as int;
        let e = v.pop().unwrap();
        proof {
            assert(e == g[n - 1]);
            assert(v@ =~= g.subrange(0, n - 1));
        }
        r.push(e);
        proof {
            assert(r@ =~= g.subrange(n - 1, g.len() as int).reverse());
        }
    }
    proof {
        assert(r@ =~= g.reverse());
    }
    r
}

/// Applies the configured order and cap to the extracted elements and wraps
/// them with the feed identity. This is the whole value-level half of
/// extraction, with the matched parts as its input.
pub fn assemble_website(request: &FeedRequest, parts: &Vec<ItemParts>, now: i64) -> (w: Website)
    requires
        ts_wf(now as int),
        request.wf(),
    ensures
        w.name@ == request.name@,
        w.url@ == request.url@,
        elem_views(w.elements@) == apply_order_cap(
            elements_of_parts(request.url@, parts_views(parts@), now),
            request.order,
            request.max_items as int,
        ),
        w.elements@.len() <= request.max_items,
        w.wf(),
{
    let mut elems = elements_from_parts(request.url.as_str(), parts, now);
    let ghost extracted = elem_views(elems@);
    if request.order == FeedOrder::Reversed {
        elems = reverse_vec(elems);
        proof {
            assert(elem_views(elems@) =~= extracted.reverse());
        }
    }
    let ghost ordered = elem_views(elems@);
    elems.truncate(request.max_items);
    proof {
        if request.max_items < ordered.len() {
            assert(elem_views(elems@) =~= ordered.take(request.max_items as int));
        } else {
            assert(elem_views(elems@) =~= ordered);
        }
    }
    Website { name: request.name.clone(), url: request.url.clone(), elements: elems }
}

impl Website {
    /// Scrapes a `Website` from `html_body`: selects the item nodes, extracts
    /// their parts, and assembles the ordered, capped element list. What the
    /// selector collaborator matched is opaque, so the contract states what
    /// holds of every outcome; the exact mapping from matched parts to
    /// elements is the contract of `assemble_website`.
    pub fn scrape(request: &FeedRequest, html_body: &str, now: i64) -> (w: Website)
        requires
            ts_wf(now as int),
            request.wf(),
        ensures
            w.name@ == request.name@,
            w.url@ == request.url@,
            w.elements@.len() <= request.max_items,
            w.wf(),
    {
        let parts = collect_parts(request, html_body);
        assemble_website(request, &parts, now)
    }
}

} // verus!
