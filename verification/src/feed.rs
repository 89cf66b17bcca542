//! Date synthesis and feed assembly.
//!
//! Feed readers order entries by publication date, and source pages supply
//! dates that are missing, duplicated, or out of step with extraction order.
//! Synthesis guarantees two things: every item receives a timestamp, and the
//! timestamps strictly decrease in extraction order. Missing dates first
//! inherit the previous item's date (or the reference instant), then a
//! monotonicity repair pass walks the list and pushes any timestamp that is
//! not strictly below its predecessor to one second below it.

use vstd::prelude::*;

use crate::dates::ts_renderable;
use crate::dates::TS_RENDER_BOUND;
use crate::dates::ts_wf;
use crate::dates::TS_BOUND;
use crate::feed_request::FeedRequest;
use crate::feed_request::MAX_ITEM_CAP;
use crate::website::assemble_website;
use crate::website::collect_parts;
use crate::website::elem_ts_wf;
use crate::website::elem_views;
use crate::website::ElemView;
use crate::website::Website;
use crate::website::WebsiteElement;
use crate::website::MAX_ELEMS;

verus! {

/// One finished feed entry; after synthesis the publication instant is always
/// populated.
pub struct FeedItem {
    pub title: String,
    pub url: String,
    pub pub_date: i64,
}

/// The mathematical content of a `FeedItem`.
pub ghost struct FeedItemView {
    pub title: Seq<char>,
    pub url: Seq<char>,
    pub pub_date: int,
}

impl View for FeedItem {
    type V = FeedItemView;

    open spec fn view(&self) -> FeedItemView {
        FeedItemView { title: self.title@, url: self.url@, pub_date: self.pub_date as int }
    }
}

/// A finished feed: identity plus the ordered entries, index 0 the most
/// recent.
pub struct Feed {
    pub name: String,
    pub url: String,
    pub items: Vec<FeedItem>,
}

impl Feed {
    /// Every entry's instant is within what rendering accepts.
    pub open spec fn renderable(&self) -> bool {
        forall|k: int|
            0 <= k < self.items@.len() ==> ts_renderable(#[trigger] self.items@[k]@.pub_date)
    }

    /// Checks renderability of a feed assembled by hand.
    pub fn is_renderable(&self) -> (b: bool)
        ensures
            b == self.renderable(),
    {
        let mut i: usize = 0;
        while i < self.items.len()
            invariant
                i <= self.items@.len(),
                forall|k: int|
                    0 <= k < i ==> ts_renderable(#[trigger] self.items@[k]@.pub_date),
            decreases self.items@.len() - i,
        {
            let d = self.items[i].pub_date;
            if d < -TS_RENDER_BOUND || d > TS_RENDER_BOUND {
                proof {
                    assert(!ts_renderable(self.items@[i as int]@.pub_date));
                }
                return false;
            }
            i = i + 1;
        }
        true
    }
}

/// The views of a sequence of feed items.
pub open spec fn item_views(s: Seq<FeedItem>) -> Seq<FeedItemView> {
    s.map_values(|x: FeedItem| x@)
}

/// Adjacent publication instants strictly decrease in item order.
pub open spec fn strictly_descending(items: Seq<FeedItemView>) -> bool {
    forall|i: int|
        0 < i < items.len() ==> #[trigger] items[i].pub_date < items[i - 1].pub_date
}

/// The date the first element seeds inheritance with: its own real date if it
/// has one, else the reference instant.
pub open spec fn initial_prev(elems: Seq<ElemView>, now: i64) -> int {
    if elems.len() > 0 && elems[0].pub_date is Some {
        elems[0].pub_date.unwrap()
    } else {
        now as int
    }
}

/// Inheritance: each element keeps its real date; an element without one
/// takes the date of the item before it (`prev` for the first).
pub open spec fn infer_spec(elems: Seq<ElemView>, prev: int) -> Seq<FeedItemView>
    decreases elems.len(),
{
    if elems.len() == 0 {
        Seq::empty()
    } else {
        let d = if elems[0].pub_date is Some {
            elems[0].pub_date.unwrap()
        } else {
            prev
        };
        seq![FeedItemView { title: elems[0].title, url: elems[0].url, pub_date: d }]
            + infer_spec(elems.drop_first(), d)
    }
}

/// The repair pass from the second item on: a date not strictly below the
/// (already repaired) predecessor becomes one second below it.
pub open spec fn repair_rest(items: Seq<FeedItemView>, prev: int) -> Seq<FeedItemView>
    decreases items.len(),
{
    if items.len() == 0 {
        Seq::empty()
    } else {
        let d = if items[0].pub_date >= prev {
            prev - 1
        } else {
            items[0].pub_date
        };
        seq![FeedItemView { title: items[0].title, url: items[0].url, pub_date: d }]
            + repair_rest(items.drop_first(), d)
    }
}

/// The monotonicity repair pass: the first item keeps its date, the rest are
/// repaired against the rolling predecessor.
pub open spec fn repair_spec(items: Seq<FeedItemView>) -> Seq<FeedItemView> {
    if items.len() == 0 {
        items
    } else {
        seq![items[0]] + repair_rest(items.drop_first(), items[0].pub_date)
    }
}

/// The whole synthesis: inheritance, then repair.
pub open spec fn synthesized_items(elems: Seq<ElemView>, now: i64) -> Seq<FeedItemView> {
    repair_spec(infer_spec(elems, initial_prev(elems, now)))
}

/// The repair pass keeps the length, puts every date strictly below `prev`,
/// and leaves the dates strictly descending.
pub proof fn lemma_repair_rest_descending(items: Seq<FeedItemView>, prev: int)
    ensures
        repair_rest(items, prev).len() == items.len(),
        forall|k: int|
            0 <= k < items.len() ==> #[trigger] repair_rest(items, prev)[k].pub_date < prev,
        strictly_descending(repair_rest(items, prev)),
    decreases items.len(),
{
    if items.len() > 0 {
        let d = if items[0].pub_date >= prev {
            prev - 1
        } else {
            items[0].pub_date
        };
        lemma_repair_rest_descending(items.drop_first(), d);
        let r = repair_rest(items, prev);
        let rest = repair_rest(items.drop_first(), d);
        assert forall|k: int| 0 <= k < items.len() implies #[trigger] r[k].pub_date < prev by {
            if k > 0 {
                assert(r[k] == rest[k - 1]);
                assert(rest[k - 1].pub_date < d);
            }
        }
        assert forall|i: int| 0 < i < r.len() implies #[trigger] r[i].pub_date < r[i
            - 1].pub_date by {
            if i == 1 {
                assert(r[1] == rest[0]);
                assert(rest[0].pub_date < d);
            } else {
                assert(r[i] == rest[i - 1]);
                assert(r[i - 1] == rest[i - 2]);
            }
        }
    }
}

/// Synthesis keeps one item per element and leaves the publication instants
/// strictly descending in extraction order.
pub proof fn lemma_synthesized_descending(elems: Seq<ElemView>, now: i64)
    ensures
        synthesized_items(elems, now).len() == elems.len(),
        strictly_descending(synthesized_items(elems, now)),
{
    lemma_infer_len(elems, initial_prev(elems, now));
    let inferred = infer_spec(elems, initial_prev(elems, now));
    if inferred.len() > 0 {
        lemma_repair_rest_descending(inferred.drop_first(), inferred[0].pub_date);
        let r = synthesized_items(elems, now);
        let rest = repair_rest(inferred.drop_first(), inferred[0].pub_date);
        assert forall|i: int| 0 < i < r.len() implies #[trigger] r[i].pub_date < r[i
            - 1].pub_date by {
            if i == 1 {
                assert(r[1] == rest[0]);
                assert(rest[0].pub_date < inferred[0].pub_date);
            } else {
                assert(r[i] == rest[i - 1]);
                assert(r[i - 1] == rest[i - 2]);
            }
        }
    }
}

/// Inheritance keeps the length.
pub proof fn lemma_infer_len(elems: Seq<ElemView>, prev: int)
    ensures
        infer_spec(elems, prev).len() == elems.len(),
    decreases elems.len(),
{
    if elems.len() > 0 {
        let d = if elems[0].pub_date is Some {
            elems[0].pub_date.unwrap()
        } else {
            prev
        };
        lemma_infer_len(elems.drop_first(), d);
    }
}

/// Law: two adjacent elements carrying identical source dates leave synthesis
/// with distinct, strictly ordered timestamps at least one second apart, the
/// earlier-extracted element bearing the later timestamp.
pub proof fn lemma_equal_dates_get_distinct_timestamps(elems: Seq<ElemView>, now: i64, i: int)
    requires
        0 <= i,
        i + 1 < elems.len(),
        elems[i].pub_date is Some,
        elems[i + 1].pub_date == elems[i].pub_date,
    ensures
        synthesized_items(elems, now).len() == elems.len(),
        synthesized_items(elems, now)[i].pub_date >= synthesized_items(elems, now)[i
            + 1].pub_date + 1,
{
    lemma_synthesized_descending(elems, now);
}

/// Inheritance, executed: walks the elements in extraction order keeping real
/// dates and filling gaps with the rolling previous date.
pub fn infer_feed_items(elements: &Vec<WebsiteElement>, now: i64) -> (items: Vec<FeedItem>)
    requires
        ts_wf(now as int),
        forall|k: int| 0 <= k < elements@.len() ==> elem_ts_wf(#[trigger] elements@[k]@),
    ensures
        item_views(items@) == infer_spec(
            elem_views(elements@),
            initial_prev(elem_views(elements@), now),
        ),
        items@.len() == elements@.len(),
        forall|k: int| 0 <= k < items@.len() ==> ts_wf(#[trigger] items@[k]@.pub_date),
{
    let ghost ev = elem_views(elements@);
    let ghost prev0 = initial_prev(ev, now);
    let mut items: Vec<FeedItem> = Vec::new();
    let mut prev: i64 = if elements.len() > 0 {
        match elements[0].pub_date {
            Some(d) => d,
            None => now,
        }
    } else {
        now
    };
    let mut i: usize = 0;
    proof {
        assert(ev.skip(0) =~= ev);
        assert(item_views(items@) =~= Seq::<FeedItemView>::empty());
        assert(elements@.len() > 0 ==> ev[0] == elements@[0]@);
    }
    while i < elements.len()
        invariant
            ts_wf(now as int),
            forall|k: int| 0 <= k < elements@.len() ==> elem_ts_wf(#[trigger] elements@[k]@),
            i <= elements@.len(),
            ev == elem_views(elements@),
            prev0 == initial_prev(ev, now),
            ts_wf(prev as int),
            items@.len() == i,
            item_views(items@) + infer_spec(ev.skip(i as int), prev as int) == infer_spec(
                ev,
                prev0,
            ),
            forall|k: int| 0 <= k < items@.len() ==> ts_wf(#[trigger] items@[k]@.pub_date),
        decreases elements@.len() - i,
    {
        proof {
            assert(ev.skip(i as int)[0] == ev[i as int]);
            assert(ev[i as int] == elements@[i as int]@);
            assert(ev.skip(i as int).drop_first() =~= ev.skip(i + 1));
        }
        let e = &elements[i];
        let d: i64 = match e.pub_date {
            Some(d) => d,
            None => prev,
        };
        let ghost before = item_views(items@);
        let item = FeedItem { title: e.title.clone(), url: e.url.clone(), pub_date: d };
        items.push(item);
        proof {
            assert(item_views(items@) =~= before.push(
                FeedItemView { title: ev[i as int].title, url: ev[i as int].url, pub_date: d as int },
            ));
            assert(infer_spec(ev.skip(i as int), prev as int) == seq![
                FeedItemView { title: ev[i as int].title, url: ev[i as int].url, pub_date: d as int },
            ] + infer_spec(ev.skip(i + 1), d as int));
            assert(item_views(items@) + infer_spec(ev.skip(i + 1), d as int) =~= before
                + infer_spec(ev.skip(i as int), prev as int));
        }
        prev = d;
        i = i + 1;
    }
    proof {
        assert(ev.skip(elements@.len() as int) =~= Seq::<ElemView>::empty());
        assert(item_views(items@) =~= item_views(items@) + Seq::<FeedItemView>::empty());
    }
    items
}

/// The repair pass, executed: publication dates are forced strictly
/// descending, each offender replaced by one second below its predecessor.
pub fn match_pub_dates_to_order(items: Vec<FeedItem>) -> (r: Vec<FeedItem>)
    requires
        items@.len() <= MAX_ELEMS,
        forall|k: int| 0 <= k < items@.len() ==> ts_wf(#[trigger] items@[k]@.pub_date),
    ensures
        item_views(r@) == repair_spec(item_views(items@)),
        r@.len() == items@.len(),
        strictly_descending(item_views(r@)),
        forall|k: int| 0 <= k < r@.len() ==> ts_renderable(#[trigger] r@[k]@.pub_date),
{
    let ghost iv = item_views(items@);
    let n = items.len();
    if n == 0 {
        proof {
            assert(item_views(items@) =~= repair_spec(iv));
        }
        return items;
    }
    let mut r: Vec<FeedItem> = Vec::new();
    let first = &items[0];
    r.push(FeedItem { title: first.title.clone(), url: first.url.clone(), pub_date: first.pub_date });
    let mut prev: i64 = first.pub_date;
    let mut i: usize = 1;
    proof {
        assert(iv[0] == items@[0]@);
        assert(ts_wf(items@[0]@.pub_date));
        assert(item_views(r@) =~= seq![iv[0]]);
        assert(iv.skip(1) =~= iv.drop_first());
    }
    while i < n
        invariant
            1 <= i <= n,
            n == items@.len(),
            n <= MAX_ELEMS,
            iv == item_views(items@),
            forall|k: int| 0 <= k < items@.len() ==> ts_wf(#[trigger] items@[k]@.pub_date),
            r@.len() == i,
            prev as int == item_views(r@)[i - 1].pub_date,
            prev as int >= -(TS_BOUND as int) - (i - 1),
            prev <= TS_BOUND,
            item_views(r@) + repair_rest(iv.skip(i as int), prev as int) == repair_spec(iv),
            strictly_descending(item_views(r@)),
            forall|k: int| 0 <= k < r@.len() ==> ts_renderable(#[trigger] r@[k]@.pub_date),
        decreases n - i,
    {
        proof {
            assert(iv.skip(i as int)[0] == iv[i as int]);
            assert(iv[i as int] == items@[i as int]@);
            assert(iv.skip(i as int).drop_first() =~= iv.skip(i + 1));
        }
        let it = &items[i];
        let d: i64 = if it.pub_date >= prev {
            prev - 1
        } else {
            it.pub_date
        };
        let ghost before = item_views(r@);
        r.push(FeedItem { title: it.title.clone(), url: it.url.clone(), pub_date: d });
        proof {
            let pushed = FeedItemView {
                title: iv[i as int].title,
                url: iv[i as int].url,
                pub_date: d as int,
            };
            assert(item_views(r@) =~= before.push(pushed));
            assert(repair_rest(iv.skip(i as int), prev as int) == seq![pushed] + repair_rest(
                iv.skip(i + 1),
                d as int,
            ));
            assert(item_views(r@) + repair_rest(iv.skip(i + 1), d as int) =~= before
                + repair_rest(iv.skip(i as int), prev as int));
            assert forall|k: int| 0 < k < item_views(r@).len() implies #[trigger] item_views(
                r@,
            )[k].pub_date < item_views(r@)[k - 1].pub_date by {
                if k < i {
                    assert(item_views(r@)[k] == before[k]);
                    assert(item_views(r@)[k - 1] == before[k - 1]);
                }
            }
        }
        prev = d;
        i = i + 1;
    }
    proof {
        assert(iv.skip(n as int) =~= Seq::<FeedItemView>::empty());
        assert(item_views(r@) =~= item_views(r@) + Seq::<FeedItemView>::empty());
    }
    r
}

impl Feed {
    /// Assembles the feed for a scraped website: inherits missing dates, then
    /// repairs the order, so the entries come out strictly ordered by
    /// publication instant, most recent first, one per scraped element.
    pub fn from_website(website: Website, now: i64) -> (feed: Feed)
        requires
            ts_wf(now as int),
            website.wf(),
        ensures
            feed.name@ == website.name@,
            feed.url@ == website.url@,
            item_views(feed.items@) == synthesized_items(elem_views(website.elements@), now),
            feed.items@.len() == website.elements@.len(),
            strictly_descending(item_views(feed.items@)),
            forall|k: int|
                0 <= k < feed.items@.len() ==> ts_renderable(#[trigger] feed.items@[k]@.pub_date),
    {
        let items = infer_feed_items(&website.elements, now);
        let items = match_pub_dates_to_order(items);
        Feed { name: website.name, url: website.url, items }
    }
}

/// The timestamps handed out when no date signal exists at all: the first
/// element gets `now`, each following element one hour less.
pub open spec fn hourly_items(elems: Seq<ElemView>, now: i64) -> Seq<FeedItemView> {
    Seq::new(
        elems.len(),
        |k: int| FeedItemView { title: elems[k].title, url: elems[k].url, pub_date: now - 3600 * k },
    )
}

/// No-date synthesis, executed: every element receives a synthesized
/// timestamp an hour below the one before, newest first. Runs after the item
/// cap, so the element count is small.
pub fn hourly_feed_items(elements: &Vec<WebsiteElement>, now: i64) -> (items: Vec<FeedItem>)
    requires
        ts_wf(now as int),
        elements@.len() <= MAX_ITEM_CAP,
    ensures
        item_views(items@) == hourly_items(elem_views(elements@), now),
        items@.len() == elements@.len(),
        strictly_descending(item_views(items@)),
        forall|k: int| 0 <= k < items@.len() ==> ts_renderable(#[trigger] items@[k]@.pub_date),
{
    let ghost ev = elem_views(elements@);
    let mut items: Vec<FeedItem> = Vec::new();
    let mut date: i64 = now;
    let mut i: usize = 0;
    while i < elements.len()
        invariant
            ts_wf(now as int),
            elements@.len() <= MAX_ITEM_CAP,
            ev == elem_views(elements@),
            i <= elements@.len(),
            items@.len() == i,
            date as int == now - 3600 * i,
            forall|k: int|
                0 <= k < i ==> item_views(items@)[k] == hourly_items(ev, now)[k],
        decreases elements@.len() - i,
    {
        proof {
            assert(ev[i as int] == elements@[i as int]@);
        }
        let e = &elements[i];
        items.push(FeedItem { title: e.title.clone(), url: e.url.clone(), pub_date: date });
        date = date - 3600;
        i = i + 1;
    }
    proof {
        assert(item_views(items@) =~= hourly_items(ev, now));
        assert forall|k: int| 0 <= k < items@.len() implies ts_renderable(
            #[trigger] items@[k]@.pub_date,
        ) by {
            assert(item_views(items@)[k] == hourly_items(ev, now)[k]);
            assert(items@[k]@.pub_date == now - 3600 * k);
            assert(0 <= 3600 * k <= 3600 * MAX_ITEM_CAP);
        }
        assert forall|k: int| 0 < k < item_views(items@).len() implies #[trigger] item_views(
            items@,
        )[k].pub_date < item_views(items@)[k - 1].pub_date by {
            assert(item_views(items@)[k] == hourly_items(ev, now)[k]);
            assert(item_views(items@)[k - 1] == hourly_items(ev, now)[k - 1]);
        }
    }
    items
}

impl FeedItem {
    /// The no-date pipeline: extracts, orders and caps the items, ignores any
    /// date signal entirely, and synthesizes the timestamps an hour apart.
    /// What the selector collaborator matched is opaque; the exact mapping
    /// from matched parts to items is the contract of `assemble_website`
    /// composed with `hourly_feed_items`.
    pub fn scrape_all(request: &FeedRequest, body: &str, now: i64) -> (items: Vec<FeedItem>)
        requires
            ts_wf(now as int),
            request.wf(),
        ensures
            items@.len() <= request.max_items,
            forall|k: int|
                0 <= k < items@.len() ==> #[trigger] items@[k]@.pub_date == now - 3600 * k,
            strictly_descending(item_views(items@)),
            forall|k: int|
                0 <= k < items@.len() ==> ts_renderable(#[trigger] items@[k]@.pub_date),
    {
        let parts = collect_parts(request, body);
        let website = assemble_website(request, &parts, now);
        let items = hourly_feed_items(&website.elements, now);
        proof {
            assert forall|k: int| 0 <= k < items@.len() implies #[trigger] items@[k]@.pub_date
                == now - 3600 * k by {
                assert(items@[k]@ == hourly_items(elem_views(website.elements@), now)[k]);
            }
        }
        items
    }
}

} // verus!
