//! Synchronising the `primary` calendar into the local cache: incremental
//! pages (changes since a sync token) and full-window pages.

use vstd::prelude::*;
use crate::json::{get_array, get_str, lemma_items_view_len, Json, JsonValue};
use crate::model::{opt_str, CalendarEvent, EventView};
use crate::event_parse::{event_from_api_item, event_spec};
use crate::text::str_eq;
use crate::oauth::{pair_texts, url_append_pairs, url_with_query};
use crate::mutations::PRIMARY_EVENTS_URL;
use crate::dates::{add_months, date_text, months_earlier, months_later, sub_months, ymd_text};
use crate::text::concat;

verus! {

/// A change to the cached events of the `primary` calendar.
#[derive(Clone, Debug, PartialEq)]
pub enum CacheOp {
    /// Remove the event with this id.
    Delete(String),
    /// Insert or replace this event.
    Upsert(CalendarEvent),
}

/// A cache change as text and values.
pub enum CacheOpView {
    Delete(Seq<char>),
    Upsert(EventView),
}

impl CacheOp {
    pub open spec fn view(self) -> CacheOpView {
        match self {
            CacheOp::Delete(id) => CacheOpView::Delete(id@),
            CacheOp::Upsert(e) => CacheOpView::Upsert(e@),
        }
    }
}

/// The changes as text and values.
pub open spec fn ops_view(ops: Seq<CacheOp>) -> Seq<CacheOpView> {
    ops.map_values(|o: CacheOp| o.view())
}

/// The cache change for one item of an incremental page: none without a
/// non-empty id; removal for a cancelled event; otherwise the event.
pub open spec fn item_op(item: Json) -> Option<CacheOpView> {
    match get_str(item, "id"@) {
        Some(id) => if id.len() == 0 {
            None
        } else if get_str(item, "status"@) == Some("cancelled"@) {
            Some(CacheOpView::Delete(id))
        } else {
            match event_spec(item) {
                Some(e) => Some(CacheOpView::Upsert(e)),
                None => None,
            }
        },
        None => None,
    }
}

/// The cache changes for the items of an incremental page, in order.
pub open spec fn incremental_ops(items: Seq<Json>) -> Seq<CacheOpView>
    decreases items.len(),
{
    if items.len() == 0 {
        Seq::empty()
    } else {
        let p = incremental_ops(items.drop_last());
        match item_op(items.last()) {
            Some(o) => p.push(o),
            None => p,
        }
    }
}

/// The events of the items of a full-window page, in order.
pub open spec fn window_events(items: Seq<Json>) -> Seq<EventView>
    decreases items.len(),
{
    if items.len() == 0 {
        Seq::empty()
    } else {
        let p = window_events(items.drop_last());
        match event_spec(items.last()) {
            Some(e) => p.push(e),
            None => p,
        }
    }
}

/// The items of a page (none when it has no `items` array).
pub open spec fn page_items(page: Json) -> Seq<Json> {
    match get_array(page, "items"@) {
        Some(a) => a,
        None => Seq::empty(),
    }
}

/// One page of an events listing, read.
#[derive(Clone, Debug, PartialEq)]
pub struct PageTokens {
    /// The `nextSyncToken` of the page (sent on the last page).
    pub next_sync_token: Option<String>,
    /// The `nextPageToken` of the page (absent on the last page).
    pub next_page_token: Option<String>,
}

fn str_member(v: &JsonValue, key: &str) -> (r: Option<String>)
    ensures
        opt_str(r) == get_str(v.view(), key@),
{
    match v.get(key) {
        Some(x) => match x.as_str() {
            Some(s) => Some(s.clone()),
            None => None,
        },
        None => None,
    }
}

/// The sync and page tokens of a page.
pub fn page_tokens(page: &JsonValue) -> (r: PageTokens)
    ensures
        opt_str(r.next_sync_token) == get_str(page.view(), "nextSyncToken"@),
        opt_str(r.next_page_token) == get_str(page.view(), "nextPageToken"@),
{
    PageTokens {
        next_sync_token: str_member(page, "nextSyncToken"),
        next_page_token: str_member(page, "nextPageToken"),
    }
}

fn items_of(page: &JsonValue) -> (r: Option<&Vec<JsonValue>>)
    ensures
        match r {
            Some(a) => page_items(page.view()) == JsonValue::items_view(a@),
            None => page_items(page.view()) == Seq::<Json>::empty(),
        },
{
    match page.get("items") {
        Some(x) => x.as_array(),
        None => None,
    }
}

/// The cache change for one item of an incremental page.
pub fn incremental_item_op(item: &JsonValue) -> (r: Option<CacheOp>)
    ensures
        match r {
            Some(o) => item_op(item.view()) == Some(o.view()),
            None => item_op(item.view()) is None,
        },
{
    let id = match str_member(item, "id") {
        Some(s) => s,
        None => return None,
    };
    if id.as_str().unicode_len() == 0 {
        return None;
    }
    let cancelled = match str_member(item, "status") {
        Some(s) => str_eq(s.as_str(), "cancelled"),
        None => false,
    };
    if cancelled {
        Some(CacheOp::Delete(id))
    } else {
        match event_from_api_item(item) {
            Some(e) => Some(CacheOp::Upsert(e)),
            None => None,
        }
    }
}

/// The cache changes that an incremental page asks for, in order.
pub fn incremental_page_ops(page: &JsonValue) -> (r: Vec<CacheOp>)
    ensures
        ops_view(r@) == incremental_ops(page_items(page.view())),
{
    let mut out: Vec<CacheOp> = Vec::new();
    let arr = match items_of(page) {
        Some(a) => a,
        None => {
            assert(ops_view(out@) =~= Seq::<CacheOpView>::empty());
            return out;
        },
    };
    let ghost items = JsonValue::items_view(arr@);
    proof {
        lemma_items_view_len(arr@);
        assert(items.take(0) =~= Seq::<Json>::empty());
        assert(ops_view(out@) =~= Seq::<CacheOpView>::empty());
    }
    let mut i: usize = 0;
    while i < arr.len()
        invariant
            i <= arr@.len(),
            items == JsonValue::items_view(arr@),
            items.len() == arr@.len(),
            forall|k: int| 0 <= k < arr@.len() ==> #[trigger] items[k] == arr@[k].view(),
            ops_view(out@) == incremental_ops(items.take(i as int)),
        decreases arr@.len() - i,
    {
        let ghost before = out@;
        match incremental_item_op(&arr[i]) {
            Some(o) => {
                out.push(o);
                assert(ops_view(out@) =~= ops_view(before).push(o.view()));
            },
            None => {},
        }
        proof {
            let t = items.take(i as int + 1);
            assert(t.drop_last() =~= items.take(i as int));
            assert(t.last() == arr@[i as int].view());
        }
        i = i + 1;
    }
    assert(items.take(arr@.len() as int) =~= items);
    out
}

/// The events of a full-window page, in order.
pub fn window_page_events(page: &JsonValue) -> (r: Vec<CalendarEvent>)
    ensures
        r@.map_values(|e: CalendarEvent| e@) == window_events(page_items(page.view())),
{
    let mut out: Vec<CalendarEvent> = Vec::new();
    let arr = match items_of(page) {
        Some(a) => a,
        None => {
            assert(out@.map_values(|e: CalendarEvent| e@) =~= Seq::<EventView>::empty());
            return out;
        },
    };
    let ghost items = JsonValue::items_view(arr@);
    proof {
        lemma_items_view_len(arr@);
        assert(items.take(0) =~= Seq::<Json>::empty());
        assert(out@.map_values(|e: CalendarEvent| e@) =~= Seq::<EventView>::empty());
    }
    let mut i: usize = 0;
    while i < arr.len()
        invariant
            i <= arr@.len(),
            items == JsonValue::items_view(arr@),
            items.len() == arr@.len(),
            forall|k: int| 0 <= k < arr@.len() ==> #[trigger] items[k] == arr@[k].view(),
            out@.map_values(|e: CalendarEvent| e@) == window_events(items.take(i as int)),
        decreases arr@.len() - i,
    {
        let ghost before = out@;
        match event_from_api_item(&arr[i]) {
            Some(e) => {
                out.push(e);
                assert(out@.map_values(|e: CalendarEvent| e@) =~= before.map_values(
                    |e: CalendarEvent| e@,
                ).push(e@));
            },
            None => {},
        }
        proof {
            let t = items.take(i as int + 1);
            assert(t.drop_last() =~= items.take(i as int));
            assert(t.last() == arr@[i as int].view());
        }
        i = i + 1;
    }
    assert(items.take(arr@.len() as int) =~= items);
    out
}

/// How a synchronisation starts: incremental from the stored sync token, or
/// a full window when there is none.
#[derive(Clone, Debug, PartialEq)]
pub enum SyncPlan {
    Incremental(String),
    FullWindow,
}

/// The plan for a synchronisation, given the stored sync token (an empty
/// token counts as none).
pub fn sync_plan(stored_token: Option<String>) -> (r: SyncPlan)
    ensures
        match stored_token {
            Some(t) => if t@.len() > 0 {
                r matches SyncPlan::Incremental(x) && x@ == t@
            } else {
                r is FullWindow
            },
            None => r is FullWindow,
        },
{
    match stored_token {
        Some(t) => if t.as_str().unicode_len() > 0 {
            SyncPlan::Incremental(t)
        } else {
            SyncPlan::FullWindow
        },
        None => SyncPlan::FullWindow,
    }
}

/// Whether an incremental listing answer means the sync token expired
/// (410 Gone): then the stored token is cleared and a full window is synced.
pub fn sync_token_expired(status: u16) -> (b: bool)
    ensures
        b == (status == 410),
{
    status == 410
}

/// The events as values.
pub open spec fn events_view(v: Seq<CalendarEvent>) -> Seq<EventView> {
    v.map_values(|e: CalendarEvent| e@)
}

/// An incremental page asks for at most one change per item.
pub proof fn lemma_incremental_ops_len(items: Seq<Json>)
    ensures
        incremental_ops(items).len() <= items.len(),
    decreases items.len(),
{
    if items.len() > 0 {
        lemma_incremental_ops_len(items.drop_last());
    }
}

/// A full-window page gives at most one event per item.
pub proof fn lemma_window_events_len(items: Seq<Json>)
    ensures
        window_events(items).len() <= items.len(),
    decreases items.len(),
{
    if items.len() > 0 {
        lemma_window_events_len(items.drop_last());
    }
}

/// What the API answered to an events listing.
pub enum ListingReply {
    /// The request could not be sent; the transport's message.
    SendFailed(String),
    /// A non-success status, with the answer's text.
    Refused { status: u16, body: String },
    /// A success status whose body is not JSON; the parse message.
    BadJson(String),
    /// A success status with this JSON page.
    Page(JsonValue),
}

/// How a listing continues after an answer.
pub enum SyncNext {
    /// Fetch the page `SyncDriver::page_token` (after applying the changes).
    FetchMore,
    /// The sync token expired: clear the stored token and list the full window.
    RestartFull,
    /// Stop with this error.
    Fail(String),
    /// Done: store `store_token` (when present) as the new sync token; for a
    /// full window, replace the cached events with `replace_rows`; report
    /// `count` changes (incremental) or events (full window).
    Done { store_token: Option<String>, replace_rows: Option<Vec<CalendarEvent>>, count: usize },
}

/// The cache changes to apply now, and how the listing continues.
pub struct SyncStep {
    pub ops: Vec<CacheOp>,
    pub next: SyncNext,
}

/// A running synchronisation of the `primary` calendar.
pub struct SyncDriver {
    /// The sync token of an incremental listing; `None` for a full window.
    pub incremental: Option<String>,
    /// The page to fetch next (`None` for the first page).
    pub page_token: Option<String>,
    /// The latest `nextSyncToken` seen.
    pub last_next_sync: Option<String>,
    /// Changes asked for so far (incremental).
    pub touched: usize,
    /// Events collected so far (full window).
    pub rows: Vec<CalendarEvent>,
}

/// The error text of a failed listing (`None` for a page).
pub open spec fn listing_error(reply: ListingReply) -> Option<Seq<char>> {
    match reply {
        ListingReply::SendFailed(m) => Some("Calendar API: "@ + m@),
        ListingReply::Refused { status: _, body } => Some("Calendar API: "@ + body@),
        ListingReply::BadJson(m) => Some(m@),
        ListingReply::Page(_) => None,
    }
}

/// Whether the answer is the 410 that ends an incremental listing.
pub open spec fn token_expired(d: SyncDriver, reply: ListingReply) -> bool {
    d.incremental is Some && (reply matches ListingReply::Refused { status, .. } && status == 410)
}

/// The kept sync token after a page with the token `t`.
pub open spec fn kept_sync_token(old_token: Option<Seq<char>>, t: Option<Seq<char>>) -> Option<Seq<char>> {
    match t {
        Some(x) => Some(x),
        None => old_token,
    }
}

/// What taking in a page does: an incremental listing asks for the page's
/// cache changes and counts them, a full window appends the page's events;
/// the page's sync token is kept; `nextPageToken` leads on, and its absence
/// ends the listing with the kept token (and, for a full window, hands over
/// all the events collected).
pub open spec fn page_step(pre: SyncDriver, page: Json, post: SyncDriver, step: SyncStep) -> bool {
    let items = page_items(page);
    let collected = events_view(pre.rows@) + window_events(items);
    &&& post.incremental == pre.incremental
    &&& opt_str(post.last_next_sync) == kept_sync_token(
        opt_str(pre.last_next_sync),
        get_str(page, "nextSyncToken"@),
    )
    &&& (if pre.incremental is Some {
        &&& ops_view(step.ops@) == incremental_ops(items)
        &&& post.touched == pre.touched + step.ops@.len()
        &&& post.rows@ == pre.rows@
    } else {
        &&& step.ops@.len() == 0
        &&& post.touched == pre.touched
    })
    &&& match get_str(page, "nextPageToken"@) {
        Some(p) => {
            &&& step.next is FetchMore
            &&& opt_str(post.page_token) == Some(p)
            &&& pre.incremental is None ==> events_view(post.rows@) == collected
        },
        None => step.next matches SyncNext::Done { store_token, replace_rows, count } && opt_str(
            store_token,
        ) == opt_str(post.last_next_sync) && (if pre.incremental is Some {
            replace_rows is None && count == post.touched
        } else {
            replace_rows matches Some(rows) && events_view(rows@) == collected && count
                == rows@.len() && post.rows@.len() == 0
        }),
    }
}

/// A date, or `today` when there is none.
pub open spec fn or_today(d: Option<(i32, u32, u32)>, today: (i32, u32, u32)) -> (i32, u32, u32) {
    match d {
        Some(t) => t,
        None => today,
    }
}

/// The bounds of a full-window listing for `today`: from the start of the day
/// three months earlier to the end of the day six months later (each falling
/// back to today when chrono cannot move the date); `None` when a bound has
/// no text (the date does not exist).
pub open spec fn window_bounds_spec(year: i32, month: u32, day: u32) -> Option<(Seq<char>, Seq<char>)> {
    let today = (year, month, day);
    let s = or_today(months_earlier(year, month, day, 3), today);
    let e = or_today(months_later(year, month, day, 6), today);
    match (date_text(s.0, s.1, s.2), date_text(e.0, e.1, e.2)) {
        (Some(a), Some(b)) => Some((a + "T00:00:00Z"@, b + "T23:59:59Z"@)),
        _ => None,
    }
}

/// The `timeMin` and `timeMax` of a full-window listing on the date
/// `year-month-day` (today, in UTC).
pub fn sync_window_bounds(year: i32, month: u32, day: u32) -> (r: Option<(String, String)>)
    ensures
        match r {
            Some(p) => {
                &&& window_bounds_spec(year, month, day) == Some((p.0@, p.1@))
                &&& months_earlier(year, month, day, 3) matches Some(t) ==> crate::dates::months_moved(
                    year as int,
                    month as int,
                    day as int,
                    -3,
                    t.0 as int,
                    t.1 as int,
                    t.2 as int,
                )
                &&& months_later(year, month, day, 6) matches Some(t) ==> crate::dates::months_moved(
                    year as int,
                    month as int,
                    day as int,
                    6,
                    t.0 as int,
                    t.1 as int,
                    t.2 as int,
                )
            },
            None => window_bounds_spec(year, month, day) is None,
        },
{
    let s = match sub_months(year, month, day, 3) {
        Some(t) => t,
        None => (year, month, day),
    };
    let e = match add_months(year, month, day, 6) {
        Some(t) => t,
        None => (year, month, day),
    };
    let a = match ymd_text(s.0, s.1, s.2) {
        Some(t) => t,
        None => return None,
    };
    let b = match ymd_text(e.0, e.1, e.2) {
        Some(t) => t,
        None => return None,
    };
    Some((concat(a.as_str(), "T00:00:00Z"), concat(b.as_str(), "T23:59:59Z")))
}

/// The query of a listing request: single events; from the sync token for an
/// incremental listing, else ordered by start within `[time_min, time_max]`;
/// then the page token when there is one.
pub open spec fn listing_pairs(
    incremental: Option<Seq<char>>,
    page_token: Option<Seq<char>>,
    time_min: Seq<char>,
    time_max: Seq<char>,
) -> Seq<(Seq<char>, Seq<char>)> {
    let head = match incremental {
        Some(t) => seq![("singleEvents"@, "true"@), ("syncToken"@, t)],
        None => seq![
            ("singleEvents"@, "true"@),
            ("orderBy"@, "startTime"@),
            ("timeMin"@, time_min),
            ("timeMax"@, time_max),
        ],
    };
    match page_token {
        Some(p) => head.push(("pageToken"@, p)),
        None => head,
    }
}

impl SyncDriver {
    /// The URL of the next page request of this listing (`time_min` and
    /// `time_max` bound a full window).
    pub fn listing_url(&self, time_min: &str, time_max: &str) -> (r: Result<String, String>)
        ensures
            match r {
                Ok(s) => url_with_query(
                    PRIMARY_EVENTS_URL@,
                    listing_pairs(opt_str(self.incremental), opt_str(self.page_token), time_min@, time_max@),
                ) == Ok::<Seq<char>, Seq<char>>(s@),
                Err(e) => url_with_query(
                    PRIMARY_EVENTS_URL@,
                    listing_pairs(opt_str(self.incremental), opt_str(self.page_token), time_min@, time_max@),
                ) == Err::<Seq<char>, Seq<char>>(e@),
            },
    {
        let mut pairs: Vec<(String, String)> = Vec::new();
        pairs.push(("singleEvents".to_owned(), "true".to_owned()));
        match &self.incremental {
            Some(t) => {
                pairs.push(("syncToken".to_owned(), t.clone()));
            },
            None => {
                pairs.push(("orderBy".to_owned(), "startTime".to_owned()));
                pairs.push(("timeMin".to_owned(), time_min.to_owned()));
                pairs.push(("timeMax".to_owned(), time_max.to_owned()));
            },
        }
        match &self.page_token {
            Some(p) => {
                pairs.push(("pageToken".to_owned(), p.clone()));
            },
            None => {},
        }
        assert(pair_texts(pairs@) =~= listing_pairs(
            opt_str(self.incremental),
            opt_str(self.page_token),
            time_min@,
            time_max@,
        ));
        url_append_pairs(PRIMARY_EVENTS_URL, &pairs)
    }

    /// A synchronisation from the stored sync token: incremental when there is
    /// a non-empty one, else a full window.
    pub fn start(stored_token: Option<String>) -> (d: SyncDriver)
        ensures
            opt_str(d.incremental) == match opt_str(stored_token) {
                Some(t) => if t.len() > 0 {
                    Some(t)
                } else {
                    None
                },
                None => None,
            },
            d.page_token is None,
            d.last_next_sync is None,
            d.touched == 0,
            d.rows@.len() == 0,
    {
        let incremental = match sync_plan(stored_token) {
            SyncPlan::Incremental(t) => Some(t),
            SyncPlan::FullWindow => None,
        };
        SyncDriver { incremental, page_token: None, last_next_sync: None, touched: 0, rows: Vec::new() }
    }

    /// Takes in the answer to the current page request. A 410 on an
    /// incremental listing restarts it as a full window; any other failure
    /// ends it with its message; a page is taken in as `page_step` says.
    pub fn on_reply(&mut self, reply: ListingReply) -> (step: SyncStep)
        requires
            reply matches ListingReply::Page(p) ==> old(self).touched + page_items(p@).len()
                <= usize::MAX && old(self).rows@.len() + page_items(p@).len() <= usize::MAX,
        ensures
            token_expired(*old(self), reply) ==> {
                &&& step.next is RestartFull
                &&& step.ops@.len() == 0
                &&& final(self).incremental is None
                &&& final(self).page_token is None
                &&& final(self).last_next_sync is None
                &&& final(self).touched == 0
                &&& final(self).rows@.len() == 0
            },
            !token_expired(*old(self), reply) ==> match listing_error(reply) {
                Some(m) => step.next matches SyncNext::Fail(e) && e@ == m && step.ops@.len() == 0,
                None => reply matches ListingReply::Page(page) && page_step(
                    *old(self),
                    page@,
                    *final(self),
                    step,
                ),
            },
    {
        match reply {
            ListingReply::SendFailed(m) => SyncStep {
                ops: Vec::new(),
                next: SyncNext::Fail(crate::text::concat("Calendar API: ", m.as_str())),
            },
            ListingReply::Refused { status, body } => {
                if self.incremental.is_some() && sync_token_expired(status) {
                    self.incremental = None;
                    self.page_token = None;
                    self.last_next_sync = None;
                    self.touched = 0;
                    self.rows = Vec::new();
                    SyncStep { ops: Vec::new(), next: SyncNext::RestartFull }
                } else {
                    SyncStep {
                        ops: Vec::new(),
                        next: SyncNext::Fail(crate::text::concat("Calendar API: ", body.as_str())),
                    }
                }
            },
            ListingReply::BadJson(m) => SyncStep { ops: Vec::new(), next: SyncNext::Fail(m) },
            ListingReply::Page(page) => {
                let tokens = page_tokens(&page);
                proof {
                    lemma_incremental_ops_len(page_items(page@));
                    lemma_window_events_len(page_items(page@));
                }
                let ops = if self.incremental.is_some() {
                    let ops = incremental_page_ops(&page);
                    self.touched = self.touched + ops.len();
                    ops
                } else {
                    let mut evs = window_page_events(&page);
                    let ghost before = self.rows@;
                    let ghost added = evs@;
                    self.rows.append(&mut evs);
                    assert(events_view(self.rows@) =~= events_view(before) + events_view(added));
                    Vec::new()
                };
                match tokens.next_sync_token {
                    Some(t) => {
                        self.last_next_sync = Some(t);
                    },
                    None => {},
                }
                match tokens.next_page_token {
                    Some(p) => {
                        self.page_token = Some(p);
                        SyncStep { ops, next: SyncNext::FetchMore }
                    },
                    None => {
                        let store_token = self.last_next_sync.clone();
                        if self.incremental.is_some() {
                            let count = self.touched;
                            SyncStep { ops, next: SyncNext::Done { store_token, replace_rows: None, count } }
                        } else {
                            let mut rows: Vec<CalendarEvent> = Vec::new();
                            std::mem::swap(&mut rows, &mut self.rows);
                            let count = rows.len();
                            SyncStep {
                                ops,
                                next: SyncNext::Done { store_token, replace_rows: Some(rows), count },
                            }
                        }
                    },
                }
            },
        }
    }
}

/// The events of a series of full-window pages, page after page.
pub open spec fn window_rows(pages: Seq<Json>) -> Seq<EventView>
    decreases pages.len(),
{
    if pages.len() == 0 {
        Seq::empty()
    } else {
        window_rows(pages.drop_last()) + window_events(page_items(pages.last()))
    }
}

/// The number of cache changes a series of incremental pages asks for.
pub open spec fn changes_asked(pages: Seq<Json>) -> nat
    decreases pages.len(),
{
    if pages.len() == 0 {
        0
    } else {
        changes_asked(pages.drop_last()) + incremental_ops(page_items(pages.last())).len()
    }
}

/// The sync token kept after a series of pages, from `start`.
pub open spec fn token_after(start: Option<Seq<char>>, pages: Seq<Json>) -> Option<Seq<char>>
    decreases pages.len(),
{
    if pages.len() == 0 {
        start
    } else {
        kept_sync_token(token_after(start, pages.drop_last()), get_str(pages.last(), "nextSyncToken"@))
    }
}

/// A listing run: the drivers before and after each page, each page taken in
/// as `page_step` says, every page but the last leading on to another.
pub open spec fn listing_run(ds: Seq<SyncDriver>, pages: Seq<Json>, steps: Seq<SyncStep>) -> bool {
    &&& pages.len() > 0
    &&& ds.len() == pages.len() + 1
    &&& steps.len() == pages.len()
    &&& forall|i: int| 0 <= i < pages.len() ==> #[trigger] page_step(ds[i], pages[i], ds[i + 1], steps[i])
    &&& forall|i: int| 0 <= i < pages.len() - 1 ==> (#[trigger] get_str(pages[i], "nextPageToken"@)) is Some
    &&& get_str(pages.last(), "nextPageToken"@) is None
}

proof fn lemma_run_prefix(ds: Seq<SyncDriver>, pages: Seq<Json>, steps: Seq<SyncStep>, k: int)
    requires
        listing_run(ds, pages, steps),
        0 <= k <= pages.len(),
    ensures
        ds[k].incremental == ds[0].incremental,
        ds[0].incremental is None && k < pages.len() ==> events_view(ds[k].rows@) == events_view(
            ds[0].rows@,
        ) + window_rows(pages.take(k)),
        ds[0].incremental is Some ==> ds[k].touched == ds[0].touched + changes_asked(pages.take(k)),
        opt_str(ds[k].last_next_sync) == token_after(opt_str(ds[0].last_next_sync), pages.take(k)),
    decreases k,
{
    if k == 0 {
        assert(pages.take(0) =~= Seq::<Json>::empty());
    } else {
        lemma_run_prefix(ds, pages, steps, k - 1);
        let j = k - 1;
        assert(page_step(ds[j], pages[j], ds[j + 1], steps[j]));
        assert(j + 1 == k);
        let t = pages.take(k);
        assert(t.drop_last() =~= pages.take(k - 1));
        assert(t.last() == pages[k - 1]);
        if ds[0].incremental is None && k < pages.len() {
            assert(get_str(pages[k - 1], "nextPageToken"@) is Some);
            assert(events_view(ds[0].rows@) + window_rows(pages.take(k - 1)) + window_events(
                page_items(pages[k - 1]),
            ) =~= events_view(ds[0].rows@) + window_rows(t));
        }
    }
}

/// A full-window listing that starts empty ends by handing over the events of
/// all its pages, in page order, and counts them.
pub proof fn full_window_collects_every_page(ds: Seq<SyncDriver>, pages: Seq<Json>, steps: Seq<SyncStep>)
    requires
        listing_run(ds, pages, steps),
        ds[0].incremental is None,
        ds[0].rows@.len() == 0,
    ensures
        steps.last().next matches SyncNext::Done { store_token, replace_rows, count } && (
        replace_rows matches Some(rows) && events_view(rows@) == window_rows(pages) && count
            == rows@.len()),
{
    let n = pages.len() - 1;
    lemma_run_prefix(ds, pages, steps, n);
    assert(page_step(ds[n], pages[n], ds[n + 1], steps[n]));
    assert(events_view(ds[0].rows@) =~= Seq::<EventView>::empty());
    assert(pages.take(n + 1) =~= pages);
    assert(pages.take(n + 1).drop_last() =~= pages.take(n));
    assert(Seq::<EventView>::empty() + window_rows(pages.take(n)) =~= window_rows(pages.take(n)));
}

/// An incremental listing ends by reporting every change its pages asked
/// for, and by storing the last sync token that any page sent.
pub proof fn incremental_counts_every_change(ds: Seq<SyncDriver>, pages: Seq<Json>, steps: Seq<SyncStep>)
    requires
        listing_run(ds, pages, steps),
        ds[0].incremental is Some,
    ensures
        steps.last().next matches SyncNext::Done { store_token, replace_rows, count } && (
        replace_rows is None && count == ds[0].touched + changes_asked(pages) && opt_str(
            store_token,
        ) == token_after(opt_str(ds[0].last_next_sync), pages)),
{
    let n = pages.len() - 1;
    lemma_run_prefix(ds, pages, steps, n + 1);
    assert(page_step(ds[n], pages[n], ds[n + 1], steps[n]));
    assert(pages.take(n + 1) =~= pages);
}

/// The query of a listing request asks for the page the driver holds: with a
/// page token `p` its last pair is `("pageToken", p)`, in the full-window mode
/// as in the incremental one, and without one no pair names a page. Both
/// modes ask for single events first; the incremental one then gives the
/// sync token, the full window the order and both bounds.
pub proof fn listing_asks_for_the_held_page(
    incremental: Option<Seq<char>>,
    page_token: Option<Seq<char>>,
    time_min: Seq<char>,
    time_max: Seq<char>,
)
    ensures
        ({
            let q = listing_pairs(incremental, page_token, time_min, time_max);
            let n: int = if incremental is Some {
                2
            } else {
                4
            };
            &&& page_token matches Some(p) ==> (q.len() == n + 1 && q[n] == ("pageToken"@, p))
            &&& page_token is None ==> (q.len() == n && forall|i: int|
                0 <= i < q.len() ==> #[trigger] q[i].0 != "pageToken"@)
            &&& q[0] == ("singleEvents"@, "true"@)
            &&& incremental matches Some(t) ==> q[1] == ("syncToken"@, t)
            &&& incremental is None ==> (q[1] == ("orderBy"@, "startTime"@) && q[2] == (
                "timeMin"@,
                time_min,
            ) && q[3] == ("timeMax"@, time_max))
        }),
{
    reveal_strlit("pageToken");
    reveal_strlit("singleEvents");
    reveal_strlit("syncToken");
    reveal_strlit("orderBy");
    reveal_strlit("timeMin");
    reveal_strlit("timeMax");
    assert("pageToken"@.len() == 9);
    assert("singleEvents"@.len() == 12);
    assert("syncToken"@.len() == 9);
    assert("orderBy"@.len() == 7);
    assert("timeMin"@.len() == 7);
    assert("timeMax"@.len() == 7);
    assert("pageToken"@[0] != "syncToken"@[0]);
}

} // verus!
