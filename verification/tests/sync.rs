use calendario_app::sync::sync_window_bounds;
use calendario_app::sync::{
    incremental_item_op, incremental_page_ops, page_tokens, sync_plan, sync_token_expired,
    window_page_events, CacheOp, ListingReply, SyncDriver, SyncNext, SyncPlan,
};
use calendario_app::json::JsonValue;

fn s(x: &str) -> JsonValue {
    JsonValue::Str(x.to_string())
}

fn obj(members: Vec<(&str, JsonValue)>) -> JsonValue {
    JsonValue::Object(members.into_iter().map(|(k, v)| (k.to_string(), v)).collect())
}

fn page() -> JsonValue {
    obj(vec![
        (
            "items",
            JsonValue::Array(vec![
                obj(vec![("id", s("a")), ("summary", s("A"))]),
                obj(vec![("id", s("b")), ("status", s("cancelled"))]),
                obj(vec![("summary", s("no id"))]),
                obj(vec![("id", s(""))]),
                obj(vec![("id", s("c")), ("status", s("confirmed"))]),
            ]),
        ),
        ("nextSyncToken", s("tok2")),
    ])
}

#[test]
fn incremental_page_becomes_cache_changes() {
    let ops = incremental_page_ops(&page());
    assert_eq!(ops.len(), 3);
    match &ops[0] {
        CacheOp::Upsert(e) => assert_eq!((e.id.as_str(), e.summary.as_str()), ("a", "A")),
        _ => panic!("expected an upsert"),
    }
    assert_eq!(ops[1], CacheOp::Delete("b".to_string()));
    match &ops[2] {
        CacheOp::Upsert(e) => assert_eq!(e.id, "c"),
        _ => panic!("expected an upsert"),
    }
    assert_eq!(incremental_item_op(&obj(vec![("status", s("cancelled"))])), None);
}

#[test]
fn full_window_page_keeps_events_in_order() {
    let evs = window_page_events(&page());
    let ids: Vec<&str> = evs.iter().map(|e| e.id.as_str()).collect();
    assert_eq!(ids, vec!["a", "b", "c"]);
    assert!(window_page_events(&obj(vec![])).is_empty());
}

#[test]
fn page_tokens_are_read() {
    let t = page_tokens(&page());
    assert_eq!(t.next_sync_token.as_deref(), Some("tok2"));
    assert_eq!(t.next_page_token, None);
    let t = page_tokens(&obj(vec![("nextPageToken", s("p2"))]));
    assert_eq!(t.next_sync_token, None);
    assert_eq!(t.next_page_token.as_deref(), Some("p2"));
}

fn first_page() -> JsonValue {
    obj(vec![
        ("items", JsonValue::Array(vec![obj(vec![("id", s("z")), ("status", s("cancelled"))])])),
        ("nextPageToken", s("p2")),
    ])
}

#[test]
fn incremental_listing_follows_pages_and_counts_changes() {
    let mut d = SyncDriver::start(Some("tok1".to_string()));
    assert_eq!(d.incremental.as_deref(), Some("tok1"));
    let step = d.on_reply(ListingReply::Page(first_page()));
    assert_eq!(step.ops, vec![CacheOp::Delete("z".to_string())]);
    assert!(matches!(step.next, SyncNext::FetchMore));
    assert_eq!(d.page_token.as_deref(), Some("p2"));
    let step = d.on_reply(ListingReply::Page(page()));
    assert_eq!(step.ops.len(), 3);
    match step.next {
        SyncNext::Done { store_token, replace_rows, count } => {
            assert_eq!(store_token.as_deref(), Some("tok2"));
            assert!(replace_rows.is_none());
            assert_eq!(count, 4);
        }
        _ => panic!("expected the end of the listing"),
    }
}

#[test]
fn expired_token_restarts_as_full_window() {
    let mut d = SyncDriver::start(Some("old".to_string()));
    let step = d.on_reply(ListingReply::Refused { status: 410, body: "gone".to_string() });
    assert!(matches!(step.next, SyncNext::RestartFull));
    assert!(step.ops.is_empty());
    assert_eq!(d.incremental, None);
    let step = d.on_reply(ListingReply::Refused { status: 410, body: "gone".to_string() });
    match step.next {
        SyncNext::Fail(m) => assert_eq!(m, "Calendar API: gone"),
        _ => panic!("a full window fails on 410"),
    }
}

#[test]
fn full_window_collects_events_across_pages() {
    let mut d = SyncDriver::start(Some(String::new()));
    assert_eq!(d.incremental, None);
    let step = d.on_reply(ListingReply::Page(first_page()));
    assert!(step.ops.is_empty());
    assert!(matches!(step.next, SyncNext::FetchMore));
    assert_eq!(d.rows.len(), 1);
    let step = d.on_reply(ListingReply::Page(page()));
    match step.next {
        SyncNext::Done { store_token, replace_rows, count } => {
            assert_eq!(store_token.as_deref(), Some("tok2"));
            let rows = replace_rows.expect("the full window hands over its rows");
            let ids: Vec<&str> = rows.iter().map(|e| e.id.as_str()).collect();
            assert_eq!(ids, vec!["z", "a", "b", "c"]);
            assert_eq!(count, 4);
        }
        _ => panic!("expected the end of the listing"),
    }
    assert!(d.rows.is_empty());
}

#[test]
fn listing_failures_carry_their_message() {
    let mut d = SyncDriver::start(None);
    match d.on_reply(ListingReply::SendFailed("timeout".to_string())).next {
        SyncNext::Fail(m) => assert_eq!(m, "Calendar API: timeout"),
        _ => panic!("expected a failure"),
    }
    match d.on_reply(ListingReply::Refused { status: 403, body: "denied".to_string() }).next {
        SyncNext::Fail(m) => assert_eq!(m, "Calendar API: denied"),
        _ => panic!("expected a failure"),
    }
    match d.on_reply(ListingReply::BadJson("expected value".to_string())).next {
        SyncNext::Fail(m) => assert_eq!(m, "expected value"),
        _ => panic!("expected a failure"),
    }
}

#[test]
fn plan_and_expiry() {
    assert_eq!(sync_plan(Some("t".to_string())), SyncPlan::Incremental("t".to_string()));
    assert_eq!(sync_plan(Some("".to_string())), SyncPlan::FullWindow);
    assert_eq!(sync_plan(None), SyncPlan::FullWindow);
    assert!(sync_token_expired(410));
    assert!(!sync_token_expired(404));
}

#[test]
fn listing_urls_follow_the_mode_and_page() {
    let mut d = SyncDriver::start(Some("tok1".to_string()));
    assert_eq!(
        d.listing_url("a", "b").unwrap(),
        "https://www.googleapis.com/calendar/v3/calendars/primary/events?singleEvents=true&syncToken=tok1"
    );
    d.page_token = Some("p 2".to_string());
    assert_eq!(
        d.listing_url("a", "b").unwrap(),
        "https://www.googleapis.com/calendar/v3/calendars/primary/events?singleEvents=true&syncToken=tok1&pageToken=p+2"
    );
    let full = SyncDriver::start(None);
    assert_eq!(
        full.listing_url("2026-01-01T00:00:00Z", "2026-09-01T23:59:59Z").unwrap(),
        "https://www.googleapis.com/calendar/v3/calendars/primary/events?singleEvents=true&orderBy=startTime&timeMin=2026-01-01T00%3A00%3A00Z&timeMax=2026-09-01T23%3A59%3A59Z"
    );
}

#[test]
fn window_bounds_are_three_months_back_six_ahead() {
    assert_eq!(
        sync_window_bounds(2026, 3, 15),
        Some(("2025-12-15T00:00:00Z".to_string(), "2026-09-15T23:59:59Z".to_string()))
    );
    assert_eq!(
        sync_window_bounds(2026, 5, 31),
        Some(("2026-02-28T00:00:00Z".to_string(), "2026-11-30T23:59:59Z".to_string()))
    );
    assert_eq!(
        sync_window_bounds(2024, 5, 31),
        Some(("2024-02-29T00:00:00Z".to_string(), "2024-11-30T23:59:59Z".to_string()))
    );
    assert_eq!(sync_window_bounds(2026, 2, 30), None);
}
