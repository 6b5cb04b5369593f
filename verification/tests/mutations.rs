use calendario_app::mutations::{token_refresh_error, TokenRefreshFailure};
use calendario_app::mutations::{
    calendar_api_scope_hint, calendar_event_resource_url, delete_outcome, failed_write_report,
    format_calendar_write_error, http_status_is_transient, map_send_error, refused_write_error,
    transient_queue_suffix, validate_event_id, validate_summary, written_event,
    CalendarMutationError, QueueFlush, QueueStep, QueuedOutcome, WriteKind, SCOPE_HINT,
};
use calendario_app::mutations::{
    prepare_create, prepare_delete, prepare_update, write_result, HttpMethod, WriteReply,
    PRIMARY_EVENTS_URL,
};
use calendario_app::model::{
    CreateGoogleEventPayload, DeleteGoogleEventPayload, EventWriteExtensions,
    UpdateGoogleEventPayload,
};
use calendario_app::json::JsonValue;

#[test]
fn transient_statuses() {
    for s in [500u16, 503, 599, 408, 429] {
        assert!(http_status_is_transient(s));
    }
    for s in [200u16, 400, 401, 403, 404, 410, 499, 600] {
        assert!(!http_status_is_transient(s));
    }
}

#[test]
fn scope_hint_is_case_insensitive() {
    assert_eq!(calendar_api_scope_hint("Request had INSUFFICIENT AUTHENTICATION SCOPES."), Some(SCOPE_HINT));
    assert_eq!(calendar_api_scope_hint("reason: insufficientPermissions"), Some(SCOPE_HINT));
    assert_eq!(calendar_api_scope_hint("quota exceeded"), None);
    assert_eq!(format_calendar_write_error("Ctx", "nope"), "Ctx: nope");
    assert_eq!(
        format_calendar_write_error("Ctx", "ACCESS_TOKEN_SCOPE_INSUFFICIENT"),
        format!("Ctx: ACCESS_TOKEN_SCOPE_INSUFFICIENT{}", SCOPE_HINT)
    );
}

#[test]
fn refused_writes_are_transient_or_permanent() {
    assert_eq!(
        refused_write_error(WriteKind::Create, 503, "  busy \n"),
        CalendarMutationError::Transient("Não foi possível criar o evento (HTTP 503): busy".to_string())
    );
    assert_eq!(
        refused_write_error(WriteKind::Update, 400, "bad date"),
        CalendarMutationError::Permanent("Não foi possível atualizar o evento: bad date".to_string())
    );
    assert_eq!(
        refused_write_error(WriteKind::Delete, 429, ""),
        CalendarMutationError::Transient("Não foi possível apagar o evento (HTTP 429): ".to_string())
    );
}

#[test]
fn send_failure_and_reports() {
    assert_eq!(map_send_error("timeout"), CalendarMutationError::Transient("Calendar API: timeout".to_string()));
    let (msg, queue) = failed_write_report(CalendarMutationError::Transient("x".to_string()));
    assert!(queue);
    assert_eq!(msg, format!("x{}", transient_queue_suffix()));
    let (msg, queue) = failed_write_report(CalendarMutationError::Permanent("y".to_string()));
    assert!(!queue);
    assert_eq!(msg, "y");
}

#[test]
fn validation_of_titles_and_ids() {
    assert_eq!(validate_summary("  Reunião "), Ok("Reunião".to_string()));
    assert_eq!(
        validate_summary(" \t"),
        Err(CalendarMutationError::Permanent("Indica um título para o evento.".to_string()))
    );
    assert_eq!(validate_event_id("e1"), Ok(()));
    assert_eq!(
        validate_event_id(" "),
        Err(CalendarMutationError::Permanent("ID do evento em falta.".to_string()))
    );
}

#[test]
fn delete_of_missing_event_succeeds() {
    assert_eq!(delete_outcome(404, "gone"), Ok(()));
    assert_eq!(delete_outcome(204, ""), Ok(()));
    assert_eq!(
        delete_outcome(500, "oops"),
        Err(CalendarMutationError::Transient("Não foi possível apagar o evento (HTTP 500): oops".to_string()))
    );
    assert_eq!(
        delete_outcome(403, "denied"),
        Err(CalendarMutationError::Permanent("Não foi possível apagar o evento: denied".to_string()))
    );
}

#[test]
fn written_event_reply() {
    let reply = JsonValue::Object(vec![("id".to_string(), JsonValue::Str("n1".to_string()))]);
    assert_eq!(written_event(WriteKind::Create, &reply).unwrap().id, "n1");
    assert_eq!(
        written_event(WriteKind::Update, &JsonValue::Null),
        Err(CalendarMutationError::Permanent("Resposta inválida ao atualizar evento.".to_string()))
    );
    assert_eq!(
        written_event(WriteKind::Create, &JsonValue::Null),
        Err(CalendarMutationError::Permanent("Resposta inválida ao criar evento.".to_string()))
    );
}

#[test]
fn resource_url_encodes_ids() {
    assert_eq!(
        calendar_event_resource_url("primary", "a b/c"),
        "https://www.googleapis.com/calendar/v3/calendars/primary/events/a%20b%2Fc"
    );
    assert_eq!(
        calendar_event_resource_url("x@group.calendar.google.com", "e"),
        "https://www.googleapis.com/calendar/v3/calendars/x%40group.calendar.google.com/events/e"
    );
}

#[test]
fn queue_is_processed_until_a_transient_failure() {
    let outcomes = vec![
        QueuedOutcome::Sent,
        QueuedOutcome::Unreadable,
        QueuedOutcome::Permanent("bad".to_string()),
        QueuedOutcome::Sent,
        QueuedOutcome::Transient("offline".to_string()),
        QueuedOutcome::Sent,
    ];
    let mut q = QueueFlush::new();
    let mut steps = Vec::new();
    for o in outcomes {
        let s = q.on_outcome(o);
        steps.push(s);
        if s == QueueStep::KeepAndStop {
            break;
        }
    }
    assert_eq!(q.done, 2);
    assert!(steps == vec![QueueStep::DropSent, QueueStep::Drop, QueueStep::Drop, QueueStep::DropSent, QueueStep::KeepAndStop]);
}

fn create_payload(summary: &str) -> CreateGoogleEventPayload {
    CreateGoogleEventPayload {
        summary: summary.to_string(),
        all_day: true,
        start_iso: "2026-03-01".to_string(),
        end_iso: "2026-03-02".to_string(),
        description: None,
        location: None,
        extensions: EventWriteExtensions::default(),
    }
}

fn summary_of(v: &JsonValue) -> Option<String> {
    match v.get("summary") {
        Some(JsonValue::Str(t)) => Some(t.clone()),
        _ => None,
    }
}

#[test]
fn create_request_posts_trimmed_title() {
    let w = prepare_create(&create_payload("  Reunião  "), "meet-1").ok().expect("a valid payload");
    assert!(w.method == HttpMethod::Post);
    assert_eq!(w.url, PRIMARY_EVENTS_URL);
    assert_eq!(w.url, "https://www.googleapis.com/calendar/v3/calendars/primary/events");
    assert!(!w.conference_data);
    assert_eq!(summary_of(w.body.as_ref().unwrap()).as_deref(), Some("Reunião"));
    match prepare_create(&create_payload("   "), "meet-1") {
        Err(e) => assert_eq!(e, CalendarMutationError::Permanent("Indica um título para o evento.".to_string())),
        Ok(_) => panic!("a blank title is refused"),
    }
}

#[test]
fn create_request_with_meet_asks_for_conference_data() {
    let mut p = create_payload("Call");
    p.extensions.request_google_meet = true;
    let w = prepare_create(&p, "meet-ab").ok().unwrap();
    assert!(w.conference_data);
    assert!(w.body.as_ref().unwrap().get("conferenceData").is_some());
}

#[test]
fn update_and_delete_requests_target_the_event() {
    let p = UpdateGoogleEventPayload {
        calendar_id: "primary".to_string(),
        event_id: "ev 1".to_string(),
        summary: "X".to_string(),
        all_day: false,
        start_iso: "2026-03-01T10:00:00Z".to_string(),
        end_iso: "2026-03-01T11:00:00Z".to_string(),
        description: None,
        location: None,
        extensions: EventWriteExtensions::default(),
    };
    let w = prepare_update(&p, "m").ok().unwrap();
    assert!(w.method == HttpMethod::Patch);
    assert_eq!(w.url, "https://www.googleapis.com/calendar/v3/calendars/primary/events/ev%201");
    let mut blank_id = p.clone();
    blank_id.event_id = "  ".to_string();
    match prepare_update(&blank_id, "m") {
        Err(e) => assert_eq!(e, CalendarMutationError::Permanent("ID do evento em falta.".to_string())),
        Ok(_) => panic!("a blank id is refused"),
    }
    let mut blank_both = blank_id.clone();
    blank_both.summary = String::new();
    match prepare_update(&blank_both, "m") {
        Err(e) => assert_eq!(e, CalendarMutationError::Permanent("Indica um título para o evento.".to_string())),
        Ok(_) => panic!("a blank title is refused first"),
    }
    let d = prepare_delete(&DeleteGoogleEventPayload { calendar_id: "a@b".to_string(), event_id: "e".to_string() })
        .ok()
        .unwrap();
    assert!(d.method == HttpMethod::Delete);
    assert_eq!(d.url, "https://www.googleapis.com/calendar/v3/calendars/a%40b/events/e");
    assert!(d.body.is_none());
    assert!(prepare_delete(&DeleteGoogleEventPayload { calendar_id: "a".to_string(), event_id: "".to_string() }).is_err());
}

#[test]
fn write_replies_become_outcomes() {
    assert_eq!(
        write_result(WriteKind::Create, WriteReply::SendFailed("dns".to_string())).err(),
        Some(CalendarMutationError::Transient("Calendar API: dns".to_string()))
    );
    assert_eq!(
        write_result(WriteKind::Update, WriteReply::Refused { status: 429, body: "slow down".to_string() }).err(),
        Some(CalendarMutationError::Transient("Não foi possível atualizar o evento (HTTP 429): slow down".to_string()))
    );
    assert_eq!(
        write_result(WriteKind::Create, WriteReply::BadJson("eof".to_string())).err(),
        Some(CalendarMutationError::Permanent("eof".to_string()))
    );
    assert_eq!(
        write_result(WriteKind::Update, WriteReply::Accepted(JsonValue::Null)).err(),
        Some(CalendarMutationError::Permanent("Resposta inválida ao atualizar evento.".to_string()))
    );
    let ok = write_result(
        WriteKind::Create,
        WriteReply::Accepted(JsonValue::Object(vec![
            ("id".to_string(), JsonValue::Str("n1".to_string())),
            ("summary".to_string(), JsonValue::Str("S".to_string())),
        ])),
    );
    let ev = ok.ok().expect("an event");
    assert_eq!((ev.id.as_str(), ev.summary.as_str()), ("n1", "S"));
}

#[test]
fn update_with_blank_id_is_refused_before_reading_the_start() {
    let mut ext = EventWriteExtensions::default();
    ext.recurrence = "weekly".to_string();
    let p = UpdateGoogleEventPayload {
        calendar_id: "primary".to_string(),
        event_id: " ".to_string(),
        summary: "Title".to_string(),
        all_day: false,
        start_iso: "2026-03-0é".to_string(),
        end_iso: "2026-03-02".to_string(),
        description: None,
        location: None,
        extensions: ext,
    };
    match prepare_update(&p, "m") {
        Err(e) => assert_eq!(e, CalendarMutationError::Permanent("ID do evento em falta.".to_string())),
        Ok(_) => panic!("a blank id is refused"),
    }
}

#[test]
fn token_refresh_failures_are_classified() {
    assert_eq!(
        token_refresh_error(TokenRefreshFailure::SendFailed("offline".to_string())),
        CalendarMutationError::Transient("token bridge: offline".to_string())
    );
    assert_eq!(
        token_refresh_error(TokenRefreshFailure::Refused { status: 503, body: "busy".to_string() }),
        CalendarMutationError::Transient("Renovar access token falhou: busy".to_string())
    );
    assert_eq!(
        token_refresh_error(TokenRefreshFailure::Refused { status: 400, body: "invalid_grant".to_string() }),
        CalendarMutationError::Permanent("Renovar access token falhou: invalid_grant".to_string())
    );
    assert_eq!(
        token_refresh_error(TokenRefreshFailure::BadJson("eof".to_string())),
        CalendarMutationError::Permanent("JSON token: eof".to_string())
    );
}
