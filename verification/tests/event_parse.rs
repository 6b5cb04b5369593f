use calendario_app::event_parse::{event_from_api_item, parse_event_times, parse_form_from_item};
use calendario_app::json::JsonValue;
use calendario_app::model::{CalendarAttendee, CalendarEventForm};

fn s(x: &str) -> JsonValue {
    JsonValue::Str(x.to_string())
}

fn obj(members: Vec<(&str, JsonValue)>) -> JsonValue {
    JsonValue::Object(members.into_iter().map(|(k, v)| (k.to_string(), v)).collect())
}

#[test]
fn event_item_is_read_into_primary_calendar() {
    let item = obj(vec![
        ("id", s("ev1")),
        ("start", obj(vec![("dateTime", s("2026-03-04T10:00:00Z")), ("date", s("2026-03-04"))])),
        ("end", obj(vec![("date", s("2026-03-05"))])),
        ("description", s("")),
        ("location", s("Porto")),
    ]);
    let ev = event_from_api_item(&item).unwrap();
    assert_eq!(ev.id, "ev1");
    assert_eq!(ev.calendar_id, "primary");
    assert_eq!(ev.summary, "(sem título)");
    assert_eq!(ev.start_at.as_deref(), Some("2026-03-04T10:00:00Z"));
    assert_eq!(ev.end_at.as_deref(), Some("2026-03-05"));
    assert_eq!(ev.description, None);
    assert_eq!(ev.location.as_deref(), Some("Porto"));
    assert_eq!(ev.form, None);
}

#[test]
fn item_without_id_is_skipped() {
    assert_eq!(event_from_api_item(&obj(vec![("summary", s("x"))])), None);
    assert_eq!(event_from_api_item(&obj(vec![("id", s(""))])), None);
    assert_eq!(event_from_api_item(&obj(vec![("id", JsonValue::Number(Some(3)))])), None);
    assert_eq!(event_from_api_item(&s("id")), None);
}

#[test]
fn times_prefer_date_time() {
    let item = obj(vec![
        ("start", obj(vec![("dateTime", JsonValue::Null), ("date", s("2026-01-01"))])),
    ]);
    let (a, b) = parse_event_times(&item);
    assert_eq!(a.as_deref(), Some("2026-01-01"));
    assert_eq!(b, None);
}

#[test]
fn form_metadata_is_read() {
    let item = obj(vec![
        ("id", s("e")),
        ("hangoutLink", s("https://meet.example/abc")),
        ("recurrence", JsonValue::Array(vec![s("RRULE:FREQ=DAILY"), JsonValue::Number(Some(1))])),
        (
            "reminders",
            obj(vec![
                ("useDefault", JsonValue::Bool(false)),
                (
                    "overrides",
                    JsonValue::Array(vec![
                        obj(vec![("method", s("email")), ("minutes", JsonValue::Number(Some(5)))]),
                        obj(vec![("method", s("popup"))]),
                        obj(vec![("method", s("popup")), ("minutes", JsonValue::Number(Some(15)))]),
                        obj(vec![("method", s("popup")), ("minutes", JsonValue::Number(Some(99)))]),
                    ]),
                ),
            ]),
        ),
        (
            "attendees",
            JsonValue::Array(vec![
                obj(vec![("email", s("  ana@x.pt ")), ("displayName", s("Ana"))]),
                obj(vec![("email", s("   "))]),
                obj(vec![("displayName", s("Sem email"))]),
            ]),
        ),
        ("transparency", s("transparent")),
        ("guestsCanModify", JsonValue::Bool(true)),
    ]);
    let f = parse_form_from_item(&item).unwrap();
    let mut expected = CalendarEventForm::default();
    expected.hangout_link = Some("https://meet.example/abc".to_string());
    expected.recurrence = Some(vec!["RRULE:FREQ=DAILY".to_string()]);
    expected.reminders_use_default = Some(false);
    expected.reminder_popup_minutes = Some(15);
    expected.attendees = Some(vec![CalendarAttendee {
        email: "ana@x.pt".to_string(),
        display_name: Some("Ana".to_string()),
    }]);
    expected.transparency = Some("transparent".to_string());
    expected.guests_can_modify = Some(true);
    assert_eq!(f, expected);
}

#[test]
fn item_without_metadata_has_no_form() {
    let item = obj(vec![
        ("id", s("e")),
        ("hangoutLink", s("")),
        ("recurrence", JsonValue::Array(vec![])),
        ("attendees", JsonValue::Array(vec![obj(vec![("email", s(""))])])),
    ]);
    assert_eq!(parse_form_from_item(&item), None);
    let with_reminders = obj(vec![("reminders", obj(vec![]))]);
    assert_eq!(parse_form_from_item(&with_reminders), None);
    let with_default = obj(vec![("reminders", obj(vec![("useDefault", JsonValue::Bool(true))]))]);
    assert_eq!(parse_form_from_item(&with_default).unwrap().reminders_use_default, Some(true));
}

#[test]
fn popup_minutes_truncate_to_i32() {
    let item = obj(vec![(
        "reminders",
        obj(vec![(
            "overrides",
            JsonValue::Array(vec![obj(vec![("method", s("popup")), ("minutes", JsonValue::Number(Some(4294967297)))])]),
        )]),
    )]);
    assert_eq!(parse_form_from_item(&item).unwrap().reminder_popup_minutes, Some(1));
}

#[test]
fn default_form_is_default() {
    assert!(CalendarEventForm::default().is_default());
    let mut f = CalendarEventForm::default();
    f.color_id = Some("3".to_string());
    assert!(!f.is_default());
}
