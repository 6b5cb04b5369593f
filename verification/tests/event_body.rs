use calendario_app::event_body::{build_event_value, meet_id_for, meet_request_id, recurrence_rules_from_ext, sanitize_attendees};
use calendario_app::dates::{naive_date_from_start, weekday_to_byday, CivilDate};
use calendario_app::json::JsonValue;
use calendario_app::model::EventWriteExtensions;

fn s(x: &str) -> JsonValue {
    JsonValue::Str(x.to_string())
}

fn obj(members: Vec<(&str, JsonValue)>) -> JsonValue {
    JsonValue::Object(members.into_iter().map(|(k, v)| (k.to_string(), v)).collect())
}

fn arr(items: Vec<JsonValue>) -> JsonValue {
    JsonValue::Array(items)
}

fn member<'a>(v: &'a JsonValue, key: &str) -> Option<&'a JsonValue> {
    v.get(key)
}

fn keys(v: &JsonValue) -> Vec<String> {
    match v {
        JsonValue::Object(f) => f.iter().map(|(k, _)| k.clone()).collect(),
        _ => Vec::new(),
    }
}

#[test]
fn insert_body_for_all_day_event_with_defaults() {
    let ext = EventWriteExtensions::default();
    let v = build_event_value(
        "Teste",
        true,
        " 2026-03-01 ",
        "2026-03-02",
        &Some("   ".to_string()),
        &None,
        &ext,
        false,
        "meet-1",
    );
    let expected = obj(vec![
        ("summary", s("Teste")),
        ("start", obj(vec![("date", s("2026-03-01"))])),
        ("end", obj(vec![("date", s("2026-03-02"))])),
        ("transparency", s("opaque")),
        ("visibility", s("default")),
        ("guestsCanModify", JsonValue::Bool(false)),
        ("guestsCanInviteOthers", JsonValue::Bool(true)),
        ("guestsCanSeeOtherGuests", JsonValue::Bool(true)),
        ("reminders", obj(vec![("useDefault", JsonValue::Bool(true)), ("overrides", arr(vec![]))])),
    ]);
    assert_eq!(v, expected);
}

#[test]
fn patch_body_clears_blank_fields() {
    let mut ext = EventWriteExtensions::default();
    ext.color_id = Some("  ".to_string());
    ext.transparency = "busy".to_string();
    ext.visibility = "secret".to_string();
    let v = build_event_value(
        "T",
        false,
        "2026-03-04T10:00:00+01:00",
        "2026-03-04T11:00:00+01:00",
        &Some("".to_string()),
        &Some("  Lisboa ".to_string()),
        &ext,
        true,
        "meet-1",
    );
    assert_eq!(member(&v, "description"), Some(&JsonValue::Null));
    assert_eq!(member(&v, "location"), Some(&s("Lisboa")));
    assert_eq!(member(&v, "colorId"), Some(&JsonValue::Null));
    assert_eq!(member(&v, "transparency"), None);
    assert_eq!(member(&v, "visibility"), None);
    assert_eq!(member(&v, "attendees"), Some(&arr(vec![])));
    assert_eq!(member(&v, "recurrence"), Some(&arr(vec![])));
    assert_eq!(member(&v, "start"), Some(&obj(vec![("dateTime", s("2026-03-04T10:00:00+01:00"))])));
    assert_eq!(
        keys(&v),
        vec![
            "summary", "start", "end", "description", "location", "colorId",
            "guestsCanModify", "guestsCanInviteOthers", "guestsCanSeeOtherGuests",
            "attendees", "reminders", "recurrence",
        ]
    );
}

#[test]
fn custom_reminder_is_capped_and_defaults_to_thirty() {
    let mut ext = EventWriteExtensions::default();
    ext.use_default_reminders = false;
    ext.reminder_minutes = Some(50_000);
    let v = build_event_value("T", true, "2026-03-01", "2026-03-02", &None, &None, &ext, false, "m");
    let popup = |m: i64| {
        obj(vec![
            ("useDefault", JsonValue::Bool(false)),
            ("overrides", arr(vec![obj(vec![("method", s("popup")), ("minutes", JsonValue::Number(Some(m)))])])),
        ])
    };
    assert_eq!(member(&v, "reminders"), Some(&popup(40320)));
    ext.reminder_minutes = None;
    let v = build_event_value("T", true, "2026-03-01", "2026-03-02", &None, &None, &ext, false, "m");
    assert_eq!(member(&v, "reminders"), Some(&popup(30)));
}

#[test]
fn meet_request_adds_conference_data() {
    let mut ext = EventWriteExtensions::default();
    ext.request_google_meet = true;
    let v = build_event_value("T", true, "2026-03-01", "2026-03-02", &None, &None, &ext, false, "meet-abc");
    let expected = obj(vec![(
        "createRequest",
        obj(vec![
            ("requestId", s("meet-abc")),
            ("conferenceSolutionKey", obj(vec![("type", s("hangoutsMeet"))])),
        ]),
    )]);
    assert_eq!(member(&v, "conferenceData"), Some(&expected));
}

#[test]
fn weekly_rule_uses_weekday_of_timed_start() {
    let mut ext = EventWriteExtensions::default();
    ext.recurrence = " weekly ".to_string();
    let r = recurrence_rules_from_ext(&ext, "2026-03-04T10:00:00+01:00", false, false);
    assert_eq!(r, Some(arr(vec![s("RRULE:FREQ=WEEKLY;BYDAY=WE")])));
}

#[test]
fn monthly_yearly_and_daily_rules() {
    let mut ext = EventWriteExtensions::default();
    ext.recurrence = "monthly".to_string();
    assert_eq!(
        recurrence_rules_from_ext(&ext, "2026-03-04", true, false),
        Some(arr(vec![s("RRULE:FREQ=MONTHLY;BYMONTHDAY=4")]))
    );
    ext.recurrence = "yearly".to_string();
    assert_eq!(
        recurrence_rules_from_ext(&ext, "2026-12-25", true, false),
        Some(arr(vec![s("RRULE:FREQ=YEARLY;BYMONTH=12;BYMONTHDAY=25")]))
    );
    ext.recurrence = "daily".to_string();
    assert_eq!(
        recurrence_rules_from_ext(&ext, "2026-03-04 late", false, false),
        Some(arr(vec![s("RRULE:FREQ=DAILY")]))
    );
}

#[test]
fn unknown_or_absent_recurrence() {
    let mut ext = EventWriteExtensions::default();
    ext.recurrence = "".to_string();
    assert_eq!(recurrence_rules_from_ext(&ext, "x", true, false), None);
    assert_eq!(recurrence_rules_from_ext(&ext, "x", true, true), Some(arr(vec![])));
    ext.recurrence = "hourly".to_string();
    assert_eq!(recurrence_rules_from_ext(&ext, "2026-03-04", true, false), None);
    assert_eq!(recurrence_rules_from_ext(&ext, "2026-03-04", true, true), Some(arr(vec![])));
    ext.recurrence = "weekly".to_string();
    assert_eq!(recurrence_rules_from_ext(&ext, "not a date", true, true), None);
}

#[test]
fn attendees_are_trimmed_lowered_and_filtered() {
    let emails = vec![
        " Ana@Example.COM ".to_string(),
        "bad".to_string(),
        "a@b.c".to_string(),
        "É@x.co".to_string(),
    ];
    let r = sanitize_attendees(&emails);
    assert_eq!(r, vec![obj(vec![("email", s("ana@example.com"))]), obj(vec![("email", s("é@x.co"))])]);
}

#[test]
fn meet_request_id_is_hex() {
    let id = meet_request_id();
    assert!(id.starts_with("meet-"));
    let hex = &id[5..];
    assert!(!hex.is_empty());
    assert!(hex.chars().all(|c| c.is_ascii_digit() || ('a'..='f').contains(&c)));
}

#[test]
fn start_dates_are_read_per_kind() {
    assert_eq!(
        naive_date_from_start(" 2026-03-04 ", true),
        Some(CivilDate { year: 2026, month: 3, day: 4, weekday: 2 })
    );
    assert_eq!(
        naive_date_from_start("2026-03-04T23:30:00-05:00", false),
        Some(CivilDate { year: 2026, month: 3, day: 4, weekday: 2 })
    );
    assert_eq!(
        naive_date_from_start("2026-03-08Tnoon", false),
        Some(CivilDate { year: 2026, month: 3, day: 8, weekday: 6 })
    );
    assert_eq!(naive_date_from_start("2026-03", false), None);
    assert_eq!(naive_date_from_start("2026-13-01", true), None);
}

#[test]
fn byday_codes() {
    let codes: Vec<&str> = (0..7).map(weekday_to_byday).collect();
    assert_eq!(codes, vec!["MO", "TU", "WE", "TH", "FR", "SA", "SU"]);
}

#[test]
fn no_conference_data_without_meet() {
    let ext = EventWriteExtensions::default();
    let v = build_event_value("T", true, "2026-03-01", "2026-03-02", &None, &None, &ext, false, "meet-abc");
    assert_eq!(member(&v, "conferenceData"), None);
    let again = build_event_value("T", true, "2026-03-01", "2026-03-02", &None, &None, &ext, false, "meet-abc");
    assert_eq!(v, again);
}

#[test]
fn meet_id_is_the_number_in_hex() {
    assert_eq!(meet_id_for(0), "meet-0");
    assert_eq!(meet_id_for(255), "meet-ff");
    assert_eq!(meet_id_for(0x1a2b), "meet-1a2b");
}
