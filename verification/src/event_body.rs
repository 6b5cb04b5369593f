//! Request bodies for `events.insert` / `events.patch`: recurrence rules,
//! guest lists, reminders and the Meet request.

use vstd::prelude::*;
use vstd::utf8::*;
use vstd::string::*;
use crate::text::{
    chars_of, concat, contains_char, decimal_spec, decimal_string, hex_spec, push_hex,
    str_eq, string_of, trim, trim_spec,
};
use crate::json::{
    array1, empty_array, lookup, object1, object2, push_item, push_member, string_value, Json,
    JsonValue,
};
use crate::dates::{byday_spec, naive_date_from_start, start_date_spec, ten_byte_cut_ok,
    weekday_to_byday, CivilDate};
use crate::model::{strs, EventWriteExtensions, ExtensionsView};

verus! {

/// What `str::to_lowercase` gives for `s` (full Unicode lower-casing).
pub uninterp spec fn unicode_lowercase(s: Seq<char>) -> Seq<char>;

/// Calls `str::to_lowercase`. The contract claims only that the result
/// depends on `s` alone.
#[verifier::external_body]
fn to_lowercase(s: &str) -> (r: String)
    ensures
        r@ == unicode_lowercase(s@),
{
    s.to_lowercase()
}

/// The recurrence choice after trimming, with an empty choice read as `none`.
pub open spec fn recurrence_choice(rec: Seq<char>) -> Seq<char> {
    let t = trim_spec(rec);
    if t.len() == 0 {
        "none"@
    } else {
        t
    }
}

/// The RRULE for a recurrence choice anchored on date `d`; `None` for an
/// unknown choice.
pub open spec fn rrule_spec(rec: Seq<char>, d: CivilDate) -> Option<Seq<char>> {
    if rec == "daily"@ {
        Some("RRULE:FREQ=DAILY"@)
    } else if rec == "weekly"@ {
        Some("RRULE:FREQ=WEEKLY;BYDAY="@ + byday_spec(d.weekday))
    } else if rec == "monthly"@ {
        Some("RRULE:FREQ=MONTHLY;BYMONTHDAY="@ + decimal_spec(d.day as nat))
    } else if rec == "yearly"@ {
        Some(
            "RRULE:FREQ=YEARLY;BYMONTH="@ + decimal_spec(d.month as nat) + ";BYMONTHDAY="@
                + decimal_spec(d.day as nat),
        )
    } else {
        None
    }
}

/// The `recurrence` member of a request body. With no recurrence, or an
/// unknown one, a patch clears the rules (`[]`) and an insert sends none; when
/// the start date cannot be read nothing is sent.
pub open spec fn recurrence_spec(rec: Seq<char>, start_iso: Seq<char>, all_day: bool, is_patch: bool) -> Option<Json> {
    let choice = recurrence_choice(rec);
    let cleared = if is_patch {
        Some(Json::Array(Seq::empty()))
    } else {
        None
    };
    if choice == "none"@ {
        cleared
    } else {
        match start_date_spec(start_iso, all_day) {
            None => None,
            Some(d) => match rrule_spec(choice, d) {
                Some(r) => Some(Json::Array(seq![Json::Str(r)])),
                None => cleared,
            },
        }
    }
}

/// Whether reading the start date for a recurrence is safe: no recurrence, an
/// all-day event, or a start whose first ten bytes can be cut off.
pub open spec fn recurrence_date_readable(rec: Seq<char>, start_iso: Seq<char>, all_day: bool) -> bool {
    recurrence_choice(rec) == "none"@ || all_day || ten_byte_cut_ok(trim_spec(start_iso))
}

/// The RRULE list for the recurrence chosen in `ext`, anchored on the start date.
pub fn recurrence_rules_from_ext(
    ext: &EventWriteExtensions,
    start_iso: &str,
    all_day: bool,
    is_patch: bool,
) -> (r: Option<JsonValue>)
    requires
        recurrence_date_readable(ext@.recurrence, start_iso@, all_day),
    ensures
        (match r {
            Some(v) => Some(v.view()),
            None => None,
        }) == recurrence_spec(ext@.recurrence, start_iso@, all_day, is_patch),
{
    let t = trim(ext.recurrence.as_str());
    let rec: String = if t.as_str().unicode_len() == 0 {
        "none".to_owned()
    } else {
        t
    };
    assert(rec@ == recurrence_choice(ext@.recurrence));
    if str_eq(rec.as_str(), "none") {
        return if is_patch {
            Some(empty_array())
        } else {
            None
        };
    }
    let date = match naive_date_from_start(start_iso, all_day) {
        Some(d) => d,
        None => return None,
    };
    let rule: String = if str_eq(rec.as_str(), "daily") {
        "RRULE:FREQ=DAILY".to_owned()
    } else if str_eq(rec.as_str(), "weekly") {
        concat("RRULE:FREQ=WEEKLY;BYDAY=", weekday_to_byday(date.weekday))
    } else if str_eq(rec.as_str(), "monthly") {
        let d = decimal_string(date.day as u64);
        concat("RRULE:FREQ=MONTHLY;BYMONTHDAY=", d.as_str())
    } else if str_eq(rec.as_str(), "yearly") {
        let m = decimal_string(date.month as u64);
        let d = decimal_string(date.day as u64);
        let a = concat("RRULE:FREQ=YEARLY;BYMONTH=", m.as_str());
        let b = concat(a.as_str(), ";BYMONTHDAY=");
        concat(b.as_str(), d.as_str())
    } else {
        return if is_patch {
            Some(empty_array())
        } else {
            None
        };
    };
    assert(Some(rule@) == rrule_spec(rec@, date));
    Some(array1(string_value(rule.as_str())))
}

/// A guest address as sent: trimmed, then lower-cased.
pub open spec fn attendee_address(e: Seq<char>) -> Seq<char> {
    unicode_lowercase(trim_spec(e))
}

/// Whether a lower-cased address is kept: it holds `@` and `.` and is longer
/// than five UTF-8 bytes.
pub open spec fn address_kept(l: Seq<char>) -> bool {
    l.contains('@') && l.contains('.') && encode_utf8(l).len() > 5
}

/// The guest list sent for `emails`: `{ "email": address }` for each kept
/// address, in order.
pub open spec fn sanitized_attendees(emails: Seq<Seq<char>>) -> Seq<Json>
    decreases emails.len(),
{
    if emails.len() == 0 {
        Seq::empty()
    } else {
        let prev = sanitized_attendees(emails.drop_last());
        let l = attendee_address(emails.last());
        if address_kept(l) {
            prev.push(Json::Object(seq![("email"@, Json::Str(l))]))
        } else {
            prev
        }
    }
}

/// The guest list for a request body: addresses trimmed and lower-cased, and
/// only those that hold `@` and `.` and are longer than five bytes.
pub fn sanitize_attendees(emails: &Vec<String>) -> (r: Vec<JsonValue>)
    ensures
        JsonValue::items_view(r@) == sanitized_attendees(strs(emails@)),
{
    let mut out: Vec<JsonValue> = Vec::new();
    let mut i: usize = 0;
    proof {
        assert(strs(emails@).take(0) =~= Seq::<Seq<char>>::empty());
        assert(JsonValue::items_view(out@) == Seq::<Json>::empty());
    }
    while i < emails.len()
        invariant
            i <= emails@.len(),
            JsonValue::items_view(out@) == sanitized_attendees(strs(emails@).take(i as int)),
        decreases emails@.len() - i,
    {
        let t = trim(emails[i].as_str());
        let l = to_lowercase(t.as_str());
        let lv = chars_of(l.as_str());
        let ls = l.as_str();
        let nbytes = ls.as_bytes().len();
        let keep = contains_char(&lv, '@') && contains_char(&lv, '.') && nbytes > 5;
        proof {
            assert(ls.spec_bytes() == encode_utf8(l@));
            let pre = strs(emails@).take(i as int + 1);
            assert(pre.drop_last() =~= strs(emails@).take(i as int));
            assert(pre.last() == emails@[i as int]@);
            assert(keep == address_kept(attendee_address(pre.last())));
        }
        if keep {
            push_item(&mut out, object1("email", JsonValue::Str(l)));
        }
        i = i + 1;
    }
    proof {
        assert(strs(emails@).take(emails@.len() as int) =~= strs(emails@));
    }
    out
}

/// Draws a random `u128` (`rand::random`). Nothing is promised of the value.
#[verifier::external_body]
fn random_u128() -> u128 {
    rand::random::<u128>()
}

/// The Meet request id for a random number `x`: `meet-` and `x` in lower-case hex.
pub open spec fn meet_id_spec(x: u128) -> Seq<char> {
    "meet-"@ + hex_spec(x as nat)
}

/// The Meet request id for the number `x`: `meet-` and `x` in lower-case hex.
pub fn meet_id_for(x: u128) -> (r: String)
    ensures
        r@ == meet_id_spec(x),
{
    let mut v = chars_of("meet-");
    push_hex(&mut v, x);
    string_of(v.as_slice())
}

/// A fresh Meet request id: `meet-` followed by a random number in lower-case hex.
pub fn meet_request_id() -> (r: String)
    ensures
        exists|x: u128| r@ == meet_id_spec(x),
{
    let x = random_u128();
    meet_id_for(x)
}

/// Members for an optional text field: the trimmed text when it is not
/// empty; `null` on a patch when it is empty (to clear it); nothing otherwise.
pub open spec fn text_member(key: Seq<char>, o: Option<Seq<char>>, is_patch: bool) -> Seq<(Seq<char>, Json)> {
    match o {
        None => Seq::empty(),
        Some(d) => {
            let t = trim_spec(d);
            if t.len() > 0 {
                seq![(key, Json::Str(t))]
            } else if is_patch {
                seq![(key, Json::Null)]
            } else {
                Seq::empty()
            }
        },
    }
}

/// The `reminders` member: the calendar default with no overrides, or one
/// popup reminder (30 minutes when unset, at most 40320 minutes = four weeks).
pub open spec fn reminders_spec(use_default: bool, minutes: Option<u32>) -> Json {
    if use_default {
        Json::Object(seq![("useDefault"@, Json::Bool(true)), ("overrides"@, Json::Array(Seq::empty()))])
    } else {
        let m: u32 = match minutes {
            Some(m) => m,
            None => 30,
        };
        let capped: u32 = if m < 40320 {
            m
        } else {
            40320
        };
        Json::Object(
            seq![
                ("useDefault"@, Json::Bool(false)),
                ("overrides"@, Json::Array(seq![Json::Object(seq![("method"@, Json::Str("popup"@)), ("minutes"@, Json::Number(Some(capped as i64)))])])),
            ],
        )
    }
}

/// The `conferenceData` member that asks for a Meet link.
pub open spec fn conference_spec(request_id: Seq<char>) -> Json {
    Json::Object(
        seq![("createRequest"@, Json::Object(seq![("requestId"@, Json::Str(request_id)), ("conferenceSolutionKey"@, Json::Object(seq![("type"@, Json::Str("hangoutsMeet"@))]))]))],
    )
}

/// Whether a transparency value is sent (`transparent` or `opaque`).
pub open spec fn transparency_sent(t: Seq<char>) -> bool {
    t == "transparent"@ || t == "opaque"@
}

/// Whether a visibility value is sent (`default`, `public`, `private`, `confidential`).
pub open spec fn visibility_sent(v: Seq<char>) -> bool {
    v == "default"@ || v == "public"@ || v == "private"@ || v == "confidential"@
}

/// The first members of a request body: title, start and end (trimmed; as
/// `date` for an all-day event, else `dateTime`).
pub open spec fn head_members(summary: Seq<char>, all_day: bool, start_iso: Seq<char>, end_iso: Seq<char>) -> Seq<(Seq<char>, Json)> {
    let time_key = if all_day {
        "date"@
    } else {
        "dateTime"@
    };
    seq![
        ("summary"@, Json::Str(summary)),
        ("start"@, Json::Object(seq![(time_key, Json::Str(trim_spec(start_iso)))])),
        ("end"@, Json::Object(seq![(time_key, Json::Str(trim_spec(end_iso)))])),
    ]
}

/// Description, location, colour, transparency and visibility members.
pub open spec fn optional_members(
    description: Option<Seq<char>>,
    location: Option<Seq<char>>,
    e: ExtensionsView,
    is_patch: bool,
) -> Seq<(Seq<char>, Json)> {
    text_members(description, location, e.color_id, is_patch) + choice_members(e)
}

/// Description, location and colour members.
pub open spec fn text_members(
    description: Option<Seq<char>>,
    location: Option<Seq<char>>,
    color_id: Option<Seq<char>>,
    is_patch: bool,
) -> Seq<(Seq<char>, Json)> {
    text_member("description"@, description, is_patch) + text_member("location"@, location, is_patch)
        + text_member("colorId"@, color_id, is_patch)
}

/// Transparency and visibility members, each sent only for a known value.
pub open spec fn choice_members(e: ExtensionsView) -> Seq<(Seq<char>, Json)> {
    (if transparency_sent(e.transparency) {
        seq![("transparency"@, Json::Str(e.transparency))]
    } else {
        Seq::empty()
    }) + (if visibility_sent(e.visibility) {
        seq![("visibility"@, Json::Str(e.visibility))]
    } else {
        Seq::empty()
    })
}

/// The three guest permissions, then the guest list (always on a patch,
/// otherwise only when some address is kept).
pub open spec fn guest_members(e: ExtensionsView, is_patch: bool) -> Seq<(Seq<char>, Json)> {
    let att = sanitized_attendees(e.attendees);
    seq![
        ("guestsCanModify"@, Json::Bool(e.guests_can_modify)),
        ("guestsCanInviteOthers"@, Json::Bool(e.guests_can_invite_others)),
        ("guestsCanSeeOtherGuests"@, Json::Bool(e.guests_can_see_other_guests)),
    ] + (if is_patch || att.len() > 0 {
        seq![("attendees"@, Json::Array(att))]
    } else {
        Seq::empty()
    })
}

/// Reminders, recurrence and the Meet request.
pub open spec fn tail_members(
    e: ExtensionsView,
    start_iso: Seq<char>,
    all_day: bool,
    is_patch: bool,
    meet_id: Seq<char>,
) -> Seq<(Seq<char>, Json)> {
    seq![("reminders"@, reminders_spec(e.use_default_reminders, e.reminder_minutes))] + (
    match recurrence_spec(e.recurrence, start_iso, all_day, is_patch) {
        Some(r) => seq![("recurrence"@, r)],
        None => Seq::empty(),
    }) + (if e.request_google_meet {
        seq![("conferenceData"@, conference_spec(meet_id))]
    } else {
        Seq::empty()
    })
}

/// The members of a request body, in order.
pub open spec fn event_body_members(
    summary: Seq<char>,
    all_day: bool,
    start_iso: Seq<char>,
    end_iso: Seq<char>,
    description: Option<Seq<char>>,
    location: Option<Seq<char>>,
    e: ExtensionsView,
    is_patch: bool,
    meet_id: Seq<char>,
) -> Seq<(Seq<char>, Json)> {
    head_members(summary, all_day, start_iso, end_iso) + optional_members(
        description,
        location,
        e,
        is_patch,
    ) + guest_members(e, is_patch) + tail_members(e, start_iso, all_day, is_patch, meet_id)
}

fn append_text_member(
    fields: &mut Vec<(String, JsonValue)>,
    key: &str,
    o: &Option<String>,
    is_patch: bool,
)
    ensures
        JsonValue::fields_view(final(fields)@) == JsonValue::fields_view(old(fields)@)
            + text_member(key@, crate::model::opt_str(*o), is_patch),
{
    let ghost before = JsonValue::fields_view(fields@);
    match o {
        None => {
            assert(before + Seq::<(Seq<char>, Json)>::empty() =~= before);
        },
        Some(d) => {
            let t = trim(d.as_str());
            if t.as_str().unicode_len() > 0 {
                push_member(fields, key, JsonValue::Str(t));
                assert(before.push((key@, Json::Str(trim_spec(d@)))) =~= before + seq![(key@, Json::Str(trim_spec(d@)))]);
            } else if is_patch {
                push_member(fields, key, JsonValue::Null);
                assert(before.push((key@, Json::Null)) =~= before + seq![(key@, Json::Null)]);
            } else {
                assert(before + Seq::<(Seq<char>, Json)>::empty() =~= before);
            }
        },
    }
}

fn reminders_value(use_default: bool, minutes: Option<u32>) -> (v: JsonValue)
    ensures
        v.view() == reminders_spec(use_default, minutes),
{
    if use_default {
        object2("useDefault", JsonValue::Bool(true), "overrides", empty_array())
    } else {
        let m: u32 = match minutes {
            Some(m) => m,
            None => 30,
        };
        let capped: u32 = if m < 40320 {
            m
        } else {
            40320
        };
        let popup = object2(
            "method",
            string_value("popup"),
            "minutes",
            JsonValue::Number(Some(capped as i64)),
        );
        object2("useDefault", JsonValue::Bool(false), "overrides", array1(popup))
    }
}

fn conference_value(meet_id: &str) -> (v: JsonValue)
    ensures
        v.view() == conference_spec(meet_id@),
{
    let key = object1("type", string_value("hangoutsMeet"));
    let req = object2("requestId", string_value(meet_id), "conferenceSolutionKey", key);
    object1("createRequest", req)
}

fn append_text_members(
    f: &mut Vec<(String, JsonValue)>,
    description: &Option<String>,
    location: &Option<String>,
    color_id: &Option<String>,
    is_patch: bool,
)
    ensures
        JsonValue::fields_view(final(f)@) == JsonValue::fields_view(old(f)@) + text_members(
            crate::model::opt_str(*description),
            crate::model::opt_str(*location),
            crate::model::opt_str(*color_id),
            is_patch,
        ),
{
    let ghost g0 = JsonValue::fields_view(f@);
    append_text_member(f, "description", description, is_patch);
    let ghost g1 = JsonValue::fields_view(f@);
    append_text_member(f, "location", location, is_patch);
    let ghost g2 = JsonValue::fields_view(f@);
    append_text_member(f, "colorId", color_id, is_patch);
    proof {
        let t1 = text_member("description"@, crate::model::opt_str(*description), is_patch);
        let t2 = text_member("location"@, crate::model::opt_str(*location), is_patch);
        let t3 = text_member("colorId"@, crate::model::opt_str(*color_id), is_patch);
        assert(JsonValue::fields_view(f@) =~= g0 + (t1 + t2 + t3));
    }
}

fn append_choice_members(f: &mut Vec<(String, JsonValue)>, ext: &EventWriteExtensions)
    ensures
        JsonValue::fields_view(final(f)@) == JsonValue::fields_view(old(f)@) + choice_members(ext@),
{
    let ghost g2 = JsonValue::fields_view(f@);
    let tr = ext.transparency.as_str();
    let send_tr = str_eq(tr, "transparent") || str_eq(tr, "opaque");
    assert(send_tr == transparency_sent(ext@.transparency));
    if send_tr {
        push_member(f, "transparency", string_value(tr));
    }
    let ghost g3 = JsonValue::fields_view(f@);
    let vis = ext.visibility.as_str();
    let send_vis = str_eq(vis, "default") || str_eq(vis, "public") || str_eq(vis, "private")
        || str_eq(vis, "confidential");
    assert(send_vis == visibility_sent(ext@.visibility));
    if send_vis {
        push_member(f, "visibility", string_value(vis));
    }
    proof {
        let e = ext@;
        let p4 = if transparency_sent(e.transparency) {
            seq![("transparency"@, Json::Str(e.transparency))]
        } else {
            Seq::empty()
        };
        let p5 = if visibility_sent(e.visibility) {
            seq![("visibility"@, Json::Str(e.visibility))]
        } else {
            Seq::empty()
        };
        assert(g3 =~= g2 + p4);
        assert(JsonValue::fields_view(f@) =~= g2 + (p4 + p5));
    }
}

fn append_optional_members(
    f: &mut Vec<(String, JsonValue)>,
    description: &Option<String>,
    location: &Option<String>,
    ext: &EventWriteExtensions,
    is_patch: bool,
)
    ensures
        JsonValue::fields_view(final(f)@) == JsonValue::fields_view(old(f)@) + optional_members(
            crate::model::opt_str(*description),
            crate::model::opt_str(*location),
            ext@,
            is_patch,
        ),
{
    let ghost g0 = JsonValue::fields_view(f@);
    append_text_members(f, description, location, &ext.color_id, is_patch);
    append_choice_members(f, ext);
    proof {
        let a = text_members(
            crate::model::opt_str(*description),
            crate::model::opt_str(*location),
            ext@.color_id,
            is_patch,
        );
        assert(JsonValue::fields_view(f@) =~= g0 + (a + choice_members(ext@)));
    }
}

fn append_guest_members(f: &mut Vec<(String, JsonValue)>, ext: &EventWriteExtensions, is_patch: bool)
    ensures
        JsonValue::fields_view(final(f)@) == JsonValue::fields_view(old(f)@) + guest_members(
            ext@,
            is_patch,
        ),
{
    let ghost g0 = JsonValue::fields_view(f@);
    push_member(f, "guestsCanModify", JsonValue::Bool(ext.guests_can_modify));
    push_member(f, "guestsCanInviteOthers", JsonValue::Bool(ext.guests_can_invite_others));
    push_member(f, "guestsCanSeeOtherGuests", JsonValue::Bool(ext.guests_can_see_other_guests));
    let ghost g1 = JsonValue::fields_view(f@);
    let attendees = sanitize_attendees(&ext.attendees);
    let ghost att = JsonValue::items_view(attendees@);
    proof {
        crate::json::lemma_items_view_len(attendees@);
    }
    if is_patch || attendees.len() > 0 {
        push_member(f, "attendees", JsonValue::Array(attendees));
    }
    proof {
        let e = ext@;
        let bools = seq![
            ("guestsCanModify"@, Json::Bool(e.guests_can_modify)),
            ("guestsCanInviteOthers"@, Json::Bool(e.guests_can_invite_others)),
            ("guestsCanSeeOtherGuests"@, Json::Bool(e.guests_can_see_other_guests)),
        ];
        let list = if is_patch || att.len() > 0 {
            seq![("attendees"@, Json::Array(att))]
        } else {
            Seq::empty()
        };
        assert(g1 =~= g0 + bools);
        assert(JsonValue::fields_view(f@) =~= g1 + list);
        assert(JsonValue::fields_view(f@) =~= g0 + (bools + list));
    }
}

fn append_tail_members(
    f: &mut Vec<(String, JsonValue)>,
    ext: &EventWriteExtensions,
    start_iso: &str,
    all_day: bool,
    is_patch: bool,
    meet_id: &str,
)
    requires
        recurrence_date_readable(ext@.recurrence, start_iso@, all_day),
    ensures
        JsonValue::fields_view(final(f)@) == JsonValue::fields_view(old(f)@) + tail_members(
            ext@,
            start_iso@,
            all_day,
            is_patch,
            meet_id@,
        ),
{
    let ghost g0 = JsonValue::fields_view(f@);
    push_member(f, "reminders", reminders_value(ext.use_default_reminders, ext.reminder_minutes));
    let ghost g1 = JsonValue::fields_view(f@);
    match recurrence_rules_from_ext(ext, start_iso, all_day, is_patch) {
        Some(r) => push_member(f, "recurrence", r),
        None => {},
    }
    let ghost g2 = JsonValue::fields_view(f@);
    if ext.request_google_meet {
        push_member(f, "conferenceData", conference_value(meet_id));
    }
    proof {
        let e = ext@;
        let r1 = seq![("reminders"@, reminders_spec(e.use_default_reminders, e.reminder_minutes))];
        let r2 = match recurrence_spec(e.recurrence, start_iso@, all_day, is_patch) {
            Some(r) => seq![("recurrence"@, r)],
            None => Seq::empty(),
        };
        let r3 = if e.request_google_meet {
            seq![("conferenceData"@, conference_spec(meet_id@))]
        } else {
            Seq::empty()
        };
        assert(g1 =~= g0 + r1);
        assert(g2 =~= g1 + r2);
        assert(JsonValue::fields_view(f@) =~= g2 + r3);
        assert(JsonValue::fields_view(f@) =~= g0 + (r1 + r2 + r3));
    }
}

/// The JSON body for `events.insert` (`is_patch == false`) or `events.patch`
/// (`is_patch == true`). `meet_id` is the request id used when a Meet link is
/// asked for.
pub fn build_event_value(
    summary: &str,
    all_day: bool,
    start_iso: &str,
    end_iso: &str,
    description: &Option<String>,
    location: &Option<String>,
    ext: &EventWriteExtensions,
    is_patch: bool,
    meet_id: &str,
) -> (v: JsonValue)
    requires
        recurrence_date_readable(ext@.recurrence, start_iso@, all_day),
    ensures
        v.view() == Json::Object(
            event_body_members(
                summary@,
                all_day,
                start_iso@,
                end_iso@,
                crate::model::opt_str(*description),
                crate::model::opt_str(*location),
                ext@,
                is_patch,
                meet_id@,
            ),
        ),
{
    let time_key = if all_day {
        "date"
    } else {
        "dateTime"
    };
    let mut f: Vec<(String, JsonValue)> = Vec::new();
    assert(JsonValue::fields_view(f@) == Seq::<(Seq<char>, Json)>::empty());
    push_member(&mut f, "summary", string_value(summary));
    let st = trim(start_iso);
    push_member(&mut f, "start", object1(time_key, JsonValue::Str(st)));
    let en = trim(end_iso);
    push_member(&mut f, "end", object1(time_key, JsonValue::Str(en)));
    let ghost g1 = JsonValue::fields_view(f@);
    assert(g1 =~= head_members(summary@, all_day, start_iso@, end_iso@));
    append_optional_members(&mut f, description, location, ext, is_patch);
    append_guest_members(&mut f, ext, is_patch);
    append_tail_members(&mut f, ext, start_iso, all_day, is_patch, meet_id);
    JsonValue::Object(f)
}

/// No member of `fields` is named `key`.
pub open spec fn key_absent(fields: Seq<(Seq<char>, Json)>, key: Seq<char>) -> bool {
    forall|i: int| 0 <= i < fields.len() ==> #[trigger] fields[i].0 != key
}

proof fn lemma_lookup_absent(fields: Seq<(Seq<char>, Json)>, key: Seq<char>)
    requires
        key_absent(fields, key),
    ensures
        lookup(fields, key) is None,
    decreases fields.len(),
{
    if fields.len() > 0 {
        assert(fields[0].0 != key);
        assert forall|i: int| 0 <= i < fields.drop_first().len() implies #[trigger] fields.drop_first()[i].0
            != key by {
            assert(fields.drop_first()[i] == fields[i + 1]);
        }
        lemma_lookup_absent(fields.drop_first(), key);
    }
}

proof fn lemma_lookup_after(a: Seq<(Seq<char>, Json)>, b: Seq<(Seq<char>, Json)>, key: Seq<char>)
    requires
        key_absent(a, key),
    ensures
        lookup(a + b, key) == lookup(b, key),
    decreases a.len(),
{
    if a.len() > 0 {
        assert(a[0].0 != key);
        assert((a + b)[0] == a[0]);
        assert((a + b).drop_first() =~= a.drop_first() + b);
        assert forall|i: int| 0 <= i < a.drop_first().len() implies #[trigger] a.drop_first()[i].0 != key by {
            assert(a.drop_first()[i] == a[i + 1]);
        }
        lemma_lookup_after(a.drop_first(), b, key);
    } else {
        assert(a + b =~= b);
    }
}

proof fn lemma_key_absent_concat(a: Seq<(Seq<char>, Json)>, b: Seq<(Seq<char>, Json)>, key: Seq<char>)
    requires
        key_absent(a, key),
        key_absent(b, key),
    ensures
        key_absent(a + b, key),
{
    assert forall|i: int| 0 <= i < (a + b).len() implies #[trigger] (a + b)[i].0 != key by {
        if i < a.len() {
            assert((a + b)[i] == a[i]);
        } else {
            assert((a + b)[i] == b[i - a.len()]);
        }
    }
}

proof fn lemma_text_member_absent(key: Seq<char>, o: Option<Seq<char>>, is_patch: bool, k: Seq<char>)
    requires
        key != k,
    ensures
        key_absent(text_member(key, o, is_patch), k),
{
}

/// Every member before the Meet request has another name.
proof fn lemma_conference_key_last(
    summary: Seq<char>,
    all_day: bool,
    start_iso: Seq<char>,
    end_iso: Seq<char>,
    description: Option<Seq<char>>,
    location: Option<Seq<char>>,
    e: ExtensionsView,
    is_patch: bool,
)
    ensures
        key_absent(
            head_members(summary, all_day, start_iso, end_iso) + optional_members(
                description,
                location,
                e,
                is_patch,
            ) + guest_members(e, is_patch) + (seq![
                ("reminders"@, reminders_spec(e.use_default_reminders, e.reminder_minutes)),
            ] + match recurrence_spec(e.recurrence, start_iso, all_day, is_patch) {
                Some(r) => seq![("recurrence"@, r)],
                None => Seq::empty(),
            }),
            "conferenceData"@,
        ),
{
    let k = "conferenceData"@;
    reveal_strlit("conferenceData");
    reveal_strlit("summary");
    reveal_strlit("start");
    reveal_strlit("end");
    reveal_strlit("description");
    reveal_strlit("location");
    reveal_strlit("colorId");
    reveal_strlit("transparency");
    reveal_strlit("visibility");
    reveal_strlit("guestsCanModify");
    reveal_strlit("guestsCanInviteOthers");
    reveal_strlit("guestsCanSeeOtherGuests");
    reveal_strlit("attendees");
    reveal_strlit("reminders");
    reveal_strlit("recurrence");
    assert(k.len() == 14);
    assert("summary"@.len() == 7);
    assert("start"@.len() == 5);
    assert("end"@.len() == 3);
    assert("description"@.len() == 11);
    assert("location"@.len() == 8);
    assert("colorId"@.len() == 7);
    assert("transparency"@.len() == 12);
    assert("visibility"@.len() == 10);
    assert("guestsCanModify"@.len() == 15);
    assert("guestsCanInviteOthers"@.len() == 21);
    assert("guestsCanSeeOtherGuests"@.len() == 23);
    assert("attendees"@.len() == 9);
    assert("reminders"@.len() == 9);
    assert("recurrence"@.len() == 10);
    let h = head_members(summary, all_day, start_iso, end_iso);
    assert(key_absent(h, k));
    lemma_text_member_absent("description"@, description, is_patch, k);
    lemma_text_member_absent("location"@, location, is_patch, k);
    lemma_text_member_absent("colorId"@, e.color_id, is_patch, k);
    lemma_key_absent_concat(
        text_member("description"@, description, is_patch),
        text_member("location"@, location, is_patch),
        k,
    );
    lemma_key_absent_concat(
        text_member("description"@, description, is_patch) + text_member("location"@, location, is_patch),
        text_member("colorId"@, e.color_id, is_patch),
        k,
    );
    let c1 = if transparency_sent(e.transparency) {
        seq![("transparency"@, Json::Str(e.transparency))]
    } else {
        Seq::empty()
    };
    let c2 = if visibility_sent(e.visibility) {
        seq![("visibility"@, Json::Str(e.visibility))]
    } else {
        Seq::empty()
    };
    assert(key_absent(c1, k));
    assert(key_absent(c2, k));
    lemma_key_absent_concat(c1, c2, k);
    lemma_key_absent_concat(text_members(description, location, e.color_id, is_patch), choice_members(e), k);
    let att = sanitized_attendees(e.attendees);
    let g1 = seq![
        ("guestsCanModify"@, Json::Bool(e.guests_can_modify)),
        ("guestsCanInviteOthers"@, Json::Bool(e.guests_can_invite_others)),
        ("guestsCanSeeOtherGuests"@, Json::Bool(e.guests_can_see_other_guests)),
    ];
    let g2 = if is_patch || att.len() > 0 {
        seq![("attendees"@, Json::Array(att))]
    } else {
        Seq::empty()
    };
    assert(key_absent(g1, k));
    assert(key_absent(g2, k));
    lemma_key_absent_concat(g1, g2, k);
    let t1 = seq![("reminders"@, reminders_spec(e.use_default_reminders, e.reminder_minutes))];
    let t2 = match recurrence_spec(e.recurrence, start_iso, all_day, is_patch) {
        Some(r) => seq![("recurrence"@, r)],
        None => Seq::<(Seq<char>, Json)>::empty(),
    };
    assert(key_absent(t1, k));
    assert(key_absent(t2, k));
    lemma_key_absent_concat(t1, t2, k);
    lemma_key_absent_concat(h, optional_members(description, location, e, is_patch), k);
    lemma_key_absent_concat(h + optional_members(description, location, e, is_patch), guest_members(e, is_patch), k);
    lemma_key_absent_concat(
        h + optional_members(description, location, e, is_patch) + guest_members(e, is_patch),
        t1 + t2,
        k,
    );
}

/// A request body has a `conferenceData` member exactly when a Meet link is
/// asked for; it then asks for a `hangoutsMeet` conference with the given
/// request id.
pub proof fn meet_requested_exactly_when_asked(
    summary: Seq<char>,
    all_day: bool,
    start_iso: Seq<char>,
    end_iso: Seq<char>,
    description: Option<Seq<char>>,
    location: Option<Seq<char>>,
    e: ExtensionsView,
    is_patch: bool,
    meet_id: Seq<char>,
)
    ensures
        Json::Object(
            event_body_members(summary, all_day, start_iso, end_iso, description, location, e, is_patch, meet_id),
        ).get("conferenceData"@) == if e.request_google_meet {
            Some(conference_spec(meet_id))
        } else {
            None::<Json>
        },
        conference_spec(meet_id).get("createRequest"@) matches Some(cr) && cr.get("requestId"@) == Some(
            Json::Str(meet_id),
        ) && (cr.get("conferenceSolutionKey"@) matches Some(key) && key.get("type"@) == Some(
            Json::Str("hangoutsMeet"@),
        )),
{
    let k = "conferenceData"@;
    lemma_conference_key_last(summary, all_day, start_iso, end_iso, description, location, e, is_patch);
    let before = head_members(summary, all_day, start_iso, end_iso) + optional_members(
        description,
        location,
        e,
        is_patch,
    ) + guest_members(e, is_patch) + (seq![
        ("reminders"@, reminders_spec(e.use_default_reminders, e.reminder_minutes)),
    ] + match recurrence_spec(e.recurrence, start_iso, all_day, is_patch) {
        Some(r) => seq![("recurrence"@, r)],
        None => Seq::empty(),
    });
    let last: Seq<(Seq<char>, Json)> = if e.request_google_meet {
        seq![("conferenceData"@, conference_spec(meet_id))]
    } else {
        Seq::empty()
    };
    assert(event_body_members(summary, all_day, start_iso, end_iso, description, location, e, is_patch, meet_id)
        =~= before + last);
    lemma_lookup_after(before, last, k);
    if e.request_google_meet {
        assert(last[0].0 == k);
    }
    reveal_strlit("requestId");
    reveal_strlit("conferenceSolutionKey");
    let cr = seq![
        ("requestId"@, Json::Str(meet_id)),
        ("conferenceSolutionKey"@, Json::Object(seq![("type"@, Json::Str("hangoutsMeet"@))])),
    ];
    assert("requestId"@.len() == 9);
    assert("conferenceSolutionKey"@.len() == 21);
    assert(cr[0].0 != "conferenceSolutionKey"@);
    let key = Json::Object(seq![("type"@, Json::Str("hangoutsMeet"@))]);
    assert(cr.drop_first() =~= seq![("conferenceSolutionKey"@, key)]);
    assert(lookup(cr.drop_first(), "conferenceSolutionKey"@) == Some(key));
    assert(lookup(cr, "conferenceSolutionKey"@) == Some(key));
    assert(lookup(cr, "requestId"@) == Some(Json::Str(meet_id)));
    assert(lookup(seq![("type"@, Json::Str("hangoutsMeet"@))], "type"@) == Some(Json::Str("hangoutsMeet"@)));
    assert(conference_spec(meet_id) == Json::Object(seq![("createRequest"@, Json::Object(cr))]));
    assert(lookup(seq![("createRequest"@, Json::Object(cr))], "createRequest"@) == Some(Json::Object(cr)));
}

proof fn lemma_head_absent(summary: Seq<char>, all_day: bool, start_iso: Seq<char>, end_iso: Seq<char>, k: Seq<char>)
    requires
        k != "summary"@,
        k != "start"@,
        k != "end"@,
    ensures
        key_absent(head_members(summary, all_day, start_iso, end_iso), k),
{
}

proof fn lemma_text_members_absent(
    description: Option<Seq<char>>,
    location: Option<Seq<char>>,
    color_id: Option<Seq<char>>,
    is_patch: bool,
    k: Seq<char>,
)
    requires
        k != "description"@,
        k != "location"@,
        k != "colorId"@,
    ensures
        key_absent(text_members(description, location, color_id, is_patch), k),
{
    lemma_text_member_absent("description"@, description, is_patch, k);
    lemma_text_member_absent("location"@, location, is_patch, k);
    lemma_text_member_absent("colorId"@, color_id, is_patch, k);
    lemma_key_absent_concat(
        text_member("description"@, description, is_patch),
        text_member("location"@, location, is_patch),
        k,
    );
    lemma_key_absent_concat(
        text_member("description"@, description, is_patch) + text_member("location"@, location, is_patch),
        text_member("colorId"@, color_id, is_patch),
        k,
    );
}

proof fn lemma_guest_absent(e: ExtensionsView, is_patch: bool, k: Seq<char>)
    requires
        k != "guestsCanModify"@,
        k != "guestsCanInviteOthers"@,
        k != "guestsCanSeeOtherGuests"@,
        k != "attendees"@,
    ensures
        key_absent(guest_members(e, is_patch), k),
{
    let att = sanitized_attendees(e.attendees);
    let g1 = seq![
        ("guestsCanModify"@, Json::Bool(e.guests_can_modify)),
        ("guestsCanInviteOthers"@, Json::Bool(e.guests_can_invite_others)),
        ("guestsCanSeeOtherGuests"@, Json::Bool(e.guests_can_see_other_guests)),
    ];
    let g2 = if is_patch || att.len() > 0 {
        seq![("attendees"@, Json::Array(att))]
    } else {
        Seq::empty()
    };
    assert(key_absent(g1, k));
    assert(key_absent(g2, k));
    lemma_key_absent_concat(g1, g2, k);
}

proof fn lemma_tail_absent(
    e: ExtensionsView,
    start_iso: Seq<char>,
    all_day: bool,
    is_patch: bool,
    meet_id: Seq<char>,
    k: Seq<char>,
)
    requires
        k != "reminders"@,
        k != "recurrence"@,
        k != "conferenceData"@,
    ensures
        key_absent(tail_members(e, start_iso, all_day, is_patch, meet_id), k),
{
    let t1 = seq![("reminders"@, reminders_spec(e.use_default_reminders, e.reminder_minutes))];
    let t2 = match recurrence_spec(e.recurrence, start_iso, all_day, is_patch) {
        Some(r) => seq![("recurrence"@, r)],
        None => Seq::<(Seq<char>, Json)>::empty(),
    };
    let t3 = if e.request_google_meet {
        seq![("conferenceData"@, conference_spec(meet_id))]
    } else {
        Seq::<(Seq<char>, Json)>::empty()
    };
    assert(key_absent(t1, k));
    assert(key_absent(t2, k));
    assert(key_absent(t3, k));
    lemma_key_absent_concat(t1, t2, k);
    lemma_key_absent_concat(t1 + t2, t3, k);
}

/// The names of the members of a request body, as far as the laws below need
/// them: `attendees` and `visibility` differ from every other member name.
proof fn lemma_member_names()
    ensures
        "attendees"@ != "summary"@,
        "attendees"@ != "start"@,
        "attendees"@ != "end"@,
        "attendees"@ != "description"@,
        "attendees"@ != "location"@,
        "attendees"@ != "colorId"@,
        "attendees"@ != "transparency"@,
        "attendees"@ != "visibility"@,
        "attendees"@ != "guestsCanModify"@,
        "attendees"@ != "guestsCanInviteOthers"@,
        "attendees"@ != "guestsCanSeeOtherGuests"@,
        "attendees"@ != "reminders"@,
        "attendees"@ != "recurrence"@,
        "attendees"@ != "conferenceData"@,
        "visibility"@ != "summary"@,
        "visibility"@ != "start"@,
        "visibility"@ != "end"@,
        "visibility"@ != "description"@,
        "visibility"@ != "location"@,
        "visibility"@ != "colorId"@,
        "visibility"@ != "transparency"@,
        "visibility"@ != "guestsCanModify"@,
        "visibility"@ != "guestsCanInviteOthers"@,
        "visibility"@ != "guestsCanSeeOtherGuests"@,
        "visibility"@ != "attendees"@,
        "visibility"@ != "reminders"@,
        "visibility"@ != "recurrence"@,
        "visibility"@ != "conferenceData"@,
{
    reveal_strlit("conferenceData");
    reveal_strlit("summary");
    reveal_strlit("start");
    reveal_strlit("end");
    reveal_strlit("description");
    reveal_strlit("location");
    reveal_strlit("colorId");
    reveal_strlit("transparency");
    reveal_strlit("visibility");
    reveal_strlit("guestsCanModify");
    reveal_strlit("guestsCanInviteOthers");
    reveal_strlit("guestsCanSeeOtherGuests");
    reveal_strlit("attendees");
    reveal_strlit("reminders");
    reveal_strlit("recurrence");
    assert("conferenceData"@.len() == 14);
    assert("summary"@.len() == 7);
    assert("start"@.len() == 5);
    assert("end"@.len() == 3);
    assert("description"@.len() == 11);
    assert("location"@.len() == 8);
    assert("colorId"@.len() == 7);
    assert("transparency"@.len() == 12);
    assert("visibility"@.len() == 10);
    assert("guestsCanModify"@.len() == 15);
    assert("guestsCanInviteOthers"@.len() == 21);
    assert("guestsCanSeeOtherGuests"@.len() == 23);
    assert("attendees"@.len() == 9);
    assert("reminders"@.len() == 9);
    assert("recurrence"@.len() == 10);
    assert("attendees"@[0] != "reminders"@[0]);
    assert("visibility"@[0] != "recurrence"@[0]);
}

/// The guest list of a request body has at least one address exactly when
/// one of the given addresses, trimmed and lower-cased, holds `@` and `.` and
/// is longer than five bytes.
pub proof fn guest_list_nonempty_iff_some_kept(emails: Seq<Seq<char>>)
    ensures
        sanitized_attendees(emails).len() > 0 <==> exists|i: int|
            0 <= i < emails.len() && #[trigger] address_kept(attendee_address(emails[i])),
    decreases emails.len(),
{
    if emails.len() > 0 {
        let prev = emails.drop_last();
        guest_list_nonempty_iff_some_kept(prev);
        let n = emails.len() - 1;
        if exists|i: int| 0 <= i < emails.len() && #[trigger] address_kept(attendee_address(emails[i])) {
            let i = choose|i: int| 0 <= i < emails.len() && #[trigger] address_kept(attendee_address(emails[i]));
            if i < n {
                assert(prev[i] == emails[i]);
            }
        }
        if exists|i: int| 0 <= i < prev.len() && #[trigger] address_kept(attendee_address(prev[i])) {
            let i = choose|i: int| 0 <= i < prev.len() && #[trigger] address_kept(attendee_address(prev[i]));
            assert(prev[i] == emails[i]);
        }
    }
}

proof fn lemma_regroup_guests(
    a: Seq<(Seq<char>, Json)>,
    b: Seq<(Seq<char>, Json)>,
    c: Seq<(Seq<char>, Json)>,
    d: Seq<(Seq<char>, Json)>,
    f: Seq<(Seq<char>, Json)>,
)
    ensures
        a + b + (c + d) + f == (a + b) + (c + (d + f)),
{
    assert(a + b + (c + d) + f =~= (a + b) + (c + (d + f)));
}

/// Every guest kept is invited: a request body carries the member
/// `attendees` holding the guest list whenever the list is not empty (on an
/// insert too), and always on a patch (there an empty list removes the
/// guests); an insert with no guest kept has no `attendees` member.
pub proof fn guests_are_sent(
    summary: Seq<char>,
    all_day: bool,
    start_iso: Seq<char>,
    end_iso: Seq<char>,
    description: Option<Seq<char>>,
    location: Option<Seq<char>>,
    e: ExtensionsView,
    is_patch: bool,
    meet_id: Seq<char>,
)
    ensures
        ({
            let body = Json::Object(
                event_body_members(summary, all_day, start_iso, end_iso, description, location, e, is_patch, meet_id),
            );
            let att = sanitized_attendees(e.attendees);
            &&& (is_patch || att.len() > 0) ==> body.get("attendees"@) == Some(Json::Array(att))
            &&& (!is_patch && att.len() == 0) ==> body.get("attendees"@) is None
        }),
{
    let k = "attendees"@;
    lemma_member_names();
    let head = head_members(summary, all_day, start_iso, end_iso);
    let opt = optional_members(description, location, e, is_patch);
    let tail = tail_members(e, start_iso, all_day, is_patch, meet_id);
    lemma_head_absent(summary, all_day, start_iso, end_iso, k);
    lemma_text_members_absent(description, location, e.color_id, is_patch, k);
    let c1 = if transparency_sent(e.transparency) {
        seq![("transparency"@, Json::Str(e.transparency))]
    } else {
        Seq::empty()
    };
    let c2 = if visibility_sent(e.visibility) {
        seq![("visibility"@, Json::Str(e.visibility))]
    } else {
        Seq::empty()
    };
    assert(key_absent(c1, k));
    assert(key_absent(c2, k));
    lemma_key_absent_concat(c1, c2, k);
    lemma_key_absent_concat(text_members(description, location, e.color_id, is_patch), choice_members(e), k);
    lemma_key_absent_concat(head, opt, k);
    lemma_tail_absent(e, start_iso, all_day, is_patch, meet_id, k);
    let att = sanitized_attendees(e.attendees);
    let g1 = seq![
        ("guestsCanModify"@, Json::Bool(e.guests_can_modify)),
        ("guestsCanInviteOthers"@, Json::Bool(e.guests_can_invite_others)),
        ("guestsCanSeeOtherGuests"@, Json::Bool(e.guests_can_see_other_guests)),
    ];
    let g2 = if is_patch || att.len() > 0 {
        seq![("attendees"@, Json::Array(att))]
    } else {
        Seq::empty()
    };
    assert(key_absent(g1, k));
    assert(guest_members(e, is_patch) == g1 + g2);
    lemma_regroup_guests(head, opt, g1, g2, tail);
    lemma_lookup_after(head + opt, g1 + (g2 + tail), k);
    lemma_lookup_after(g1, g2 + tail, k);
    if is_patch || att.len() > 0 {
        assert((g2 + tail)[0] == g2[0]);
    } else {
        assert(g2 + tail =~= tail);
        lemma_lookup_absent(tail, k);
    }
}

proof fn lemma_regroup(
    a: Seq<(Seq<char>, Json)>,
    b: Seq<(Seq<char>, Json)>,
    c: Seq<(Seq<char>, Json)>,
    d: Seq<(Seq<char>, Json)>,
    e: Seq<(Seq<char>, Json)>,
    f: Seq<(Seq<char>, Json)>,
)
    ensures
        a + (b + (c + d)) + e + f == (a + b + c) + (d + (e + f)),
{
    assert(a + (b + (c + d)) + e + f =~= (a + b + c) + (d + (e + f)));
}

/// A request body carries the chosen visibility whenever it is one of
/// `default`, `public`, `private` and `confidential`, and no `visibility`
/// member for any other value.
pub proof fn visibility_is_sent(
    summary: Seq<char>,
    all_day: bool,
    start_iso: Seq<char>,
    end_iso: Seq<char>,
    description: Option<Seq<char>>,
    location: Option<Seq<char>>,
    e: ExtensionsView,
    is_patch: bool,
    meet_id: Seq<char>,
)
    ensures
        ({
            let body = Json::Object(
                event_body_members(summary, all_day, start_iso, end_iso, description, location, e, is_patch, meet_id),
            );
            let v = e.visibility;
            let known = v == "default"@ || v == "public"@ || v == "private"@ || v == "confidential"@;
            &&& known ==> body.get("visibility"@) == Some(Json::Str(v))
            &&& !known ==> body.get("visibility"@) is None
        }),
{
    let k = "visibility"@;
    lemma_member_names();
    let head = head_members(summary, all_day, start_iso, end_iso);
    let guest = guest_members(e, is_patch);
    let tail = tail_members(e, start_iso, all_day, is_patch, meet_id);
    lemma_head_absent(summary, all_day, start_iso, end_iso, k);
    lemma_text_members_absent(description, location, e.color_id, is_patch, k);
    lemma_guest_absent(e, is_patch, k);
    lemma_tail_absent(e, start_iso, all_day, is_patch, meet_id, k);
    lemma_key_absent_concat(guest, tail, k);
    let tm = text_members(description, location, e.color_id, is_patch);
    let c1 = if transparency_sent(e.transparency) {
        seq![("transparency"@, Json::Str(e.transparency))]
    } else {
        Seq::empty()
    };
    let c2 = if visibility_sent(e.visibility) {
        seq![("visibility"@, Json::Str(e.visibility))]
    } else {
        Seq::empty()
    };
    assert(key_absent(c1, k));
    lemma_key_absent_concat(head, tm, k);
    lemma_key_absent_concat(head + tm, c1, k);
    assert(choice_members(e) == c1 + c2);
    assert(optional_members(description, location, e, is_patch) == tm + (c1 + c2));
    lemma_regroup(head, tm, c1, c2, guest, tail);
    lemma_lookup_after(head + tm + c1, c2 + (guest + tail), k);
    if visibility_sent(e.visibility) {
        assert((c2 + (guest + tail))[0] == c2[0]);
    } else {
        assert(c2 + (guest + tail) =~= guest + tail);
        lemma_lookup_absent(guest + tail, k);
    }
}

} // verus!
