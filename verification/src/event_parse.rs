//! Reading events and their form metadata out of Calendar API items.

use vstd::prelude::*;
use crate::text::{trim, trim_spec};
use crate::json::{
    get_array, get_bool, get_i64, get_str, lemma_items_view_len, opt_json, Json, JsonValue,
};
use crate::model::{
    attendee_views, opt_str, strs, AttendeeView, CalendarAttendee, CalendarEvent,
    CalendarEventForm, EventView, FormView,
};

verus! {

/// The `dateTime` of a start or end object, else its `date`.
pub open spec fn time_of(o: Option<Json>) -> Option<Seq<char>> {
    match o {
        None => None,
        Some(x) => match get_str(x, "dateTime"@) {
            Some(s) => Some(s),
            None => get_str(x, "date"@),
        },
    }
}

fn str_member(v: &JsonValue, key: &str) -> (r: Option<String>)
    ensures
        opt_str(r) == get_str(v.view(), key@),
{
    match v.get(key) {
        Some(x) => match x.as_str() {
            Some(s) => Some(s.clone()),
            None => None,
        },
        None => None,
    }
}

fn bool_member(v: &JsonValue, key: &str) -> (r: Option<bool>)
    ensures
        r == get_bool(v.view(), key@),
{
    match v.get(key) {
        Some(x) => x.as_bool(),
        None => None,
    }
}

fn time_member(item: &JsonValue, key: &str) -> (r: Option<String>)
    ensures
        opt_str(r) == time_of(item.view().get(key@)),
{
    match item.get(key) {
        Some(o) => match str_member(o, "dateTime") {
            Some(s) => Some(s),
            None => str_member(o, "date"),
        },
        None => None,
    }
}

/// The start and end of an API item: `dateTime` for timed events, `date`
/// for all-day events.
pub fn parse_event_times(item: &JsonValue) -> (r: (Option<String>, Option<String>))
    ensures
        opt_str(r.0) == time_of(item.view().get("start"@)),
        opt_str(r.1) == time_of(item.view().get("end"@)),
{
    (time_member(item, "start"), time_member(item, "end"))
}

/// A text that is kept only when it is not empty.
pub open spec fn non_empty(o: Option<Seq<char>>) -> Option<Seq<char>> {
    match o {
        Some(s) => if s.len() > 0 {
            Some(s)
        } else {
            None
        },
        None => None,
    }
}

/// The string items of an array, in order.
pub open spec fn strings_of(items: Seq<Json>) -> Seq<Seq<char>>
    decreases items.len(),
{
    if items.len() == 0 {
        Seq::empty()
    } else {
        let p = strings_of(items.drop_last());
        match items.last().as_str() {
            Some(s) => p.push(s),
            None => p,
        }
    }
}

/// The minutes of the first popup override that has integer minutes, as `i32`.
pub open spec fn popup_minutes(overrides: Seq<Json>) -> Option<i32>
    decreases overrides.len(),
{
    if overrides.len() == 0 {
        None
    } else {
        let o = overrides[0];
        if get_str(o, "method"@) == Some("popup"@) && get_i64(o, "minutes"@) is Some {
            Some(get_i64(o, "minutes"@)->0 as i32)
        } else {
            popup_minutes(overrides.drop_first())
        }
    }
}

/// The guests of an item that have a non-blank address (trimmed), with their names.
pub open spec fn attendees_of(items: Seq<Json>) -> Seq<AttendeeView>
    decreases items.len(),
{
    if items.len() == 0 {
        Seq::empty()
    } else {
        let p = attendees_of(items.drop_last());
        let a = items.last();
        let email = trim_spec(
            match get_str(a, "email"@) {
                Some(e) => e,
                None => Seq::empty(),
            },
        );
        if email.len() == 0 {
            p
        } else {
            p.push(AttendeeView { email, display_name: get_str(a, "displayName"@) })
        }
    }
}

/// A list that is kept only when it is not empty.
pub open spec fn non_empty_list<A>(s: Seq<A>) -> Option<Seq<A>> {
    if s.len() > 0 {
        Some(s)
    } else {
        None
    }
}

/// The form metadata that an API item carries.
pub open spec fn form_spec(item: Json) -> FormView {
    let rem = item.get("reminders"@);
    FormView {
        hangout_link: non_empty(get_str(item, "hangoutLink"@)),
        recurrence: match get_array(item, "recurrence"@) {
            Some(a) => non_empty_list(strings_of(a)),
            None => None,
        },
        reminders_use_default: match rem {
            Some(r) => get_bool(r, "useDefault"@),
            None => None,
        },
        reminder_popup_minutes: match rem {
            Some(r) => match get_array(r, "overrides"@) {
                Some(o) => popup_minutes(o),
                None => None,
            },
            None => None,
        },
        attendees: match get_array(item, "attendees"@) {
            Some(a) => non_empty_list(attendees_of(a)),
            None => None,
        },
        transparency: get_str(item, "transparency"@),
        visibility: get_str(item, "visibility"@),
        color_id: get_str(item, "colorId"@),
        guests_can_modify: get_bool(item, "guestsCanModify"@),
        guests_can_invite_others: get_bool(item, "guestsCanInviteOthers"@),
        guests_can_see_other_guests: get_bool(item, "guestsCanSeeOtherGuests"@),
    }
}

/// The form of an item, or `None` when it carries none of the metadata.
pub open spec fn form_opt_spec(item: Json) -> Option<FormView> {
    if form_spec(item) == FormView::empty() {
        None
    } else {
        Some(form_spec(item))
    }
}

fn array_member<'a>(v: &'a JsonValue, key: &str) -> (r: Option<&'a Vec<JsonValue>>)
    ensures
        match r {
            Some(a) => get_array(v.view(), key@) == Some(JsonValue::items_view(a@)),
            None => get_array(v.view(), key@) is None,
        },
{
    match v.get(key) {
        Some(x) => x.as_array(),
        None => None,
    }
}

fn recurrence_strings(arr: &Vec<JsonValue>) -> (r: Vec<String>)
    ensures
        strs(r@) == strings_of(JsonValue::items_view(arr@)),
{
    let ghost items = JsonValue::items_view(arr@);
    proof {
        lemma_items_view_len(arr@);
        assert(items.take(0) =~= Seq::<Json>::empty());
    }
    let mut out: Vec<String> = Vec::new();
    let mut i: usize = 0;
    while i < arr.len()
        invariant
            i <= arr@.len(),
            items == JsonValue::items_view(arr@),
            items.len() == arr@.len(),
            forall|k: int| 0 <= k < arr@.len() ==> #[trigger] items[k] == arr@[k].view(),
            strs(out@) == strings_of(items.take(i as int)),
        decreases arr@.len() - i,
    {
        let ghost before = out@;
        match arr[i].as_str() {
            Some(s) => {
                out.push(s.clone());
                assert(strs(out@) == strs(before).push(s@));
            },
            None => {},
        }
        proof {
            let t = items.take(i as int + 1);
            assert(t.drop_last() =~= items.take(i as int));
            assert(t.last() == arr@[i as int].view());
        }
        i = i + 1;
    }
    proof {
        assert(items.take(arr@.len() as int) =~= items);
    }
    out
}

fn popup_from_overrides(arr: &Vec<JsonValue>) -> (r: Option<i32>)
    ensures
        r == popup_minutes(JsonValue::items_view(arr@)),
{
    let ghost items = JsonValue::items_view(arr@);
    proof {
        lemma_items_view_len(arr@);
        assert(items.subrange(0, items.len() as int) =~= items);
    }
    let mut i: usize = 0;
    while i < arr.len()
        invariant
            i <= arr@.len(),
            items == JsonValue::items_view(arr@),
            items.len() == arr@.len(),
            forall|k: int| 0 <= k < arr@.len() ==> #[trigger] items[k] == arr@[k].view(),
            popup_minutes(items) == popup_minutes(items.subrange(i as int, items.len() as int)),
        decreases arr@.len() - i,
    {
        let o = &arr[i];
        let ghost rest = items.subrange(i as int, items.len() as int);
        assert(rest[0] == o.view());
        let is_popup = match str_member(o, "method") {
            Some(m) => crate::text::str_eq(m.as_str(), "popup"),
            None => false,
        };
        if is_popup {
            let mins = match o.get("minutes") {
                Some(x) => x.as_i64(),
                None => None,
            };
            match mins {
                Some(m) => {
                    return Some(m as i32);
                },
                None => {},
            }
        }
        assert(rest.drop_first() =~= items.subrange(i as int + 1, items.len() as int));
        i = i + 1;
    }
    None
}

fn attendees_from(arr: &Vec<JsonValue>) -> (r: Vec<CalendarAttendee>)
    ensures
        attendee_views(r@) == attendees_of(JsonValue::items_view(arr@)),
{
    let ghost items = JsonValue::items_view(arr@);
    proof {
        lemma_items_view_len(arr@);
        assert(items.take(0) =~= Seq::<Json>::empty());
        assert(attendee_views(Seq::<CalendarAttendee>::empty()) =~= Seq::<AttendeeView>::empty());
    }
    let mut out: Vec<CalendarAttendee> = Vec::new();
    let mut i: usize = 0;
    while i < arr.len()
        invariant
            i <= arr@.len(),
            items == JsonValue::items_view(arr@),
            items.len() == arr@.len(),
            forall|k: int| 0 <= k < arr@.len() ==> #[trigger] items[k] == arr@[k].view(),
            attendee_views(out@) == attendees_of(items.take(i as int)),
        decreases arr@.len() - i,
    {
        let a = &arr[i];
        let raw = match str_member(a, "email") {
            Some(e) => e,
            None => String::new(),
        };
        let email = trim(raw.as_str());
        let ghost before = out@;
        if email.as_str().unicode_len() > 0 {
            let display_name = str_member(a, "displayName");
            let att = CalendarAttendee { email, display_name };
            out.push(att);
            assert(attendee_views(out@) =~= attendee_views(before).push(att@));
        }
        proof {
            let t = items.take(i as int + 1);
            assert(t.drop_last() =~= items.take(i as int));
            assert(t.last() == a.view());
        }
        i = i + 1;
    }
    proof {
        assert(items.take(arr@.len() as int) =~= items);
    }
    out
}

/// The form metadata of an API item; `None` when the item carries none of it.
pub fn parse_form_from_item(item: &JsonValue) -> (r: Option<CalendarEventForm>)
    ensures
        match r {
            Some(f) => f@ == form_spec(item.view()) && form_spec(item.view()) != FormView::empty(),
            None => form_spec(item.view()) == FormView::empty(),
        },
{
    let mut f = CalendarEventForm::default();
    match str_member(item, "hangoutLink") {
        Some(h) => {
            if h.as_str().unicode_len() > 0 {
                f.hangout_link = Some(h);
            }
        },
        None => {},
    }
    match array_member(item, "recurrence") {
        Some(arr) => {
            let rules = recurrence_strings(arr);
            if rules.len() > 0 {
                f.recurrence = Some(rules);
            }
        },
        None => {},
    }
    match item.get("reminders") {
        Some(rem) => {
            f.reminders_use_default = bool_member(rem, "useDefault");
            match array_member(rem, "overrides") {
                Some(over) => {
                    f.reminder_popup_minutes = popup_from_overrides(over);
                },
                None => {},
            }
        },
        None => {},
    }
    match array_member(item, "attendees") {
        Some(arr) => {
            let atts = attendees_from(arr);
            if atts.len() > 0 {
                f.attendees = Some(atts);
            }
        },
        None => {},
    }
    f.transparency = str_member(item, "transparency");
    f.visibility = str_member(item, "visibility");
    f.color_id = str_member(item, "colorId");
    f.guests_can_modify = bool_member(item, "guestsCanModify");
    f.guests_can_invite_others = bool_member(item, "guestsCanInviteOthers");
    f.guests_can_see_other_guests = bool_member(item, "guestsCanSeeOtherGuests");
    assert(f@ == form_spec(item.view()));
    if f.is_default() {
        None
    } else {
        Some(f)
    }
}

/// The event that an API item describes, in the `primary` calendar; `None`
/// when the item has no non-empty string `id`. A missing title reads
/// `(sem título)`; empty descriptions and locations are dropped.
pub open spec fn event_spec(item: Json) -> Option<EventView> {
    match get_str(item, "id"@) {
        None => None,
        Some(id) => if id.len() == 0 {
            None
        } else {
            Some(
                EventView {
                    id,
                    calendar_id: "primary"@,
                    summary: match get_str(item, "summary"@) {
                        Some(s) => s,
                        None => "(sem título)"@,
                    },
                    start_at: time_of(item.get("start"@)),
                    end_at: time_of(item.get("end"@)),
                    description: non_empty(get_str(item, "description"@)),
                    location: non_empty(get_str(item, "location"@)),
                    form: form_opt_spec(item),
                },
            )
        },
    }
}

fn non_empty_member(item: &JsonValue, key: &str) -> (r: Option<String>)
    ensures
        opt_str(r) == non_empty(get_str(item.view(), key@)),
{
    match str_member(item, key) {
        Some(s) => if s.as_str().unicode_len() > 0 {
            Some(s)
        } else {
            None
        },
        None => None,
    }
}

/// The event that an API item describes, in the `primary` calendar.
pub fn event_from_api_item(item: &JsonValue) -> (r: Option<CalendarEvent>)
    ensures
        match r {
            Some(e) => event_spec(item.view()) == Some(e@),
            None => event_spec(item.view()) is None,
        },
{
    let id = match str_member(item, "id") {
        Some(s) => s,
        None => return None,
    };
    if id.as_str().unicode_len() == 0 {
        return None;
    }
    let summary = match str_member(item, "summary") {
        Some(s) => s,
        None => "(sem título)".to_owned(),
    };
    let (start_at, end_at) = parse_event_times(item);
    let description = non_empty_member(item, "description");
    let location = non_empty_member(item, "location");
    let form = parse_form_from_item(item);
    let ev = CalendarEvent {
        id,
        calendar_id: "primary".to_owned(),
        summary,
        start_at,
        end_at,
        description,
        location,
        form,
    };
    assert(ev@.form == form_opt_spec(item.view()));
    Some(ev)
}

/// An API item gives an event exactly when it has a non-empty string `id`;
/// the event keeps that id, the item's string title (else `(sem título)`),
/// and its description and location whenever they are non-empty strings
/// (neither is dropped), in the `primary` calendar.
pub proof fn event_keeps_item_fields(item: Json)
    ensures
        event_spec(item) is Some <==> (get_str(item, "id"@) matches Some(id) && id.len() > 0),
        event_spec(item) matches Some(ev) ==> {
            &&& get_str(item, "id"@) == Some(ev.id)
            &&& ev.calendar_id == "primary"@
            &&& (get_str(item, "summary"@) matches Some(t) ==> ev.summary == t)
            &&& (get_str(item, "summary"@) is None ==> ev.summary == "(sem título)"@)
            &&& (get_str(item, "description"@) matches Some(d) ==> (d.len() > 0 ==> ev.description
                == Some(d)))
            &&& (ev.description matches Some(d) ==> get_str(item, "description"@) == Some(d) && d.len()
                > 0)
            &&& (get_str(item, "location"@) matches Some(l) ==> (l.len() > 0 ==> ev.location == Some(l)))
            &&& (ev.location matches Some(l) ==> get_str(item, "location"@) == Some(l) && l.len() > 0)
        },
{
}

} // verus!
