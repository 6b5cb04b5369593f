//! The event model shared by the UI, the local cache and the Calendar API:
//! events, their form metadata, write extensions and queued mutations.

use vstd::prelude::*;

verus! {

/// The characters of an optional string.
pub open spec fn opt_str(o: Option<String>) -> Option<Seq<char>> {
    match o {
        Some(s) => Some(s@),
        None => None,
    }
}

/// The characters of each string of a list.
pub open spec fn strs(v: Seq<String>) -> Seq<Seq<char>> {
    v.map_values(|s: String| s@)
}

/// A guest of an event.
#[derive(Clone, Debug, PartialEq)]
pub struct CalendarAttendee {
    pub email: String,
    pub display_name: Option<String>,
}

/// What a guest is, as text.
pub struct AttendeeView {
    pub email: Seq<char>,
    pub display_name: Option<Seq<char>>,
}

impl View for CalendarAttendee {
    type V = AttendeeView;

    open spec fn view(&self) -> AttendeeView {
        AttendeeView { email: self.email@, display_name: opt_str(self.display_name) }
    }
}

/// The guests of a list, as text.
pub open spec fn attendee_views(v: Seq<CalendarAttendee>) -> Seq<AttendeeView> {
    v.map_values(|a: CalendarAttendee| a@)
}

/// Form state and extra metadata read back from the API for one event.
#[derive(Clone, Debug, PartialEq)]
pub struct CalendarEventForm {
    pub hangout_link: Option<String>,
    pub recurrence: Option<Vec<String>>,
    pub reminders_use_default: Option<bool>,
    pub reminder_popup_minutes: Option<i32>,
    pub attendees: Option<Vec<CalendarAttendee>>,
    pub transparency: Option<String>,
    pub visibility: Option<String>,
    pub color_id: Option<String>,
    pub guests_can_modify: Option<bool>,
    pub guests_can_invite_others: Option<bool>,
    pub guests_can_see_other_guests: Option<bool>,
}

/// The form metadata as text and values.
pub struct FormView {
    pub hangout_link: Option<Seq<char>>,
    pub recurrence: Option<Seq<Seq<char>>>,
    pub reminders_use_default: Option<bool>,
    pub reminder_popup_minutes: Option<i32>,
    pub attendees: Option<Seq<AttendeeView>>,
    pub transparency: Option<Seq<char>>,
    pub visibility: Option<Seq<char>>,
    pub color_id: Option<Seq<char>>,
    pub guests_can_modify: Option<bool>,
    pub guests_can_invite_others: Option<bool>,
    pub guests_can_see_other_guests: Option<bool>,
}

impl FormView {
    /// The form with nothing set.
    pub open spec fn empty() -> FormView {
        FormView {
            hangout_link: None,
            recurrence: None,
            reminders_use_default: None,
            reminder_popup_minutes: None,
            attendees: None,
            transparency: None,
            visibility: None,
            color_id: None,
            guests_can_modify: None,
            guests_can_invite_others: None,
            guests_can_see_other_guests: None,
        }
    }
}

impl View for CalendarEventForm {
    type V = FormView;

    open spec fn view(&self) -> FormView {
        FormView {
            hangout_link: opt_str(self.hangout_link),
            recurrence: match self.recurrence {
                Some(v) => Some(strs(v@)),
                None => None,
            },
            reminders_use_default: self.reminders_use_default,
            reminder_popup_minutes: self.reminder_popup_minutes,
            attendees: match self.attendees {
                Some(v) => Some(attendee_views(v@)),
                None => None,
            },
            transparency: opt_str(self.transparency),
            visibility: opt_str(self.visibility),
            color_id: opt_str(self.color_id),
            guests_can_modify: self.guests_can_modify,
            guests_can_invite_others: self.guests_can_invite_others,
            guests_can_see_other_guests: self.guests_can_see_other_guests,
        }
    }
}

impl Default for CalendarEventForm {
    fn default() -> (f: CalendarEventForm)
        ensures
            f@ == FormView::empty(),
    {
        CalendarEventForm {
            hangout_link: None,
            recurrence: None,
            reminders_use_default: None,
            reminder_popup_minutes: None,
            attendees: None,
            transparency: None,
            visibility: None,
            color_id: None,
            guests_can_modify: None,
            guests_can_invite_others: None,
            guests_can_see_other_guests: None,
        }
    }
}

impl CalendarEventForm {
    /// Whether nothing is set (the form equals its default).
    pub fn is_default(&self) -> (b: bool)
        ensures
            b == (self@ == FormView::empty()),
    {
        self.hangout_link.is_none() && self.recurrence.is_none()
            && self.reminders_use_default.is_none() && self.reminder_popup_minutes.is_none()
            && self.attendees.is_none() && self.transparency.is_none()
            && self.visibility.is_none() && self.color_id.is_none()
            && self.guests_can_modify.is_none() && self.guests_can_invite_others.is_none()
            && self.guests_can_see_other_guests.is_none()
    }
}

/// Extra fields that the client sends when it creates or updates an event.
#[derive(Clone, Debug, PartialEq)]
pub struct EventWriteExtensions {
    pub request_google_meet: bool,
    /// `none` | `daily` | `weekly` | `monthly` | `yearly`
    pub recurrence: String,
    pub use_default_reminders: bool,
    pub reminder_minutes: Option<u32>,
    /// `opaque` (busy) | `transparent` (free)
    pub transparency: String,
    /// `default` | `public` | `private` | `confidential`
    pub visibility: String,
    pub color_id: Option<String>,
    pub attendees: Vec<String>,
    pub guests_can_modify: bool,
    pub guests_can_invite_others: bool,
    pub guests_can_see_other_guests: bool,
}

/// The write extensions as text and values.
pub struct ExtensionsView {
    pub request_google_meet: bool,
    pub recurrence: Seq<char>,
    pub use_default_reminders: bool,
    pub reminder_minutes: Option<u32>,
    pub transparency: Seq<char>,
    pub visibility: Seq<char>,
    pub color_id: Option<Seq<char>>,
    pub attendees: Seq<Seq<char>>,
    pub guests_can_modify: bool,
    pub guests_can_invite_others: bool,
    pub guests_can_see_other_guests: bool,
}

impl View for EventWriteExtensions {
    type V = ExtensionsView;

    open spec fn view(&self) -> ExtensionsView {
        ExtensionsView {
            request_google_meet: self.request_google_meet,
            recurrence: self.recurrence@,
            use_default_reminders: self.use_default_reminders,
            reminder_minutes: self.reminder_minutes,
            transparency: self.transparency@,
            visibility: self.visibility@,
            color_id: opt_str(self.color_id),
            attendees: strs(self.attendees@),
            guests_can_modify: self.guests_can_modify,
            guests_can_invite_others: self.guests_can_invite_others,
            guests_can_see_other_guests: self.guests_can_see_other_guests,
        }
    }
}

impl Default for EventWriteExtensions {
    /// No Meet, no recurrence, default reminders with 30 minutes kept for a
    /// custom reminder, busy, default visibility, no colour, no guests, guests
    /// may invite others and see the guest list but not modify the event.
    fn default() -> (e: EventWriteExtensions)
        ensures
            e@.request_google_meet == false,
            e@.recurrence == "none"@,
            e@.use_default_reminders == true,
            e@.reminder_minutes == Some(30u32),
            e@.transparency == "opaque"@,
            e@.visibility == "default"@,
            e@.color_id == None::<Seq<char>>,
            e@.attendees == Seq::<Seq<char>>::empty(),
            e@.guests_can_modify == false,
            e@.guests_can_invite_others == true,
            e@.guests_can_see_other_guests == true,
    {
        let e = EventWriteExtensions {
            request_google_meet: false,
            recurrence: "none".to_owned(),
            use_default_reminders: true,
            reminder_minutes: Some(30),
            transparency: "opaque".to_owned(),
            visibility: "default".to_owned(),
            color_id: None,
            attendees: Vec::new(),
            guests_can_modify: false,
            guests_can_invite_others: true,
            guests_can_see_other_guests: true,
        };
        proof {
            assert(strs(e.attendees@) =~= Seq::<Seq<char>>::empty());
        }
        e
    }
}

/// Payload for creating an event in the `primary` calendar.
#[derive(Clone, Debug, PartialEq)]
pub struct CreateGoogleEventPayload {
    pub summary: String,
    pub all_day: bool,
    pub start_iso: String,
    pub end_iso: String,
    pub description: Option<String>,
    pub location: Option<String>,
    pub extensions: EventWriteExtensions,
}

/// Payload for updating an event.
#[derive(Clone, Debug, PartialEq)]
pub struct UpdateGoogleEventPayload {
    pub calendar_id: String,
    pub event_id: String,
    pub summary: String,
    pub all_day: bool,
    pub start_iso: String,
    pub end_iso: String,
    pub description: Option<String>,
    pub location: Option<String>,
    pub extensions: EventWriteExtensions,
}

/// Payload for deleting an event.
#[derive(Clone, Debug, PartialEq)]
pub struct DeleteGoogleEventPayload {
    pub calendar_id: String,
    pub event_id: String,
}

/// One operation kept for sending when the network or the API answers again.
#[derive(Clone, Debug, PartialEq)]
pub enum QueuedCalendarMutation {
    Create(CreateGoogleEventPayload),
    Update(UpdateGoogleEventPayload),
    Delete(DeleteGoogleEventPayload),
}

/// An event as the UI and the cache hold it.
#[derive(Clone, Debug, PartialEq)]
pub struct CalendarEvent {
    pub id: String,
    pub calendar_id: String,
    pub summary: String,
    pub start_at: Option<String>,
    pub end_at: Option<String>,
    pub description: Option<String>,
    pub location: Option<String>,
    pub form: Option<CalendarEventForm>,
}

/// An event as text and values.
pub struct EventView {
    pub id: Seq<char>,
    pub calendar_id: Seq<char>,
    pub summary: Seq<char>,
    pub start_at: Option<Seq<char>>,
    pub end_at: Option<Seq<char>>,
    pub description: Option<Seq<char>>,
    pub location: Option<Seq<char>>,
    pub form: Option<FormView>,
}

impl View for CalendarEvent {
    type V = EventView;

    open spec fn view(&self) -> EventView {
        EventView {
            id: self.id@,
            calendar_id: self.calendar_id@,
            summary: self.summary@,
            start_at: opt_str(self.start_at),
            end_at: opt_str(self.end_at),
            description: opt_str(self.description),
            location: opt_str(self.location),
            form: match self.form {
                Some(f) => Some(f@),
                None => None,
            },
        }
    }
}

} // verus!
