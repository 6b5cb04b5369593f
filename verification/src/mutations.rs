//! Writing to the Calendar API: which failures are transient (the change is
//! queued offline) and which are permanent, the error texts, and the FIFO
//! processing of the offline queue.

use vstd::prelude::*;
use vstd::utf8::*;
use crate::text::{
    ascii_lower_spec, chars_of, concat, contains_chars, contains_seq, decimal_spec,
    decimal_string, to_ascii_lowercase, trim, trim_spec,
};
use crate::json::{Json, JsonValue};
use crate::model::{
    opt_str, CalendarEvent, CreateGoogleEventPayload, DeleteGoogleEventPayload, EventView,
    UpdateGoogleEventPayload,
};
use crate::event_body::{build_event_value, event_body_members, recurrence_date_readable};
use crate::event_parse::{event_from_api_item, event_spec};

verus! {

/// A failed write to the API: transient (network, 5xx, 408, 429) or
/// permanent (validation, authorisation).
#[derive(Clone, Debug, PartialEq)]
pub enum CalendarMutationError {
    Transient(String),
    Permanent(String),
}

/// Whether an HTTP status is a success (2xx).
pub open spec fn is_success_status(status: u16) -> bool {
    200 <= status <= 299
}

/// Whether an HTTP status makes a failed write transient: a server error
/// (5xx), request timeout (408) or too many requests (429).
pub open spec fn transient_status(status: u16) -> bool {
    (500 <= status <= 599) || status == 408 || status == 429
}

/// Whether a failed write with this status is worth retrying later.
pub fn http_status_is_transient(status: u16) -> (b: bool)
    ensures
        b == transient_status(status),
{
    (500 <= status && status <= 599) || status == 408 || status == 429
}

/// The hint appended when the API refuses a write for lack of scope.
pub const SCOPE_HINT: &'static str = "\n\n→ O login Google não inclui permissão para criar ou alterar eventos (p.ex. sessão antiga só de leitura). Em Definições da app: «Desligar Google» e volta a «Ligar conta Google» para aceitar o escopo completo do calendário.";

/// Whether an API answer (compared in ASCII lower case) reports missing scopes.
pub open spec fn scope_missing(body: Seq<char>) -> bool {
    let b = ascii_lower_spec(body);
    contains_seq(b, "insufficient authentication scopes"@) || contains_seq(
        b,
        "access_token_scope_insufficient"@,
    ) || contains_seq(b, "insufficientpermissions"@) || contains_seq(b, "insufficient permission"@)
}

/// The instructions to append when the API refuses a write for lack of scope
/// (an old read-only login, for example).
pub fn calendar_api_scope_hint(body: &str) -> (r: Option<&'static str>)
    ensures
        match r {
            Some(h) => scope_missing(body@) && h@ == SCOPE_HINT@,
            None => !scope_missing(body@),
        },
{
    let b = to_ascii_lowercase(body);
    let p1 = chars_of("insufficient authentication scopes");
    let p2 = chars_of("access_token_scope_insufficient");
    let p3 = chars_of("insufficientpermissions");
    let p4 = chars_of("insufficient permission");
    if contains_chars(&b, &p1) || contains_chars(&b, &p2) || contains_chars(&b, &p3)
        || contains_chars(&b, &p4) {
        Some(SCOPE_HINT)
    } else {
        None
    }
}

/// The text of a permanent write error: context, the API's answer, and the
/// scope hint when it applies.
pub open spec fn write_error_spec(context: Seq<char>, body: Seq<char>) -> Seq<char> {
    context + ": "@ + body + (if scope_missing(body) {
        SCOPE_HINT@
    } else {
        Seq::empty()
    })
}

/// `context: body`, followed by the scope hint when the answer reports
/// missing scopes.
pub fn format_calendar_write_error(context: &str, body: &str) -> (r: String)
    ensures
        r@ == write_error_spec(context@, body@),
{
    let a = concat(context, ": ");
    let mut s = concat(a.as_str(), body);
    match calendar_api_scope_hint(body) {
        Some(h) => {
            s.append(h);
        },
        None => {
            assert(s@ + Seq::<char>::empty() =~= s@);
        },
    }
    s
}

/// The notice added to a transient failure: the change stays queued.
pub fn transient_queue_suffix() -> (r: &'static str)
    ensures
        r@ == " A alteração ficou na fila offline; sincroniza a agenda para tentar enviar."@,
{
    " A alteração ficou na fila offline; sincroniza a agenda para tentar enviar."
}

/// A request that could not be sent (no network, timeout): transient.
pub fn map_send_error(message: &str) -> (r: CalendarMutationError)
    ensures
        r matches CalendarMutationError::Transient(m) && m@ == "Calendar API: "@ + message@,
{
    CalendarMutationError::Transient(concat("Calendar API: ", message))
}

/// The kind of write that failed.
#[derive(Clone, Copy, PartialEq, Eq, Structural)]
pub enum WriteKind {
    Create,
    Update,
    Delete,
}

/// The verb of a write, as it appears in its messages.
pub open spec fn verb(k: WriteKind) -> Seq<char> {
    match k {
        WriteKind::Create => "criar"@,
        WriteKind::Update => "atualizar"@,
        WriteKind::Delete => "apagar"@,
    }
}

fn verb_text(k: WriteKind) -> (r: &'static str)
    ensures
        r@ == verb(k),
{
    match k {
        WriteKind::Create => "criar",
        WriteKind::Update => "atualizar",
        WriteKind::Delete => "apagar",
    }
}

/// The error for a write the API refused with `status` and answer `body`:
/// transient for 5xx/408/429 (with the status and the trimmed answer),
/// otherwise permanent (with the scope hint when it applies).
pub open spec fn refused_write_spec(k: WriteKind, status: u16, body: Seq<char>) -> (bool, Seq<char>) {
    let context = "Não foi possível "@ + verb(k) + " o evento"@;
    if transient_status(status) {
        (true, context + " (HTTP "@ + decimal_spec(status as nat) + "): "@ + trim_spec(body))
    } else {
        (false, write_error_spec(context, body))
    }
}

/// The texts of an error: whether it is transient, and its message.
pub open spec fn error_parts(e: CalendarMutationError) -> (bool, Seq<char>) {
    match e {
        CalendarMutationError::Transient(m) => (true, m@),
        CalendarMutationError::Permanent(m) => (false, m@),
    }
}

/// The error for a write that the API answered with a non-success status.
pub fn refused_write_error(k: WriteKind, status: u16, body: &str) -> (r: CalendarMutationError)
    ensures
        error_parts(r) == refused_write_spec(k, status, body@),
{
    let a = concat("Não foi possível ", verb_text(k));
    let context = concat(a.as_str(), " o evento");
    if http_status_is_transient(status) {
        let code = decimal_string(status as u64);
        let b = concat(context.as_str(), " (HTTP ");
        let c = concat(b.as_str(), code.as_str());
        let d = concat(c.as_str(), "): ");
        let t = trim(body);
        CalendarMutationError::Transient(concat(d.as_str(), t.as_str()))
    } else {
        CalendarMutationError::Permanent(format_calendar_write_error(context.as_str(), body))
    }
}

/// The title of a new or updated event, trimmed; a blank title is refused.
pub fn validate_summary(summary: &str) -> (r: Result<String, CalendarMutationError>)
    ensures
        match r {
            Ok(s) => s@ == trim_spec(summary@) && s@.len() > 0,
            Err(e) => trim_spec(summary@).len() == 0 && error_parts(e) == (
                false,
                "Indica um título para o evento."@,
            ),
        },
{
    let s = trim(summary);
    if s.as_str().unicode_len() == 0 {
        Err(CalendarMutationError::Permanent("Indica um título para o evento.".to_owned()))
    } else {
        Ok(s)
    }
}

/// An event id must not be blank.
pub fn validate_event_id(event_id: &str) -> (r: Result<(), CalendarMutationError>)
    ensures
        match r {
            Ok(_) => trim_spec(event_id@).len() > 0,
            Err(e) => trim_spec(event_id@).len() == 0 && error_parts(e) == (
                false,
                "ID do evento em falta."@,
            ),
        },
{
    let s = trim(event_id);
    if s.as_str().unicode_len() == 0 {
        Err(CalendarMutationError::Permanent("ID do evento em falta.".to_owned()))
    } else {
        Ok(())
    }
}

/// How a delete ends, by status: success or 404 (already gone) remove the
/// event from the cache; anything else is a refused write.
pub fn delete_outcome(status: u16, body: &str) -> (r: Result<(), CalendarMutationError>)
    ensures
        match r {
            Ok(_) => status == 404 || is_success_status(status),
            Err(e) => status != 404 && !is_success_status(status) && error_parts(e)
                == refused_write_spec(WriteKind::Delete, status, body@),
        },
{
    if status == 404 || (200 <= status && status <= 299) {
        Ok(())
    } else {
        Err(refused_write_error(WriteKind::Delete, status, body))
    }
}

/// The event that the API returned after a create or update; a reply that is
/// not an event is a permanent error.
pub fn written_event(k: WriteKind, reply: &JsonValue) -> (r: Result<CalendarEvent, CalendarMutationError>)
    requires
        k != WriteKind::Delete,
    ensures
        match r {
            Ok(e) => event_spec(reply.view()) == Some(e@),
            Err(e) => event_spec(reply.view()) is None && error_parts(e) == (
                false,
                if k == WriteKind::Create {
                    "Resposta inválida ao criar evento."@
                } else {
                    "Resposta inválida ao atualizar evento."@
                },
            ),
        },
{
    match event_from_api_item(reply) {
        Some(e) => Ok(e),
        None => Err(
            CalendarMutationError::Permanent(
                if k == WriteKind::Create {
                    "Resposta inválida ao criar evento.".to_owned()
                } else {
                    "Resposta inválida ao atualizar evento.".to_owned()
                },
            ),
        ),
    }
}

/// What a user-facing write reports, and whether the change must be queued:
/// a transient failure is queued and reported with the queue notice; a
/// permanent one is reported as is.
pub fn failed_write_report(e: CalendarMutationError) -> (r: (String, bool))
    ensures
        match e {
            CalendarMutationError::Transient(m) => r.1 && r.0@ == m@
                + " A alteração ficou na fila offline; sincroniza a agenda para tentar enviar."@,
            CalendarMutationError::Permanent(m) => !r.1 && r.0@ == m@,
        },
{
    match e {
        CalendarMutationError::Transient(m) => (concat(m.as_str(), transient_queue_suffix()), true),
        CalendarMutationError::Permanent(m) => (m, false),
    }
}

/// Whether a byte is left as is by percent-encoding: ASCII letters and
/// digits, `-`, `.`, `_`, `~`.
pub open spec fn unreserved_byte(b: u8) -> bool {
    (48 <= b <= 57) || (65 <= b <= 90) || (97 <= b <= 122) || b == 45 || b == 46 || b == 95
        || b == 126
}

/// An upper-case hex digit.
pub open spec fn upper_hex_digit(d: int) -> char {
    if d < 10 {
        (48 + d) as char
    } else {
        (55 + d) as char
    }
}

/// Percent-encoding of bytes: each unreserved byte as its character, every
/// other byte as `%` and two upper-case hex digits.
pub open spec fn percent_encoded(bytes: Seq<u8>) -> Seq<char>
    decreases bytes.len(),
{
    if bytes.len() == 0 {
        Seq::empty()
    } else {
        let b = bytes[0];
        (if unreserved_byte(b) {
            seq![b as char]
        } else {
            seq!['%', upper_hex_digit((b / 16) as int), upper_hex_digit((b % 16) as int)]
        }) + percent_encoded(bytes.drop_first())
    }
}

/// `s` percent-encoded over its UTF-8 bytes.
pub open spec fn url_encoded(s: Seq<char>) -> Seq<char> {
    percent_encoded(encode_utf8(s))
}


/// Calls `urlencoding::encode`: percent-encodes every UTF-8 byte of `s`
/// except ASCII alphanumerics and `-`, `_`, `.`, `~`.
#[verifier::external_body]
fn url_encode(s: &str) -> (r: String)
    ensures
        r@ == url_encoded(s@),
{
    urlencoding::encode(s).into_owned()
}

/// The API URL of one event.
pub open spec fn event_resource_url(calendar_id: Seq<char>, event_id: Seq<char>) -> Seq<char> {
    "https://www.googleapis.com/calendar/v3/calendars/"@ + url_encoded(calendar_id) + "/events/"@
        + url_encoded(event_id)
}

/// The API URL of one event, with both ids percent-encoded.
pub fn calendar_event_resource_url(calendar_id: &str, event_id: &str) -> (r: String)
    ensures
        r@ == event_resource_url(calendar_id@, event_id@),
{
    let c = url_encode(calendar_id);
    let e = url_encode(event_id);
    let a = concat("https://www.googleapis.com/calendar/v3/calendars/", c.as_str());
    let b = concat(a.as_str(), "/events/");
    concat(b.as_str(), e.as_str())
}

/// The events collection of the `primary` calendar.
pub const PRIMARY_EVENTS_URL: &'static str = "https://www.googleapis.com/calendar/v3/calendars/primary/events";

/// The HTTP method of a write.
#[derive(Clone, Copy, PartialEq, Eq, Structural)]
pub enum HttpMethod {
    Post,
    Patch,
    Delete,
}

/// A write to send: method and URL (always with `sendUpdates=all`; with
/// `conferenceDataVersion=1` too when `conference_data`), and the JSON body.
pub struct WriteRequest {
    pub method: HttpMethod,
    pub url: String,
    pub conference_data: bool,
    pub body: Option<JsonValue>,
}

/// Whether building the body of an event is safe for these inputs: a blank
/// title is refused before any body is built.
pub open spec fn body_buildable(summary: Seq<char>, rec: Seq<char>, start_iso: Seq<char>, all_day: bool) -> bool {
    trim_spec(summary).len() > 0 ==> recurrence_date_readable(rec, start_iso, all_day)
}

/// Whether building the body of an updated event is safe for these inputs: a
/// blank title, then a blank id, is refused before any body is built.
pub open spec fn update_body_buildable(
    summary: Seq<char>,
    event_id: Seq<char>,
    rec: Seq<char>,
    start_iso: Seq<char>,
    all_day: bool,
) -> bool {
    trim_spec(summary).len() > 0 && trim_spec(event_id).len() > 0 ==> recurrence_date_readable(
        rec,
        start_iso,
        all_day,
    )
}

/// The body of a new or updated event with the trimmed title.
pub open spec fn write_body(
    summary: Seq<char>,
    all_day: bool,
    start_iso: Seq<char>,
    end_iso: Seq<char>,
    description: Option<Seq<char>>,
    location: Option<Seq<char>>,
    e: crate::model::ExtensionsView,
    is_patch: bool,
    meet_id: Seq<char>,
) -> Json {
    Json::Object(
        event_body_members(
            trim_spec(summary),
            all_day,
            start_iso,
            end_iso,
            description,
            location,
            e,
            is_patch,
            meet_id,
        ),
    )
}

/// The request that creates an event in `primary`: a POST of the event body
/// with the trimmed title; a blank title is refused. `meet_id` is the request
/// id of a Meet link, when one is asked for.
pub fn prepare_create(p: &CreateGoogleEventPayload, meet_id: &str) -> (r: Result<WriteRequest, CalendarMutationError>)
    requires
        body_buildable(p.summary@, p.extensions@.recurrence, p.start_iso@, p.all_day),
    ensures
        match r {
            Ok(w) => {
                &&& trim_spec(p.summary@).len() > 0
                &&& w.method == HttpMethod::Post
                &&& w.url@ == PRIMARY_EVENTS_URL@
                &&& w.conference_data == p.extensions.request_google_meet
                &&& w.body matches Some(b) && b.view() == write_body(
                    p.summary@,
                    p.all_day,
                    p.start_iso@,
                    p.end_iso@,
                    opt_str(p.description),
                    opt_str(p.location),
                    p.extensions@,
                    false,
                    meet_id@,
                )
            },
            Err(e) => trim_spec(p.summary@).len() == 0 && error_parts(e) == (
                false,
                "Indica um título para o evento."@,
            ),
        },
{
    let summary = validate_summary(p.summary.as_str())?;
    let body = build_event_value(
        summary.as_str(),
        p.all_day,
        p.start_iso.as_str(),
        p.end_iso.as_str(),
        &p.description,
        &p.location,
        &p.extensions,
        false,
        meet_id,
    );
    Ok(
        WriteRequest {
            method: HttpMethod::Post,
            url: PRIMARY_EVENTS_URL.to_owned(),
            conference_data: p.extensions.request_google_meet,
            body: Some(body),
        },
    )
}

/// The request that updates an event: a PATCH of the event body (with the
/// trimmed title) to the event's URL; a blank title, then a blank id, is refused.
pub fn prepare_update(p: &UpdateGoogleEventPayload, meet_id: &str) -> (r: Result<WriteRequest, CalendarMutationError>)
    requires
        update_body_buildable(
            p.summary@,
            p.event_id@,
            p.extensions@.recurrence,
            p.start_iso@,
            p.all_day,
        ),
    ensures
        match r {
            Ok(w) => {
                &&& trim_spec(p.summary@).len() > 0
                &&& trim_spec(p.event_id@).len() > 0
                &&& w.method == HttpMethod::Patch
                &&& w.url@ == event_resource_url(p.calendar_id@, p.event_id@)
                &&& w.conference_data == p.extensions.request_google_meet
                &&& w.body matches Some(b) && b.view() == write_body(
                    p.summary@,
                    p.all_day,
                    p.start_iso@,
                    p.end_iso@,
                    opt_str(p.description),
                    opt_str(p.location),
                    p.extensions@,
                    true,
                    meet_id@,
                )
            },
            Err(e) => if trim_spec(p.summary@).len() == 0 {
                error_parts(e) == (false, "Indica um título para o evento."@)
            } else {
                trim_spec(p.event_id@).len() == 0 && error_parts(e) == (false, "ID do evento em falta."@)
            },
        },
{
    let summary = validate_summary(p.summary.as_str())?;
    validate_event_id(p.event_id.as_str())?;
    let body = build_event_value(
        summary.as_str(),
        p.all_day,
        p.start_iso.as_str(),
        p.end_iso.as_str(),
        &p.description,
        &p.location,
        &p.extensions,
        true,
        meet_id,
    );
    Ok(
        WriteRequest {
            method: HttpMethod::Patch,
            url: calendar_event_resource_url(p.calendar_id.as_str(), p.event_id.as_str()),
            conference_data: p.extensions.request_google_meet,
            body: Some(body),
        },
    )
}

/// The request that deletes an event: a DELETE of the event's URL, without a
/// body; a blank id is refused.
pub fn prepare_delete(p: &DeleteGoogleEventPayload) -> (r: Result<WriteRequest, CalendarMutationError>)
    ensures
        match r {
            Ok(w) => {
                &&& trim_spec(p.event_id@).len() > 0
                &&& w.method == HttpMethod::Delete
                &&& w.url@ == event_resource_url(p.calendar_id@, p.event_id@)
                &&& !w.conference_data
                &&& w.body is None
            },
            Err(e) => trim_spec(p.event_id@).len() == 0 && error_parts(e) == (
                false,
                "ID do evento em falta."@,
            ),
        },
{
    validate_event_id(p.event_id.as_str())?;
    Ok(
        WriteRequest {
            method: HttpMethod::Delete,
            url: calendar_event_resource_url(p.calendar_id.as_str(), p.event_id.as_str()),
            conference_data: false,
            body: None,
        },
    )
}

/// How renewing the access token through the token bridge failed.
pub enum TokenRefreshFailure {
    /// The request could not be sent; the transport's message.
    SendFailed(String),
    /// A non-success status, with the answer's text.
    Refused { status: u16, body: String },
    /// A success status whose body is not a token; the parse message.
    BadJson(String),
}

/// The message of a failed token renewal.
pub open spec fn token_refresh_message(f: TokenRefreshFailure) -> Seq<char> {
    match f {
        TokenRefreshFailure::SendFailed(m) => "token bridge: "@ + m@,
        TokenRefreshFailure::Refused { status: _, body } => "Renovar access token falhou: "@ + body@,
        TokenRefreshFailure::BadJson(m) => "JSON token: "@ + m@,
    }
}

/// Whether a failed token renewal is transient: the network failed, or the
/// bridge answered 5xx, 408 or 429.
pub open spec fn token_refresh_transient(f: TokenRefreshFailure) -> bool {
    match f {
        TokenRefreshFailure::SendFailed(_) => true,
        TokenRefreshFailure::Refused { status, body: _ } => transient_status(status),
        TokenRefreshFailure::BadJson(_) => false,
    }
}

/// The error of a write whose token renewal failed: transient when the
/// network or the server failed (the change then stays queued), permanent
/// otherwise; with the renewal's message.
pub fn token_refresh_error(f: TokenRefreshFailure) -> (r: CalendarMutationError)
    ensures
        error_parts(r) == (token_refresh_transient(f), token_refresh_message(f)),
{
    match f {
        TokenRefreshFailure::SendFailed(m) => CalendarMutationError::Transient(concat("token bridge: ", m.as_str())),
        TokenRefreshFailure::Refused { status, body } => {
            let msg = concat("Renovar access token falhou: ", body.as_str());
            if http_status_is_transient(status) {
                CalendarMutationError::Transient(msg)
            } else {
                CalendarMutationError::Permanent(msg)
            }
        },
        TokenRefreshFailure::BadJson(m) => CalendarMutationError::Permanent(concat("JSON token: ", m.as_str())),
    }
}

/// What the API answered to a create or an update.
pub enum WriteReply {
    /// The request could not be sent; the transport's message.
    SendFailed(String),
    /// A non-success status, with the answer's text.
    Refused { status: u16, body: String },
    /// A success status with this JSON answer.
    Accepted(JsonValue),
    /// A success status whose body is not JSON; the parse message.
    BadJson(String),
}

/// The outcome of a create or an update, from the API's answer: a send
/// failure is transient; a refusal is classified by its status; an accepted
/// answer must be an event.
pub fn write_result(k: WriteKind, reply: WriteReply) -> (r: Result<CalendarEvent, CalendarMutationError>)
    requires
        k != WriteKind::Delete,
    ensures
        match reply {
            WriteReply::SendFailed(m) => r matches Err(e) && error_parts(e) == (true, "Calendar API: "@ + m@),
            WriteReply::Refused { status, body } => r matches Err(e) && error_parts(e)
                == refused_write_spec(k, status, body@),
            WriteReply::BadJson(m) => r matches Err(e) && error_parts(e) == (false, m@),
            WriteReply::Accepted(v) => match event_spec(v.view()) {
                Some(ev) => r matches Ok(x) && x@ == ev,
                None => r matches Err(e) && error_parts(e) == (
                    false,
                    if k == WriteKind::Create {
                        "Resposta inválida ao criar evento."@
                    } else {
                        "Resposta inválida ao atualizar evento."@
                    },
                ),
            },
        },
{
    match reply {
        WriteReply::SendFailed(m) => Err(map_send_error(m.as_str())),
        WriteReply::Refused { status, body } => Err(refused_write_error(k, status, body.as_str())),
        WriteReply::BadJson(m) => Err(CalendarMutationError::Permanent(m)),
        WriteReply::Accepted(v) => written_event(k, &v),
    }
}

/// How sending the oldest queued change ended.
#[derive(Clone, Debug, PartialEq)]
pub enum QueuedOutcome {
    /// The stored entry could not be read back as a change.
    Unreadable,
    /// The API accepted the change.
    Sent,
    /// A transient failure, with its message.
    Transient(String),
    /// A permanent failure, with its message.
    Permanent(String),
}

/// What to do with the oldest queued change.
#[derive(Clone, Copy, PartialEq, Eq, Structural)]
pub enum QueueStep {
    /// Remove it and go on with the next one.
    Drop,
    /// Remove it, count it as sent, and go on.
    DropSent,
    /// Keep it, record the error on it, and stop.
    KeepAndStop,
}

/// The offline queue's processing: how many changes were sent so far.
pub struct QueueFlush {
    pub done: u32,
}

/// The step for an outcome.
pub open spec fn queue_step(o: QueuedOutcome) -> QueueStep {
    match o {
        QueuedOutcome::Unreadable => QueueStep::Drop,
        QueuedOutcome::Sent => QueueStep::DropSent,
        QueuedOutcome::Transient(_) => QueueStep::KeepAndStop,
        QueuedOutcome::Permanent(_) => QueueStep::Drop,
    }
}

impl QueueFlush {
    /// Nothing sent yet.
    pub fn new() -> (q: QueueFlush)
        ensures
            q.done == 0,
    {
        QueueFlush { done: 0 }
    }

    /// Processing in FIFO order: a sent change is removed and counted; an
    /// unreadable entry or a permanent failure is removed (dropped); a
    /// transient failure keeps the change, records its error, and stops.
    pub fn on_outcome(&mut self, o: QueuedOutcome) -> (s: QueueStep)
        requires
            old(self).done < u32::MAX,
        ensures
            s == queue_step(o),
            final(self).done == old(self).done + (if s == QueueStep::DropSent {
                1int
            } else {
                0int
            }),
    {
        match o {
            QueuedOutcome::Unreadable => QueueStep::Drop,
            QueuedOutcome::Sent => {
                self.done = self.done + 1;
                QueueStep::DropSent
            },
            QueuedOutcome::Transient(_) => QueueStep::KeepAndStop,
            QueuedOutcome::Permanent(_) => QueueStep::Drop,
        }
    }
}

/// What a whole pass over the queue does for a series of outcomes, taken in
/// order until the first that stops: (changes sent, entries removed, stopped
/// on a transient failure).
pub open spec fn flush_pass(outcomes: Seq<QueuedOutcome>) -> (nat, nat, bool)
    decreases outcomes.len(),
{
    if outcomes.len() == 0 {
        (0, 0, false)
    } else {
        let rest = flush_pass(outcomes.drop_first());
        match queue_step(outcomes[0]) {
            QueueStep::KeepAndStop => (0, 0, true),
            QueueStep::DropSent => (rest.0 + 1, rest.1 + 1, rest.2),
            QueueStep::Drop => (rest.0, rest.1 + 1, rest.2),
        }
    }
}

/// A pass never counts more changes as sent than it removes from the queue,
/// and removes at most the entries it was given; a transient failure on the
/// first entry removes nothing.
pub proof fn flush_pass_counts(outcomes: Seq<QueuedOutcome>)
    ensures
        flush_pass(outcomes).0 <= flush_pass(outcomes).1,
        flush_pass(outcomes).1 <= outcomes.len(),
        outcomes.len() > 0 && outcomes[0] is Transient ==> flush_pass(outcomes).1 == 0,
    decreases outcomes.len(),
{
    if outcomes.len() > 0 {
        flush_pass_counts(outcomes.drop_first());
    }
}

} // verus!
