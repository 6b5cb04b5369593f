//! What the UI is told about the calendar connection and local store, and
//! the small defaults and texts of the app.

use vstd::prelude::*;
use crate::text::{concat, signed_decimal_spec};
use crate::model::opt_str;

verus! {

/// The state of the calendar connection shown in the UI.
#[derive(Clone, Debug, PartialEq)]
pub struct CalendarState {
    /// `google` when a refresh token is stored, else `demo`.
    pub source: String,
    pub connected: bool,
    pub db_ready: bool,
    /// A client id is configured (built in, at build or run time, or in a file).
    pub client_id_configured: bool,
    /// Changes waiting in the offline queue.
    pub pending_mutations_count: u32,
}

/// The connection state: the source follows the connection; the queue length
/// counts only when the local store is ready (an unreadable length counts 0).
pub fn calendar_state(
    connected: bool,
    db_ready: bool,
    client_id_configured: bool,
    pending_len: Option<u32>,
) -> (s: CalendarState)
    ensures
        s.source@ == (if connected {
            "google"@
        } else {
            "demo"@
        }),
        s.connected == connected,
        s.db_ready == db_ready,
        s.client_id_configured == client_id_configured,
        s.pending_mutations_count == (if db_ready {
            match pending_len {
                Some(n) => n,
                None => 0,
            }
        } else {
            0
        }),
{
    let pending = if db_ready {
        match pending_len {
            Some(n) => n,
            None => 0,
        }
    } else {
        0
    };
    CalendarState {
        source: if connected {
            "google".to_owned()
        } else {
            "demo".to_owned()
        },
        connected,
        db_ready,
        client_id_configured,
        pending_mutations_count: pending,
    }
}

/// Whether the local store was opened and its schema set up. The flag is
/// private: it starts unset and only `mark_ready` changes it, to set, so once
/// the store is ready it stays ready.
pub struct LocalStoreStatus {
    ready: bool,
}

impl LocalStoreStatus {
    /// Whether the store has been marked ready.
    pub closed spec fn is_ready_spec(&self) -> bool {
        self.ready
    }

    /// Before initialisation.
    pub fn new() -> (s: LocalStoreStatus)
        ensures
            !s.is_ready_spec(),
    {
        LocalStoreStatus { ready: false }
    }

    /// Marks the store as ready (after the schema was created).
    pub fn mark_ready(&mut self)
        ensures
            final(self).is_ready_spec(),
    {
        self.ready = true;
    }

    /// Takes in how an initialisation of the store ended: a success makes
    /// the store ready; a failure leaves it as it was.
    pub fn on_init_result(&mut self, ok: bool)
        ensures
            final(self).is_ready_spec() == (old(self).is_ready_spec() || ok),
    {
        if ok {
            self.mark_ready();
        }
    }
}

/// A series of statuses, each after one more initialisation outcome, from a
/// fresh status.
pub open spec fn init_run(ss: Seq<LocalStoreStatus>, outcomes: Seq<bool>) -> bool {
    &&& ss.len() == outcomes.len() + 1
    &&& !ss[0].is_ready_spec()
    &&& forall|i: int| 0 <= i < outcomes.len() ==> #[trigger] ss[i + 1].is_ready_spec() == (
    ss[i].is_ready_spec() || outcomes[i])
}

proof fn lemma_init_prefix(ss: Seq<LocalStoreStatus>, outcomes: Seq<bool>, k: int)
    requires
        init_run(ss, outcomes),
        0 <= k <= outcomes.len(),
    ensures
        ss[k].is_ready_spec() == outcomes.take(k).contains(true),
    decreases k,
{
    if k == 0 {
        assert(outcomes.take(0) =~= Seq::<bool>::empty());
    } else {
        lemma_init_prefix(ss, outcomes, k - 1);
        let j = k - 1;
        assert(ss[j + 1].is_ready_spec() == (ss[j].is_ready_spec() || outcomes[j]));
        let t = outcomes.take(k);
        assert(t =~= outcomes.take(j).push(outcomes[j]));
        if outcomes.take(j).contains(true) {
            let w = choose|w: int| 0 <= w < outcomes.take(j).len() && outcomes.take(j)[w] == true;
            assert(t[w] == true);
        }
        if outcomes[j] {
            assert(t[j] == true);
        }
        if t.contains(true) {
            let w = choose|w: int| 0 <= w < t.len() && t[w] == true;
            if w < j {
                assert(outcomes.take(j)[w] == true);
            }
        }
    }
}

/// The store is ready exactly when some initialisation succeeded: failed
/// ones never make it ready, and once ready it never becomes unready.
pub proof fn ready_iff_some_init_succeeded(ss: Seq<LocalStoreStatus>, outcomes: Seq<bool>)
    requires
        init_run(ss, outcomes),
    ensures
        ss.last().is_ready_spec() == outcomes.contains(true),
        forall|i: int, j: int|
            0 <= i <= j < ss.len() && #[trigger] ss[i].is_ready_spec() ==> #[trigger] ss[j].is_ready_spec(),
{
    lemma_init_prefix(ss, outcomes, outcomes.len() as int);
    assert(outcomes.take(outcomes.len() as int) =~= outcomes);
    assert forall|i: int, j: int|
        0 <= i <= j < ss.len() && #[trigger] ss[i].is_ready_spec() implies #[trigger] ss[j].is_ready_spec() by {
        lemma_init_prefix(ss, outcomes, i);
        lemma_init_prefix(ss, outcomes, j);
        let w = choose|w: int| 0 <= w < outcomes.take(i).len() && outcomes.take(i)[w] == true;
        assert(outcomes.take(j)[w] == true);
    }
}

/// Whether the local store is ready for use.
pub fn is_ready(store: &LocalStoreStatus) -> (b: bool)
    ensures
        b == store.is_ready_spec(),
{
    store.ready
}

/// The profile of the signed-in Google account.
#[derive(Clone, Debug, PartialEq)]
pub struct GoogleUserProfile {
    pub email: Option<String>,
    pub name: Option<String>,
    pub picture: Option<String>,
}

/// Background sync interval in minutes when unset (0 = off).
pub fn default_auto_sync_minutes() -> (r: u32)
    ensures
        r == 0,
{
    0
}

/// The calendar view when unset.
pub fn default_agenda_view() -> (r: String)
    ensures
        r@ == "month"@,
{
    "month".to_owned()
}

/// The value of boolean settings that default to on.
pub fn default_true() -> (r: bool)
    ensures
        r,
{
    true
}

/// Whether the main window hides instead of closing: the `closeToTray`
/// setting, off when the configuration cannot be read.
pub fn hide_on_close(close_to_tray: Option<bool>) -> (b: bool)
    ensures
        b == (close_to_tray == Some(true)),
{
    match close_to_tray {
        Some(v) => v,
        None => false,
    }
}

/// Declares `std::time::SystemTime` for the clock wrappers.
#[verifier::external_type_specification]
#[verifier::external_body]
pub struct ExSystemTime(std::time::SystemTime);

/// Calls `std::time::SystemTime::now`. Nothing is promised of the time read.
#[verifier::external_body]
fn system_now() -> std::time::SystemTime {
    std::time::SystemTime::now()
}

/// Calls `SystemTime::duration_since(UNIX_EPOCH)` and reads the result in
/// whole milliseconds; `None` for a time before the epoch. Nothing more is
/// promised.
#[verifier::external_body]
fn millis_since_epoch(t: std::time::SystemTime) -> Option<u128> {
    t.duration_since(std::time::UNIX_EPOCH).ok().map(|d| d.as_millis())
}

/// Milliseconds as stored: truncated to `i64`; 0 for a clock before the epoch.
pub fn millis_as_i64(ms: Option<u128>) -> (r: i64)
    ensures
        r == match ms {
            Some(m) => m as i64,
            None => 0i64,
        },
{
    match ms {
        Some(m) => m as i64,
        None => 0,
    }
}

/// The current time in milliseconds since the Unix epoch (0 if the clock is
/// before the epoch). The value is the clock's reading, converted by
/// `millis_as_i64`; since any `i64` can be that reading, no contract is given.
pub fn now_ms() -> i64 {
    millis_as_i64(millis_since_epoch(system_now()))
}

/// Whether the diagnostic log file is written (`AGENDA_WORKERW_FILE_LOG` is not `0`).
pub fn file_logging_enabled(env: &Option<String>) -> (b: bool)
    ensures
        b == (opt_str(*env) != Some("0"@)),
{
    match env {
        Some(s) => !crate::text::str_eq(s.as_str(), "0"),
        None => true,
    }
}

/// One line of the diagnostic log: timestamp, tag, message, newline.
pub fn workerw_log_line(timestamp: &str, msg: &str) -> (r: String)
    ensures
        r@ == timestamp@ + " [agenda] workerw_file "@ + msg@ + "\n"@,
{
    let a = concat(timestamp, " [agenda] workerw_file ");
    let b = concat(a.as_str(), msg);
    concat(b.as_str(), "\n")
}

/// One line of the supervisor's log: timestamp, tag, message, newline.
pub fn watchdog_log_line(timestamp: &str, msg: &str) -> (r: String)
    ensures
        r@ == timestamp@ + " [agenda] watchdog "@ + msg@ + "\n"@,
{
    let a = concat(timestamp, " [agenda] watchdog ");
    let b = concat(a.as_str(), msg);
    concat(b.as_str(), "\n")
}

} // verus!
