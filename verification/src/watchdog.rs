//! Restart policy of the crash supervisor that launches the main program,
//! waits for it and relaunches it after a failure, with exponential backoff.

use vstd::prelude::*;
use crate::text::{
    ascii_lower_spec, chars_eq, chars_of, concat, parse_unsigned, parse_unsigned_spec,
    str_eq, to_ascii_lowercase, trim, trim_spec,
};

verus! {

/// What the command line asks for: the program to supervise and whether help
/// was requested.
#[derive(Clone, Debug, PartialEq)]
pub struct WatchdogArgs {
    pub child: Option<String>,
    pub show_help: bool,
}

/// Reading the arguments from index `i` on, with what was read so far:
/// `--help`/`-h` asks for help; `--child` takes the next argument as the
/// program (replacing an earlier one); the first argument that does not start
/// with `-` is the program when none was given yet; anything else is ignored.
pub open spec fn args_from(args: Seq<Seq<char>>, i: int, child: Option<Seq<char>>, help: bool) -> (Option<Seq<char>>, bool)
    decreases args.len() - i,
{
    if i < 0 || i >= args.len() {
        (child, help)
    } else {
        let a = args[i];
        if a == "--help"@ || a == "-h"@ {
            args_from(args, i + 1, child, true)
        } else if a == "--child"@ {
            if i + 1 < args.len() {
                args_from(args, i + 2, Some(args[i + 1]), help)
            } else {
                args_from(args, i + 1, child, help)
            }
        } else if child is None && !(a.len() > 0 && a[0] == '-') {
            args_from(args, i + 1, Some(a), help)
        } else {
            args_from(args, i + 1, child, help)
        }
    }
}

/// The texts of a list of arguments.
pub open spec fn arg_texts(args: Seq<String>) -> Seq<Seq<char>> {
    args.map_values(|a: String| a@)
}

/// Reads the command line (without the program name).
pub fn parse_args(args: &Vec<String>) -> (r: WatchdogArgs)
    ensures
        (crate::model::opt_str(r.child), r.show_help) == args_from(arg_texts(args@), 0, None, false),
{
    let ghost t = arg_texts(args@);
    let mut child: Option<String> = None;
    let mut help = false;
    let mut i: usize = 0;
    while i < args.len()
        invariant
            i <= args@.len(),
            t == arg_texts(args@),
            t.len() == args@.len(),
            args_from(t, 0, None, false) == args_from(t, i as int, crate::model::opt_str(child), help),
        decreases args@.len() - i,
    {
        let a = args[i].as_str();
        assert(t[i as int] == a@);
        if str_eq(a, "--help") || str_eq(a, "-h") {
            help = true;
            i = i + 1;
        } else if str_eq(a, "--child") {
            if i + 1 < args.len() {
                assert(t[i + 1] == args@[i + 1]@);
                child = Some(args[i + 1].clone());
                i = i + 2;
            } else {
                i = i + 1;
            }
        } else {
            let v = chars_of(a);
            let dash = v.len() > 0 && v[0] == '-';
            if child.is_none() && !dash {
                child = Some(args[i].clone());
            }
            i = i + 1;
        }
    }
    WatchdogArgs { child, show_help: help }
}

/// Which program to supervise: the one given on the command line (it must be
/// a file), else `AGENDA_CHILD_EXE` trimmed (it must be a file), else the
/// `Agenda.exe` / `calendario-app.exe` found beside the supervisor.
/// `env_is_file` is whether the trimmed `AGENDA_CHILD_EXE` names a file.
pub fn choose_child_exe(
    cli: Option<String>,
    cli_is_file: bool,
    env: Option<String>,
    env_is_file: bool,
    sibling: Option<String>,
) -> (r: Result<String, String>)
    ensures
        match cli {
            Some(p) => if cli_is_file {
                r matches Ok(x) && x@ == p@
            } else {
                r matches Err(m) && m@ == "Caminho inválido ou ficheiro em falta: "@ + p@
            },
            None => match env {
                Some(e) => if env_is_file {
                    r matches Ok(x) && x@ == trim_spec(e@)
                } else {
                    r matches Err(m) && m@ == "AGENDA_CHILD_EXE não aponta para um ficheiro: "@
                        + trim_spec(e@)
                },
                None => match sibling {
                    Some(s) => r matches Ok(x) && x@ == s@,
                    None => r is Err,
                },
            },
        },
{
    match cli {
        Some(p) => {
            if cli_is_file {
                Ok(p)
            } else {
                Err(concat("Caminho inválido ou ficheiro em falta: ", p.as_str()))
            }
        },
        None => match env {
            Some(e) => {
                let t = trim(e.as_str());
                if env_is_file {
                    Ok(t)
                } else {
                    Err(concat("AGENDA_CHILD_EXE não aponta para um ficheiro: ", t.as_str()))
                }
            },
            None => match sibling {
                Some(s) => Ok(s),
                None => Err(
                    "Não foi encontrado Agenda.exe nem calendario-app.exe na mesma pasta que o vigia. Usa --child ou AGENDA_CHILD_EXE.".to_owned(),
                ),
            },
        },
    }
}

/// A setting read from the environment: the parsed number when it parses and
/// lies in `[lo, hi]`, else the default `d`.
pub open spec fn ranged_setting(env: Option<Seq<char>>, max: nat, lo: nat, hi: nat, d: nat) -> nat {
    match env {
        Some(s) => match parse_unsigned_spec(s, max) {
            Some(n) => if lo <= n <= hi {
                n
            } else {
                d
            },
            None => d,
        },
        None => d,
    }
}

fn ranged(env: &Option<String>, max: u64, lo: u64, hi: u64, d: u64) -> (r: u64)
    ensures
        r as nat == ranged_setting(crate::model::opt_str(*env), max as nat, lo as nat, hi as nat, d as nat),
{
    match env {
        Some(s) => match parse_unsigned(s.as_str(), max) {
            Some(n) => if lo <= n && n <= hi {
                n
            } else {
                d
            },
            None => d,
        },
        None => d,
    }
}

/// Launch attempts per session (`AGENDA_WATCHDOG_MAX_ATTEMPTS`, 1–50, default 5).
pub fn max_attempts(env: &Option<String>) -> (r: u32)
    ensures
        r as nat == ranged_setting(crate::model::opt_str(*env), u32::MAX as nat, 1, 50, 5),
        1 <= r <= 50,
{
    ranged(env, 0xFFFF_FFFF, 1, 50, 5) as u32
}

/// First backoff in ms (`AGENDA_WATCHDOG_BACKOFF_MS`, 100–120000, default 2000).
pub fn backoff_initial_ms(env: &Option<String>) -> (r: u64)
    ensures
        r as nat == ranged_setting(crate::model::opt_str(*env), u64::MAX as nat, 100, 120_000, 2000),
{
    ranged(env, 0xFFFF_FFFF_FFFF_FFFF, 100, 120_000, 2000)
}

/// Backoff ceiling in ms (`AGENDA_WATCHDOG_BACKOFF_CAP_MS`, 500–600000, default 60000).
pub fn backoff_cap_ms(env: &Option<String>) -> (r: u64)
    ensures
        r as nat == ranged_setting(crate::model::opt_str(*env), u64::MAX as nat, 500, 600_000, 60_000),
{
    ranged(env, 0xFFFF_FFFF_FFFF_FFFF, 500, 600_000, 60_000)
}

/// The delay set in the first readable `config.json` that has one, at most 10000 ms.
pub open spec fn configured_delay(cfgs: Seq<Option<u64>>) -> Option<u64>
    decreases cfgs.len(),
{
    if cfgs.len() == 0 {
        None
    } else {
        match cfgs[0] {
            Some(ms) => Some(if ms < 10_000 {
                ms
            } else {
                10_000
            }),
            None => configured_delay(cfgs.drop_first()),
        }
    }
}

/// The `watchdogPreRetryDelayMs` of the first readable config file that sets
/// it (`cfgs` holds that field of each readable file, in search order), at
/// most 10000 ms.
pub fn pre_retry_delay_ms_from_configs(cfgs: &Vec<Option<u64>>) -> (r: Option<u64>)
    ensures
        r == configured_delay(cfgs@),
{
    let mut i: usize = 0;
    proof {
        assert(cfgs@.subrange(0, cfgs@.len() as int) =~= cfgs@);
    }
    while i < cfgs.len()
        invariant
            i <= cfgs@.len(),
            configured_delay(cfgs@) == configured_delay(cfgs@.subrange(i as int, cfgs@.len() as int)),
        decreases cfgs@.len() - i,
    {
        let ghost rest = cfgs@.subrange(i as int, cfgs@.len() as int);
        assert(rest[0] == cfgs@[i as int]);
        match cfgs[i] {
            Some(ms) => {
                return Some(
                    if ms < 10_000 {
                        ms
                    } else {
                        10_000
                    },
                );
            },
            None => {},
        }
        assert(rest.drop_first() =~= cfgs@.subrange(i as int + 1, cfgs@.len() as int));
        i = i + 1;
    }
    None
}

/// The delay before a relaunch after a failure: `AGENDA_WATCHDOG_PRE_RETRY_DELAY_MS`
/// when it parses and is at most 10000, else the configured delay, else 0.
pub open spec fn pre_retry_delay_spec(env: Option<Seq<char>>, configured: Option<u64>) -> nat {
    let from_env = match env {
        Some(s) => match parse_unsigned_spec(s, u64::MAX as nat) {
            Some(n) => if n <= 10_000 {
                Some(n)
            } else {
                None
            },
            None => None,
        },
        None => None,
    };
    match from_env {
        Some(n) => n,
        None => match configured {
            Some(c) => c as nat,
            None => 0,
        },
    }
}

/// The delay in ms before the backoff that follows a failure.
pub fn pre_retry_delay_ms(env: &Option<String>, configured: Option<u64>) -> (r: u64)
    ensures
        r as nat == pre_retry_delay_spec(crate::model::opt_str(*env), configured),
{
    match env {
        Some(s) => match parse_unsigned(s.as_str(), 0xFFFF_FFFF_FFFF_FFFF) {
            Some(n) => if n <= 10_000 {
                return n;
            },
            None => {},
        },
        None => {},
    }
    match configured {
        Some(c) => c,
        None => 0,
    }
}

/// Whether the desktop-behind-icons mode is on, as the first readable config
/// file says (`cfgs` holds that field of each readable file, in search order);
/// off when no file is readable or the field is absent.
pub fn desktop_behind_icons_from_configs(cfgs: &Vec<Option<bool>>) -> (b: bool)
    ensures
        b == (cfgs@.len() > 0 && cfgs@[0] == Some(true)),
{
    if cfgs.len() == 0 {
        false
    } else {
        match cfgs[0] {
            Some(v) => v,
            None => false,
        }
    }
}

/// Whether a clean exit is treated as a failure
/// (`AGENDA_WATCHDOG_RELUNCH_ON_ZERO` is `1` or, in any letter case, `true`).
pub fn relaunch_on_clean_exit(env: &Option<String>) -> (b: bool)
    ensures
        b == match crate::model::opt_str(*env) {
            Some(s) => s == "1"@ || ascii_lower_spec(s) == "true"@,
            None => false,
        },
{
    match env {
        Some(s) => {
            if str_eq(s.as_str(), "1") {
                return true;
            }
            let l = to_ascii_lowercase(s.as_str());
            let t = chars_of("true");
            chars_eq(&l, &t)
        },
        None => false,
    }
}

/// Whether one of the "user chose Quit" flag files exists.
pub fn user_quit_flag_exists(flags: &Vec<bool>) -> (b: bool)
    ensures
        b == flags@.contains(true),
{
    let mut i: usize = 0;
    while i < flags.len()
        invariant
            i <= flags@.len(),
            forall|k: int| 0 <= k < i ==> !flags@[k],
        decreases flags@.len() - i,
    {
        if flags[i] {
            return true;
        }
        i = i + 1;
    }
    false
}

/// Whether the supervisor writes its log file (`AGENDA_WATCHDOG_LOG` is not `0`).
pub fn file_log_enabled(env: &Option<String>) -> (b: bool)
    ensures
        b == (crate::model::opt_str(*env) != Some("0"@)),
{
    match env {
        Some(s) => !str_eq(s.as_str(), "0"),
        None => true,
    }
}

/// How the supervised program ended, and what the supervisor then read.
#[derive(Clone, Copy)]
pub struct ChildExit {
    /// The exit status was success.
    pub success: bool,
    /// A "user chose Quit" flag file exists.
    pub user_quit_flag: bool,
    /// The configuration has the desktop-behind-icons mode on.
    pub desktop_behind_icons: bool,
}

/// What the supervisor does after the program ends.
#[derive(Clone, Copy, PartialEq, Eq, Structural)]
pub enum SupervisorAction {
    /// The user quit: remove the flag files and end with success.
    EndAfterUserQuit,
    /// A clean exit: end with success.
    EndCleanExit,
    /// The last attempt failed: end with failure.
    EndMaxAttempts,
    /// Sleep `backoff_ms` (after the pre-retry delay) and launch again.
    Retry { backoff_ms: u64 },
}

/// The supervisor's session: which launch this is, the attempt limit and the
/// current backoff.
#[derive(Clone, Copy)]
pub struct Supervisor {
    pub attempt: u32,
    pub max_attempts: u32,
    pub backoff_ms: u64,
    pub cap_ms: u64,
    pub relaunch_on_zero: bool,
}

/// The backoff after `b`: doubled (saturating) and capped.
pub open spec fn next_backoff(b: u64, cap: u64) -> u64 {
    let d: int = if 2 * b > u64::MAX {
        u64::MAX as int
    } else {
        2 * b
    };
    if d < cap {
        d as u64
    } else {
        cap
    }
}

/// One step of the supervisor: the action for an exit, and the next session state.
pub open spec fn supervise_step(s: Supervisor, e: ChildExit) -> (Supervisor, SupervisorAction) {
    let clean = e.success && !s.relaunch_on_zero;
    if clean && e.user_quit_flag {
        (s, SupervisorAction::EndAfterUserQuit)
    } else if clean && !e.desktop_behind_icons {
        (s, SupervisorAction::EndCleanExit)
    } else if s.attempt >= s.max_attempts {
        (s, SupervisorAction::EndMaxAttempts)
    } else {
        (
            Supervisor {
                attempt: (s.attempt + 1) as u32,
                backoff_ms: next_backoff(s.backoff_ms, s.cap_ms),
                ..s
            },
            SupervisorAction::Retry { backoff_ms: s.backoff_ms },
        )
    }
}

impl Supervisor {
    /// Whether the attempt counter is within the limit and the next backoff
    /// is not above the cap.
    pub open spec fn wf(self) -> bool {
        &&& 1 <= self.attempt <= self.max_attempts
        &&& self.backoff_ms <= self.cap_ms
    }

    /// The state before the first launch: the first backoff is the initial
    /// one, capped.
    pub fn new(max_attempts: u32, backoff_initial_ms: u64, cap_ms: u64, relaunch_on_zero: bool) -> (s: Supervisor)
        requires
            max_attempts >= 1,
        ensures
            s.wf(),
            s == (Supervisor {
                attempt: 1,
                max_attempts,
                backoff_ms: if backoff_initial_ms < cap_ms {
                    backoff_initial_ms
                } else {
                    cap_ms
                },
                cap_ms,
                relaunch_on_zero,
            }),
    {
        let first = if backoff_initial_ms < cap_ms {
            backoff_initial_ms
        } else {
            cap_ms
        };
        Supervisor { attempt: 1, max_attempts, backoff_ms: first, cap_ms, relaunch_on_zero }
    }

    /// Decides what follows an exit of the program, and advances the session.
    /// A clean exit ends the session, unless the desktop-behind-icons mode is
    /// on and the user did not quit (then it counts as a failure), or clean
    /// exits are treated as failures. A failure relaunches after the backoff,
    /// until the attempt limit.
    pub fn on_child_exit(&mut self, e: ChildExit) -> (a: SupervisorAction)
        requires
            old(self).wf(),
        ensures
            final(self).wf(),
            (*final(self), a) == supervise_step(*old(self), e),
    {
        let clean = e.success && !self.relaunch_on_zero;
        if clean && e.user_quit_flag {
            return SupervisorAction::EndAfterUserQuit;
        }
        if clean && !e.desktop_behind_icons {
            return SupervisorAction::EndCleanExit;
        }
        if self.attempt >= self.max_attempts {
            return SupervisorAction::EndMaxAttempts;
        }
        let slept = self.backoff_ms;
        let doubled: u64 = if self.backoff_ms > 0x7FFF_FFFF_FFFF_FFFF {
            0xFFFF_FFFF_FFFF_FFFF
        } else {
            self.backoff_ms * 2
        };
        self.backoff_ms = if doubled < self.cap_ms {
            doubled
        } else {
            self.cap_ms
        };
        self.attempt = self.attempt + 1;
        SupervisorAction::Retry { backoff_ms: slept }
    }
}

/// The number of relaunches the supervisor makes for a series of exits,
/// until it ends the session (or the series ends).
pub open spec fn retries(s: Supervisor, exits: Seq<ChildExit>) -> nat
    decreases exits.len(),
{
    if exits.len() == 0 {
        0
    } else {
        let (n, a) = supervise_step(s, exits[0]);
        match a {
            SupervisorAction::Retry { .. } => 1 + retries(n, exits.drop_first()),
            _ => 0,
        }
    }
}

/// A session launches the program at most `max_attempts` times: whatever the
/// exits, the relaunches from attempt `k` number at most `max_attempts - k`.
pub proof fn launches_bounded(s: Supervisor, exits: Seq<ChildExit>)
    requires
        s.wf(),
    ensures
        retries(s, exits) <= s.max_attempts - s.attempt,
    decreases exits.len(),
{
    if exits.len() > 0 {
        let (n, a) = supervise_step(s, exits[0]);
        match a {
            SupervisorAction::Retry { .. } => {
                launches_bounded(n, exits.drop_first());
            },
            _ => {},
        }
    }
}

/// The backoff never rises above the cap once doubled, and grows while below it.
pub proof fn backoff_capped(b: u64, cap: u64)
    ensures
        next_backoff(b, cap) <= cap,
        b <= cap ==> b <= next_backoff(b, cap),
{
}

/// Every sleep before a relaunch is within the cap, the first one included,
/// and each one after the first is the previous one doubled (saturating) and
/// capped.
pub proof fn relaunch_sleeps_capped(s: Supervisor, e: ChildExit)
    requires
        s.wf(),
    ensures
        supervise_step(s, e).1 matches SupervisorAction::Retry { backoff_ms } ==> backoff_ms
            <= s.cap_ms && backoff_ms == s.backoff_ms && supervise_step(s, e).0.backoff_ms
            == next_backoff(backoff_ms, s.cap_ms),
        supervise_step(s, e).0.wf(),
{
}

/// A user's Quit always ends the session with success, whatever the attempt.
pub proof fn user_quit_ends_session(s: Supervisor, e: ChildExit)
    requires
        e.success,
        e.user_quit_flag,
        !s.relaunch_on_zero,
    ensures
        supervise_step(s, e).1 == SupervisorAction::EndAfterUserQuit,
{
}

/// A clean exit ends the session unless the desktop-behind-icons mode is on
/// (or clean exits are treated as failures): the supervisor does not loop.
pub proof fn clean_exit_ends_session(s: Supervisor, e: ChildExit)
    requires
        e.success,
        !s.relaunch_on_zero,
        !e.desktop_behind_icons,
    ensures
        supervise_step(s, e).1 == SupervisorAction::EndAfterUserQuit || supervise_step(s, e).1
            == SupervisorAction::EndCleanExit,
        supervise_step(s, e).0 == s,
{
}

/// A failed exit before the attempt limit always relaunches, after the
/// current backoff, and moves to the next attempt.
pub proof fn failure_relaunches_until_limit(s: Supervisor, e: ChildExit)
    requires
        !e.success,
        s.attempt < s.max_attempts,
    ensures
        supervise_step(s, e).1 == (SupervisorAction::Retry { backoff_ms: s.backoff_ms }),
        supervise_step(s, e).0.attempt == s.attempt + 1,
{
}

/// The delay before a relaunch is between 0 and 10000 ms, whatever the
/// environment variable and the configuration files hold.
pub proof fn pre_retry_delay_at_most_ten_seconds(env: Option<Seq<char>>, cfgs: Seq<Option<u64>>)
    ensures
        pre_retry_delay_spec(env, configured_delay(cfgs)) <= 10_000,
    decreases cfgs.len(),
{
    if cfgs.len() > 0 && cfgs[0] is None {
        pre_retry_delay_at_most_ten_seconds(env, cfgs.drop_first());
    }
}

} // verus!
