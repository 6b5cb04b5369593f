use calendario_app::watchdog::{
    backoff_cap_ms, backoff_initial_ms, choose_child_exe, desktop_behind_icons_from_configs,
    file_log_enabled, max_attempts, parse_args, pre_retry_delay_ms,
    pre_retry_delay_ms_from_configs, relaunch_on_clean_exit, user_quit_flag_exists, ChildExit,
    Supervisor, SupervisorAction,
};

fn args(v: &[&str]) -> Vec<String> {
    v.iter().map(|s| s.to_string()).collect()
}

fn some(s: &str) -> Option<String> {
    Some(s.to_string())
}

fn failed() -> ChildExit {
    ChildExit { success: false, user_quit_flag: false, desktop_behind_icons: false }
}

#[test]
fn command_line_child_and_help() {
    let a = parse_args(&args(&["--child", "C:\\A\\Agenda.exe", "x.exe"]));
    assert_eq!(a.child.as_deref(), Some("C:\\A\\Agenda.exe"));
    assert!(!a.show_help);
    let a = parse_args(&args(&["first.exe", "-v", "--child", "second.exe", "-h"]));
    assert_eq!(a.child.as_deref(), Some("second.exe"));
    assert!(a.show_help);
    let a = parse_args(&args(&["--child"]));
    assert_eq!(a.child, None);
    let a = parse_args(&args(&["-x", "--help", "prog.exe", "other.exe"]));
    assert_eq!(a.child.as_deref(), Some("prog.exe"));
    assert!(a.show_help);
}

#[test]
fn child_exe_resolution_order() {
    assert_eq!(choose_child_exe(some("a.exe"), true, some("b.exe"), true, some("c.exe")), Ok("a.exe".to_string()));
    assert_eq!(
        choose_child_exe(some("a.exe"), false, None, false, None),
        Err("Caminho inválido ou ficheiro em falta: a.exe".to_string())
    );
    assert_eq!(choose_child_exe(None, false, some("  b.exe "), true, some("c.exe")), Ok("b.exe".to_string()));
    assert_eq!(
        choose_child_exe(None, false, some(" b.exe"), false, some("c.exe")),
        Err("AGENDA_CHILD_EXE não aponta para um ficheiro: b.exe".to_string())
    );
    assert_eq!(choose_child_exe(None, false, None, false, some("c.exe")), Ok("c.exe".to_string()));
    assert!(choose_child_exe(None, false, None, false, None).is_err());
}

#[test]
fn environment_settings_with_ranges() {
    assert_eq!(max_attempts(&None), 5);
    assert_eq!(max_attempts(&some("7")), 7);
    assert_eq!(max_attempts(&some("+9")), 9);
    assert_eq!(max_attempts(&some("0")), 5);
    assert_eq!(max_attempts(&some("51")), 5);
    assert_eq!(max_attempts(&some(" 7")), 5);
    assert_eq!(max_attempts(&some("99999999999")), 5);
    assert_eq!(backoff_initial_ms(&None), 2000);
    assert_eq!(backoff_initial_ms(&some("100")), 100);
    assert_eq!(backoff_initial_ms(&some("99")), 2000);
    assert_eq!(backoff_cap_ms(&some("600000")), 600000);
    assert_eq!(backoff_cap_ms(&some("-1")), 60000);
}

#[test]
fn pre_retry_delay_sources() {
    assert_eq!(pre_retry_delay_ms(&some("750"), Some(20)), 750);
    assert_eq!(pre_retry_delay_ms(&some("10001"), Some(20)), 20);
    assert_eq!(pre_retry_delay_ms(&some("abc"), None), 0);
    assert_eq!(pre_retry_delay_ms(&None, Some(300)), 300);
    assert_eq!(pre_retry_delay_ms_from_configs(&vec![None, Some(50_000), Some(5)]), Some(10_000));
    assert_eq!(pre_retry_delay_ms_from_configs(&vec![None, None]), None);
}

#[test]
fn flags_and_switches() {
    assert!(desktop_behind_icons_from_configs(&vec![Some(true), Some(false)]));
    assert!(!desktop_behind_icons_from_configs(&vec![None, Some(true)]));
    assert!(!desktop_behind_icons_from_configs(&vec![]));
    assert!(relaunch_on_clean_exit(&some("1")));
    assert!(relaunch_on_clean_exit(&some("TrUe")));
    assert!(!relaunch_on_clean_exit(&some("yes")));
    assert!(!relaunch_on_clean_exit(&None));
    assert!(user_quit_flag_exists(&vec![false, true]));
    assert!(!user_quit_flag_exists(&vec![false, false]));
    assert!(file_log_enabled(&None));
    assert!(!file_log_enabled(&some("0")));
}

#[test]
fn failures_relaunch_with_doubling_capped_backoff() {
    let mut s = Supervisor::new(5, 2000, 5000, false);
    let mut sleeps = Vec::new();
    loop {
        match s.on_child_exit(failed()) {
            SupervisorAction::Retry { backoff_ms } => sleeps.push(backoff_ms),
            other => {
                assert!(other == SupervisorAction::EndMaxAttempts);
                break;
            }
        }
    }
    assert_eq!(sleeps, vec![2000, 4000, 5000, 5000]);
    assert_eq!(s.attempt, 5);
}

#[test]
fn clean_exit_ends_the_session() {
    let mut s = Supervisor::new(5, 2000, 60000, false);
    let exit = ChildExit { success: true, user_quit_flag: false, desktop_behind_icons: false };
    assert!(s.on_child_exit(exit) == SupervisorAction::EndCleanExit);
    let quit = ChildExit { success: true, user_quit_flag: true, desktop_behind_icons: true };
    assert!(s.on_child_exit(quit) == SupervisorAction::EndAfterUserQuit);
    assert_eq!(s.attempt, 1);
}

#[test]
fn clean_exit_in_wallpaper_mode_relaunches() {
    let mut s = Supervisor::new(2, 100, 60000, false);
    let exit = ChildExit { success: true, user_quit_flag: false, desktop_behind_icons: true };
    assert!(s.on_child_exit(exit) == SupervisorAction::Retry { backoff_ms: 100 });
    assert!(s.on_child_exit(exit) == SupervisorAction::EndMaxAttempts);
}

#[test]
fn relaunch_on_zero_treats_success_as_failure() {
    let mut s = Supervisor::new(3, 1000, 60000, true);
    let quit = ChildExit { success: true, user_quit_flag: true, desktop_behind_icons: false };
    assert!(s.on_child_exit(quit) == SupervisorAction::Retry { backoff_ms: 1000 });
    assert_eq!(s.backoff_ms, 2000);
}

#[test]
fn backoff_saturates() {
    let mut s = Supervisor::new(3, u64::MAX - 1, u64::MAX, false);
    assert!(s.on_child_exit(failed()) == SupervisorAction::Retry { backoff_ms: u64::MAX - 1 });
    assert_eq!(s.backoff_ms, u64::MAX);
}

#[test]
fn first_backoff_is_capped() {
    let mut s = Supervisor::new(5, 120_000, 500, false);
    assert_eq!(s.backoff_ms, 500);
    assert!(s.on_child_exit(failed()) == SupervisorAction::Retry { backoff_ms: 500 });
    assert!(s.on_child_exit(failed()) == SupervisorAction::Retry { backoff_ms: 500 });
}
