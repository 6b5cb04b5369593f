use calendario_app::wallpaper::{
    anchor_plan, check_reparent, classify_wallpaper_heal, clear_wallpaper_chrome_cache,
    find_workerw, hwnd_needs_show_unminimize, record_wallpaper_chrome_applied,
    setting_change_schedules, square_region_size, wms_c0_triggers_reanchor,
    workerw_debug_enabled, AnchorPlan, HealObservation, ProgmanChild, WallpaperHealKind,
};
use calendario_app::autostart::{run_value_for_path, strip_verbatim_prefix};

fn healthy() -> HealObservation {
    HealObservation { window_alive: true, parent: 42, parent_alive: true, workerw: Some((42, true)), iconic: false, visible: true }
}

#[test]
fn heal_classification() {
    assert_eq!(classify_wallpaper_heal(healthy()), WallpaperHealKind::Nothing);
    assert_eq!(classify_wallpaper_heal(HealObservation { iconic: true, ..healthy() }), WallpaperHealKind::LightVisibility);
    assert_eq!(classify_wallpaper_heal(HealObservation { visible: false, ..healthy() }), WallpaperHealKind::LightVisibility);
    assert_eq!(classify_wallpaper_heal(HealObservation { window_alive: false, ..healthy() }), WallpaperHealKind::FullReparent);
    assert_eq!(classify_wallpaper_heal(HealObservation { parent_alive: false, ..healthy() }), WallpaperHealKind::FullReparent);
    assert_eq!(classify_wallpaper_heal(HealObservation { workerw: None, ..healthy() }), WallpaperHealKind::FullReparent);
    assert_eq!(classify_wallpaper_heal(HealObservation { workerw: Some((7, true)), ..healthy() }), WallpaperHealKind::FullReparent);
    assert_eq!(classify_wallpaper_heal(HealObservation { workerw: Some((42, false)), ..healthy() }), WallpaperHealKind::FullReparent);
    assert_eq!(
        classify_wallpaper_heal(HealObservation { parent: 0, parent_alive: false, workerw: Some((9, true)), ..healthy() }),
        WallpaperHealKind::FullReparent
    );
    assert!(hwnd_needs_show_unminimize(true, true));
    assert!(!hwnd_needs_show_unminimize(false, true));
}

#[test]
fn anchoring_plans_and_chrome_cache() {
    let mut cache: Option<(bool, bool)> = None;
    assert_eq!(anchor_plan(true, 5, Some((5, true)), cache, true, true), Ok(AnchorPlan::Resync));
    assert_eq!(anchor_plan(true, 0, Some((5, true)), cache, true, true), Ok(AnchorPlan::Reparent { skip_chrome: false }));
    record_wallpaper_chrome_applied(&mut cache, true, false);
    assert_eq!(cache, Some((true, false)));
    assert_eq!(anchor_plan(true, 0, Some((5, true)), cache, true, false), Ok(AnchorPlan::Reparent { skip_chrome: true }));
    assert_eq!(anchor_plan(true, 0, Some((5, true)), cache, true, true), Ok(AnchorPlan::Reparent { skip_chrome: false }));
    clear_wallpaper_chrome_cache(&mut cache);
    assert_eq!(cache, None);
    assert_eq!(anchor_plan(false, 0, Some((5, true)), cache, true, true), Err("HWND principal inválido antes de ancorar ao WorkerW.".to_string()));
    assert_eq!(anchor_plan(true, 0, None, cache, true, true), Err("Camada WorkerW não encontrada.".to_string()));
    assert_eq!(anchor_plan(true, 0, Some((5, false)), cache, true, true), Err("WorkerW inválido (janela destruída).".to_string()));
    assert_eq!(check_reparent(true, true, 5, 5), Ok(()));
    assert_eq!(check_reparent(true, true, 4, 5), Err("SetParent não fixou o pai esperado (WorkerW).".to_string()));
    assert_eq!(check_reparent(false, true, 5, 5), Err("HWND inválido após SetParent (WorkerW ou janela principal).".to_string()));
}

#[test]
fn workerw_search_and_settings() {
    let kids = vec![
        ProgmanChild { has_icon_view: true, class_name: Some("WorkerW".to_string()) },
        ProgmanChild { has_icon_view: false, class_name: None },
        ProgmanChild { has_icon_view: false, class_name: Some("Other".to_string()) },
        ProgmanChild { has_icon_view: false, class_name: Some("WorkerW".to_string()) },
    ];
    assert_eq!(find_workerw(&kids), Some(3));
    let mut first_three = kids;
    first_three.pop();
    assert_eq!(find_workerw(&first_three), None);
    assert!(setting_change_schedules(0x14, false));
    assert!(setting_change_schedules(0, true));
    assert!(!setting_change_schedules(0, false));
    assert!(!setting_change_schedules(0x2F, true));
    assert!(wms_c0_triggers_reanchor(&None));
    assert!(!wms_c0_triggers_reanchor(&Some("0".to_string())));
    assert!(workerw_debug_enabled(false, &Some("1".to_string())));
    assert!(!workerw_debug_enabled(false, &Some("yes".to_string())));
    assert!(workerw_debug_enabled(true, &None));
    assert_eq!(square_region_size(10, 10, 110, 60), Ok((100, 50)));
    assert_eq!(square_region_size(10, 10, 10, 60), Err("Dimensão da janela inválida.".to_string()));
}

#[test]
fn run_value_for_executable() {
    assert_eq!(strip_verbatim_prefix("\\\\?\\C:\\Program Files\\Agenda.exe"), "C:\\Program Files\\Agenda.exe");
    assert_eq!(strip_verbatim_prefix("\\\\?\\UNC\\server\\share\\a.exe"), "\\\\?\\UNC\\server\\share\\a.exe");
    assert_eq!(strip_verbatim_prefix("C:\\a.exe"), "C:\\a.exe");
    assert_eq!(run_value_for_path("\\\\?\\C:\\Program Files\\Agenda.exe"), "\"C:\\Program Files\\Agenda.exe\"");
    assert_eq!(run_value_for_path("C:\\we\"ird.exe"), "\"C:\\we\"\"ird.exe\"");
}
