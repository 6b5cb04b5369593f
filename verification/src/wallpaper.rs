//! Decisions of the "behind the desktop icons" mode: when to re-anchor the
//! main window to the desktop's WorkerW layer, when to redo its frame style,
//! and which desktop-setting changes call for a re-anchor.

use vstd::prelude::*;
use crate::text::{str_eq, chars_of};
use crate::model::opt_str;

verus! {

/// What the periodic re-anchoring has to do.
#[derive(Clone, Copy, PartialEq, Eq, Structural, Debug)]
pub enum WallpaperHealKind {
    /// Already anchored to the current WorkerW and visible.
    Nothing,
    /// Right parent; only make the window visible again.
    LightVisibility,
    /// Re-parent (or the WorkerW is missing): the full anchoring path.
    FullReparent,
}

/// What the system reports about the main window and the desktop layers.
/// Window handles are numbers; `0` is no window.
#[derive(Clone, Copy)]
pub struct HealObservation {
    /// The main window still exists.
    pub window_alive: bool,
    /// The main window's parent (`0` for none).
    pub parent: usize,
    /// The parent still exists.
    pub parent_alive: bool,
    /// The WorkerW layer found behind the icons, if any, and whether it exists.
    pub workerw: Option<(usize, bool)>,
    /// The main window is minimised.
    pub iconic: bool,
    /// The main window is visible.
    pub visible: bool,
}

/// The heal for an observation: a dead window, an orphaned parent, a missing
/// or dead WorkerW or another parent need the full path; a minimised or
/// hidden window under the right parent only needs to be shown.
pub open spec fn heal_spec(o: HealObservation) -> WallpaperHealKind {
    if !o.window_alive {
        WallpaperHealKind::FullReparent
    } else if o.parent != 0 && !o.parent_alive {
        WallpaperHealKind::FullReparent
    } else {
        match o.workerw {
            None => WallpaperHealKind::FullReparent,
            Some((w, alive)) => if !alive || o.parent != w {
                WallpaperHealKind::FullReparent
            } else if o.iconic || !o.visible {
                WallpaperHealKind::LightVisibility
            } else {
                WallpaperHealKind::Nothing
            },
        }
    }
}

/// Classifies what re-anchoring the main window needs.
pub fn classify_wallpaper_heal(o: HealObservation) -> (k: WallpaperHealKind)
    ensures
        k == heal_spec(o),
{
    if !o.window_alive {
        return WallpaperHealKind::FullReparent;
    }
    if o.parent != 0 && !o.parent_alive {
        return WallpaperHealKind::FullReparent;
    }
    match o.workerw {
        None => WallpaperHealKind::FullReparent,
        Some((w, alive)) => {
            if !alive || o.parent != w {
                WallpaperHealKind::FullReparent
            } else if o.iconic || !o.visible {
                WallpaperHealKind::LightVisibility
            } else {
                WallpaperHealKind::Nothing
            }
        },
    }
}

/// Whether a window should be shown and restored before anchoring it.
pub fn hwnd_needs_show_unminimize(iconic: bool, visible: bool) -> (b: bool)
    ensures
        b == (iconic || !visible),
{
    iconic || !visible
}

/// Records the frame style (rounded corners, border) last applied in the mode.
pub fn record_wallpaper_chrome_applied(cache: &mut Option<(bool, bool)>, rounded_corners: bool, show_border: bool)
    ensures
        *final(cache) == Some((rounded_corners, show_border)),
{
    *cache = Some((rounded_corners, show_border));
}

/// Forgets the frame style (on leaving the mode, or when the user changes it).
pub fn clear_wallpaper_chrome_cache(cache: &mut Option<(bool, bool)>)
    ensures
        *final(cache) == None::<(bool, bool)>,
{
    *cache = None;
}

/// How to anchor the main window behind the icons.
#[derive(Clone, Copy, PartialEq, Eq, Structural, Debug)]
pub enum AnchorPlan {
    /// Already a child of this WorkerW: only move it back into place and show it.
    Resync,
    /// Re-parent it; `skip_chrome` when the frame style applied last is the
    /// one asked for (then only record it).
    Reparent { skip_chrome: bool },
}

/// The plan, or the error, for anchoring: the window must exist, a WorkerW
/// must be found and exist; the same parent means a resync; a new parent
/// with the style applied last skips redoing the frame style.
pub open spec fn anchor_spec(
    window_alive: bool,
    parent_before: usize,
    workerw: Option<(usize, bool)>,
    cache: Option<(bool, bool)>,
    rounded: bool,
    border: bool,
) -> Result<AnchorPlan, Seq<char>> {
    if !window_alive {
        Err("HWND principal inválido antes de ancorar ao WorkerW."@)
    } else {
        match workerw {
            None => Err("Camada WorkerW não encontrada."@),
            Some((w, alive)) => if !alive {
                Err("WorkerW inválido (janela destruída)."@)
            } else if parent_before == w {
                Ok(AnchorPlan::Resync)
            } else {
                Ok(AnchorPlan::Reparent { skip_chrome: cache == Some((rounded, border)) })
            },
        }
    }
}

/// Decides how to anchor the main window behind the icons.
pub fn anchor_plan(
    window_alive: bool,
    parent_before: usize,
    workerw: Option<(usize, bool)>,
    cache: Option<(bool, bool)>,
    rounded: bool,
    border: bool,
) -> (r: Result<AnchorPlan, String>)
    ensures
        match r {
            Ok(p) => anchor_spec(window_alive, parent_before, workerw, cache, rounded, border)
                == Ok::<AnchorPlan, Seq<char>>(p),
            Err(e) => anchor_spec(window_alive, parent_before, workerw, cache, rounded, border)
                == Err::<AnchorPlan, Seq<char>>(e@),
        },
{
    if !window_alive {
        return Err("HWND principal inválido antes de ancorar ao WorkerW.".to_owned());
    }
    match workerw {
        None => Err("Camada WorkerW não encontrada.".to_owned()),
        Some((w, alive)) => {
            if !alive {
                Err("WorkerW inválido (janela destruída).".to_owned())
            } else if parent_before == w {
                Ok(AnchorPlan::Resync)
            } else {
                let skip = match cache {
                    Some((r, b)) => r == rounded && b == border,
                    None => false,
                };
                Ok(AnchorPlan::Reparent { skip_chrome: skip })
            }
        },
    }
}

/// The check after re-parenting: both windows must still exist and the new
/// parent must be the WorkerW.
pub fn check_reparent(parent_alive: bool, window_alive: bool, parent_after: usize, expected: usize) -> (r: Result<(), String>)
    ensures
        match r {
            Ok(_) => parent_alive && window_alive && parent_after == expected,
            Err(e) => if !parent_alive || !window_alive {
                e@ == "HWND inválido após SetParent (WorkerW ou janela principal)."@
            } else {
                parent_after != expected && e@ == "SetParent não fixou o pai esperado (WorkerW)."@
            },
        },
{
    if !parent_alive || !window_alive {
        return Err("HWND inválido após SetParent (WorkerW ou janela principal).".to_owned());
    }
    if parent_after != expected {
        return Err("SetParent não fixou o pai esperado (WorkerW).".to_owned());
    }
    Ok(())
}

/// Recording the style and then planning with the same style skips the frame
/// redo on a re-parent; after clearing, the frame is always redone.
pub proof fn chrome_cache_skip(rounded: bool, border: bool, parent_before: usize, w: usize)
    requires
        parent_before != w,
    ensures
        anchor_spec(true, parent_before, Some((w, true)), Some((rounded, border)), rounded, border)
            == Ok::<AnchorPlan, Seq<char>>(AnchorPlan::Reparent { skip_chrome: true }),
        anchor_spec(true, parent_before, Some((w, true)), None, rounded, border)
            == Ok::<AnchorPlan, Seq<char>>(AnchorPlan::Reparent { skip_chrome: false }),
{
}

/// A child of the desktop's Progman window, as the search for WorkerW sees it.
pub struct ProgmanChild {
    /// It holds the desktop icon view (`SHELLDLL_DefView`).
    pub has_icon_view: bool,
    /// Its window class name, when it could be read.
    pub class_name: Option<String>,
}

/// Whether a child is the WorkerW layer behind the icons.
pub open spec fn is_workerw_layer(c: ProgmanChild) -> bool {
    !c.has_icon_view && opt_str(c.class_name) == Some("WorkerW"@)
}

/// The first child that is a WorkerW without the icon view.
pub fn find_workerw(children: &Vec<ProgmanChild>) -> (r: Option<usize>)
    ensures
        match r {
            Some(i) => i < children@.len() && is_workerw_layer(children@[i as int]) && forall|k: int|
                0 <= k < i ==> !is_workerw_layer(#[trigger] children@[k]),
            None => forall|k: int| 0 <= k < children@.len() ==> !is_workerw_layer(#[trigger] children@[k]),
        },
{
    let mut i: usize = 0;
    while i < children.len()
        invariant
            i <= children@.len(),
            forall|k: int| 0 <= k < i ==> !is_workerw_layer(#[trigger] children@[k]),
        decreases children@.len() - i,
    {
        let c = &children[i];
        if !c.has_icon_view {
            match &c.class_name {
                Some(n) => {
                    if str_eq(n.as_str(), "WorkerW") {
                        return Some(i);
                    }
                },
                None => {},
            }
        }
        i = i + 1;
    }
    None
}

/// The region size for square corners: the window must have a positive width
/// and height.
pub fn square_region_size(left: i32, top: i32, right: i32, bottom: i32) -> (r: Result<(i32, i32), String>)
    requires
        i32::MIN <= right - left <= i32::MAX,
        i32::MIN <= bottom - top <= i32::MAX,
    ensures
        match r {
            Ok((w, h)) => w == right - left && h == bottom - top && w > 0 && h > 0,
            Err(e) => (right - left <= 0 || bottom - top <= 0) && e@ == "Dimensão da janela inválida."@,
        },
{
    let w = right - left;
    let h = bottom - top;
    if w <= 0 || h <= 0 {
        return Err("Dimensão da janela inválida.".to_owned());
    }
    Ok((w, h))
}

/// The `wParam` of `WM_SETTINGCHANGE` sent when the wallpaper changes
/// (`SPI_SETDESKWALLPAPER`).
pub const SPI_SETDESKWALLPAPER: u32 = 0x0014;

/// Whether a `WM_SETTINGCHANGE` calls for a (debounced) re-anchor: a wallpaper
/// change, or `wParam == 0` unless that branch is switched off.
pub fn setting_change_schedules(wparam: u32, wparam_zero_enabled: bool) -> (b: bool)
    ensures
        b == (wparam == SPI_SETDESKWALLPAPER || (wparam == 0 && wparam_zero_enabled)),
{
    wparam == SPI_SETDESKWALLPAPER || (wparam == 0 && wparam_zero_enabled)
}

/// Whether `wParam == 0` setting changes trigger a re-anchor
/// (`AGENDA_WORKERW_WMSC0` is not `0`).
pub fn wms_c0_triggers_reanchor(env: &Option<String>) -> (b: bool)
    ensures
        b == (opt_str(*env) != Some("0"@)),
{
    match env {
        Some(s) => !str_eq(s.as_str(), "0"),
        None => true,
    }
}

/// Whether the WorkerW diagnostics are on: a debug build, or
/// `AGENDA_WORKERW_DEBUG` is `1`.
pub fn workerw_debug_enabled(debug_build: bool, env: &Option<String>) -> (b: bool)
    ensures
        b == (debug_build || opt_str(*env) == Some("1"@)),
{
    if debug_build {
        return true;
    }
    match env {
        Some(s) => str_eq(s.as_str(), "1"),
        None => false,
    }
}

} // verus!
