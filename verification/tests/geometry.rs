use calendario_app::geometry::{
    clamp_outer_to_work_area, monitor_intersects_window_outer, pill_position_beside,
    should_adjust_window, window_outer_intersects_any_monitor, EdgeRect, MonitorArea, PhysRect,
};

fn rect(x: i32, y: i32, width: u32, height: u32) -> PhysRect {
    PhysRect { x, y, width, height }
}

fn same(a: PhysRect, b: PhysRect) -> bool {
    a.x == b.x && a.y == b.y && a.width == b.width && a.height == b.height
}

fn monitor(area: PhysRect, work_area: PhysRect) -> MonitorArea {
    MonitorArea { area, work_area }
}

#[test]
fn corner_heuristic_for_monitor() {
    let m = rect(0, 0, 1920, 1080);
    assert!(monitor_intersects_window_outer(m, rect(100, 100, 400, 300)));
    assert!(monitor_intersects_window_outer(m, rect(-300, -200, 400, 300)));
    assert!(!monitor_intersects_window_outer(m, rect(1920, 0, 400, 300)));
    assert!(!monitor_intersects_window_outer(m, rect(-500, -500, 100, 100)));
    assert!(monitor_intersects_window_outer(m, rect(1919, 1079, 10, 10)));
}

#[test]
fn window_off_every_monitor() {
    let ms = vec![
        monitor(rect(0, 0, 1920, 1080), rect(0, 0, 1920, 1040)),
        monitor(rect(1920, 0, 1280, 1024), rect(1920, 0, 1280, 984)),
    ];
    assert!(window_outer_intersects_any_monitor(&ms, rect(2000, 100, 300, 300)));
    assert!(!window_outer_intersects_any_monitor(&ms, rect(5000, 5000, 300, 300)));
    assert!(!window_outer_intersects_any_monitor(&vec![], rect(0, 0, 10, 10)));
}

#[test]
fn adjust_only_normal_visible_windows() {
    assert!(should_adjust_window(false, Some(true), Some(false), Some(false)));
    assert!(should_adjust_window(false, Some(true), Some(false), None));
    assert!(!should_adjust_window(true, Some(true), Some(false), Some(false)));
    assert!(!should_adjust_window(false, None, Some(false), Some(false)));
    assert!(!should_adjust_window(false, Some(true), None, Some(false)));
    assert!(!should_adjust_window(false, Some(true), Some(false), Some(true)));
}

#[test]
fn clamp_leaves_placed_window() {
    let ms = vec![monitor(rect(0, 0, 1920, 1080), rect(0, 0, 1920, 1040))];
    assert!(clamp_outer_to_work_area(&ms, rect(100, 100, 380, 520)).is_none());
    assert!(clamp_outer_to_work_area(&vec![], rect(100, 100, 380, 520)).is_none());
}

#[test]
fn clamp_shrinks_and_moves_into_work_area() {
    let ms = vec![monitor(rect(0, 0, 1920, 1080), rect(0, 0, 1920, 1040))];
    let r = clamp_outer_to_work_area(&ms, rect(1800, 900, 2500, 400)).unwrap();
    assert!(same(r, rect(0, 640, 1920, 400)));
    let r = clamp_outer_to_work_area(&ms, rect(-50, -20, 300, 300)).unwrap();
    assert!(same(r, rect(0, 0, 300, 300)));
}

#[test]
fn clamp_uses_monitor_holding_the_centre() {
    let ms = vec![
        monitor(rect(0, 0, 1920, 1080), rect(0, 0, 1920, 1040)),
        monitor(rect(1920, 0, 1280, 1024), rect(1920, 0, 1280, 984)),
    ];
    let r = clamp_outer_to_work_area(&ms, rect(2800, 100, 600, 400)).unwrap();
    assert!(same(r, rect(2600, 100, 600, 400)));
    let r = clamp_outer_to_work_area(&ms, rect(9000, 9000, 100, 100)).unwrap();
    assert!(same(r, rect(1820, 940, 100, 100)));
}

#[test]
fn clamp_minimum_size_of_small_work_area() {
    let ms = vec![monitor(rect(0, 0, 100, 100), rect(0, 0, 100, 100))];
    let r = clamp_outer_to_work_area(&ms, rect(0, 0, 500, 500)).unwrap();
    assert!(same(r, rect(0, 0, 160, 120)));
}

#[test]
fn clamp_twice_changes_nothing_more() {
    let ms = vec![monitor(rect(0, 0, 1920, 1080), rect(0, 40, 1920, 1040))];
    let first = clamp_outer_to_work_area(&ms, rect(1700, -100, 800, 2000)).unwrap();
    assert!(clamp_outer_to_work_area(&ms, first).is_none());
}

#[test]
fn pill_goes_inside_bottom_right_corner() {
    let main = EdgeRect { left: 100, top: 100, right: 500, bottom: 700 };
    assert_eq!(pill_position_beside(main, 20, 20, 0, 0, 1920, 1080), (476, 676));
    let big = EdgeRect { left: 0, top: 0, right: 1000, bottom: 800 };
    assert_eq!(pill_position_beside(big, 100, 40, 0, 0, 1920, 1080), (896, 756));
}

#[test]
fn pill_stays_on_virtual_screen() {
    let main = EdgeRect { left: 1800, top: 1000, right: 2100, bottom: 1200 };
    assert_eq!(pill_position_beside(main, 20, 20, 0, 0, 1920, 1080), (1900, 1060));
    let tiny = EdgeRect { left: 10, top: 10, right: 15, bottom: 15 };
    assert_eq!(pill_position_beside(tiny, 20, 20, 0, 0, 1920, 1080), (10, 10));
    let left = EdgeRect { left: -900, top: -900, right: -800, bottom: -800 };
    assert_eq!(pill_position_beside(left, 20, 20, -100, -50, 1920, 1080), (-100, -50));
}
