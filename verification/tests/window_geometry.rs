use desktop_todo::product_window::{
    expanded_placement, orb_placement, point_in_area, ProductWindowRuntime, product_window_resizable, select_work_area, sidebar_x, snap_side, validate_window_rect, window_drag_allowed,
    WindowRect, WorkArea,
};
use desktop_todo::settings::{FloatingPresentation, ProductSettings, ProductWindowMode, SidebarSide};

fn primary() -> WorkArea {
    WorkArea { identity: None, x: 0, y: 0, width: 1920, height: 1040 }
}

#[test]
fn sidebar_is_resizable_and_other_presentations_stay_fixed() {
    let expanded = ProductSettings {
        floating_presentation: FloatingPresentation::Expanded,
        locked: false,
        ..ProductSettings::default()
    };
    assert!(product_window_resizable(ProductWindowMode::Sidebar, &expanded));
    let locked = ProductSettings { locked: true, ..expanded.clone() };
    assert!(product_window_resizable(ProductWindowMode::Sidebar, &locked));
    assert!(product_window_resizable(ProductWindowMode::Floating, &expanded));
    assert!(!product_window_resizable(ProductWindowMode::Floating, &locked));
    let collapsed = ProductSettings { floating_presentation: FloatingPresentation::Collapsed, ..expanded };
    assert!(!product_window_resizable(ProductWindowMode::Floating, &collapsed));
    assert!(product_window_resizable(ProductWindowMode::Desktop, &collapsed));
    let desktop_locked = ProductSettings { mode: ProductWindowMode::Desktop, locked: true, ..ProductSettings::default() };
    assert!(!product_window_resizable(ProductWindowMode::Desktop, &desktop_locked));
}

#[test]
fn locked_desktop_is_neither_draggable_nor_resizable() {
    let desktop = ProductSettings { mode: ProductWindowMode::Desktop, ..ProductSettings::default() };
    assert!(window_drag_allowed(&desktop));
    assert!(product_window_resizable(ProductWindowMode::Desktop, &desktop));
    let locked = ProductSettings { locked: true, ..desktop };
    assert!(!window_drag_allowed(&locked));
    assert!(!product_window_resizable(ProductWindowMode::Desktop, &locked));
}

#[test]
fn native_window_drag_is_eligible_for_unlocked_floating_and_desktop() {
    let mut settings = ProductSettings::default();
    assert!(window_drag_allowed(&settings));
    settings.locked = true;
    assert!(!window_drag_allowed(&settings));
    settings.locked = false;
    settings.mode = ProductWindowMode::Sidebar;
    assert!(!window_drag_allowed(&settings));
    settings.mode = ProductWindowMode::Desktop;
    assert!(window_drag_allowed(&settings));
}

#[test]
fn preserves_visible_saved_rect() {
    let saved = WindowRect { x: 120, y: 80, width: 620, height: 720 };
    assert_eq!(validate_window_rect(saved, &vec![primary()], &primary()), saved);
}

#[test]
fn recovers_fully_offscreen_rect_to_primary_work_area() {
    let saved = WindowRect { x: 5000, y: 5000, width: 620, height: 720 };
    assert_eq!(
        validate_window_rect(saved, &vec![primary()], &primary()),
        WindowRect { x: 32, y: 32, width: 620, height: 720 }
    );
}

#[test]
fn recovered_rect_is_clamped_to_the_fallback_area_and_minimum_size() {
    let small = WorkArea { identity: None, x: 100, y: 50, width: 400, height: 300 };
    let saved = WindowRect { x: -9000, y: -9000, width: 2000, height: 2000 };
    assert_eq!(
        validate_window_rect(saved, &vec![small.clone()], &small),
        WindowRect { x: 132, y: 82, width: 368, height: 500 }
    );
}

#[test]
fn detects_left_and_right_edge_snap() {
    assert_eq!(snap_side(8, 200, 620, &vec![primary()]), Some(SidebarSide::Left));
    assert_eq!(snap_side(1292, 200, 620, &vec![primary()]), Some(SidebarSide::Right));
    assert_eq!(snap_side(600, 200, 620, &vec![primary()]), None);
}

#[test]
fn sidebar_sits_on_the_chosen_edge() {
    assert_eq!(sidebar_x(SidebarSide::Left, &primary(), 380), 0);
    assert_eq!(sidebar_x(SidebarSide::Right, &primary(), 380), 1540);
}

#[test]
fn monitor_identity_wins_over_stale_coordinates() {
    let secondary = WorkArea { identity: Some("DISPLAY-2".into()), x: 1920, y: 0, width: 1920, height: 1040 };
    let areas = vec![primary(), secondary];
    let points = vec![Some((200, 200)), Some((200, 200))];
    assert_eq!(select_work_area(Some("DISPLAY-2"), &areas, &points), Some(1));
    assert_eq!(select_work_area(None, &areas, &points), Some(0));
    assert_eq!(select_work_area(Some("DISPLAY-9"), &areas, &vec![None, None]), None);
}

#[test]
fn orb_defaults_to_the_bottom_right_corner_inside_its_area() {
    assert_eq!(orb_placement(&primary(), 56, 32, None, None), WindowRect { x: 1832, y: 952, width: 56, height: 56 });
    assert_eq!(orb_placement(&primary(), 84, 48, None, None), WindowRect { x: 1788, y: 908, width: 84, height: 84 });
    assert_eq!(orb_placement(&primary(), 56, 32, Some(5000), Some(-40)), WindowRect { x: 1864, y: 0, width: 56, height: 56 });
}

#[test]
fn smart_expansion_keeps_the_orb_corner_anchor_and_stays_visible() {
    let area = primary();
    let cases = [((40, 40), (40, 40)), ((1824, 40), (1260, 40)), ((40, 944), (40, 280)), ((1824, 944), (1260, 280))];
    for ((orb_x, orb_y), expected_origin) in cases {
        let orb = orb_placement(&area, 56, 32, Some(orb_x), Some(orb_y));
        let expanded = expanded_placement(&area, orb, 620, 720);
        assert_eq!((expanded.x, expanded.y), expected_origin);
        assert_eq!((expanded.width, expanded.height), (620, 720));
        assert!(expanded.x >= area.x && expanded.y >= area.y);
        assert!(expanded.x + expanded.width as i32 <= area.x + area.width as i32);
        assert!(expanded.y + expanded.height as i32 <= area.y + area.height as i32);
    }
}

#[test]
fn work_areas_contain_their_top_left_but_not_their_far_edge() {
    let area = primary();
    assert!(point_in_area(0, 0, &area));
    assert!(point_in_area(1919, 1039, &area));
    assert!(!point_in_area(1920, 10, &area));
    assert!(!point_in_area(-1, 10, &area));
}

#[test]
fn one_window_transition_applies_at_a_time() {
    let mut runtime = ProductWindowRuntime::new();
    assert!(!runtime.applying());
    assert!(runtime.begin("mode").is_ok());
    assert!(runtime.applying());
    assert_eq!(runtime.begin("mode"), Err("window mode transition already in progress".to_string()));
    runtime.end();
    assert!(!runtime.applying());
}

#[test]
fn geometry_holds_far_from_the_origin() {
    let far = WorkArea { identity: None, x: 2_000_000_000, y: -2_000_000_000, width: 1000, height: 800 };
    assert!(point_in_area(2_000_000_999, -1_999_999_201, &far));
    assert!(!point_in_area(2_000_001_000, -1_999_999_201, &far));
    let orb = orb_placement(&far, 64, 32, None, None);
    assert_eq!((orb.x, orb.y, orb.width), (2_000_000_904, -1_999_999_296, 64));
    assert_eq!(snap_side(2_000_000_010, -1_999_999_500, 300, &vec![far.clone()]), Some(SidebarSide::Left));
    // Far apart on opposite sides of the range, nothing overflows.
    assert_eq!(snap_side(i32::MIN, i32::MAX, u32::MAX, &vec![far]), None);
}
