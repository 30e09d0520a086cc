use desktop_todo::platform::input::{
    capture_change,
    client_point_from_lparam, event_kind, is_forwarded_message, wheel_delta_from_wparam, MouseEventKind, WM_LBUTTONDOWN,
    WM_LBUTTONUP, WM_MOUSEMOVE, WM_MOUSEWHEEL, WM_RBUTTONDOWN, WM_RBUTTONUP,
};
use desktop_todo::platform::input_target::{covers, direct_child_process_ids, intercepts, is_webview_class, parking_spot, InputTargetReport, Rect, VirtualScreen};
use desktop_todo::platform::material::{resolve, PlatformCapabilities, RequestedMaterial, ResolvedMaterial};
use desktop_todo::platform::widget_frame::{
    alt_tab_eligible_from, is_widget_frame, taskbar_eligible_from, widget_ex_style, WidgetFrameReport, WS_CHILD,
    WS_EX_APPWINDOW, WS_EX_TOOLWINDOW,
};
use desktop_todo::platform::NativeHost;

#[test]
fn decodes_positive_client_coordinates() {
    let point = client_point_from_lparam(((120i32) << 16 | 40i32) as isize);
    assert_eq!((point.x, point.y), (40, 120));
}

#[test]
fn decodes_negative_client_coordinates() {
    let packed = ((0xfff7u32) << 16) | 0xfffbu32;
    let point = client_point_from_lparam(packed as isize);
    assert_eq!((point.x, point.y), (-5, -9));
}

#[test]
fn decodes_wheel_delta_for_both_directions() {
    let up = (120u16 as usize) << 16;
    let down = (0xff88u16 as usize) << 16;
    assert_eq!(wheel_delta_from_wparam(up), 120);
    assert_eq!(wheel_delta_from_wparam(down) as i32, -120);
}

#[test]
fn only_mouse_messages_are_forwarded() {
    for message in [WM_MOUSEMOVE, WM_LBUTTONDOWN, WM_LBUTTONUP, WM_RBUTTONDOWN, WM_RBUTTONUP, WM_MOUSEWHEEL] {
        assert!(is_forwarded_message(message), "0x{message:04X} should forward");
    }
    for message in [0x0000_u32, 0x000F_u32, 0x0100_u32, 0x0111_u32] {
        assert!(!is_forwarded_message(message), "0x{message:04X} must not forward");
    }
}

#[test]
fn mouse_messages_map_to_their_event_kinds() {
    assert_eq!(event_kind(WM_MOUSEMOVE), MouseEventKind::Move);
    assert_eq!(event_kind(WM_MOUSEWHEEL), MouseEventKind::Wheel);
}

fn rect(left: i32, top: i32, right: i32, bottom: i32) -> Rect {
    Rect { left, top, right, bottom }
}

#[test]
fn cover_requires_the_whole_client_area() {
    let client = rect(100, 100, 300, 400);
    assert!(covers(rect(0, 0, 2560, 1600), client));
    assert!(covers(rect(100, 100, 300, 400), client));
    assert!(!covers(rect(150, 100, 300, 400), client));
    assert!(!covers(rect(100, 0, 300, 300), client));
    assert!(!covers(rect(200, 200, 400, 500), client));
}

#[test]
fn only_chromium_window_classes_are_eligible() {
    assert!(is_webview_class("Chrome_WidgetWin_1"));
    assert!(is_webview_class("Chrome_WidgetWin_0"));
    assert!(is_webview_class("Chrome_RenderWidgetHostHWND"));
    assert!(is_webview_class("Intermediate D3D Window"));
    assert!(!is_webview_class("Tauri Window"));
    assert!(!is_webview_class("Progman"));
    assert!(!is_webview_class("SHELLDLL_DefView"));
    assert!(!is_webview_class(""));
}

#[test]
fn parking_spot_is_outside_the_virtual_screen() {
    let client = rect(1930, 48, 2560, 1098);
    let screen = VirtualScreen { left: -1920, top: 0, width: 4480, height: 1440 };
    let spot = parking_spot(client, screen).expect("virtual screen metrics available");
    assert!(spot.right <= screen.left, "parked spot must not overlap any monitor");
    assert!(spot.left < spot.right);
    assert_eq!(spot.right - spot.left, client.right - client.left);
    assert_eq!(spot.bottom - spot.top, client.bottom - client.top);
    assert_eq!(spot, rect(-1920 - 16 - 630, 0, -1920 - 16, 1050));
    assert_eq!(parking_spot(client, VirtualScreen { left: 0, top: 0, width: 0, height: 1440 }), None);
}

#[test]
fn empty_report_is_clear() {
    assert!(InputTargetReport::new().is_clear());
    let report = InputTargetReport { candidates: 1, relocated: 1, classes: vec!["Chrome_WidgetWin_1".into()] };
    assert!(!report.is_clear());
}

#[test]
fn only_covering_runtime_windows_of_child_processes_intercept() {
    let client = rect(100, 100, 300, 400);
    let full = rect(0, 0, 2560, 1600);
    let children = vec![42u32, 43];
    assert!(intercepts(false, true, 42, 7, &children, "Chrome_WidgetWin_1", full, client));
    assert!(!intercepts(true, true, 42, 7, &children, "Chrome_WidgetWin_1", full, client));
    assert!(!intercepts(false, false, 42, 7, &children, "Chrome_WidgetWin_1", full, client));
    assert!(!intercepts(false, true, 7, 7, &children, "Chrome_WidgetWin_1", full, client));
    assert!(!intercepts(false, true, 99, 7, &children, "Chrome_WidgetWin_1", full, client));
    assert!(!intercepts(false, true, 42, 7, &children, "Progman", full, client));
    assert!(!intercepts(false, true, 42, 7, &children, "Chrome_WidgetWin_1", rect(150, 100, 300, 400), client));
}

const SUPPORTED: PlatformCapabilities = PlatformCapabilities { desktop_acrylic_supported: true };
const UNSUPPORTED: PlatformCapabilities = PlatformCapabilities { desktop_acrylic_supported: false };

#[test]
fn resolver_only_enables_acrylic_for_supported_floating_expanded_glass() {
    assert_eq!(resolve(RequestedMaterial::Glass, NativeHost::FloatingExpanded, SUPPORTED), ResolvedMaterial::DesktopAcrylic);
    assert_eq!(resolve(RequestedMaterial::Glass, NativeHost::FloatingCollapsed, SUPPORTED), ResolvedMaterial::TransparentOrb);
    assert_eq!(resolve(RequestedMaterial::Glass, NativeHost::Sidebar, SUPPORTED), ResolvedMaterial::ExistingProductMaterial);
    assert_eq!(resolve(RequestedMaterial::Glass, NativeHost::Desktop, SUPPORTED), ResolvedMaterial::ExistingProductMaterial);
    assert_eq!(resolve(RequestedMaterial::Other, NativeHost::FloatingExpanded, SUPPORTED), ResolvedMaterial::ExistingProductMaterial);
}

#[test]
fn resolver_reports_fallback_when_desktop_acrylic_is_unsupported() {
    assert_eq!(resolve(RequestedMaterial::Glass, NativeHost::FloatingExpanded, UNSUPPORTED), ResolvedMaterial::GlassFallback);
}

#[test]
fn only_floating_expanded_reaches_the_acrylic_backend() {
    for host in [NativeHost::Sidebar, NativeHost::Desktop, NativeHost::FloatingCollapsed] {
        assert_ne!(resolve(RequestedMaterial::Glass, host, SUPPORTED), ResolvedMaterial::DesktopAcrylic);
    }
}

const APP: isize = WS_EX_APPWINDOW;
const TOOL: isize = WS_EX_TOOLWINDOW;
const TAO_BASE: isize = 0x0000_0100 | 0x0000_0010;

#[test]
fn widget_style_sets_tool_window_and_clears_app_window() {
    assert_eq!(widget_ex_style(TAO_BASE), TAO_BASE | TOOL);
    assert_eq!(widget_ex_style(TAO_BASE | APP), TAO_BASE | TOOL);
    assert_eq!(widget_ex_style(TAO_BASE | APP | TOOL), TAO_BASE | TOOL);
    assert_eq!(widget_ex_style(TOOL), TOOL);
}

#[test]
fn widget_style_is_idempotent_and_preserves_other_bits() {
    let once = widget_ex_style(TAO_BASE | APP);
    assert_eq!(widget_ex_style(once), once, "re-asserting must be a no-op");
    let others = 0x0000_0008 | 0x0800_0000 | 0x0000_0100 | 0x0000_0020;
    assert_eq!(widget_ex_style(TAO_BASE | APP | others) & others, others);
}

#[test]
fn app_window_never_remains_after_enforcement() {
    let tao_reapplied = widget_ex_style(widget_ex_style(TAO_BASE) | APP);
    assert_eq!(tao_reapplied & APP, 0);
    assert!(is_widget_frame(tao_reapplied));
}

#[test]
fn tool_window_is_not_taskbar_eligible() {
    assert!(!taskbar_eligible_from(TOOL, false, false));
    assert!(!taskbar_eligible_from(TAO_BASE | TOOL, true, false));
}

#[test]
fn taskbar_rule_matches_documented_placement() {
    assert!(taskbar_eligible_from(TAO_BASE, false, false));
    assert!(!taskbar_eligible_from(TAO_BASE, true, false));
    assert!(taskbar_eligible_from(TAO_BASE | APP, false, false));
    assert!(taskbar_eligible_from(TAO_BASE | APP, true, false));
    assert!(!taskbar_eligible_from(TAO_BASE, false, true));
    assert!(!taskbar_eligible_from(TAO_BASE | TOOL, false, true));
    assert!(taskbar_eligible_from(TOOL | APP, false, false));
}

#[test]
fn every_widget_presentation_is_taskbar_free() {
    let top_level = TAO_BASE | APP;
    for ex_style in [widget_ex_style(top_level), widget_ex_style(top_level | 0x0000_0008)] {
        assert!(!taskbar_eligible_from(ex_style, false, false));
        assert!(!alt_tab_eligible_from(ex_style, false, false));
    }
    let desktop = widget_ex_style(TAO_BASE) | WS_CHILD;
    assert!(!taskbar_eligible_from(desktop, false, true));
    assert!(!alt_tab_eligible_from(desktop, false, true));
}

#[test]
fn widget_frame_report_is_one_line() {
    let report = WidgetFrameReport {
        installed: true,
        ex_style_before: "0x40100".to_string(),
        ex_style_after: "0x180".to_string(),
        enforces_tool_window: true,
        clearing_succeeded: true,
        taskbar_eligible: false,
    };
    assert_eq!(
        report.summary(),
        "widget_frame installed=true ex_style 0x40100 -> 0x180 tool_window=true app_window_cleared=true taskbar_eligible=false"
    );
}

#[test]
fn button_presses_capture_and_releases_let_go() {
    assert_eq!(capture_change(WM_LBUTTONDOWN), (true, false));
    assert_eq!(capture_change(WM_RBUTTONDOWN), (true, false));
    assert_eq!(capture_change(WM_LBUTTONUP), (false, true));
    assert_eq!(capture_change(WM_RBUTTONUP), (false, true));
    assert_eq!(capture_change(WM_MOUSEMOVE), (false, false));
}

#[test]
fn only_direct_children_of_this_process_are_webview_candidates() {
    let snapshot = vec![(4, 0), (100, 1), (200, 100), (201, 100), (300, 200), (202, 100)];
    assert_eq!(direct_child_process_ids(&snapshot, 100), vec![200, 201, 202]);
    assert!(direct_child_process_ids(&snapshot, 999).is_empty());
}
