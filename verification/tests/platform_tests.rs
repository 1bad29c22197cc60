use yasb::config::BarEdge;
use yasb::display::{WM_DESTROY, WM_DISPLAYCHANGE, WinProcAction, window_proc};
use yasb::events::BarEvent;
use yasb::fullscreen::{
    BarVisibility, QUNS_BUSY, QUNS_PRESENTATION_MODE, QUNS_RUNNING_D3D_FULL_SCREEN,
    is_fullscreen_present, is_monitor_fullscreen,
};
use yasb::geometry::Rect;
use yasb::paths::{ConfigFileDecision, get_xdg_or_home_config_path, resolve_config_file};
use yasb::reservation::{ABE_BOTTOM, ABE_LEFT, ABE_RIGHT, ABE_TOP, EdgeReservationRegistry, abd_create, edge_to_abe};
use yasb::utils::{get_exe_name_from_path, get_monitor_name};

#[test]
fn display_change_message_triggers_settled_rebuild() {
    assert_eq!(window_proc(WM_DISPLAYCHANGE), WinProcAction::RebuildAfterSettle(1000));
}

#[test]
fn destroy_message_quits_the_pump() {
    assert_eq!(window_proc(WM_DESTROY), WinProcAction::QuitMessageLoop);
}

#[test]
fn other_messages_pass_through() {
    assert_eq!(window_proc(0x0001), WinProcAction::PassThrough);
}

#[test]
fn fullscreen_notification_states() {
    assert!(is_fullscreen_present(QUNS_BUSY));
    assert!(is_fullscreen_present(QUNS_RUNNING_D3D_FULL_SCREEN));
    assert!(is_fullscreen_present(QUNS_PRESENTATION_MODE));
    assert!(!is_fullscreen_present(1));
    assert!(!is_fullscreen_present(5));
}

#[test]
fn covering_window_is_fullscreen() {
    let monitor = Rect { x: 0, y: 0, width: 1920, height: 1080 };
    let top = Rect { x: -8, y: -8, width: 1936, height: 1096 };
    assert!(is_monitor_fullscreen(&monitor, &top, "GameWindow"));
}

#[test]
fn partial_window_is_not_fullscreen() {
    let monitor = Rect { x: 0, y: 0, width: 1920, height: 1080 };
    let top = Rect { x: 0, y: 0, width: 1920, height: 1000 };
    assert!(!is_monitor_fullscreen(&monitor, &top, "GameWindow"));
}

#[test]
fn desktop_shell_classes_are_not_fullscreen() {
    let monitor = Rect { x: 0, y: 0, width: 1920, height: 1080 };
    let top = Rect { x: 0, y: 0, width: 1920, height: 1080 };
    assert!(!is_monitor_fullscreen(&monitor, &top, "WorkerW"));
    assert!(!is_monitor_fullscreen(&monitor, &top, "SHELLDLL_DefView"));
    assert!(!is_monitor_fullscreen(&monitor, &top, "XamlExplorerHostIslandWindow"));
}

#[test]
fn auto_hide_emits_each_transition_once() {
    let mut vis = BarVisibility::new_shown();
    assert_eq!(vis.tick(true, true), Some(BarEvent::HideWindowEvent));
    // The next tick under the same conditions emits nothing again.
    assert_eq!(vis.tick(true, true), None);
    assert_eq!(vis.tick(false, false), Some(BarEvent::ShowWindowEvent));
    assert_eq!(vis.tick(false, false), None);
}

#[test]
fn fullscreen_without_coverage_keeps_bar_shown() {
    let mut vis = BarVisibility::new_shown();
    assert_eq!(vis.tick(true, false), None);
    assert!(vis.visible);
}

#[test]
fn bar_event_names() {
    assert_eq!(BarEvent::HideWindowEvent.name(), "HideWindowEvent");
    assert_eq!(BarEvent::ShowAllWindowsEvent.name(), "ShowAllWindowsEvent");
    assert_eq!(BarEvent::StylesChangedEvent.name(), "StylesChangedEvent");
}

#[test]
fn edge_codes_match_protocol() {
    assert_eq!(edge_to_abe(BarEdge::Left), ABE_LEFT);
    assert_eq!(edge_to_abe(BarEdge::Top), ABE_TOP);
    assert_eq!(edge_to_abe(BarEdge::Right), ABE_RIGHT);
    assert_eq!(edge_to_abe(BarEdge::Bottom), ABE_BOTTOM);
}

#[test]
fn app_bar_record_carries_window_and_edge() {
    let abd = abd_create(42, Some(BarEdge::Bottom)).unwrap();
    assert_eq!(abd.hwnd, 42);
    assert_eq!(abd.edge, ABE_BOTTOM);
    assert_eq!(abd.callback_message, 0x0401);
    let plain = abd_create(7, None).unwrap();
    assert_eq!(plain.edge, ABE_LEFT);
}

#[test]
fn reservation_release_is_safe_to_repeat() {
    let mut registry = EdgeReservationRegistry::new(Rect { x: 0, y: 0, width: 1920, height: 1080 });
    let h = registry.reserve(BarEdge::Top, 40);
    assert!(registry.entries[0].active);
    registry.release(h);
    assert!(!registry.entries[0].active);
    // Releasing again, or releasing a handle never issued, is a no-op.
    registry.release(h);
    registry.release(999);
    assert!(!registry.entries[0].active);
    assert_eq!(registry.entries.len(), 1);
}

#[test]
fn reservation_handles_are_distinct() {
    let mut registry = EdgeReservationRegistry::new(Rect { x: 0, y: 0, width: 800, height: 600 });
    let h1 = registry.reserve(BarEdge::Top, 30);
    let h2 = registry.reserve(BarEdge::Bottom, 30);
    assert_ne!(h1, h2);
    registry.release(h1);
    assert!(!registry.entries[0].active);
    assert!(registry.entries[1].active);
}

#[test]
fn config_dir_prefers_xdg() {
    assert_eq!(
        get_xdg_or_home_config_path(Some("/xdg".to_string()), "/home/u".to_string()),
        "/xdg/yasb"
    );
    assert_eq!(
        get_xdg_or_home_config_path(None, "/home/u".to_string()),
        "/home/u/.config/yasb"
    );
}

#[test]
fn config_file_decision_table() {
    // An existing candidate, or any log file, is used in place.
    assert_eq!(resolve_config_file(true, false, false, false, false), ConfigFileDecision::UseCandidate);
    assert_eq!(resolve_config_file(false, false, true, false, false), ConfigFileDecision::UseCandidate);
    // With the directory fallen back there is nothing else to try.
    assert_eq!(resolve_config_file(false, true, false, true, false), ConfigFileDecision::FailMissingCandidate);
    // Otherwise the default file is copied in, used in place, or missing.
    assert_eq!(resolve_config_file(false, false, false, false, false), ConfigFileDecision::FailMissingDefault);
    assert_eq!(resolve_config_file(false, false, false, true, true), ConfigFileDecision::CopyDefaultToCandidate);
    assert_eq!(resolve_config_file(false, false, false, true, false), ConfigFileDecision::UseDefault);
}

#[test]
fn exe_name_is_path_tail() {
    assert_eq!(
        get_exe_name_from_path("C:\\Program Files\\yasb\\yasb.exe".to_string()),
        Some("yasb.exe".to_string())
    );
    assert_eq!(get_exe_name_from_path("plain".to_string()), Some("plain".to_string()));
    assert_eq!(get_exe_name_from_path("dir\\".to_string()), Some("".to_string()));
}

#[test]
fn monitor_name_is_decoded_and_trimmed() {
    let mut units: Vec<u16> = "\\\\.\\DISPLAY1".encode_utf16().collect();
    units.extend([0u16; 20]);
    assert_eq!(get_monitor_name(&units), Some("\\\\.\\DISPLAY1".to_string()));
}

#[test]
fn nul_padding_is_trimmed_from_both_ends() {
    assert_eq!(yasb::utils::trim_nul("\0\0abc\0def\0\0"), "abc\0def");
    assert_eq!(yasb::utils::trim_nul("\0\0\0"), "");
    assert_eq!(yasb::utils::trim_nul("plain"), "plain");
}

#[test]
fn invalid_utf16_monitor_name_is_none() {
    // A lone high surrogate is invalid UTF-16.
    let units: Vec<u16> = vec![0xD800];
    assert_eq!(get_monitor_name(&units), None);
}
