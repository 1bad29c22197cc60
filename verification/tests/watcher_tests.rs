use yasb::config::YasbConfig;
use yasb::watcher::{FileEventKind, SharedConfigState, WatchOutcome, get_styles};

fn empty_config() -> YasbConfig {
    YasbConfig { bars: vec![], widgets: None }
}

#[test]
fn styles_reload_failure_keeps_state_and_reports() {
    // A rewritten stylesheet that no longer compiles leaves the style
    // untouched, produces a failure report, and triggers no rebuild.
    let mut state = SharedConfigState::new(empty_config(), "body{}".to_string());
    let outcome = state.on_styles_event(
        FileEventKind::Write,
        Err("invalid syntax".to_string()),
    );
    assert_eq!(state.styles, "body{}");
    match outcome {
        WatchOutcome::ReloadFailed(message) => assert_eq!(message, "invalid syntax"),
        other => panic!("unexpected outcome: {:?}", other),
    }
}

#[test]
fn styles_reload_success_swaps_state_without_rebuild() {
    let mut state = SharedConfigState::new(empty_config(), "old".to_string());
    let outcome = state.on_styles_event(FileEventKind::Write, Ok("new".to_string()));
    assert_eq!(state.styles, "new");
    assert!(matches!(outcome, WatchOutcome::StylesUpdated));
}

#[test]
fn config_reload_failure_keeps_last_known_good() {
    let mut state = SharedConfigState::new(empty_config(), "s".to_string());
    let outcome = state.on_config_event(
        FileEventKind::Remove,
        Err("bad yaml".to_string()),
    );
    assert!(state.config.bars.is_empty());
    assert!(matches!(outcome, WatchOutcome::ReloadFailed(_)));
}

#[test]
fn config_reload_success_triggers_rebuild() {
    let mut state = SharedConfigState::new(empty_config(), "s".to_string());
    let outcome = state.on_config_event(FileEventKind::Write, Ok(empty_config()));
    assert!(matches!(outcome, WatchOutcome::ConfigUpdated));
}

#[test]
fn unrelated_event_kind_changes_nothing() {
    let mut state = SharedConfigState::new(empty_config(), "keep".to_string());
    let outcome = state.on_styles_event(FileEventKind::Other, Ok("ignored".to_string()));
    assert_eq!(state.styles, "keep");
    assert!(matches!(outcome, WatchOutcome::NoAction));
}

#[test]
fn retrieve_styles_hands_back_current_style() {
    let state = SharedConfigState::new(empty_config(), "a{color:red}".to_string());
    assert_eq!(state.retrieve_styles(), "a{color:red}");
}

#[test]
fn stylesheet_compiles_through_real_compiler() {
    let scss = b"$c: red;\na {\n  color: $c;\n}\n".to_vec();
    let css = get_styles(&scss).expect("stylesheet should compile");
    assert!(css.contains("color:red"));
}

#[test]
fn invalid_stylesheet_source_reports_error() {
    let scss = b"a { color: }".to_vec();
    assert!(get_styles(&scss).is_err());
}
