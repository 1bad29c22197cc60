use yasb::commands::{cat_response, process_error, retrieve_config, retrieve_widgets};
use yasb::config::{
    BarConfig, BarEdge, BarEntry, ColumnBarWidgets, WidgetEntry, YasbConfig, default_always_on_top,
    default_edge, default_thickness, default_transparency, default_win_app_bar,
    validate_bar_label,
};
use yasb::widgets::{
    ConfiguredWidget, ConfiguredWidgets, DateTimeWidgetProps, should_emit_window_change,
};

fn sample_config() -> YasbConfig {
    let mut props = DateTimeWidgetProps::default();
    props.interval = Some(500);
    YasbConfig {
        bars: vec![BarEntry {
            label: "top_bar".to_string(),
            config: BarConfig {
                thickness: default_thickness(),
                edge: default_edge(),
                win_app_bar: default_win_app_bar(),
                always_on_top: default_always_on_top(),
                transparency: default_transparency(),
                blur_effect: None,
                screens: None,
                widgets: ColumnBarWidgets {
                    left: Some(vec!["clock".to_string()]),
                    middle: Some(vec![
                        "TextWidget".to_string(),
                        "mystery".to_string(),
                    ]),
                    right: None,
                },
            },
        }],
        widgets: Some(vec![WidgetEntry {
            name: "clock".to_string(),
            widget: ConfiguredWidget::DateTimeWidget(props),
        }]),
    }
}

#[test]
fn defaults_match_documented_values() {
    assert_eq!(default_thickness(), 64);
    assert_eq!(default_edge(), BarEdge::Top);
    assert!(default_win_app_bar());
    assert!(!default_always_on_top());
    assert!(default_transparency());
}

#[test]
fn retrieve_config_finds_bar_by_label() {
    let config = sample_config();
    let bar = retrieve_config(&config, "top_bar").expect("bar should exist");
    assert_eq!(bar.thickness, 64);
    assert!(retrieve_config(&config, "missing").is_none());
}

#[test]
fn retrieve_widgets_resolves_all_three_ways() {
    let config = sample_config();
    let widgets = retrieve_widgets(&config, "top_bar").expect("bar should exist");
    // A name in the widget table resolves to its configured widget.
    assert_eq!(widgets.left.len(), 1);
    match &widgets.left[0] {
        ConfiguredWidget::DateTimeWidget(props) => assert_eq!(props.interval, Some(500)),
        other => panic!("unexpected widget: {:?}", other),
    }
    // A known kind name resolves to that kind's defaults; an unknown name
    // degrades to the placeholder instead of failing the query.
    assert_eq!(widgets.middle.len(), 2);
    match &widgets.middle[0] {
        ConfiguredWidget::TextWidget(props) => {
            assert!(props.class.is_none());
            assert!(props.text.is_none());
        },
        other => panic!("unexpected widget: {:?}", other),
    }
    match &widgets.middle[1] {
        ConfiguredWidget::UnknownWidget(props) => assert_eq!(props.kind, "mystery"),
        other => panic!("unexpected widget: {:?}", other),
    }
    // An absent column is empty.
    assert!(widgets.right.is_empty());
}

#[test]
fn retrieve_widgets_for_unknown_bar_is_none() {
    assert!(retrieve_widgets(&sample_config(), "nope").is_none());
}

#[test]
fn widget_from_name_round() {
    assert!(matches!(
        ConfiguredWidget::from_str("DateTimeWidget"),
        Ok(ConfiguredWidget::DateTimeWidget(_))
    ));
    assert!(matches!(
        ConfiguredWidget::from_str("SysInfoWidget"),
        Ok(ConfiguredWidget::SysInfoWidget(_))
    ));
    assert!(ConfiguredWidget::from_str("NoSuchWidget").is_err());
}

#[test]
fn get_column_names_the_three_columns() {
    let mut widgets = ConfiguredWidgets { left: vec![], middle: vec![], right: vec![] };
    assert!(widgets.get_column("left").is_some());
    assert!(widgets.get_column("middle").is_some());
    assert!(widgets.get_column("right").is_some());
    assert!(widgets.get_column("top").is_none());
}

#[test]
fn process_error_reports_on_stderr_with_status_one() {
    let r = process_error(
        "miss.exe".to_string(),
        vec!["-v".to_string()],
        "program not found".to_string(),
    );
    assert!(r.stdout.is_none());
    assert_eq!(r.stderr.as_deref(), Some("program not found"));
    assert_eq!(r.status, Some(1));
}

#[test]
fn cat_response_carries_contents_or_error() {
    let ok = cat_response(Ok("file text".to_string()));
    assert_eq!(ok.stdout.as_deref(), Some("file text"));
    assert!(ok.stderr.is_none());
    assert!(ok.status.is_none());
    let err = cat_response(Err("no such file".to_string()));
    assert!(err.stdout.is_none());
    assert_eq!(err.stderr.as_deref(), Some("no such file"));
}

#[test]
fn bar_labels_keep_accepted_styles() {
    assert_eq!(validate_bar_label("top_bar"), "top_bar");
    assert_eq!(validate_bar_label("TopBar"), "TopBar");
    assert_eq!(validate_bar_label("top-bar"), "top-bar");
}

#[test]
fn bar_labels_outside_accepted_styles_become_snake_case() {
    assert_eq!(validate_bar_label("My Bar"), "my_bar");
    assert_eq!(validate_bar_label("HTTP Foo bar"), "http_foo_bar");
}

#[test]
fn window_changes_of_own_windows_are_suppressed() {
    let title = Some("yasb".to_string());
    assert!(!should_emit_window_change(&title, &None, &None));
    let exe = Some("yasb.exe".to_string());
    assert!(!should_emit_window_change(&Some("Editor".to_string()), &None, &exe));
}

#[test]
fn untitled_windows_are_suppressed_except_desktop_worker() {
    assert!(!should_emit_window_change(&None, &Some("SomeClass".to_string()), &None));
    assert!(should_emit_window_change(&None, &Some("WorkerW".to_string()), &None));
}

#[test]
fn ordinary_window_changes_are_broadcast() {
    assert!(should_emit_window_change(
        &Some("Editor".to_string()),
        &Some("EditorClass".to_string()),
        &Some("editor.exe".to_string()),
    ));
}
