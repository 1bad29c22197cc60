use yasb::config::{BarConfig, BarEdge, BarEntry, ColumnBarWidgets, YasbConfig};
use yasb::geometry::Monitor;
use yasb::lifecycle::{BarManager, instance_window_label, plan_bars};

fn bar_config(edge: BarEdge, thickness: u32, screens: Option<Vec<String>>) -> BarConfig {
    BarConfig {
        thickness,
        edge,
        win_app_bar: true,
        always_on_top: false,
        transparency: true,
        blur_effect: None,
        screens,
        widgets: ColumnBarWidgets { left: None, middle: None, right: None },
    }
}

fn two_monitors() -> Vec<Monitor> {
    vec![
        Monitor { name: "m1".to_string(), x: 0, y: 0, width: 1920, height: 1080 },
        Monitor { name: "m2".to_string(), x: 1920, y: 0, width: 2560, height: 1440 },
    ]
}

#[test]
fn one_bar_on_every_monitor() {
    // A definition with no target-monitor list gets one instance per monitor.
    let config = YasbConfig {
        bars: vec![BarEntry {
            label: "TopBar".to_string(),
            config: bar_config(BarEdge::Top, 40, None),
        }],
        widgets: None,
    };
    let monitors = two_monitors();
    let plan = plan_bars(&config, &monitors);
    assert_eq!(plan.len(), 2);
    assert_eq!(plan[0].definition_label, "TopBar");
    assert_eq!(plan[0].monitor_name, "m1");
    assert_eq!(plan[0].rect.height, 40);
    assert_eq!(plan[0].rect.width, 1920);
    assert_eq!(plan[0].rect.x, 0);
    assert_eq!(plan[0].rect.y, 0);
    assert_eq!(plan[1].definition_label, "TopBar");
    assert_eq!(plan[1].monitor_name, "m2");
    assert_eq!(plan[1].rect.height, 40);
    assert_eq!(plan[1].rect.width, 2560);
    assert_eq!(plan[1].rect.x, 1920);
    assert_eq!(plan[1].rect.y, 0);
}

#[test]
fn empty_target_list_matches_every_monitor() {
    let config = YasbConfig {
        bars: vec![BarEntry {
            label: "status_bar".to_string(),
            config: bar_config(BarEdge::Bottom, 30, Some(vec![])),
        }],
        widgets: None,
    };
    let plan = plan_bars(&config, &two_monitors());
    assert_eq!(plan.len(), 2);
}

#[test]
fn targeted_bar_only_on_named_monitors() {
    // One instance per (definition, matching monitor) pair, none elsewhere.
    let config = YasbConfig {
        bars: vec![BarEntry {
            label: "side_bar".to_string(),
            config: bar_config(BarEdge::Left, 60, Some(vec!["m2".to_string()])),
        }],
        widgets: None,
    };
    let plan = plan_bars(&config, &two_monitors());
    assert_eq!(plan.len(), 1);
    assert_eq!(plan[0].monitor_name, "m2");
    assert_eq!(plan[0].rect.width, 60);
    assert_eq!(plan[0].rect.height, 1440);
}

#[test]
fn unmatched_target_list_creates_nothing() {
    let config = YasbConfig {
        bars: vec![BarEntry {
            label: "ghost_bar".to_string(),
            config: bar_config(BarEdge::Top, 20, Some(vec!["elsewhere".to_string()])),
        }],
        widgets: None,
    };
    let plan = plan_bars(&config, &two_monitors());
    assert_eq!(plan.len(), 0);
}

#[test]
fn invalid_label_is_sanitized_in_plan() {
    let config = YasbConfig {
        bars: vec![BarEntry {
            label: "My Bar".to_string(),
            config: bar_config(BarEdge::Top, 20, None),
        }],
        widgets: None,
    };
    let plan = plan_bars(&config, &two_monitors());
    assert_eq!(plan.len(), 2);
    assert_eq!(plan[0].definition_label, "my_bar");
}

#[test]
fn rebuild_twice_keeps_instance_set_and_balances_handles() {
    // Rebuilding with the same configuration and monitors leaves the same
    // (label, monitor) pairs and leaks no reservation handle.
    let config = YasbConfig {
        bars: vec![BarEntry {
            label: "TopBar".to_string(),
            config: bar_config(BarEdge::Top, 40, None),
        }],
        widgets: None,
    };
    let monitors = two_monitors();
    let plan = plan_bars(&config, &monitors);
    let granted = vec![true, true];

    let mut manager = BarManager::new();
    manager.begin_rebuild();
    assert!(!manager.commands_enabled);
    manager.commit_rebuild(&plan, &granted);
    assert!(manager.commands_enabled);
    let first: Vec<(String, String)> = manager
        .instances
        .iter()
        .map(|b| (b.definition_label.clone(), b.monitor_name.clone()))
        .collect();
    let reserved_by_first = manager.total_reserved;
    assert_eq!(reserved_by_first, 2);
    assert_eq!(manager.total_released, 0);

    manager.begin_rebuild();
    // The second tear-down released exactly the handles the first took.
    assert_eq!(manager.total_released, reserved_by_first);
    manager.commit_rebuild(&plan, &granted);
    let second: Vec<(String, String)> = manager
        .instances
        .iter()
        .map(|b| (b.definition_label.clone(), b.monitor_name.clone()))
        .collect();
    assert_eq!(first, second);
    // Totals balance against the live set: nothing leaked.
    assert_eq!(
        manager.total_reserved - manager.total_released,
        manager.instances.iter().filter(|b| b.reserved).count() as u64
    );
}

#[test]
fn refused_registration_leaves_bar_unreserved() {
    let config = YasbConfig {
        bars: vec![BarEntry {
            label: "TopBar".to_string(),
            config: bar_config(BarEdge::Top, 40, None),
        }],
        widgets: None,
    };
    let monitors = two_monitors();
    let plan = plan_bars(&config, &monitors);
    let mut manager = BarManager::new();
    manager.begin_rebuild();
    manager.commit_rebuild(&plan, &vec![true, false]);
    assert!(manager.instances[0].reserved);
    assert!(!manager.instances[1].reserved);
    assert_eq!(manager.total_reserved, 1);
}

#[test]
fn auto_hide_runs_only_with_always_on_top_bars() {
    let mut on_top = bar_config(BarEdge::Top, 40, None);
    on_top.always_on_top = true;
    let with_one = YasbConfig {
        bars: vec![
            BarEntry { label: "a".to_string(), config: bar_config(BarEdge::Top, 40, None) },
            BarEntry { label: "b".to_string(), config: on_top },
        ],
        widgets: None,
    };
    assert!(yasb::fullscreen::auto_hide_enabled(&with_one));
    let without = YasbConfig {
        bars: vec![BarEntry { label: "a".to_string(), config: bar_config(BarEdge::Top, 40, None) }],
        widgets: None,
    };
    assert!(!yasb::fullscreen::auto_hide_enabled(&without));
}

#[test]
fn instance_window_label_shape() {
    let label = instance_window_label("TopBar");
    assert_eq!(label.len(), "TopBar".len() + 17);
    assert!(label.starts_with("TopBar_"));
    let other = instance_window_label("TopBar");
    assert_eq!(other.len(), label.len());
}
