//! The query interface the widget layer calls: per-bar configuration,
//! resolved widget columns, and the command-response builders.

use vstd::prelude::*;
use crate::config::{BarConfig, BarEntry, ColumnBarWidgets, WidgetEntry, YasbConfig};
use crate::text::str_eq;
use crate::widgets::{
    CatCommandResponse, ConfiguredWidget, ConfiguredWidgets, CustomCommandResponse,
    UnknownWidgetProps, spec_widget_from_name,
};

verus! {

/// The first bar entry carrying this label, scanning from `k`.
pub open spec fn spec_find_bar_from(bars: Seq<BarEntry>, key: Seq<char>, k: int) -> Option<int>
    decreases bars.len() - k,
{
    if k < 0 || k >= bars.len() {
        None
    } else if bars[k].label@ == key {
        Some(k)
    } else {
        spec_find_bar_from(bars, key, k + 1)
    }
}

/// The first bar entry carrying this label.
pub open spec fn spec_find_bar(bars: Seq<BarEntry>, key: Seq<char>) -> Option<int> {
    spec_find_bar_from(bars, key, 0)
}

/// Look up a bar definition by its label, for the widget layer's
/// retrieve-configuration query.
pub fn retrieve_config<'a>(config: &'a YasbConfig, bar_label: &str) -> (r: Option<&'a BarConfig>)
    ensures
        match spec_find_bar(config.bars@, bar_label@) {
            Option::Some(j) => r is Some && *r->0 == config.bars@[j].config,
            Option::None => r is None,
        },
{
    let n = config.bars.len();
    let mut i: usize = 0;
    while i < n
        invariant
            i <= n,
            n == config.bars@.len(),
            spec_find_bar(config.bars@, bar_label@) == spec_find_bar_from(
                config.bars@,
                bar_label@,
                i as int,
            ),
        decreases n - i,
    {
        if str_eq(config.bars[i].label.as_str(), bar_label) {
            return Some(&config.bars[i].config);
        }
        i = i + 1;
    }
    None
}

/// The first widget-table entry carrying this name, scanning from `k`.
pub open spec fn spec_find_widget_from(entries: Seq<WidgetEntry>, key: Seq<char>, k: int) -> Option<
    int,
>
    decreases entries.len() - k,
{
    if k < 0 || k >= entries.len() {
        None
    } else if entries[k].name@ == key {
        Some(k)
    } else {
        spec_find_widget_from(entries, key, k + 1)
    }
}

pub open spec fn spec_find_widget(entries: Seq<WidgetEntry>, key: Seq<char>) -> Option<int> {
    spec_find_widget_from(entries, key, 0)
}

/// What one column slot must hold for the widget name at that slot: the
/// configured widget of that name (a clone of it), else the named known
/// kind with default settings, else the unknown-kind placeholder.
pub open spec fn spec_slot_ok(
    entries: Seq<WidgetEntry>,
    name: String,
    slot: ConfiguredWidget,
) -> bool {
    match spec_find_widget(entries, name@) {
        Option::Some(j) => cloned(entries[j].widget, slot),
        Option::None => match spec_widget_from_name(name@) {
            Option::Some(w) => slot == w,
            Option::None => slot == ConfiguredWidget::UnknownWidget(
                UnknownWidgetProps { kind: name },
            ),
        },
    }
}

/// Resolve one widget name against the configured widget table.
fn resolve_widget(name: &String, entries: &Vec<WidgetEntry>) -> (w: ConfiguredWidget)
    ensures
        spec_slot_ok(entries@, *name, w),
{
    let n = entries.len();
    let mut i: usize = 0;
    while i < n
        invariant
            i <= n,
            n == entries@.len(),
            spec_find_widget(entries@, name@) == spec_find_widget_from(entries@, name@, i as int),
        decreases n - i,
    {
        if str_eq(entries[i].name.as_str(), name.as_str()) {
            return entries[i].widget.clone();
        }
        i = i + 1;
    }
    match ConfiguredWidget::from_str(name.as_str()) {
        Result::Ok(w) => w,
        Result::Err(_) => ConfiguredWidget::UnknownWidget(UnknownWidgetProps { kind: name.clone() }),
    }
}

/// Resolve one column's widget names; an absent list is an empty column.
fn build_column(names: &Option<Vec<String>>, entries: &Vec<WidgetEntry>) -> (col: Vec<
    ConfiguredWidget,
>)
    ensures
        match names {
            Option::None => col@.len() == 0,
            Option::Some(list) => col@.len() == list@.len() && forall|k: int|
                0 <= k < list@.len() ==> spec_slot_ok(entries@, list@[k], #[trigger] col@[k]),
        },
{
    let mut col: Vec<ConfiguredWidget> = Vec::new();
    match names {
        Option::None => col,
        Option::Some(list) => {
            let n = list.len();
            let mut i: usize = 0;
            while i < n
                invariant
                    i <= n,
                    n == list@.len(),
                    col@.len() == i,
                    forall|k: int|
                        0 <= k < i ==> spec_slot_ok(entries@, list@[k], #[trigger] col@[k]),
                decreases n - i,
            {
                let w = resolve_widget(&list[i], entries);
                col.push(w);
                i = i + 1;
            }
            col
        },
    }
}

/// The empty widget table used when the configuration names none.
fn empty_widget_table() -> (r: Vec<WidgetEntry>)
    ensures
        r@.len() == 0,
{
    Vec::new()
}

/// Whether every slot of the resolved columns is the right resolution of
/// the bar's per-column widget names against the widget table.
pub open spec fn spec_columns_ok(
    bar_widgets: ColumnBarWidgets,
    entries: Seq<WidgetEntry>,
    r: ConfiguredWidgets,
) -> bool {
    &&& match bar_widgets.left {
        Option::None => r.left@.len() == 0,
        Option::Some(list) => r.left@.len() == list@.len() && forall|k: int|
            0 <= k < list@.len() ==> spec_slot_ok(entries, list@[k], #[trigger] r.left@[k]),
    }
    &&& match bar_widgets.middle {
        Option::None => r.middle@.len() == 0,
        Option::Some(list) => r.middle@.len() == list@.len() && forall|k: int|
            0 <= k < list@.len() ==> spec_slot_ok(entries, list@[k], #[trigger] r.middle@[k]),
    }
    &&& match bar_widgets.right {
        Option::None => r.right@.len() == 0,
        Option::Some(list) => r.right@.len() == list@.len() && forall|k: int|
            0 <= k < list@.len() ==> spec_slot_ok(entries, list@[k], #[trigger] r.right@[k]),
    }
}

/// Resolve the three widget columns of a bar, for the widget layer's
/// retrieve-widgets query: each name maps to its configured widget, or to
/// the named known kind's defaults, or degrades to the unknown-kind
/// placeholder rather than failing the query.
pub fn retrieve_widgets(config: &YasbConfig, bar_label: &str) -> (r: Option<ConfiguredWidgets>)
    ensures
        match spec_find_bar(config.bars@, bar_label@) {
            Option::None => r is None,
            Option::Some(j) => r is Some && ({
                let entries = match config.widgets {
                    Option::Some(v) => v@,
                    Option::None => Seq::<WidgetEntry>::empty(),
                };
                spec_columns_ok(config.bars@[j].config.widgets, entries, r->0)
            }),
        },
{
    let bar_config = match retrieve_config(config, bar_label) {
        Option::Some(c) => c,
        Option::None => {
            return None;
        },
    };
    let owned_empty = empty_widget_table();
    let entries: &Vec<WidgetEntry> = match &config.widgets {
        Option::Some(v) => v,
        Option::None => &owned_empty,
    };
    proof {
        assert(owned_empty@ =~= Seq::<WidgetEntry>::empty());
    }
    let left = build_column(&bar_config.widgets.left, entries);
    let middle = build_column(&bar_config.widgets.middle, entries);
    let right = build_column(&bar_config.widgets.right, entries);
    Some(ConfiguredWidgets { left, middle, right })
}

/// The response reported when a custom widget's command could not be
/// spawned: no output, the error text on stderr, status one.
pub fn process_error(cmd: String, args: Vec<String>, error: String) -> (r: CustomCommandResponse)
    ensures
        r.stdout is None,
        r.stderr == Some(error),
        r.status == Some(1i32),
{
    let _ = cmd;
    let _ = args;
    CustomCommandResponse { stdout: None, stderr: Some(error), status: Some(1) }
}

/// The response of the cat widget for one attempt at reading its file: the
/// contents on stdout, or the error text on stderr.
pub fn cat_response(read_result: Result<String, String>) -> (r: CatCommandResponse)
    ensures
        read_result is Ok ==> r.stdout == Some(read_result->Ok_0) && r.stderr is None,
        read_result is Err ==> r.stderr == Some(read_result->Err_0) && r.stdout is None,
        r.status is None,
{
    match read_result {
        Result::Ok(contents) => CatCommandResponse {
            stdout: Some(contents),
            stderr: None,
            status: None,
        },
        Result::Err(message) => CatCommandResponse {
            stdout: None,
            stderr: Some(message),
            status: None,
        },
    }
}

} // verus!
