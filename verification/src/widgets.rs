//! Widget configuration data: the tagged union of widget kinds hosted inside
//! a bar, their per-kind settings, and the per-column widget lists.

use vstd::prelude::*;
use crate::text::str_eq;

verus! {

/// Pointer event a widget callback can be bound to.
#[derive(Debug, Clone, PartialEq, Eq, Structural)]
pub enum CallbackEvent {
    OnLeft,
    OnMiddle,
    OnRight,
    OnHover,
}

/// A command line to run when a callback fires.
#[derive(Debug, Clone)]
pub struct ExecOptions {
    pub cmd: String,
    pub args: Option<Vec<String>>,
}

/// Callback bindings for the four pointer events.
#[derive(Debug, Clone)]
pub struct WidgetCallbacks<T> {
    pub on_left: Option<T>,
    pub on_middle: Option<T>,
    pub on_right: Option<T>,
    pub on_hover: Option<T>,
}

/// Options for the JSON viewer popup some widgets can open.
#[derive(Debug, Clone)]
pub struct JsonViewerPopupOptions {
    pub width: Option<u32>,
    pub height: Option<u32>,
    pub padding: Option<u32>,
    pub class: Option<String>,
    pub max_depth: Option<u32>,
    pub expanded: Option<bool>,
    pub from_child: Option<String>,
    pub update_on_change: Option<bool>,
}

/// Options for the calendar popup of the date-time widget.
#[derive(Debug, Clone)]
pub struct CalendarPopupOptions {
    pub width: Option<u32>,
    pub height: Option<u32>,
    pub padding: Option<u32>,
    pub class: Option<String>,
    pub locale: Option<String>,
}

/// Window lists the active-window widget ignores.
#[derive(Debug, Clone)]
pub struct IgnoreLists {
    pub by_class: Option<Vec<String>>,
    pub by_process: Option<Vec<String>>,
    pub by_title: Option<Vec<String>>,
}

/// Callback kinds of the active-window widget.
#[derive(Debug, Clone)]
pub enum ActiveWindowCallbackType {
    ToggleLabel,
    JsonViewer,
    Exec(ExecOptions),
}

/// Settings of the active-window widget.
#[derive(Debug, Clone)]
pub struct ActiveWindowWidgetProps {
    pub class: Option<String>,
    pub label: Option<String>,
    pub label_alt: Option<String>,
    pub label_max_len: Option<u32>,
    pub is_monitor_exclusive: Option<bool>,
    pub ignored_windows: Option<IgnoreLists>,
    pub json_viewer: Option<JsonViewerPopupOptions>,
    pub callbacks: Option<WidgetCallbacks<ActiveWindowCallbackType>>,
}

/// Process behind a foreground window.
#[derive(Debug, Clone)]
pub struct WindowProcessInfo {
    pub pid: u32,
    pub name: String,
}

/// Snapshot broadcast when the foreground window changes.
#[derive(Debug, Clone)]
pub struct ActiveWindowPayload {
    pub hwnd: isize,
    pub handle: Option<isize>,
    pub pid: u32,
    pub tid: u32,
    pub title: Option<String>,
    pub class: Option<String>,
    pub exe_path: Option<String>,
    pub exe_name: Option<String>,
    pub monitor: Option<String>,
}

/// Settings of the custom command widget.
#[derive(Debug, Clone)]
pub struct CustomWidgetProps {
    pub class: Option<String>,
    pub label: Option<String>,
    pub label_alt: Option<String>,
    pub command: Option<CustomCommandOptions>,
    pub callbacks: Option<WidgetCallbacks<String>>,
}

/// Command line, refresh interval and timeout of the custom widget.
#[derive(Debug, Clone)]
pub struct CustomCommandOptions {
    pub cmd: String,
    pub args: Option<Vec<String>>,
    pub interval: Option<u32>,
    pub timeout: Option<u32>,
}

/// What running a custom widget command produced.
#[derive(Debug, Clone)]
pub struct CustomCommandResponse {
    pub stdout: Option<String>,
    pub stderr: Option<String>,
    pub status: Option<i32>,
}

/// Callback kinds of the date-time widget.
#[derive(Debug, Clone)]
pub enum DateTimeCallbackType {
    NextFormat,
    PrevFormat,
    NextTimezone,
    PrevTimezone,
    ToggleCalendar,
}

/// Calendar settings of the date-time widget.
#[derive(Debug, Clone)]
pub struct CalendarProps {
    pub popup: Option<CalendarPopupOptions>,
    pub locale: Option<String>,
}

/// Settings of the date-time widget.
#[derive(Debug, Clone)]
pub struct DateTimeWidgetProps {
    pub class: Option<String>,
    pub formats: Option<Vec<String>>,
    pub timezones: Option<Vec<String>>,
    pub interval: Option<u32>,
    pub calendar: Option<CalendarProps>,
    pub callbacks: Option<WidgetCallbacks<DateTimeCallbackType>>,
}

/// Callback kinds of the system-information widget.
#[derive(Debug, Clone)]
pub enum SysInfoCallbackType {
    ToggleLabel,
    JsonViewer,
    Exec(ExecOptions),
}

/// Settings of the system-information widget.
#[derive(Debug, Clone)]
pub struct SysInfoWidgetProps {
    pub class: Option<String>,
    pub label: Option<String>,
    pub label_alt: Option<String>,
    pub label_tooltip: Option<String>,
    pub interval: Option<i32>,
    pub json_viewer: Option<JsonViewerPopupOptions>,
    pub callbacks: Option<WidgetCallbacks<SysInfoCallbackType>>,
}

/// Memory figures of the system-information payload.
#[derive(Debug, Clone)]
pub struct SystemMemoryInfo {
    pub mem_used: u64,
    pub mem_total: u64,
    pub swap_used: u64,
    pub swap_total: u64,
}

/// One disk of the system-information payload.
#[derive(Debug, Clone)]
pub struct SystemDiskInfo {
    pub kind: String,
    pub name: String,
    pub file_system: String,
    pub mount_point: String,
    pub total_space: u64,
    pub available_space: u64,
    pub is_removable: bool,
}

/// One network interface of the system-information payload.
#[derive(Debug, Clone)]
pub struct SystemNetowrkData {
    pub received: u64,
    pub transmitted: u64,
    pub total_received: u64,
    pub total_transmitted: u64,
}

/// Settings of the plain text widget.
#[derive(Debug, Clone)]
pub struct TextWidgetProps {
    pub class: Option<String>,
    pub text: Option<String>,
}

/// Stand-in for a widget whose kind the configuration names but the
/// application does not know.
#[derive(Debug, Clone)]
pub struct UnknownWidgetProps {
    pub kind: String,
}

/// Settings of the cat (file contents) widget.
#[derive(Debug, Clone)]
pub struct CatWidgetProps {
    pub class: Option<String>,
    pub label: Option<String>,
    pub target: Option<CatCommandOptions>,
}

/// File and refresh interval of the cat widget.
#[derive(Debug, Clone)]
pub struct CatCommandOptions {
    pub file: String,
    pub interval: Option<u32>,
}

/// What reading the cat widget's file produced.
#[derive(Debug, Clone)]
pub struct CatCommandResponse {
    pub stdout: Option<String>,
    pub stderr: Option<String>,
    pub status: Option<i32>,
}

/// Settings of the workspace widget fed by the external window manager.
#[derive(Debug, Clone)]
pub struct KomorebiWorkspaceProps {
    pub label: Option<String>,
    pub label_offline: Option<String>,
    pub label_tooltip: Option<String>,
    pub hide_empty: Option<bool>,
    pub cycle_on_scroll: Option<bool>,
}

/// One fully configured widget, tagged by kind.
#[derive(Debug, Clone)]
pub enum ConfiguredWidget {
    ActiveWindowWidget(ActiveWindowWidgetProps),
    CustomWidget(CustomWidgetProps),
    DateTimeWidget(DateTimeWidgetProps),
    TextWidget(TextWidgetProps),
    SysInfoWidget(SysInfoWidgetProps),
    UnknownWidget(UnknownWidgetProps),
}

pub open spec fn active_window_widget_defaults() -> ActiveWindowWidgetProps {
    ActiveWindowWidgetProps {
        class: None,
        label: None,
        label_alt: None,
        label_max_len: None,
        is_monitor_exclusive: None,
        ignored_windows: None,
        json_viewer: None,
        callbacks: None,
    }
}

pub open spec fn custom_widget_defaults() -> CustomWidgetProps {
    CustomWidgetProps { class: None, label: None, label_alt: None, command: None, callbacks: None }
}

pub open spec fn date_time_widget_defaults() -> DateTimeWidgetProps {
    DateTimeWidgetProps {
        class: None,
        formats: None,
        timezones: None,
        interval: None,
        calendar: None,
        callbacks: None,
    }
}

pub open spec fn sys_info_widget_defaults() -> SysInfoWidgetProps {
    SysInfoWidgetProps {
        class: None,
        label: None,
        label_alt: None,
        label_tooltip: None,
        interval: None,
        json_viewer: None,
        callbacks: None,
    }
}

pub open spec fn text_widget_defaults() -> TextWidgetProps {
    TextWidgetProps { class: None, text: None }
}

pub open spec fn komorebi_workspace_defaults() -> KomorebiWorkspaceProps {
    KomorebiWorkspaceProps {
        label: None,
        label_offline: None,
        label_tooltip: None,
        hide_empty: None,
        cycle_on_scroll: None,
    }
}

impl Default for ActiveWindowWidgetProps {
    fn default() -> (r: ActiveWindowWidgetProps)
        ensures
            r == active_window_widget_defaults(),
    {
        ActiveWindowWidgetProps {
            class: None,
            label: None,
            label_alt: None,
            label_max_len: None,
            is_monitor_exclusive: None,
            ignored_windows: None,
            json_viewer: None,
            callbacks: None,
        }
    }
}

impl Default for CustomWidgetProps {
    fn default() -> (r: CustomWidgetProps)
        ensures
            r == custom_widget_defaults(),
    {
        CustomWidgetProps {
            class: None,
            label: None,
            label_alt: None,
            command: None,
            callbacks: None,
        }
    }
}

impl Default for DateTimeWidgetProps {
    fn default() -> (r: DateTimeWidgetProps)
        ensures
            r == date_time_widget_defaults(),
    {
        DateTimeWidgetProps {
            class: None,
            formats: None,
            timezones: None,
            interval: None,
            calendar: None,
            callbacks: None,
        }
    }
}

impl Default for SysInfoWidgetProps {
    fn default() -> (r: SysInfoWidgetProps)
        ensures
            r == sys_info_widget_defaults(),
    {
        SysInfoWidgetProps {
            class: None,
            label: None,
            label_alt: None,
            label_tooltip: None,
            interval: None,
            json_viewer: None,
            callbacks: None,
        }
    }
}

impl Default for TextWidgetProps {
    fn default() -> (r: TextWidgetProps)
        ensures
            r == text_widget_defaults(),
    {
        TextWidgetProps { class: None, text: None }
    }
}

impl Default for KomorebiWorkspaceProps {
    fn default() -> (r: KomorebiWorkspaceProps)
        ensures
            r == komorebi_workspace_defaults(),
    {
        KomorebiWorkspaceProps {
            label: None,
            label_offline: None,
            label_tooltip: None,
            hide_empty: None,
            cycle_on_scroll: None,
        }
    }
}

/// The widget a bare kind name denotes: one of the five known kinds with its
/// default settings, or nothing.
pub open spec fn spec_widget_from_name(s: Seq<char>) -> Option<ConfiguredWidget> {
    if s == "ActiveWindowWidget"@ {
        Some(ConfiguredWidget::ActiveWindowWidget(active_window_widget_defaults()))
    } else if s == "CustomWidget"@ {
        Some(ConfiguredWidget::CustomWidget(custom_widget_defaults()))
    } else if s == "DateTimeWidget"@ {
        Some(ConfiguredWidget::DateTimeWidget(date_time_widget_defaults()))
    } else if s == "SysInfoWidget"@ {
        Some(ConfiguredWidget::SysInfoWidget(sys_info_widget_defaults()))
    } else if s == "TextWidget"@ {
        Some(ConfiguredWidget::TextWidget(text_widget_defaults()))
    } else {
        None
    }
}

impl ConfiguredWidget {
    /// Resolve a bare widget kind name to a widget with default settings.
    pub fn from_str(input: &str) -> (r: Result<ConfiguredWidget, ()>)
        ensures
            match spec_widget_from_name(input@) {
                Some(w) => r == Result::<ConfiguredWidget, ()>::Ok(w),
                None => r is Err,
            },
    {
        if str_eq(input, "ActiveWindowWidget") {
            Ok(ConfiguredWidget::ActiveWindowWidget(ActiveWindowWidgetProps::default()))
        } else if str_eq(input, "CustomWidget") {
            Ok(ConfiguredWidget::CustomWidget(CustomWidgetProps::default()))
        } else if str_eq(input, "DateTimeWidget") {
            Ok(ConfiguredWidget::DateTimeWidget(DateTimeWidgetProps::default()))
        } else if str_eq(input, "SysInfoWidget") {
            Ok(ConfiguredWidget::SysInfoWidget(SysInfoWidgetProps::default()))
        } else if str_eq(input, "TextWidget") {
            Ok(ConfiguredWidget::TextWidget(TextWidgetProps::default()))
        } else {
            Err(())
        }
    }
}

pub open spec fn opt_chars(x: Option<String>) -> Option<Seq<char>> {
    match x {
        Option::Some(s) => Some(s@),
        Option::None => None,
    }
}

/// Whether a foreground-window change is kept off the bus: windows with no
/// title (except the desktop worker window), and this application's own
/// windows and process.
pub open spec fn spec_suppress_window_change(
    title: Option<Seq<char>>,
    class: Option<Seq<char>>,
    exe_name: Option<Seq<char>>,
) -> bool {
    let title_s = if title is Some {
        title->0
    } else {
        Seq::<char>::empty()
    };
    let class_s = if class is Some {
        class->0
    } else {
        Seq::<char>::empty()
    };
    let exe_s = if exe_name is Some {
        exe_name->0
    } else {
        Seq::<char>::empty()
    };
    ||| (title is None && class_s != "WorkerW"@)
    ||| title_s == "yasb"@
    ||| exe_s == "yasb.exe"@
}

/// Decide whether a foreground-window change is broadcast to the bars.
pub fn should_emit_window_change(
    title: &Option<String>,
    class: &Option<String>,
    exe_name: &Option<String>,
) -> (r: bool)
    ensures
        r == !spec_suppress_window_change(opt_chars(*title), opt_chars(*class), opt_chars(*exe_name)),
{
    proof {
        reveal_strlit("WorkerW");
        reveal_strlit("yasb");
        reveal_strlit("yasb.exe");
        assert("WorkerW"@.len() == 7);
        assert("yasb"@.len() == 4);
        assert("yasb.exe"@.len() == 8);
    }
    let untitled_non_worker = title.is_none() && (match class {
        Option::Some(c) => !str_eq(c.as_str(), "WorkerW"),
        Option::None => true,
    });
    let own_title = match title {
        Option::Some(t) => str_eq(t.as_str(), "yasb"),
        Option::None => false,
    };
    let own_exe = match exe_name {
        Option::Some(e) => str_eq(e.as_str(), "yasb.exe"),
        Option::None => false,
    };
    !(untitled_non_worker || own_title || own_exe)
}

/// The three widget columns of one bar, fully resolved.
#[derive(Debug, Clone)]
pub struct ConfiguredWidgets {
    pub left: Vec<ConfiguredWidget>,
    pub middle: Vec<ConfiguredWidget>,
    pub right: Vec<ConfiguredWidget>,
}

impl ConfiguredWidgets {
    /// The column named `field`, or nothing for an unknown column name.
    pub fn get_column(&mut self, field: &str) -> (r: Option<&mut Vec<ConfiguredWidget>>)
        ensures
            field@ == "left"@ ==> r is Some,
            field@ == "middle"@ ==> r is Some,
            field@ == "right"@ ==> r is Some,
            field@ != "left"@ && field@ != "middle"@ && field@ != "right"@ ==> r is None,
    {
        if str_eq(field, "left") {
            Some(&mut self.left)
        } else if str_eq(field, "middle") {
            Some(&mut self.middle)
        } else if str_eq(field, "right") {
            Some(&mut self.right)
        } else {
            None
        }
    }
}

} // verus!
