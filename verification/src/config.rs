//! Bar configuration: the per-bar settings read from the configuration file,
//! and validation of bar labels.

use vstd::prelude::*;
use crate::constants;
use crate::widgets::ConfiguredWidget;

verus! {

/// Screen edge a bar is anchored to.
#[derive(Debug, Clone, Copy, PartialEq, Eq, Structural)]
pub enum BarEdge {
    Top,
    Left,
    Bottom,
    Right,
}

/// Background blur flavour applied to a bar window.
#[derive(Debug, Clone, Copy, PartialEq, Eq, Structural)]
pub enum BlurEffect {
    Blur,
    Acrylic,
    Mica,
}

/// Widget names assigned to the three columns of a bar.
#[derive(Debug, Clone)]
pub struct ColumnBarWidgets {
    pub left: Option<Vec<String>>,
    pub middle: Option<Vec<String>>,
    pub right: Option<Vec<String>>,
}

/// One named bar definition from the configuration file.
#[derive(Debug, Clone)]
pub struct BarConfig {
    pub thickness: u32,
    pub edge: BarEdge,
    pub win_app_bar: bool,
    pub always_on_top: bool,
    pub transparency: bool,
    pub blur_effect: Option<BlurEffect>,
    pub screens: Option<Vec<String>>,
    pub widgets: ColumnBarWidgets,
}

/// One `label -> bar` binding of the configuration file's top-level map.
///
/// The file keys bars by label; here the bindings are carried in a vector so
/// that rebuild order is the file's own and provable, with labels expected
/// unique as map keys are.
#[derive(Debug, Clone)]
pub struct BarEntry {
    pub label: String,
    pub config: BarConfig,
}

/// One `name -> widget` binding of the configuration file's widget map.
#[derive(Debug, Clone)]
pub struct WidgetEntry {
    pub name: String,
    pub widget: ConfiguredWidget,
}

/// The whole parsed configuration file: bars and the shared widget table.
#[derive(Debug, Clone)]
pub struct YasbConfig {
    pub bars: Vec<BarEntry>,
    pub widgets: Option<Vec<WidgetEntry>>,
}

pub fn default_thickness() -> (r: u32)
    ensures
        r == constants::DEFAULT_BAR_THICKNESS,
{
    constants::DEFAULT_BAR_THICKNESS
}

pub fn default_edge() -> (r: BarEdge)
    ensures
        r == constants::DEFAULT_BAR_EDGE,
{
    constants::DEFAULT_BAR_EDGE
}

pub fn default_win_app_bar() -> (r: bool)
    ensures
        r == constants::DEFAULT_BAR_WINAPPBAR,
{
    constants::DEFAULT_BAR_WINAPPBAR
}

pub fn default_always_on_top() -> (r: bool)
    ensures
        r == constants::DEFAULT_BAR_ALWAYSONTOP,
{
    constants::DEFAULT_BAR_ALWAYSONTOP
}

pub fn default_transparency() -> (r: bool)
    ensures
        r == constants::DEFAULT_BAR_TRANSPARENCY,
{
    constants::DEFAULT_BAR_TRANSPARENCY
}

/// What inflector's `to_snake_case` returns; the result depends on the
/// characters alone.
pub uninterp spec fn snake_case_of(s: Seq<char>) -> Seq<char>;

/// What inflector's `to_class_case` returns; the result depends on the
/// characters alone.
pub uninterp spec fn class_case_of(s: Seq<char>) -> Seq<char>;

/// What inflector's `to_kebab_case` returns; the result depends on the
/// characters alone.
pub uninterp spec fn kebab_case_of(s: Seq<char>) -> Seq<char>;

/// Relies on inflector's `to_snake_case`.
#[verifier::external_body]
fn to_snake_case(s: &str) -> (r: String)
    ensures
        r@ == snake_case_of(s@),
{
    inflector::cases::snakecase::to_snake_case(s)
}

/// Relies on inflector's `is_snake_case`, whose body tests
/// `s == to_snake_case(s)`.
#[verifier::external_body]
fn is_snake_case(s: &str) -> (r: bool)
    ensures
        r == (s@ == snake_case_of(s@)),
{
    inflector::cases::snakecase::is_snake_case(s)
}

/// Relies on inflector's `is_class_case`, whose body tests
/// `s == to_class_case(s)`.
#[verifier::external_body]
fn is_class_case(s: &str) -> (r: bool)
    ensures
        r == (s@ == class_case_of(s@)),
{
    inflector::cases::classcase::is_class_case(s)
}

/// Relies on inflector's `is_kebab_case`, whose body tests
/// `s == to_kebab_case(s)`.
#[verifier::external_body]
fn is_kebab_case(s: &str) -> (r: bool)
    ensures
        r == (s@ == kebab_case_of(s@)),
{
    inflector::cases::kebabcase::is_kebab_case(s)
}

/// The label a bar definition actually gets: kept as written when it already
/// is snake_case, ClassCase or kebab-case, otherwise converted to snake_case.
pub open spec fn spec_validated_label(s: Seq<char>) -> Seq<char> {
    if s == snake_case_of(s) || s == class_case_of(s) || s == kebab_case_of(s) {
        s
    } else {
        snake_case_of(s)
    }
}

/// Validate a bar label, substituting a snake_case form for one that matches
/// no accepted identifier style.
pub fn validate_bar_label(bar_label: &str) -> (r: String)
    ensures
        r@ == spec_validated_label(bar_label@),
{
    if is_snake_case(bar_label) || is_class_case(bar_label) || is_kebab_case(bar_label) {
        bar_label.to_owned()
    } else {
        to_snake_case(bar_label)
    }
}

} // verus!
