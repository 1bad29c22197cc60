//! Live reconfiguration: the shared configuration/style state, the decision
//! taken on each watched-file event, and stylesheet compilation.

use vstd::prelude::*;
use crate::config::YasbConfig;

verus! {

/// Shared handle to the current configuration; the single writer is the
/// file watcher, guarded by a lock the host supplies.
#[derive(Debug)]
pub struct Config(pub YasbConfig);

/// Shared handle to the current compiled stylesheet.
#[derive(Debug)]
pub struct Styles(pub String);

/// Kind of a debounced filesystem event on a watched file.
#[derive(Debug, Clone, Copy, PartialEq, Eq, Structural)]
pub enum FileEventKind {
    Write,
    Remove,
    Other,
}

/// What the host must do after a reload attempt.
#[derive(Debug)]
pub enum WatchOutcome {
    /// The event was not a write or remove: nothing to do.
    NoAction,
    /// New configuration swapped in: rebuild the bars and report success.
    ConfigUpdated,
    /// New stylesheet swapped in: broadcast styles-changed to the live
    /// windows; no rebuild.
    StylesUpdated,
    /// The reload failed: state kept as it was, report the error.
    ReloadFailed(String),
}

/// The single source of truth for bar definitions and stylesheet text.
/// Readers and the watcher thread share it under mutual exclusion; every
/// update here is a whole-value swap, and a failed reload leaves the
/// last-known-good value in place.
#[derive(Debug)]
pub struct SharedConfigState {
    pub config: YasbConfig,
    pub styles: String,
}

impl SharedConfigState {
    pub fn new(config: YasbConfig, styles: String) -> (r: SharedConfigState)
        ensures
            r.config == config,
            r.styles == styles,
    {
        SharedConfigState { config, styles }
    }

    /// React to a configuration-file event, given the outcome of re-reading
    /// and parsing the file. On success the configuration is atomically
    /// replaced and the bars must be rebuilt; on failure the running bars
    /// keep their last-known-good configuration.
    pub fn on_config_event(&mut self, kind: FileEventKind, parsed: Result<YasbConfig, String>) -> (r:
        WatchOutcome)
        ensures
            kind is Other ==> *final(self) == *old(self) && r is NoAction,
            (kind is Write || kind is Remove) && parsed is Ok ==> final(self).config == parsed->Ok_0
                && final(self).styles == old(self).styles && r is ConfigUpdated,
            (kind is Write || kind is Remove) && parsed is Err ==> *final(self) == *old(self) && r
                == WatchOutcome::ReloadFailed(parsed->Err_0),
    {
        match kind {
            FileEventKind::Other => WatchOutcome::NoAction,
            FileEventKind::Write | FileEventKind::Remove => {
                match parsed {
                    Result::Ok(new_config) => {
                        self.config = new_config;
                        WatchOutcome::ConfigUpdated
                    },
                    Result::Err(message) => WatchOutcome::ReloadFailed(message),
                }
            },
        }
    }

    /// React to a stylesheet-file event, given the outcome of recompiling
    /// the stylesheet. On success the style is atomically replaced and
    /// broadcast; no rebuild is needed, since styles apply client-side. On
    /// failure the style is left untouched.
    pub fn on_styles_event(&mut self, kind: FileEventKind, compiled: Result<String, String>) -> (r:
        WatchOutcome)
        ensures
            kind is Other ==> *final(self) == *old(self) && r is NoAction,
            (kind is Write || kind is Remove) && compiled is Ok ==> final(self).styles == compiled
                ->Ok_0 && final(self).config == old(self).config && r is StylesUpdated,
            (kind is Write || kind is Remove) && compiled is Err ==> *final(self) == *old(self) && r
                == WatchOutcome::ReloadFailed(compiled->Err_0),
    {
        match kind {
            FileEventKind::Other => WatchOutcome::NoAction,
            FileEventKind::Write | FileEventKind::Remove => {
                match compiled {
                    Result::Ok(css) => {
                        self.styles = css;
                        WatchOutcome::StylesUpdated
                    },
                    Result::Err(message) => WatchOutcome::ReloadFailed(message),
                }
            },
        }
    }

    /// The current compiled stylesheet, for the widget layer's on-demand
    /// query.
    pub fn retrieve_styles(&self) -> (r: String)
        ensures
            r == self.styles,
    {
        self.styles.clone()
    }
}

/// Relies on rsass's `compile_scss`: compiles stylesheet source to its
/// compressed render form. The output can follow `@import` references to
/// files on disk, so nothing is claimed of it beyond which case came back;
/// callers treat the compiled text as opaque.
#[verifier::external_body]
pub fn get_styles(scss: &Vec<u8>) -> (r: Result<String, String>)
{
    let format = rsass::output::Format {
        style: rsass::output::Style::Compressed,
        ..Default::default()
    };
    match rsass::compile_scss(scss.as_slice(), format) {
        Ok(css_buf) => match core::str::from_utf8(&css_buf) {
            Ok(css) => Ok(css.to_string()),
            Err(e) => Err(e.to_string()),
        },
        Err(e) => Err(e.to_string()),
    }
}

} // verus!
