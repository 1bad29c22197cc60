//! Resolution of the configuration, stylesheet and log file locations: the
//! decisions, over plain facts about what exists on disk, that the host's
//! file-system code acts on.

use vstd::prelude::*;
use vstd::string::StringExecFns;
use crate::constants::CONFIG_DIR_NAME;

verus! {

/// The configuration directory: `$XDG_CONFIG_HOME` when set, else
/// `.config` under the home directory, joined with `/` and the
/// application's directory name.
pub open spec fn spec_config_dir(xdg_config_home: Option<String>, home: String) -> Seq<char> {
    match xdg_config_home {
        Option::Some(xdg) => xdg@ + "/"@ + CONFIG_DIR_NAME@,
        Option::None => home@ + "/.config/"@ + CONFIG_DIR_NAME@,
    }
}

/// Pick the configuration directory from the two environment paths.
pub fn get_xdg_or_home_config_path(xdg_config_home: Option<String>, home: String) -> (r: String)
    ensures
        r@ == spec_config_dir(xdg_config_home, home),
{
    match xdg_config_home {
        Option::Some(xdg) => xdg.concat("/").concat(CONFIG_DIR_NAME),
        Option::None => home.concat("/.config/").concat(CONFIG_DIR_NAME),
    }
}

/// Where a configuration file is to be loaded from, or why startup stops.
#[derive(Debug, Clone, Copy, PartialEq, Eq, Structural)]
pub enum ConfigFileDecision {
    /// Load the file at the configuration-directory path.
    UseCandidate,
    /// Load the default file beside the program executable.
    UseDefault,
    /// Copy the default file to the candidate path, then load the copy.
    CopyDefaultToCandidate,
    /// No default file exists either: startup fails.
    FailMissingDefault,
    /// The fallback directory itself lacks the file: startup fails.
    FailMissingCandidate,
}

/// The decision table for one wanted file, given what exists on disk:
/// a log file's path is handed back whether or not the file exists yet; an
/// existing candidate wins; with the configuration directory fallen back to
/// the program directory there is nothing else to try; otherwise the
/// default file is copied in or used in place, when it exists.
pub open spec fn spec_resolve_config_file(
    is_log_file: bool,
    used_fallback_dir: bool,
    candidate_exists: bool,
    default_exists: bool,
    copy_requested: bool,
) -> ConfigFileDecision {
    if is_log_file || candidate_exists {
        ConfigFileDecision::UseCandidate
    } else if used_fallback_dir {
        ConfigFileDecision::FailMissingCandidate
    } else if !default_exists {
        ConfigFileDecision::FailMissingDefault
    } else if copy_requested {
        ConfigFileDecision::CopyDefaultToCandidate
    } else {
        ConfigFileDecision::UseDefault
    }
}

/// Decide where one wanted file is loaded from. `used_fallback_dir` says
/// the configuration directory did not exist and could not be created, so
/// the candidate path already points beside the program executable (or, for
/// the log file, into the home directory).
pub fn resolve_config_file(
    is_log_file: bool,
    used_fallback_dir: bool,
    candidate_exists: bool,
    default_exists: bool,
    copy_requested: bool,
) -> (r: ConfigFileDecision)
    ensures
        r == spec_resolve_config_file(
            is_log_file,
            used_fallback_dir,
            candidate_exists,
            default_exists,
            copy_requested,
        ),
{
    if is_log_file || candidate_exists {
        ConfigFileDecision::UseCandidate
    } else if used_fallback_dir {
        ConfigFileDecision::FailMissingCandidate
    } else if !default_exists {
        ConfigFileDecision::FailMissingDefault
    } else if copy_requested {
        ConfigFileDecision::CopyDefaultToCandidate
    } else {
        ConfigFileDecision::UseDefault
    }
}

} // verus!
