//! Where the application keeps its files: a `ValMonitor` directory under
//! the roaming application data directory.
use vstd::prelude::*;

use crate::text::{concat2, concat3};

verus! {

/// The files of the application, as Windows paths.
#[derive(Debug, Clone, PartialEq, Eq)]
pub struct AppPaths {
    pub config_dir: String,
    pub settings_path: String,
    pub api_key_path: String,
    pub debug_log_path: String,
}

/// `base` joined with the relative path `name`: a backslash goes between
/// them unless `base` already ends with a separator.
pub open spec fn join_text(base: Seq<char>, name: Seq<char>) -> Seq<char> {
    if base.len() > 0 && (base.last() == '\\' || base.last() == '/') {
        base + name
    } else {
        base + "\\"@ + name
    }
}

/// `base` joined with the relative path `name`.
pub fn join_path(base: &str, name: &str) -> (r: String)
    ensures
        r@ == join_text(base@, name@),
{
    let cs = crate::text::chars_of(base);
    if cs.len() > 0 && (cs[cs.len() - 1] == '\\' || cs[cs.len() - 1] == '/') {
        concat2(base, name)
    } else {
        concat3(base, "\\", name)
    }
}

/// The paths of the application under the roaming application data
/// directory `appdata`.
pub fn app_paths(appdata: &str) -> (r: AppPaths)
    ensures
        r.config_dir@ == join_text(appdata@, "ValMonitor"@),
        r.settings_path@ == join_text(r.config_dir@, "settings.json"@),
        r.api_key_path@ == join_text(r.config_dir@, "api.txt"@),
        r.debug_log_path@ == join_text(r.config_dir@, "debug.log"@),
{
    let config_dir = join_path(appdata, "ValMonitor");
    AppPaths {
        settings_path: join_path(config_dir.as_str(), "settings.json"),
        api_key_path: join_path(config_dir.as_str(), "api.txt"),
        debug_log_path: join_path(config_dir.as_str(), "debug.log"),
        config_dir,
    }
}

} // verus!
