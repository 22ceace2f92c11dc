//! Locating the entry script of the installed application.
//!
//! Two layouts are supported: the legacy one keeps the script at
//! `{root}/resources/app/main.js`, the newer one at `{root}/main.js`. The legacy
//! layout is tried first so that installations upgraded in place keep working.
use vstd::prelude::*;

verus! {

/// `part` appended to `base` the way a relative path component is pushed onto a
/// Unix path: a `/` goes between them unless `base` is empty or already ends
/// with one.
pub open spec fn joined(base: Seq<char>, part: Seq<char>) -> Seq<char> {
    if base.len() == 0 {
        part
    } else if base.last() == '/' {
        base + part
    } else {
        base + seq!['/'] + part
    }
}

/// The entry script of the legacy layout: `{root}/resources/app/main.js`.
pub open spec fn legacy_script(root: Seq<char>) -> Seq<char> {
    joined(joined(joined(root, "resources"@), "app"@), "main.js"@)
}

/// The entry script of the newer layout: `{root}/main.js`.
pub open spec fn fallback_script(root: Seq<char>) -> Seq<char> {
    joined(root, "main.js"@)
}

/// Joins a relative path component onto a base path.
fn join_path(base: &str, part: &str) -> (r: String)
    ensures
        r@ == joined(base@, part@),
{
    let n = base.unicode_len();
    if n == 0 {
        String::from_str(part)
    } else if base.get_char(n - 1) == '/' {
        String::from_str(base).concat(part)
    } else {
        proof {
            reveal_strlit("/");
        }
        let with_sep = String::from_str(base).concat("/");
        with_sep.concat(part)
    }
}

/// Builds the legacy-layout candidate `{app_dir}/resources/app/main.js`.
pub fn legacy_script_path(app_dir: &str) -> (r: String)
    ensures
        r@ == legacy_script(app_dir@),
{
    let resources = join_path(app_dir, "resources");
    let app = join_path(resources.as_str(), "app");
    join_path(app.as_str(), "main.js")
}

/// Builds the newer-layout candidate `{app_dir}/main.js`.
pub fn fallback_script_path(app_dir: &str) -> (r: String)
    ensures
        r@ == fallback_script(app_dir@),
{
    join_path(app_dir, "main.js")
}

/// The entry script chosen for `root`, given whether the legacy candidate exists
/// on disk: the legacy one when it does, the newer one otherwise.
pub open spec fn chosen_script(root: Seq<char>, legacy_exists: bool) -> Seq<char> {
    if legacy_exists {
        legacy_script(root)
    } else {
        fallback_script(root)
    }
}

/// Chooses between the two candidates once it is known whether the legacy one
/// exists. The newer candidate is returned whether or not it exists itself.
pub fn select_script_path(app_dir: &str, legacy_exists: bool) -> (r: String)
    ensures
        r@ == chosen_script(app_dir@, legacy_exists),
        legacy_exists ==> r@ == legacy_script(app_dir@),
        !legacy_exists ==> r@ == fallback_script(app_dir@),
{
    if legacy_exists {
        legacy_script_path(app_dir)
    } else {
        fallback_script_path(app_dir)
    }
}

/// Relies on `std::path::Path::exists`: whether an entry is found at `p`. The
/// answer depends on the file system at the time of the call, so nothing is
/// promised of it.
#[verifier::external_body]
fn path_exists(p: &str) -> bool {
    std::path::Path::new(p).exists()
}

/// Resolves the entry script under `app_dir`: the legacy candidate when it
/// exists on disk, else the newer candidate, even if that one is missing too.
/// Never fails, and never yields a third path.
pub fn resolve_foundry_script_path(app_dir: &str) -> (r: String)
    ensures
        r@ == legacy_script(app_dir@) || r@ == fallback_script(app_dir@),
{
    let legacy = legacy_script_path(app_dir);
    let legacy_exists = path_exists(legacy.as_str());
    select_script_path(app_dir, legacy_exists)
}

/// Application root used when `APPLICATION_DIR` is unset or unreadable.
pub const DEFAULT_APPLICATION_DIR: &'static str = "/foundryvtt";

/// Data root used when `DATA_DIR` is unset or unreadable.
pub const DEFAULT_DATA_DIR: &'static str = "/foundrydata";

/// A setting's value: the one given, else `default`.
pub open spec fn setting_or(value: Option<String>, default: Seq<char>) -> Seq<char> {
    match value {
        Some(v) => v@,
        None => default,
    }
}

/// The given value of a setting, or `default` when there is none.
pub fn setting_or_default(value: Option<String>, default: &str) -> (r: String)
    ensures
        r@ == setting_or(value, default@),
{
    match value {
        Some(v) => v,
        None => String::from_str(default),
    }
}

/// The directories the server works with, computed once at start-up and then
/// handed to whatever needs them.
pub struct Paths {
    /// Where the application is installed.
    pub application_dir: String,
    /// Where the application keeps its user data.
    pub data_dir: String,
    /// The application's entry script, resolved under `application_dir`.
    pub foundry_script_path: String,
}

impl Paths {
    /// Builds the configuration from the values read for `APPLICATION_DIR` and
    /// `DATA_DIR` (`None` where a variable is unset or unreadable), and
    /// resolves the entry script under the application root.
    pub fn new(application_dir: Option<String>, data_dir: Option<String>) -> (r: Paths)
        ensures
            r.application_dir@ == setting_or(application_dir, DEFAULT_APPLICATION_DIR@),
            r.data_dir@ == setting_or(data_dir, DEFAULT_DATA_DIR@),
            r.foundry_script_path@ == legacy_script(r.application_dir@)
                || r.foundry_script_path@ == fallback_script(r.application_dir@),
    {
        let application_dir = setting_or_default(application_dir, DEFAULT_APPLICATION_DIR);
        let data_dir = setting_or_default(data_dir, DEFAULT_DATA_DIR);
        let foundry_script_path = resolve_foundry_script_path(application_dir.as_str());
        Paths { application_dir, data_dir, foundry_script_path }
    }
}

} // verus!
