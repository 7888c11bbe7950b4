//! The launcher's data directory and its saved configuration.

use vstd::prelude::*;
use crate::names::{DshKind, kind_name};
use crate::paths::FsPath;

verus! {

/// The configuration saved after an installation was found or made.
pub struct Config {
    /// Where the installation lives, as text.
    pub dsh_path: String,
    /// `"repo"` or `"npm"`, see `DshKind::as_str`.
    pub dsh_kind: String,
    /// When the configuration was written, as local time.
    pub installed_at: String,
}

/// The launcher's data directory: `"DeepSeek Harness"` under the roaming
/// application data directory, or under the working directory when that is unknown.
pub open spec fn app_data_view(appdata: Option<Seq<char>>) -> Seq<Seq<char>> {
    match appdata {
        Some(a) => seq![a, "DeepSeek Harness"@],
        None => seq!["."@, "DeepSeek Harness"@],
    }
}

/// The view of an optional text.
pub open spec fn opt_text(o: Option<&str>) -> Option<Seq<char>> {
    match o {
        Some(s) => Some(s@),
        None => None,
    }
}

/// The launcher's data directory for the value of `APPDATA`, if it is set.
pub fn app_data_dir(appdata: Option<&str>) -> (p: FsPath)
    ensures
        p@ == app_data_view(opt_text(appdata)),
{
    let base = match appdata {
        Some(a) => FsPath::new(a),
        None => FsPath::new("."),
    };
    base.join("DeepSeek Harness")
}

/// Where the configuration is saved.
pub fn config_path(appdata: Option<&str>) -> (p: FsPath)
    ensures
        p@ == app_data_view(opt_text(appdata)).push("config.json"@),
{
    app_data_dir(appdata).join("config.json")
}

/// Where the harness service writes its log.
pub fn log_path(appdata: Option<&str>) -> (p: FsPath)
    ensures
        p@ == app_data_view(opt_text(appdata)) + seq!["logs"@, "dsh.log"@],
{
    let p = app_data_dir(appdata).join("logs").join("dsh.log");
    assert(p@ =~= app_data_view(opt_text(appdata)) + seq!["logs"@, "dsh.log"@]);
    p
}

/// The directory the launcher's own Node.js runtime is unpacked into.
pub fn runtime_root(appdata: Option<&str>) -> (p: FsPath)
    ensures
        p@ == app_data_view(opt_text(appdata)).push("runtime"@),
{
    app_data_dir(appdata).join("runtime")
}

/// The launcher's own Node.js executable.
pub fn runtime_node_path(appdata: Option<&str>) -> (p: FsPath)
    ensures
        p@ == app_data_view(opt_text(appdata)) + seq!["runtime"@, "node"@, "node.exe"@],
{
    let p = app_data_dir(appdata).join("runtime").join("node").join("node.exe");
    assert(p@ =~= app_data_view(opt_text(appdata)) + seq!["runtime"@, "node"@, "node.exe"@]);
    p
}

/// The configuration that records an installation of kind `kind` at `dsh_path`,
/// made at `installed_at`.
pub fn config_for(kind: DshKind, dsh_path: &str, installed_at: String) -> (c: Config)
    ensures
        c.dsh_path@ == dsh_path@,
        c.dsh_kind@ == kind_name(kind),
        c.installed_at@ == installed_at@,
{
    Config {
        dsh_path: String::from_str(dsh_path),
        dsh_kind: String::from_str(kind.as_str()),
        installed_at,
    }
}

} // verus!
