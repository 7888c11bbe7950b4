//! Starting and stopping the harness service process, choosing an installation
//! by hand, and reading the launcher's command line and menu.

use vstd::prelude::*;
use crate::config::opt_text;
use crate::locate::{
    find_node, is_node_path, node_in, package_entry, repo_entry, repo_entry_in, repo_lib_entry,
    repo_src_entry, reported, texts_view,
};
use crate::names::{DshKind, NodeSource};
use crate::paths::{FsPath, probe, probe_accepts_all, probe_is_consistent, probe_reports};
use crate::text::{chars_of, decimal, push_decimal, same_text, string_of};

verus! {

/// The Node.js executable that runs the service, or the message shown when
/// there is none.
pub open spec fn server_node_in(
    fs: spec_fn(Seq<Seq<char>>) -> bool,
    appdata: Option<Seq<char>>,
    dirs: Seq<Seq<char>>,
) -> Result<Seq<Seq<char>>, Seq<char>> {
    match node_in(fs, appdata, dirs) {
        Some(n) => Ok(n),
        None => Err("未找到 Node.js，请安装 Node.js 后重试"@),
    }
}

/// The Node.js executable that runs the service.
pub fn server_node<F: Fn(&FsPath) -> bool>(appdata: Option<&str>, dirs: &Vec<String>, is_file: &F) -> (r:
    Result<FsPath, String>)
    requires
        probe_accepts_all(*is_file),
    ensures
        probe_is_consistent(*is_file) ==> match r {
            Ok(p) => server_node_in(reported(*is_file), opt_text(appdata), texts_view(dirs@)) == Ok::<
                Seq<Seq<char>>,
                Seq<char>,
            >(p@),
            Err(m) => server_node_in(reported(*is_file), opt_text(appdata), texts_view(dirs@))
                == Err::<Seq<Seq<char>>, Seq<char>>(m@),
        },
        match r {
            Ok(p) => probe_reports(*is_file, p@) && is_node_path(p@),
            Err(m) => m@ == "未找到 Node.js，请安装 Node.js 后重试"@,
        },
{
    match find_node(appdata, dirs, is_file) {
        Some(n) => Ok(n),
        None => Err(String::from_str("未找到 Node.js，请安装 Node.js 后重试")),
    }
}

/// Index of the last `'.'` in `s`.
pub open spec fn last_dot(s: Seq<char>) -> Option<int>
    decreases s.len(),
{
    if s.len() == 0 {
        None
    } else if s.last() == '.' {
        Some(s.len() - 1)
    } else {
        last_dot(s.drop_last())
    }
}

/// The extension of the file name `name`, as `Path::extension` gives it: the
/// text after the last `'.'`, unless that dot begins the name or the name is `..`.
pub open spec fn file_extension(name: Seq<char>) -> Option<Seq<char>> {
    if name == seq!['.', '.'] {
        None
    } else {
        match last_dot(name) {
            Some(k) => if k == 0 {
                None
            } else {
                Some(name.skip(k + 1))
            },
            None => None,
        }
    }
}

/// Whether the entry script at `entry` is TypeScript, which Node.js runs through
/// the `tsx` loader.
pub open spec fn is_typescript_entry(entry: Seq<Seq<char>>) -> bool {
    entry.len() > 0 && file_extension(entry.last()) == Some(seq!['t', 's'])
}

/// The extension of the file name `name`.
pub fn extension_of(name: &str) -> (r: Option<String>)
    ensures
        match r {
            Some(e) => file_extension(name@) == Some(e@),
            None => file_extension(name@) is None,
        },
{
    let v = chars_of(name);
    if v.len() == 2 && v[0] == '.' && v[1] == '.' {
        assert(v@ =~= seq!['.', '.']);
        return None;
    }
    assert(v@ != seq!['.', '.']);
    let mut k: usize = v.len();
    assert(v@.take(v.len() as int) == v@);
    while k > 0 && v[k - 1] != '.'
        invariant
            k <= v.len(),
            last_dot(v@) == last_dot(v@.take(k as int)),
        decreases k,
    {
        assert(v@.take(k as int).drop_last() == v@.take(k - 1));
        k = k - 1;
    }
    if k == 0 {
        return None;
    }
    assert(last_dot(v@.take(k as int)) == Some(k - 1));
    if k == 1 {
        return None;
    }
    let mut ext: Vec<char> = Vec::new();
    let mut i = k;
    while i < v.len()
        invariant
            k <= i <= v.len(),
            ext@ == v@.subrange(k as int, i as int),
        decreases v.len() - i,
    {
        ext.push(v[i]);
        assert(v@.subrange(k as int, i + 1) == v@.subrange(k as int, i as int).push(v@[i as int]));
        i = i + 1;
    }
    assert(v@.skip(k as int) == v@.subrange(k as int, v.len() as int));
    Some(string_of(ext.as_slice()))
}

/// Whether the entry script at `entry` is TypeScript.
pub fn uses_ts_loader(entry: &FsPath) -> (b: bool)
    ensures
        b == is_typescript_entry(entry@),
{
    if entry.parts.len() == 0 {
        return false;
    }
    match extension_of(entry.parts[entry.parts.len() - 1].as_str()) {
        Some(e) => {
            let r = same_text(e.as_str(), "ts");
            proof {
                reveal_strlit("ts");
                assert("ts"@ =~= seq!['t', 's']);
            }
            r
        },
        None => false,
    }
}

/// The arguments for Node.js that run the service from `entry`, written as
/// `entry_text`: TypeScript goes through the `tsx` loader.
pub fn server_args(entry: &FsPath, entry_text: &str) -> (r: Vec<String>)
    ensures
        r@.map_values(|s: String| s@) == if is_typescript_entry(entry@) {
            seq!["--import"@, "tsx/esm"@, entry_text@, "web"@]
        } else {
            seq![entry_text@, "web"@]
        },
{
    let mut r: Vec<String> = Vec::new();
    let ts = uses_ts_loader(entry);
    if ts {
        r.push(String::from_str("--import"));
        r.push(String::from_str("tsx/esm"));
    }
    r.push(String::from_str(entry_text));
    r.push(String::from_str("web"));
    proof {
        if ts {
            assert(r@.map_values(|s: String| s@) =~= seq!["--import"@, "tsx/esm"@, entry_text@, "web"@]);
        } else {
            assert(r@.map_values(|s: String| s@) =~= seq![entry_text@, "web"@]);
        }
    }
    r
}

/// The line written to the service log when the launcher starts it, at `stamp`.
pub open spec fn banner_line(stamp: Seq<char>) -> Seq<char> {
    "\n==== DeepSeek Harness client started at "@ + stamp + " ===="@
}

/// The line written to the service log for a start at `stamp`.
pub fn banner_for(stamp: &str) -> (r: String)
    ensures
        r@ == banner_line(stamp@),
{
    let mut r = String::from_str("\n==== DeepSeek Harness client started at ");
    r.append(stamp);
    r.append(" ====");
    r
}

/// The message for a service process that could not be started.
pub fn spawn_error_message(error: &str) -> (r: String)
    ensures
        r@ == "启动 dsh 服务失败："@ + error@,
{
    let mut r = String::from_str("启动 dsh 服务失败：");
    r.append(error);
    r
}

/// The arguments of `taskkill` that end the process `pid` and its children.
pub fn taskkill_args(pid: u32) -> (r: Vec<String>)
    ensures
        r@.map_values(|s: String| s@) == seq!["/PID"@, decimal(pid as nat), "/T"@, "/F"@],
{
    let mut digits: Vec<char> = Vec::new();
    push_decimal(&mut digits, pid as u64);
    assert(digits@ =~= decimal(pid as nat));
    let mut r: Vec<String> = Vec::new();
    r.push(String::from_str("/PID"));
    r.push(string_of(digits.as_slice()));
    r.push(String::from_str("/T"));
    r.push(String::from_str("/F"));
    assert(r@.map_values(|s: String| s@) =~= seq!["/PID"@, decimal(pid as nat), "/T"@, "/F"@]);
    r
}

/// A directory chosen by hand, once it is recognised.
pub struct ManualChoice {
    /// What kind of installation it holds.
    pub kind: DshKind,
    /// The message shown once it is saved.
    pub message: String,
}

/// The message shown when the chosen directory holds no installation.
pub open spec fn invalid_choice_message() -> Seq<char> {
    "所选目录不是有效的 DeepSeek Harness 安装目录（未找到 apps/cli 或 lib/bin.js）"@
}

/// What a directory chosen by hand holds: a checkout with an entry script, or
/// an npm package with its entry script and `package.json`.
pub open spec fn manual_choice_in(fs: spec_fn(Seq<Seq<char>>) -> bool, dir: Seq<Seq<char>>) -> Result<
    (DshKind, Seq<char>),
    Seq<char>,
> {
    if repo_entry_in(fs, dir) is Some {
        Ok((DshKind::Repo, "已选择安装目录，正在启动服务..."@))
    } else if fs(package_entry(dir)) && fs(dir.push("package.json"@)) {
        Ok((DshKind::Npm, "已选择 dsh 包目录，正在启动服务..."@))
    } else {
        Err(invalid_choice_message())
    }
}

/// Recognises the directory `dir` chosen by hand.
pub fn choose_directory<F: Fn(&FsPath) -> bool>(dir: &FsPath, is_file: &F) -> (r: Result<
    ManualChoice,
    String,
>)
    requires
        probe_accepts_all(*is_file),
    ensures
        probe_is_consistent(*is_file) ==> match r {
            Ok(c) => manual_choice_in(reported(*is_file), dir@) == Ok::<
                (DshKind, Seq<char>),
                Seq<char>,
            >((c.kind, c.message@)),
            Err(m) => manual_choice_in(reported(*is_file), dir@) == Err::<
                (DshKind, Seq<char>),
                Seq<char>,
            >(m@),
        },
        match r {
            Ok(c) => (c.kind == DshKind::Repo && c.message@ == "已选择安装目录，正在启动服务..."@ && (
            probe_reports(*is_file, repo_lib_entry(dir@)) || probe_reports(
                *is_file,
                repo_src_entry(dir@),
            ))) || (c.kind == DshKind::Npm && c.message@ == "已选择 dsh 包目录，正在启动服务..."@
                && probe_reports(*is_file, package_entry(dir@)) && probe_reports(
                *is_file,
                dir@.push("package.json"@),
            )),
            Err(m) => m@ == invalid_choice_message(),
        },
{
    if repo_entry(dir, is_file).is_some() {
        return Ok(
            ManualChoice {
                kind: DshKind::Repo,
                message: String::from_str("已选择安装目录，正在启动服务..."),
            },
        );
    }
    let entry = dir.join("lib").join("bin.js");
    assert(entry@ =~= package_entry(dir@));
    let manifest = dir.join("package.json");
    if probe(is_file, &entry) && probe(is_file, &manifest) {
        Ok(
            ManualChoice {
                kind: DshKind::Npm,
                message: String::from_str("已选择 dsh 包目录，正在启动服务..."),
            },
        )
    } else {
        Err(
            String::from_str(
                "所选目录不是有效的 DeepSeek Harness 安装目录（未找到 apps/cli 或 lib/bin.js）",
            ),
        )
    }
}

/// Whether one of `args` is exactly `flag`.
pub open spec fn has_flag(args: Seq<Seq<char>>, flag: Seq<char>) -> bool {
    exists|i: int| 0 <= i < args.len() && #[trigger] args[i] == flag
}

/// Whether one of `args` is exactly `flag`.
pub fn has_arg(args: &Vec<String>, flag: &str) -> (b: bool)
    ensures
        b == has_flag(texts_view(args@), flag@),
{
    let mut i: usize = 0;
    while i < args.len()
        invariant
            i <= args.len(),
            forall|j: int| 0 <= j < i ==> (#[trigger] args@[j])@ != flag@,
        decreases args.len() - i,
    {
        if same_text(args[i].as_str(), flag) {
            assert(texts_view(args@)[i as int] == flag@);
            return true;
        }
        i = i + 1;
    }
    assert forall|j: int| 0 <= j < texts_view(args@).len() implies #[trigger] texts_view(args@)[j]
        != flag@ by {
        assert(texts_view(args@)[j] == args@[j]@);
    }
    false
}

/// How the launcher was started.
#[derive(Clone, Copy, PartialEq, Eq, Structural, Debug)]
pub enum LaunchMode {
    /// Run the automatic installation once on the console and exit.
    InstallTest { force_bootstrap: bool, preferred: NodeSource },
    /// Open the window and restart the service.
    Restart,
    /// Open the window and bring the service up.
    Normal,
}

/// How the command line `args` starts the launcher.
pub open spec fn launch_mode_of(args: Seq<Seq<char>>) -> LaunchMode {
    if has_flag(args, "--test-auto-install"@) {
        LaunchMode::InstallTest {
            force_bootstrap: has_flag(args, "--force-node-bootstrap"@),
            preferred: if has_flag(args, "--source-mirror"@) {
                NodeSource::Mirror
            } else {
                NodeSource::Official
            },
        }
    } else if has_flag(args, "--restart"@) {
        LaunchMode::Restart
    } else {
        LaunchMode::Normal
    }
}

/// How the command line `args` starts the launcher.
pub fn launch_mode(args: &Vec<String>) -> (m: LaunchMode)
    ensures
        m == launch_mode_of(texts_view(args@)),
{
    if has_arg(args, "--test-auto-install") {
        let force_bootstrap = has_arg(args, "--force-node-bootstrap");
        let preferred = if has_arg(args, "--source-mirror") {
            NodeSource::Mirror
        } else {
            NodeSource::Official
        };
        LaunchMode::InstallTest { force_bootstrap, preferred }
    } else if has_arg(args, "--restart") {
        LaunchMode::Restart
    } else {
        LaunchMode::Normal
    }
}

/// What an entry of the tray menu does.
#[derive(Clone, Copy, PartialEq, Eq, Structural, Debug)]
pub enum MenuAction {
    /// Show the window.
    Show,
    /// Show the window and restart the service.
    Restart,
    /// Quit the launcher.
    Exit,
    /// Nothing.
    Ignore,
}

/// What the tray menu entry `id` does.
pub open spec fn menu_action_of(id: Seq<char>) -> MenuAction {
    if id == "show"@ {
        MenuAction::Show
    } else if id == "restart"@ {
        MenuAction::Restart
    } else if id == "exit"@ {
        MenuAction::Exit
    } else {
        MenuAction::Ignore
    }
}

/// What the tray menu entry `id` does.
pub fn menu_action(id: &str) -> (a: MenuAction)
    ensures
        a == menu_action_of(id@),
{
    if same_text(id, "show") {
        MenuAction::Show
    } else if same_text(id, "restart") {
        MenuAction::Restart
    } else if same_text(id, "exit") {
        MenuAction::Exit
    } else {
        MenuAction::Ignore
    }
}

} // verus!
