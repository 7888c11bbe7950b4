//! Finding Node.js, npm and an installation of the harness on disk.
//!
//! Each search asks a probe whether a file exists at a path. When the probe
//! answers alike for equal paths (`probe_is_consistent`), the result is the one
//! the `*_in` spec function gives for the files the probe reports.

use vstd::prelude::*;
use crate::config::{Config, app_data_view, opt_text, runtime_node_path};
use crate::names::{DEFAULT_REPO, DshKind};
use crate::paths::{FsPath, probe, probe_accepts_all, probe_denies, probe_is_consistent, probe_reports};

verus! {

/// The files a probe reports, as a predicate on path views.
pub open spec fn reported<F: Fn(&FsPath) -> bool>(f: F) -> spec_fn(Seq<Seq<char>>) -> bool {
    |v: Seq<Seq<char>>| probe_reports(f, v)
}

/// The view of an optional path.
pub open spec fn opt_path(o: Option<FsPath>) -> Option<Seq<Seq<char>>> {
    match o {
        Some(p) => Some(p@),
        None => None,
    }
}

/// The built entry script of a source checkout at `root`.
pub open spec fn repo_lib_entry(root: Seq<Seq<char>>) -> Seq<Seq<char>> {
    root + seq!["apps"@, "cli"@, "lib"@, "bin.js"@]
}

/// The source entry script of a source checkout at `root`.
pub open spec fn repo_src_entry(root: Seq<Seq<char>>) -> Seq<Seq<char>> {
    root + seq!["apps"@, "cli"@, "src"@, "bin.ts"@]
}

/// The entry script of a checkout at `root`: the built one when it exists,
/// else the source one when it exists.
pub open spec fn repo_entry_in(fs: spec_fn(Seq<Seq<char>>) -> bool, root: Seq<Seq<char>>) -> Option<
    Seq<Seq<char>>,
> {
    if fs(repo_lib_entry(root)) {
        Some(repo_lib_entry(root))
    } else if fs(repo_src_entry(root)) {
        Some(repo_src_entry(root))
    } else {
        None
    }
}

/// `base` with `a`, `b`, `c` and `d` joined on.
fn join4(base: &FsPath, a: &str, b: &str, c: &str, d: &str) -> (p: FsPath)
    ensures
        p@ == base@ + seq![a@, b@, c@, d@],
{
    let p = base.join(a).join(b).join(c).join(d);
    assert(p@ =~= base@ + seq![a@, b@, c@, d@]);
    p
}

/// The entry script of the source checkout at `root`, if there is one.
pub fn repo_entry<F: Fn(&FsPath) -> bool>(root: &FsPath, is_file: &F) -> (r: Option<FsPath>)
    requires
        probe_accepts_all(*is_file),
    ensures
        probe_is_consistent(*is_file) ==> opt_path(r) == repo_entry_in(reported(*is_file), root@),
        r matches Some(e) ==> probe_reports(*is_file, e@) && (e@ == repo_lib_entry(root@) || e@
            == repo_src_entry(root@)),
        r is None ==> probe_denies(*is_file, repo_lib_entry(root@)) && probe_denies(
            *is_file,
            repo_src_entry(root@),
        ),
{
    let lib = join4(root, "apps", "cli", "lib", "bin.js");
    if probe(is_file, &lib) {
        return Some(lib);
    }
    let src = join4(root, "apps", "cli", "src", "bin.ts");
    if probe(is_file, &src) {
        Some(src)
    } else {
        None
    }
}

/// The first of `dirs` that holds a file `name`, joined with `name`.
pub open spec fn first_in_dirs(
    fs: spec_fn(Seq<Seq<char>>) -> bool,
    dirs: Seq<Seq<char>>,
    name: Seq<char>,
) -> Option<Seq<Seq<char>>>
    decreases dirs.len(),
{
    if dirs.len() == 0 {
        None
    } else if fs(seq![dirs[0], name]) {
        Some(seq![dirs[0], name])
    } else {
        first_in_dirs(fs, dirs.drop_first(), name)
    }
}

/// The views of a list of texts.
pub open spec fn texts_view(v: Seq<String>) -> Seq<Seq<char>> {
    v.map_values(|s: String| s@)
}

/// The first directory of the search path `dirs` that holds a file `name`,
/// joined with `name`.
pub fn find_in_path<F: Fn(&FsPath) -> bool>(dirs: &Vec<String>, name: &str, is_file: &F) -> (r:
    Option<FsPath>)
    requires
        probe_accepts_all(*is_file),
    ensures
        probe_is_consistent(*is_file) ==> opt_path(r) == first_in_dirs(
            reported(*is_file),
            texts_view(dirs@),
            name@,
        ),
        r matches Some(p) ==> probe_reports(*is_file, p@) && p@.len() == 2 && p@[1] == name@
            && texts_view(dirs@).contains(p@[0]),
        r is None ==> forall|k: int|
            0 <= k < dirs@.len() ==> probe_denies(*is_file, seq![#[trigger] dirs@[k]@, name@]),
{
    let ghost all = texts_view(dirs@);
    let mut i: usize = 0;
    assert(all.skip(0) == all);
    while i < dirs.len()
        invariant
            i <= dirs.len(),
            all == texts_view(dirs@),
            probe_accepts_all(*is_file),
            probe_is_consistent(*is_file) ==> first_in_dirs(reported(*is_file), all, name@)
                == first_in_dirs(reported(*is_file), all.skip(i as int), name@),
            forall|k: int| 0 <= k < i ==> probe_denies(*is_file, seq![#[trigger] dirs@[k]@, name@]),
        decreases dirs.len() - i,
    {
        let candidate = FsPath::new(dirs[i].as_str()).join(name);
        assert(candidate@ == seq![all[i as int], name@]);
        assert(all[i as int] == dirs@[i as int]@);
        assert(all.skip(i as int)[0] == all[i as int]);
        assert(all.skip(i as int).drop_first() == all.skip(i + 1));
        if probe(is_file, &candidate) {
            assert(all[i as int] == candidate@[0]);
            return Some(candidate);
        }
        i = i + 1;
    }
    None
}

/// The Node.js executables tried before the search path, in order.
pub open spec fn node_candidates(appdata: Option<Seq<char>>) -> Seq<Seq<Seq<char>>> {
    seq![
        app_data_view(appdata) + seq!["runtime"@, "node"@, "node.exe"@],
        seq!["D:\\Program Files\\Dev\\Node.js"@, "node.exe"@],
        seq!["C:\\Program Files\\nodejs"@, "node.exe"@],
        seq!["C:\\Program Files (x86)\\nodejs"@, "node.exe"@],
    ]
}

/// The Node.js executable that is used: the first candidate that exists, else
/// the first `node.exe` on the search path.
pub open spec fn node_in(
    fs: spec_fn(Seq<Seq<char>>) -> bool,
    appdata: Option<Seq<char>>,
    dirs: Seq<Seq<char>>,
) -> Option<Seq<Seq<char>>> {
    let c = node_candidates(appdata);
    if fs(c[0]) {
        Some(c[0])
    } else if fs(c[1]) {
        Some(c[1])
    } else if fs(c[2]) {
        Some(c[2])
    } else if fs(c[3]) {
        Some(c[3])
    } else {
        first_in_dirs(fs, dirs, "node.exe"@)
    }
}

/// Whether `p` names a file `node.exe` in some directory.
pub open spec fn is_node_path(p: Seq<Seq<char>>) -> bool {
    p.len() >= 2 && p.last() == "node.exe"@
}

/// The Node.js executable to use, given the value of `APPDATA` and the
/// directories of the search path.
pub fn find_node<F: Fn(&FsPath) -> bool>(
    appdata: Option<&str>,
    dirs: &Vec<String>,
    is_file: &F,
) -> (r: Option<FsPath>)
    requires
        probe_accepts_all(*is_file),
    ensures
        probe_is_consistent(*is_file) ==> opt_path(r) == node_in(
            reported(*is_file),
            opt_text(appdata),
            texts_view(dirs@),
        ),
        r matches Some(p) ==> probe_reports(*is_file, p@) && is_node_path(p@),
{
    let ghost c = node_candidates(opt_text(appdata));
    let first = runtime_node_path(appdata);
    assert(first@ =~= c[0]);
    if probe(is_file, &first) {
        return Some(first);
    }
    let second = FsPath::new("D:\\Program Files\\Dev\\Node.js").join("node.exe");
    assert(second@ =~= c[1]);
    if probe(is_file, &second) {
        return Some(second);
    }
    let third = FsPath::new("C:\\Program Files\\nodejs").join("node.exe");
    assert(third@ =~= c[2]);
    if probe(is_file, &third) {
        return Some(third);
    }
    let fourth = FsPath::new("C:\\Program Files (x86)\\nodejs").join("node.exe");
    assert(fourth@ =~= c[3]);
    if probe(is_file, &fourth) {
        return Some(fourth);
    }
    find_in_path(dirs, "node.exe", is_file)
}

/// The npm command-line script that sits beside the Node.js executable `node`.
pub open spec fn npm_cli_beside(node: Seq<Seq<char>>) -> Seq<Seq<char>> {
    node.drop_last() + seq!["node_modules"@, "npm"@, "bin"@, "npm-cli.js"@]
}

/// The npm command-line script to use: the one beside the Node.js executable,
/// when it exists.
pub open spec fn npm_cli_in(
    fs: spec_fn(Seq<Seq<char>>) -> bool,
    appdata: Option<Seq<char>>,
    dirs: Seq<Seq<char>>,
) -> Option<Seq<Seq<char>>> {
    match node_in(fs, appdata, dirs) {
        Some(node) => if node.len() >= 2 && fs(npm_cli_beside(node)) {
            Some(npm_cli_beside(node))
        } else {
            None
        },
        None => None,
    }
}

/// The npm command-line script to use, given the value of `APPDATA` and the
/// directories of the search path.
pub fn find_npm_cli<F: Fn(&FsPath) -> bool>(
    appdata: Option<&str>,
    dirs: &Vec<String>,
    is_file: &F,
) -> (r: Option<FsPath>)
    requires
        probe_accepts_all(*is_file),
    ensures
        probe_is_consistent(*is_file) ==> opt_path(r) == npm_cli_in(
            reported(*is_file),
            opt_text(appdata),
            texts_view(dirs@),
        ),
        r matches Some(p) ==> probe_reports(*is_file, p@) && exists|n: Seq<Seq<char>>|
            is_node_path(n) && probe_reports(*is_file, n) && p@ == npm_cli_beside(n),
{
    let node = match find_node(appdata, dirs, is_file) {
        Some(n) => n,
        None => return None,
    };
    let dir = match node.parent() {
        Some(d) => d,
        None => return None,
    };
    let cli = join4(&dir, "node_modules", "npm", "bin", "npm-cli.js");
    assert(cli@ == npm_cli_beside(node@));
    if probe(is_file, &cli) {
        Some(cli)
    } else {
        None
    }
}

/// The entry script of the global npm package under the roaming application
/// data directory `appdata`.
pub open spec fn global_bin_of(appdata: Seq<char>) -> Seq<Seq<char>> {
    seq![appdata, "npm"@, "node_modules"@, "@deepseek-ai"@, "dsh"@, "lib"@, "bin.js"@]
}

/// That entry script, when `APPDATA` is set and the script exists.
pub open spec fn npm_global_bin_in(fs: spec_fn(Seq<Seq<char>>) -> bool, appdata: Option<Seq<char>>) -> Option<
    Seq<Seq<char>>,
> {
    match appdata {
        Some(a) => if fs(global_bin_of(a)) {
            Some(global_bin_of(a))
        } else {
            None
        },
        None => None,
    }
}

/// The entry script of the globally installed npm package, if there is one.
pub fn npm_global_bin<F: Fn(&FsPath) -> bool>(appdata: Option<&str>, is_file: &F) -> (r: Option<
    FsPath,
>)
    requires
        probe_accepts_all(*is_file),
    ensures
        probe_is_consistent(*is_file) ==> opt_path(r) == npm_global_bin_in(
            reported(*is_file),
            opt_text(appdata),
        ),
        r matches Some(p) ==> probe_reports(*is_file, p@) && appdata is Some && p@ == global_bin_of(
            appdata->0@,
        ),
{
    let a = match appdata {
        Some(a) => a,
        None => return None,
    };
    let pkg = join4(&FsPath::new(a), "npm", "node_modules", "@deepseek-ai", "dsh");
    let bin = pkg.join("lib").join("bin.js");
    assert(bin@ =~= global_bin_of(a@));
    if probe(is_file, &bin) {
        Some(bin)
    } else {
        None
    }
}

/// The entry script of an npm package at `root`.
pub open spec fn package_entry(root: Seq<Seq<char>>) -> Seq<Seq<char>> {
    root + seq!["lib"@, "bin.js"@]
}

/// Whether a saved configuration still points at an installation: a checkout
/// with an entry script, or a package with its entry script.
pub open spec fn config_is_valid(
    fs: spec_fn(Seq<Seq<char>>) -> bool,
    path: Seq<char>,
    kind: Seq<char>,
) -> bool {
    if kind == "repo"@ {
        repo_entry_in(fs, seq![path]) is Some
    } else if kind == "npm"@ {
        fs(package_entry(seq![path]))
    } else {
        false
    }
}

/// The probe `f` reported the entry script that a configuration (`path`,
/// `kind`) needs.
pub open spec fn config_reported<F: Fn(&FsPath) -> bool>(f: F, path: Seq<char>, kind: Seq<char>) -> bool {
    ||| kind == "repo"@ && (probe_reports(f, repo_lib_entry(seq![path])) || probe_reports(
        f,
        repo_src_entry(seq![path]),
    ))
    ||| kind == "npm"@ && probe_reports(f, package_entry(seq![path]))
}

/// The probe `f` denied every entry script that a configuration (`path`,
/// `kind`) could use, or the kind is unknown.
pub open spec fn config_denied<F: Fn(&FsPath) -> bool>(f: F, path: Seq<char>, kind: Seq<char>) -> bool {
    ||| kind != "repo"@ && kind != "npm"@
    ||| kind == "repo"@ && probe_denies(f, repo_lib_entry(seq![path])) && probe_denies(
        f,
        repo_src_entry(seq![path]),
    )
    ||| kind == "npm"@ && probe_denies(f, package_entry(seq![path]))
}

/// `root` joined with `lib` and `bin.js`.
fn package_entry_of(root: &FsPath) -> (p: FsPath)
    ensures
        p@ == package_entry(root@),
{
    let p = root.join("lib").join("bin.js");
    assert(p@ =~= package_entry(root@));
    p
}

/// Whether the saved configuration `cfg` still points at an installation.
pub fn valid_config<F: Fn(&FsPath) -> bool>(cfg: &Config, is_file: &F) -> (b: bool)
    requires
        probe_accepts_all(*is_file),
    ensures
        probe_is_consistent(*is_file) ==> b == config_is_valid(
            reported(*is_file),
            cfg.dsh_path@,
            cfg.dsh_kind@,
        ),
        b ==> config_reported(*is_file, cfg.dsh_path@, cfg.dsh_kind@),
        !b ==> config_denied(*is_file, cfg.dsh_path@, cfg.dsh_kind@),
{
    let path = FsPath::new(cfg.dsh_path.as_str());
    if crate::text::same_text(cfg.dsh_kind.as_str(), "repo") {
        proof {
            reveal_strlit("repo");
            reveal_strlit("npm");
            assert("repo"@.len() == 4);
            assert("npm"@.len() == 3);
        }
        repo_entry(&path, is_file).is_some()
    } else if crate::text::same_text(cfg.dsh_kind.as_str(), "npm") {
        let entry = package_entry_of(&path);
        assert(entry@ == package_entry(seq![cfg.dsh_path@]));
        probe(is_file, &entry)
    } else {
        false
    }
}

/// An installation of the harness: its kind, its root directory, and the
/// script that starts it.
pub struct Installation {
    pub kind: DshKind,
    pub root: FsPath,
    pub entry: FsPath,
}

/// An installation as plain values: kind, root and entry script.
pub type InstallationView = (DshKind, Seq<Seq<char>>, Seq<Seq<char>>);

/// The view of an optional installation.
pub open spec fn opt_installation(o: Option<Installation>) -> Option<InstallationView> {
    match o {
        Some(i) => Some((i.kind, i.root@, i.entry@)),
        None => None,
    }
}

/// The form every installation has: an npm package's entry script is
/// `lib/bin.js` in its root; a checkout's root is a single base and its entry
/// script is one of the two scripts of a checkout.
pub open spec fn installation_shape(kind: DshKind, root: Seq<Seq<char>>, entry: Seq<Seq<char>>) -> bool {
    &&& kind == DshKind::Npm ==> entry == package_entry(root)
    &&& kind == DshKind::Repo ==> root.len() == 1 && (entry == repo_lib_entry(root) || entry
        == repo_src_entry(root))
}

/// The kind of installation a configuration names by `kind`.
pub open spec fn kind_named(kind: Seq<char>) -> DshKind {
    if kind == "npm"@ {
        DshKind::Npm
    } else {
        DshKind::Repo
    }
}

/// The npm package directory beside the launcher scripts in `dir`.
pub open spec fn package_in_dir(dir: Seq<char>) -> Seq<Seq<char>> {
    seq![dir, "node_modules"@, "@deepseek-ai"@, "dsh"@]
}

/// Whether `dir` holds one of the launcher scripts `dsh.cmd`, `dsh.exe`, `dsh`.
pub open spec fn has_launcher(fs: spec_fn(Seq<Seq<char>>) -> bool, dir: Seq<char>) -> bool {
    fs(seq![dir, "dsh.cmd"@]) || fs(seq![dir, "dsh.exe"@]) || fs(seq![dir, "dsh"@])
}

/// The first of `dirs` that holds a launcher script.
pub open spec fn first_launcher_dir(fs: spec_fn(Seq<Seq<char>>) -> bool, dirs: Seq<Seq<char>>) -> Option<
    Seq<char>,
>
    decreases dirs.len(),
{
    if dirs.len() == 0 {
        None
    } else if has_launcher(fs, dirs[0]) {
        Some(dirs[0])
    } else {
        first_launcher_dir(fs, dirs.drop_first())
    }
}

/// The npm package found through the search path: the one beside the first
/// launcher script on it, when its entry script exists. Later directories are
/// not looked at.
pub open spec fn path_package_in(fs: spec_fn(Seq<Seq<char>>) -> bool, dirs: Seq<Seq<char>>) -> Option<
    InstallationView,
> {
    match first_launcher_dir(fs, dirs) {
        Some(d) => if fs(package_entry(package_in_dir(d))) {
            Some((DshKind::Npm, package_in_dir(d), package_entry(package_in_dir(d))))
        } else {
            None
        },
        None => None,
    }
}

/// The installation named by a valid saved configuration (`path`, `kind`).
pub open spec fn configured_in(
    fs: spec_fn(Seq<Seq<char>>) -> bool,
    cfg: Option<(Seq<char>, Seq<char>)>,
) -> Option<InstallationView> {
    match cfg {
        Some((path, kind)) => if !config_is_valid(fs, path, kind) {
            None
        } else if kind == "npm"@ {
            Some((DshKind::Npm, seq![path], package_entry(seq![path])))
        } else {
            match repo_entry_in(fs, seq![path]) {
                Some(e) => Some((DshKind::Repo, seq![path], e)),
                None => None,
            }
        },
        None => None,
    }
}

/// A source checkout at `root`, when it has an entry script.
pub open spec fn checkout_in(fs: spec_fn(Seq<Seq<char>>) -> bool, root: Seq<char>) -> Option<
    InstallationView,
> {
    match repo_entry_in(fs, seq![root]) {
        Some(e) => Some((DshKind::Repo, seq![root], e)),
        None => None,
    }
}

/// The installation to start, in order of preference: the one the saved
/// configuration names, a checkout at the default place, a checkout at
/// `DSH_HOME`, the package beside the first launcher on the search path, the
/// globally installed npm package.
pub open spec fn detect_in(
    fs: spec_fn(Seq<Seq<char>>) -> bool,
    cfg: Option<(Seq<char>, Seq<char>)>,
    dsh_home: Option<Seq<char>>,
    dirs: Seq<Seq<char>>,
    appdata: Option<Seq<char>>,
) -> Option<InstallationView> {
    if configured_in(fs, cfg) is Some {
        configured_in(fs, cfg)
    } else if checkout_in(fs, DEFAULT_REPO@) is Some {
        checkout_in(fs, DEFAULT_REPO@)
    } else if dsh_home is Some && checkout_in(fs, dsh_home->0) is Some {
        checkout_in(fs, dsh_home->0)
    } else if path_package_in(fs, dirs) is Some {
        path_package_in(fs, dirs)
    } else {
        match npm_global_bin_in(fs, appdata) {
            Some(bin) => Some((DshKind::Npm, bin.drop_last().drop_last(), bin)),
            None => None,
        }
    }
}

/// The saved configuration as the pair (path, kind).
pub open spec fn opt_config(cfg: Option<&Config>) -> Option<(Seq<char>, Seq<char>)> {
    match cfg {
        Some(c) => Some((c.dsh_path@, c.dsh_kind@)),
        None => None,
    }
}

/// Whether `dir` holds a launcher script, asking for `dsh.cmd`, `dsh.exe`, `dsh` in turn.
fn dir_has_launcher<F: Fn(&FsPath) -> bool>(dir: &FsPath, is_file: &F) -> (b: bool)
    requires
        probe_accepts_all(*is_file),
        dir@.len() == 1,
    ensures
        probe_is_consistent(*is_file) ==> b == has_launcher(reported(*is_file), dir@[0]),
{
    let a = dir.join("dsh.cmd");
    let b = dir.join("dsh.exe");
    let c = dir.join("dsh");
    assert(a@ =~= seq![dir@[0], "dsh.cmd"@]);
    assert(b@ =~= seq![dir@[0], "dsh.exe"@]);
    assert(c@ =~= seq![dir@[0], "dsh"@]);
    probe(is_file, &a) || probe(is_file, &b) || probe(is_file, &c)
}

/// The package beside the first launcher script on the search path `dirs`.
fn path_package<F: Fn(&FsPath) -> bool>(dirs: &Vec<String>, is_file: &F) -> (r: Option<Installation>)
    requires
        probe_accepts_all(*is_file),
    ensures
        probe_is_consistent(*is_file) ==> opt_installation(r) == path_package_in(
            reported(*is_file),
            texts_view(dirs@),
        ),
        r matches Some(i) ==> probe_reports(*is_file, i.entry@) && i.kind == DshKind::Npm
            && i.entry@ == package_entry(i.root@),
{
    let ghost all = texts_view(dirs@);
    let ghost fs = reported(*is_file);
    let mut i: usize = 0;
    assert(all.skip(0) == all);
    while i < dirs.len()
        invariant
            i <= dirs.len(),
            all == texts_view(dirs@),
            fs == reported(*is_file),
            probe_accepts_all(*is_file),
            probe_is_consistent(*is_file) ==> first_launcher_dir(fs, all) == first_launcher_dir(
                fs,
                all.skip(i as int),
            ),
        decreases dirs.len() - i,
    {
        let dir = FsPath::new(dirs[i].as_str());
        assert(dir@[0] == all[i as int]);
        assert(all.skip(i as int)[0] == all[i as int]);
        assert(all.skip(i as int).drop_first() == all.skip(i + 1));
        if dir_has_launcher(&dir, is_file) {
            let pkg = dir.join("node_modules").join("@deepseek-ai").join("dsh");
            assert(pkg@ =~= package_in_dir(all[i as int]));
            let bin = package_entry_of(&pkg);
            if probe(is_file, &bin) {
                return Some(Installation { kind: DshKind::Npm, root: pkg, entry: bin });
            }
            return None;
        }
        i = i + 1;
    }
    None
}

/// A source checkout at `root`, when it has an entry script.
fn checkout<F: Fn(&FsPath) -> bool>(root: FsPath, is_file: &F) -> (r: Option<Installation>)
    requires
        probe_accepts_all(*is_file),
        root@.len() == 1,
    ensures
        probe_is_consistent(*is_file) ==> opt_installation(r) == checkout_in(reported(*is_file), root@[0]),
        r matches Some(i) ==> probe_reports(*is_file, i.entry@) && i.kind == DshKind::Repo
            && i.root@ == root@ && installation_shape(i.kind, i.root@, i.entry@),
{
    assert(root@ =~= seq![root@[0]]);
    match repo_entry(&root, is_file) {
        Some(entry) => Some(Installation { kind: DshKind::Repo, root, entry }),
        None => None,
    }
}

/// The installation of the harness to start, given the saved configuration,
/// `DSH_HOME`, the directories of the search path and `APPDATA`.
pub fn detect<F: Fn(&FsPath) -> bool>(
    cfg: Option<&Config>,
    dsh_home: Option<&str>,
    dirs: &Vec<String>,
    appdata: Option<&str>,
    is_file: &F,
) -> (r: Option<Installation>)
    requires
        probe_accepts_all(*is_file),
    ensures
        probe_is_consistent(*is_file) ==> opt_installation(r) == detect_in(
            reported(*is_file),
            opt_config(cfg),
            opt_text(dsh_home),
            texts_view(dirs@),
            opt_text(appdata),
        ),
        r matches Some(i) ==> probe_reports(*is_file, i.entry@) && installation_shape(
            i.kind,
            i.root@,
            i.entry@,
        ),
        cfg is Some && !(r matches Some(i) && i.kind == kind_named(cfg->0.dsh_kind@) && i.root@
            == seq![cfg->0.dsh_path@]) ==> config_denied(
            *is_file,
            cfg->0.dsh_path@,
            cfg->0.dsh_kind@,
        ),
{
    let ghost fs = reported(*is_file);
    proof {
        reveal_strlit("repo");
        reveal_strlit("npm");
        assert("repo"@.len() == 4);
        assert("npm"@.len() == 3);
    }
    if let Some(c) = cfg {
        if valid_config(c, is_file) {
            let root = FsPath::new(c.dsh_path.as_str());
            if crate::text::same_text(c.dsh_kind.as_str(), "npm") {
                let entry = package_entry_of(&root);
                return Some(Installation { kind: DshKind::Npm, root, entry });
            }
            if let Some(entry) = repo_entry(&root, is_file) {
                return Some(Installation { kind: DshKind::Repo, root, entry });
            }
        }
    }
    assert(cfg is Some ==> config_denied(*is_file, cfg->0.dsh_path@, cfg->0.dsh_kind@));
    assert(probe_is_consistent(*is_file) ==> configured_in(fs, opt_config(cfg)) is None);
    let default_repo = checkout(FsPath::new(DEFAULT_REPO), is_file);
    if default_repo.is_some() {
        return default_repo;
    }
    if let Some(home) = dsh_home {
        let from_home = checkout(FsPath::new(home), is_file);
        if from_home.is_some() {
            return from_home;
        }
    }
    let from_path = path_package(dirs, is_file);
    if from_path.is_some() {
        return from_path;
    }
    if let Some(bin) = npm_global_bin(appdata, is_file) {
        if let Some(lib) = bin.parent() {
            if let Some(pkg) = lib.parent() {
                assert(bin@ =~= package_entry(pkg@));
                return Some(Installation { kind: DshKind::Npm, root: pkg, entry: bin });
            }
        }
    }
    None
}

} // verus!
