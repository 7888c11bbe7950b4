use deepseek_harness_client::config::{
    app_data_dir, config_for, config_path, log_path, runtime_node_path, Config,
};
use deepseek_harness_client::locate::{
    detect, find_in_path, find_node, find_npm_cli, npm_global_bin, repo_entry, valid_config,
};
use deepseek_harness_client::names::{DshKind, NodeSource, DEFAULT_REPO, NODE_ARCHIVE, NODE_VERSION};
use deepseek_harness_client::paths::FsPath;

fn key(p: &FsPath) -> String {
    p.parts.join("/")
}

fn parts(p: &FsPath) -> Vec<&str> {
    p.parts.iter().map(|s| s.as_str()).collect()
}

fn disk(files: &[&str]) -> impl Fn(&FsPath) -> bool {
    let files: Vec<String> = files.iter().map(|f| f.to_string()).collect();
    move |p: &FsPath| files.contains(&key(p))
}

fn dirs(list: &[&str]) -> Vec<String> {
    list.iter().map(|d| d.to_string()).collect()
}

#[test]
fn labels_urls_and_registries() {
    assert_eq!(NodeSource::Official.label(), "官方源");
    assert_eq!(NodeSource::Mirror.label(), "镜像源");
    assert_eq!(
        NodeSource::Official.node_url(NODE_VERSION, NODE_ARCHIVE),
        "https://nodejs.org/download/release/v20.20.2/node-v20.20.2-win-x64.zip"
    );
    assert_eq!(
        NodeSource::Mirror.node_url(NODE_VERSION, NODE_ARCHIVE),
        "https://npmmirror.com/mirrors/node/v20.20.2/node-v20.20.2-win-x64.zip"
    );
    assert_eq!(NodeSource::Official.npm_registry(), "https://registry.npmjs.org");
    assert_eq!(NodeSource::Mirror.npm_registry(), "https://registry.npmmirror.com");
    assert_eq!(DshKind::Repo.as_str(), "repo");
    assert_eq!(DshKind::Npm.as_str(), "npm");
}

#[test]
fn source_choice() {
    assert_eq!(NodeSource::from_choice(Some("mirror")), NodeSource::Mirror);
    assert_eq!(NodeSource::from_choice(Some("official")), NodeSource::Official);
    assert_eq!(NodeSource::from_choice(Some("Mirror")), NodeSource::Official);
    assert_eq!(NodeSource::from_choice(None), NodeSource::Official);
    assert_eq!(NodeSource::Mirror.try_order(), [NodeSource::Mirror, NodeSource::Official]);
    assert_eq!(NodeSource::Official.try_order(), [NodeSource::Official, NodeSource::Mirror]);
}

#[test]
fn data_directory_paths() {
    assert_eq!(parts(&app_data_dir(Some("C:\\AppData"))), ["C:\\AppData", "DeepSeek Harness"]);
    assert_eq!(parts(&app_data_dir(None)), [".", "DeepSeek Harness"]);
    assert_eq!(parts(&config_path(Some("A"))), ["A", "DeepSeek Harness", "config.json"]);
    assert_eq!(parts(&log_path(Some("A"))), ["A", "DeepSeek Harness", "logs", "dsh.log"]);
    assert_eq!(
        parts(&runtime_node_path(None)),
        [".", "DeepSeek Harness", "runtime", "node", "node.exe"]
    );
}

#[test]
fn path_join_and_parent() {
    let p = FsPath::new("C:\\x").join("a").join("b");
    assert_eq!(parts(&p), ["C:\\x", "a", "b"]);
    assert_eq!(parts(&p.parent().unwrap()), ["C:\\x", "a"]);
    assert!(FsPath::new("C:\\x").parent().is_none());
}

#[test]
fn repo_entry_prefers_built_script() {
    let root = FsPath::new("R");
    let both = disk(&["R/apps/cli/lib/bin.js", "R/apps/cli/src/bin.ts"]);
    assert_eq!(key(&repo_entry(&root, &both).unwrap()), "R/apps/cli/lib/bin.js");
    let src_only = disk(&["R/apps/cli/src/bin.ts"]);
    assert_eq!(key(&repo_entry(&root, &src_only).unwrap()), "R/apps/cli/src/bin.ts");
    assert!(repo_entry(&root, &disk(&[])).is_none());
}

#[test]
fn find_in_path_takes_first_directory() {
    let probe = disk(&["B/node.exe", "C/node.exe"]);
    let found = find_in_path(&dirs(&["A", "B", "C"]), "node.exe", &probe).unwrap();
    assert_eq!(parts(&found), ["B", "node.exe"]);
    assert!(find_in_path(&dirs(&[]), "node.exe", &probe).is_none());
}

#[test]
fn find_node_tries_candidates_then_path() {
    let own = disk(&["AD/DeepSeek Harness/runtime/node/node.exe", "C:\\Program Files\\nodejs/node.exe"]);
    assert_eq!(key(&find_node(Some("AD"), &dirs(&[]), &own).unwrap()), "AD/DeepSeek Harness/runtime/node/node.exe");
    let program_files = disk(&["C:\\Program Files\\nodejs/node.exe", "P/node.exe"]);
    assert_eq!(
        parts(&find_node(Some("AD"), &dirs(&["P"]), &program_files).unwrap()),
        ["C:\\Program Files\\nodejs", "node.exe"]
    );
    let x86 = disk(&["C:\\Program Files (x86)\\nodejs/node.exe"]);
    assert_eq!(key(&find_node(None, &dirs(&[]), &x86).unwrap()), "C:\\Program Files (x86)\\nodejs/node.exe");
    let dev = disk(&["D:\\Program Files\\Dev\\Node.js/node.exe"]);
    assert_eq!(key(&find_node(None, &dirs(&[]), &dev).unwrap()), "D:\\Program Files\\Dev\\Node.js/node.exe");
    let on_path = disk(&["P/node.exe"]);
    assert_eq!(key(&find_node(None, &dirs(&["Q", "P"]), &on_path).unwrap()), "P/node.exe");
    assert!(find_node(None, &dirs(&["Q"]), &disk(&[])).is_none());
}

#[test]
fn npm_cli_sits_beside_node() {
    let probe = disk(&["P/node.exe", "P/node_modules/npm/bin/npm-cli.js"]);
    assert_eq!(
        parts(&find_npm_cli(None, &dirs(&["P"]), &probe).unwrap()),
        ["P", "node_modules", "npm", "bin", "npm-cli.js"]
    );
    let no_npm = disk(&["P/node.exe"]);
    assert!(find_npm_cli(None, &dirs(&["P"]), &no_npm).is_none());
}

#[test]
fn global_npm_package() {
    let probe = disk(&["AD/npm/node_modules/@deepseek-ai/dsh/lib/bin.js"]);
    assert!(npm_global_bin(None, &probe).is_none());
    assert_eq!(
        key(&npm_global_bin(Some("AD"), &probe).unwrap()),
        "AD/npm/node_modules/@deepseek-ai/dsh/lib/bin.js"
    );
    assert!(npm_global_bin(Some("XX"), &probe).is_none());
}

fn cfg(path: &str, kind: &str) -> Config {
    Config { dsh_path: path.to_string(), dsh_kind: kind.to_string(), installed_at: "2024-01-01 00:00:00".to_string() }
}

#[test]
fn configurations_are_checked_against_disk() {
    let probe = disk(&["R/apps/cli/src/bin.ts", "N/lib/bin.js"]);
    assert!(valid_config(&cfg("R", "repo"), &probe));
    assert!(!valid_config(&cfg("N", "repo"), &probe));
    assert!(valid_config(&cfg("N", "npm"), &probe));
    assert!(!valid_config(&cfg("R", "npm"), &probe));
    assert!(!valid_config(&cfg("R", "other"), &probe));
}

#[test]
fn configuration_records_kind_path_and_time() {
    let c = config_for(DshKind::Npm, "C:\\pkg", "2025-05-06 07:08:09".to_string());
    assert_eq!(c.dsh_path, "C:\\pkg");
    assert_eq!(c.dsh_kind, "npm");
    assert_eq!(c.installed_at, "2025-05-06 07:08:09");
}

#[test]
fn detect_prefers_the_saved_configuration() {
    let probe = disk(&[
        "N/lib/bin.js",
        &format!("{}/apps/cli/lib/bin.js", DEFAULT_REPO),
    ]);
    let saved = cfg("N", "npm");
    let inst = detect(Some(&saved), None, &dirs(&[]), None, &probe).unwrap();
    assert_eq!(inst.kind, DshKind::Npm);
    assert_eq!(parts(&inst.root), ["N"]);
    assert_eq!(parts(&inst.entry), ["N", "lib", "bin.js"]);
}

#[test]
fn detect_falls_back_in_order() {
    let default_entry = format!("{}/apps/cli/lib/bin.js", DEFAULT_REPO);
    let probe = disk(&[&default_entry, "H/apps/cli/src/bin.ts"]);
    let stale = cfg("gone", "repo");
    let inst = detect(Some(&stale), Some("H"), &dirs(&[]), None, &probe).unwrap();
    assert_eq!(inst.kind, DshKind::Repo);
    assert_eq!(parts(&inst.root), [DEFAULT_REPO]);

    let probe = disk(&["H/apps/cli/src/bin.ts", "P/dsh.cmd", "P/node_modules/@deepseek-ai/dsh/lib/bin.js"]);
    let inst = detect(None, Some("H"), &dirs(&["P"]), None, &probe).unwrap();
    assert_eq!(inst.kind, DshKind::Repo);
    assert_eq!(key(&inst.entry), "H/apps/cli/src/bin.ts");

    let inst = detect(None, None, &dirs(&["Q", "P"]), None, &probe).unwrap();
    assert_eq!(inst.kind, DshKind::Npm);
    assert_eq!(key(&inst.root), "P/node_modules/@deepseek-ai/dsh");
    assert_eq!(key(&inst.entry), "P/node_modules/@deepseek-ai/dsh/lib/bin.js");
}

#[test]
fn detect_stops_at_first_launcher_directory() {
    let probe = disk(&[
        "P1/dsh",
        "P2/dsh.exe",
        "P2/node_modules/@deepseek-ai/dsh/lib/bin.js",
        "AD/npm/node_modules/@deepseek-ai/dsh/lib/bin.js",
    ]);
    let inst = detect(None, None, &dirs(&["P1", "P2"]), Some("AD"), &probe).unwrap();
    assert_eq!(key(&inst.root), "AD/npm/node_modules/@deepseek-ai/dsh");
    assert_eq!(inst.kind, DshKind::Npm);
    assert!(detect(None, None, &dirs(&["P1"]), None, &probe).is_none());
}
