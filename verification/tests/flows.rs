use deepseek_harness_client::install::{
    begin_install, failure_message, npm_install_args, npm_prefix_args, npm_registry_label,
    InstallNext, InstallPhase, OutsideWork,
};
use deepseek_harness_client::launch::{
    Launch, LaunchAction, LaunchEvent, LaunchKind, LaunchPhase, ReadyWait, UiEvent, WaitTick,
};
use deepseek_harness_client::config::config_for;
use deepseek_harness_client::locate::{detect, Installation};
use deepseek_harness_client::names::{DshKind, NodeSource};
use deepseek_harness_client::paths::FsPath;
use deepseek_harness_client::powershell::NODE_DOWNLOAD_SCRIPT;
use deepseek_harness_client::service::{
    banner_for, choose_directory, extension_of, has_arg, launch_mode, menu_action, server_args,
    server_node, spawn_error_message, taskkill_args, uses_ts_loader, LaunchMode,
    MenuAction,
};
use deepseek_harness_client::setup::{begin_node_setup, runtime_layout, LayoutText, SetupNext};

fn key(p: &FsPath) -> String {
    p.parts.join("/")
}

fn disk(files: &[&str]) -> impl Fn(&FsPath) -> bool {
    let files: Vec<String> = files.iter().map(|f| f.to_string()).collect();
    move |p: &FsPath| files.contains(&key(p))
}

fn strings(list: &[&str]) -> Vec<String> {
    list.iter().map(|d| d.to_string()).collect()
}

fn layout() -> LayoutText {
    LayoutText {
        root: "R".to_string(),
        dir: "R\\node".to_string(),
        archive: "R\\a.zip".to_string(),
        staging: "R\\s".to_string(),
    }
}

fn reports(step: &[deepseek_harness_client::setup::Report]) -> Vec<(u8, String)> {
    step.iter().map(|r| (r.percent, r.message.clone())).collect()
}

#[test]
fn runtime_layout_places() {
    let l = runtime_layout(Some("AD"));
    assert_eq!(key(&l.root), "AD/DeepSeek Harness/runtime");
    assert_eq!(key(&l.dir), "AD/DeepSeek Harness/runtime/node");
    assert_eq!(key(&l.archive), "AD/DeepSeek Harness/runtime/node-v20.20.2-win-x64.zip");
    assert_eq!(key(&l.staging), "AD/DeepSeek Harness/runtime/node-staging");
}

#[test]
fn setup_uses_installed_node_with_npm() {
    let probe = disk(&["P/node.exe", "P/node_modules/npm/bin/npm-cli.js"]);
    let (setup, step) =
        begin_node_setup(false, NodeSource::Official, None, &strings(&["P"]), &layout(), &probe);
    assert!(step.reports.is_empty());
    match step.next {
        SetupNext::Ready(p) => assert_eq!(key(&p), "P/node.exe"),
        _ => panic!("expected ready"),
    }
    assert!(!setup.awaiting_download());
}

#[test]
fn setup_downloads_when_forced_or_missing() {
    let probe = disk(&["P/node.exe", "P/node_modules/npm/bin/npm-cli.js"]);
    let (setup, step) =
        begin_node_setup(true, NodeSource::Mirror, None, &strings(&["P"]), &layout(), &probe);
    assert!(setup.awaiting_download());
    assert_eq!(
        reports(&step.reports),
        vec![
            (3, "未检测到可用的 Node.js，正在下载运行环境...".to_string()),
            (4, "正在从镜像源下载 Node.js 运行环境...".to_string()),
        ]
    );
    match step.next {
        SetupNext::Download { source, command } => {
            assert_eq!(source, NodeSource::Mirror);
            assert_eq!(
                command,
                format!(
                    "$url='https://npmmirror.com/mirrors/node/v20.20.2/node-v20.20.2-win-x64.zip'; $archive='R\\a.zip'; $runtimeRoot='R'; $runtimeDir='R\\node'; $staging='R\\s'; {}",
                    NODE_DOWNLOAD_SCRIPT
                )
            );
        }
        _ => panic!("expected download"),
    }
}

#[test]
fn setup_tries_the_other_source_then_gives_up() {
    let nothing = disk(&[]);
    let (mut setup, _) =
        begin_node_setup(false, NodeSource::Official, Some("AD"), &strings(&[]), &layout(), &nothing);
    let step = setup.after_download(false, "x\r\nHTTP 500\r\n", Some("AD"), &strings(&[]), &layout(), &nothing);
    assert_eq!(
        reports(&step.reports),
        vec![
            (4, "官方源下载失败：HTTP 500".to_string()),
            (4, "正在从镜像源下载 Node.js 运行环境...".to_string()),
        ]
    );
    assert!(matches!(step.next, SetupNext::Download { source: NodeSource::Mirror, .. }));
    assert!(setup.awaiting_download());
    let step = setup.after_download(true, "", Some("AD"), &strings(&[]), &layout(), &nothing);
    assert_eq!(reports(&step.reports), vec![(4, "镜像源下载失败：未知网络或解压错误".to_string())]);
    match step.next {
        SetupNext::Fail(m) => assert_eq!(m, "无法下载 Node.js 运行环境，请检查网络连接后重试"),
        _ => panic!("expected failure"),
    }
    assert!(!setup.awaiting_download());
}

#[test]
fn setup_uses_the_downloaded_runtime() {
    let before = disk(&[]);
    let (mut setup, _) =
        begin_node_setup(false, NodeSource::Official, Some("AD"), &strings(&[]), &layout(), &before);
    let after = disk(&[
        "AD/DeepSeek Harness/runtime/node/node.exe",
        "AD/DeepSeek Harness/runtime/node/node_modules/npm/bin/npm-cli.js",
    ]);
    let step = setup.after_download(true, "", Some("AD"), &strings(&[]), &layout(), &after);
    assert_eq!(reports(&step.reports), vec![(42, "Node.js 运行环境准备完成".to_string())]);
    match step.next {
        SetupNext::Ready(p) => assert_eq!(key(&p), "AD/DeepSeek Harness/runtime/node/node.exe"),
        _ => panic!("expected ready"),
    }
}

#[test]
fn npm_arguments() {
    assert_eq!(
        npm_install_args("C:\\n\\npm-cli.js", "https://registry.npmjs.org"),
        strings(&[
            "C:\\n\\npm-cli.js",
            "install",
            "-g",
            "@deepseek-ai/dsh",
            "--no-fund",
            "--no-audit",
            "--registry",
            "https://registry.npmjs.org"
        ])
    );
    assert_eq!(npm_prefix_args("cli"), strings(&["cli", "config", "get", "prefix"]));
    assert_eq!(npm_registry_label(NodeSource::Official), "官方 npm 源");
    assert_eq!(npm_registry_label(NodeSource::Mirror), "镜像 npm 源");
}

#[test]
fn install_without_npm_fails() {
    let (install, step) = begin_install(NodeSource::Official, None, &strings(&[]), &disk(&[]));
    assert_eq!(install.phase(), InstallPhase::Finished);
    match step.next {
        InstallNext::Fail(m) => assert_eq!(m, "未找到 npm 组件，无法自动安装"),
        _ => panic!("expected failure"),
    }
}

#[test]
fn install_runs_retries_reads_prefix_and_saves() {
    let probe = disk(&["P/node.exe", "P/node_modules/npm/bin/npm-cli.js"]);
    let (mut install, step) = begin_install(NodeSource::Official, None, &strings(&["P"]), &probe);
    assert_eq!(
        reports(&step.reports),
        vec![(45, "正在从官方 npm 源下载并安装 DeepSeek Harness...".to_string())]
    );
    match &step.next {
        InstallNext::RunInstall { npm_cli, registry } => {
            assert_eq!(key(npm_cli), "P/node_modules/npm/bin/npm-cli.js");
            assert_eq!(*registry, NodeSource::Official);
        }
        _ => panic!("expected run"),
    }
    let step = install.after_install(false);
    assert_eq!(
        reports(&step.reports),
        vec![
            (52, "官方 npm 源安装失败，准备重试...".to_string()),
            (52, "正在从镜像 npm 源下载并安装 DeepSeek Harness...".to_string()),
        ]
    );
    assert!(matches!(step.next, InstallNext::RunInstall { registry: NodeSource::Mirror, .. }));
    let step = install.after_install(true);
    assert!(step.reports.is_empty());
    assert!(matches!(step.next, InstallNext::ReadPrefix { .. }));
    assert_eq!(install.phase(), InstallPhase::ReadingPrefix);

    let installed = disk(&["C:\\npm/node_modules/@deepseek-ai/dsh/lib/bin.js"]);
    let step = install.after_prefix("  C:\\npm\r\n", &installed);
    match &step.next {
        InstallNext::Save { path } => assert_eq!(key(path), "C:\\npm/node_modules/@deepseek-ai/dsh"),
        _ => panic!("expected save"),
    }
    assert_eq!(install.phase(), InstallPhase::Saving);
    let step = install.after_save();
    assert_eq!(reports(&step.reports), vec![(80, "安装完成，正在启动服务...".to_string())]);
    assert!(matches!(step.next, InstallNext::Done));
}

#[test]
fn install_fails_after_both_registries() {
    let probe = disk(&["P/node.exe", "P/node_modules/npm/bin/npm-cli.js"]);
    let (mut install, _) = begin_install(NodeSource::Mirror, None, &strings(&["P"]), &probe);
    let _ = install.after_install(false);
    let step = install.after_install(false);
    assert_eq!(reports(&step.reports), vec![(59, "官方 npm 源安装失败，准备重试...".to_string())]);
    match step.next {
        InstallNext::Fail(m) => {
            assert_eq!(m, "npm 安装失败：官方 npm 源和镜像源均不可用，请检查网络连接后重试")
        }
        _ => panic!("expected failure"),
    }
}

#[test]
fn install_checks_the_prefix() {
    let probe = disk(&["P/node.exe", "P/node_modules/npm/bin/npm-cli.js"]);
    let (mut install, _) = begin_install(NodeSource::Official, None, &strings(&["P"]), &probe);
    let _ = install.after_install(true);
    match install.after_prefix(" \n", &probe).next {
        InstallNext::Fail(m) => assert_eq!(m, "读取 npm 配置失败，无法完成自动安装"),
        _ => panic!("expected failure"),
    }
    let (mut install, _) = begin_install(NodeSource::Official, None, &strings(&["P"]), &probe);
    let _ = install.after_install(true);
    match install.after_prefix("C:\\npm", &probe).next {
        InstallNext::Fail(m) => assert_eq!(m, "npm 安装完成但未找到 dsh 入口，无法完成自动安装"),
        _ => panic!("expected failure"),
    }
}

#[test]
fn failure_messages() {
    assert_eq!(failure_message(OutsideWork::Download, "e"), "下载 Node.js 失败：e");
    assert_eq!(failure_message(OutsideWork::NpmInstall, "e"), "npm 安装执行失败：e");
    assert_eq!(failure_message(OutsideWork::NpmPrefix, "e"), "读取 npm 配置失败：e");
    assert_eq!(failure_message(OutsideWork::SaveConfig, "e"), "保存配置失败：e");
    assert_eq!(spawn_error_message("denied"), "启动 dsh 服务失败：denied");
}

fn installation() -> Installation {
    Installation {
        kind: DshKind::Repo,
        root: FsPath::new("R"),
        entry: FsPath::new("R").join("apps").join("cli").join("lib").join("bin.js"),
    }
}

fn describe(actions: &[LaunchAction]) -> Vec<String> {
    actions
        .iter()
        .map(|a| match a {
            LaunchAction::Ui(UiEvent::Progress { percent, message }) => format!("progress {percent} {message}"),
            LaunchAction::Ui(UiEvent::Error(m)) => format!("error {m}"),
            LaunchAction::Ui(UiEvent::NeedInstall) => "need-install".to_string(),
            LaunchAction::EnterWebui => "enter".to_string(),
            LaunchAction::ShowMain => "show".to_string(),
            LaunchAction::CheckRunning => "check".to_string(),
            LaunchAction::StopServer => "stop".to_string(),
            LaunchAction::Detect => "detect".to_string(),
            LaunchAction::StartServer(i) => format!("start {}", key(&i.entry)),
            LaunchAction::WaitForServer => "wait".to_string(),
        })
        .collect()
}

#[test]
fn bootstrap_enters_a_running_service() {
    let (mut launch, first) = Launch::begin(LaunchKind::Bootstrap);
    assert_eq!(describe(&first), ["check"]);
    let next = launch.step(LaunchEvent::Running(true));
    assert_eq!(describe(&next), ["progress 95 检测到服务已在运行", "enter"]);
    assert_eq!(launch.phase(), LaunchPhase::Finished);
}

#[test]
fn bootstrap_starts_a_found_installation() {
    let (mut launch, _) = Launch::begin(LaunchKind::Bootstrap);
    assert_eq!(describe(&launch.step(LaunchEvent::Running(false))), ["detect"]);
    assert_eq!(
        describe(&launch.step(LaunchEvent::Detected(Some(installation())))),
        ["progress 15 已找到 DeepSeek Harness，正在启动服务...", "start R/apps/cli/lib/bin.js"]
    );
    assert_eq!(describe(&launch.step(LaunchEvent::Started(Ok(())))), ["wait"]);
    assert_eq!(describe(&launch.step(LaunchEvent::Ready(true))), ["progress 100 服务已就绪", "enter"]);
    assert_eq!(launch.phase(), LaunchPhase::Finished);
}

#[test]
fn bootstrap_failures() {
    let (mut launch, _) = Launch::begin(LaunchKind::Bootstrap);
    launch.step(LaunchEvent::Running(false));
    assert_eq!(describe(&launch.step(LaunchEvent::Detected(None))), ["progress 5 未检测到安装", "need-install"]);

    let (mut launch, _) = Launch::begin(LaunchKind::Bootstrap);
    launch.step(LaunchEvent::Running(false));
    launch.step(LaunchEvent::Detected(Some(installation())));
    assert_eq!(describe(&launch.step(LaunchEvent::Started(Err("boom".to_string())))), ["error boom"]);

    let (mut launch, _) = Launch::begin(LaunchKind::Bootstrap);
    launch.step(LaunchEvent::Running(false));
    launch.step(LaunchEvent::Detected(Some(installation())));
    launch.step(LaunchEvent::Started(Ok(())));
    assert_eq!(describe(&launch.step(LaunchEvent::Ready(false))), ["error 服务启动超时，请查看日志确认状态"]);
}

#[test]
fn restart_stops_then_starts_again() {
    let (mut launch, first) = Launch::begin(LaunchKind::Restart);
    assert_eq!(describe(&first), ["progress 5 正在停止服务...", "stop"]);
    assert_eq!(describe(&launch.step(LaunchEvent::Stopped)), ["progress 15 正在重新启动服务...", "detect"]);
    assert_eq!(
        describe(&launch.step(LaunchEvent::Detected(Some(installation())))),
        ["start R/apps/cli/lib/bin.js"]
    );
    launch.step(LaunchEvent::Started(Ok(())));
    assert_eq!(describe(&launch.step(LaunchEvent::Ready(true))), ["progress 100 服务已重新启动", "enter"]);

    let (mut launch, _) = Launch::begin(LaunchKind::Restart);
    launch.step(LaunchEvent::Stopped);
    assert_eq!(describe(&launch.step(LaunchEvent::Detected(None))), ["show", "need-install"]);

    let (mut launch, _) = Launch::begin(LaunchKind::Restart);
    launch.step(LaunchEvent::Stopped);
    launch.step(LaunchEvent::Detected(Some(installation())));
    launch.step(LaunchEvent::Started(Ok(())));
    assert_eq!(describe(&launch.step(LaunchEvent::Ready(false))), ["error 服务重启超时，请查看日志确认状态"]);
}

#[test]
fn ui_event_payloads() {
    let p = UiEvent::Progress { percent: 42, message: "m".to_string() };
    assert_eq!((p.channel(), p.percent(), p.message()), ("dsh-progress", 42, "m".to_string()));
    let e = UiEvent::Error("bad".to_string());
    assert_eq!((e.channel(), e.percent(), e.message()), ("dsh-error", 0, "bad".to_string()));
    let n = UiEvent::NeedInstall;
    assert_eq!((n.channel(), n.percent(), n.message()), ("dsh-need-install", 0, String::new()));
}

fn tick_view(t: WaitTick) -> (String, Option<(u8, String)>) {
    let ev = |e: UiEvent| match e {
        UiEvent::Progress { percent, message } => (percent, message),
        _ => panic!("unexpected event"),
    };
    match t {
        WaitTick::Ready(e) => ("ready".to_string(), Some(ev(e))),
        WaitTick::Continue(o) => ("continue".to_string(), o.map(ev)),
        WaitTick::GiveUp(o) => ("give-up".to_string(), o.map(ev)),
    }
}

#[test]
fn waiting_reports_tens_and_gives_up() {
    let mut w = ReadyWait::new();
    assert_eq!(w.last_percent, 15);
    assert_eq!(tick_view(w.tick(false, 15, false)), ("continue".to_string(), None));
    assert_eq!(tick_view(w.tick(false, 17, false)), ("continue".to_string(), None));
    assert_eq!(
        tick_view(w.tick(false, 20, false)),
        ("continue".to_string(), Some((20, "正在启动本地服务...".to_string())))
    );
    assert_eq!(tick_view(w.tick(false, 20, false)), ("continue".to_string(), None));
    assert_eq!(
        tick_view(w.tick(false, 90, true)),
        ("give-up".to_string(), Some((90, "正在启动本地服务...".to_string())))
    );
    assert_eq!(
        tick_view(w.tick(true, 90, true)),
        ("ready".to_string(), Some((92, "服务已就绪，正在进入...".to_string())))
    );
}

#[test]
fn server_start_arguments() {
    assert_eq!(extension_of("bin.ts").as_deref(), Some("ts"));
    assert_eq!(extension_of("bin.js").as_deref(), Some("js"));
    assert_eq!(extension_of("archive.tar.gz").as_deref(), Some("gz"));
    assert_eq!(extension_of(".bashrc"), None);
    assert_eq!(extension_of("bin"), None);
    assert_eq!(extension_of(".."), None);
    assert_eq!(extension_of("a."), Some(String::new()));
    let ts = FsPath::new("R").join("apps").join("cli").join("src").join("bin.ts");
    let js = FsPath::new("R").join("apps").join("cli").join("lib").join("bin.js");
    assert!(uses_ts_loader(&ts));
    assert!(!uses_ts_loader(&js));
    assert_eq!(server_args(&ts, "R\\bin.ts"), strings(&["--import", "tsx/esm", "R\\bin.ts", "web"]));
    assert_eq!(server_args(&js, "R\\bin.js"), strings(&["R\\bin.js", "web"]));
}

#[test]
fn server_node_or_message() {
    let probe = disk(&["P/node.exe"]);
    assert_eq!(key(&server_node(None, &strings(&["P"]), &probe).unwrap()), "P/node.exe");
    assert_eq!(
        server_node(None, &strings(&[]), &probe).err().as_deref(),
        Some("未找到 Node.js，请安装 Node.js 后重试")
    );
}

#[test]
fn log_banner() {
    assert_eq!(
        banner_for("2024-02-03 04:05:06"),
        "\n==== DeepSeek Harness client started at 2024-02-03 04:05:06 ===="
    );
}

#[test]
fn taskkill_arguments() {
    assert_eq!(taskkill_args(4242), strings(&["/PID", "4242", "/T", "/F"]));
    assert_eq!(taskkill_args(0), strings(&["/PID", "0", "/T", "/F"]));
}

#[test]
fn manual_directory_choice() {
    let repo = disk(&["D/apps/cli/src/bin.ts"]);
    let c = choose_directory(&FsPath::new("D"), &repo).unwrap();
    assert_eq!(c.kind, DshKind::Repo);
    assert_eq!(c.message, "已选择安装目录，正在启动服务...");
    let pkg = disk(&["D/lib/bin.js", "D/package.json"]);
    let c = choose_directory(&FsPath::new("D"), &pkg).unwrap();
    assert_eq!(c.kind, DshKind::Npm);
    assert_eq!(c.message, "已选择 dsh 包目录，正在启动服务...");
    let half = disk(&["D/lib/bin.js"]);
    assert_eq!(
        choose_directory(&FsPath::new("D"), &half).err().as_deref(),
        Some("所选目录不是有效的 DeepSeek Harness 安装目录（未找到 apps/cli 或 lib/bin.js）")
    );
}

#[test]
fn command_line_modes() {
    assert_eq!(launch_mode(&strings(&["app.exe"])), LaunchMode::Normal);
    assert_eq!(launch_mode(&strings(&["app.exe", "--restart"])), LaunchMode::Restart);
    assert_eq!(
        launch_mode(&strings(&["app.exe", "--restart", "--test-auto-install"])),
        LaunchMode::InstallTest { force_bootstrap: false, preferred: NodeSource::Official }
    );
    assert_eq!(
        launch_mode(&strings(&["app.exe", "--test-auto-install", "--source-mirror", "--force-node-bootstrap"])),
        LaunchMode::InstallTest { force_bootstrap: true, preferred: NodeSource::Mirror }
    );
    assert!(has_arg(&strings(&["a", "--restart"]), "--restart"));
    assert!(!has_arg(&strings(&["a", "--restart=1"]), "--restart"));
}

#[test]
fn tray_menu_entries() {
    assert_eq!(menu_action("show"), MenuAction::Show);
    assert_eq!(menu_action("restart"), MenuAction::Restart);
    assert_eq!(menu_action("exit"), MenuAction::Exit);
    assert_eq!(menu_action("other"), MenuAction::Ignore);
}

#[test]
fn paths_render_as_windows_text() {
    assert_eq!(FsPath::new("C:\\x").join("a").join("b.js").render(), "C:\\x\\a\\b.js");
    assert_eq!(FsPath::new("C:\\").join("a").render(), "C:\\a");
    assert_eq!(FsPath::new("D:/tools/").join("node.exe").render(), "D:/tools/node.exe");
    assert_eq!(FsPath::new("").join("node.exe").render(), "node.exe");
    assert_eq!(FsPath::new("only").render(), "only");
    assert_eq!(FsPath::new("C:").join("x").join("y").render(), "C:x\\y");
    assert_eq!(FsPath::new("d:").join("x").render(), "d:x");
    assert_eq!(FsPath::new("1:").join("x").render(), "1:\\x");
    assert_eq!(FsPath::new("C:x").join("y").render(), "C:x\\y");
}

#[test]
fn installed_package_is_detected_next_time() {
    let on_disk = |files: &'static [&'static str]| move |p: &FsPath| files.contains(&p.render().as_str());
    let disk = on_disk(&[
        "P\\node.exe",
        "P\\node_modules\\npm\\bin\\npm-cli.js",
        "C:\\npm\\node_modules\\@deepseek-ai\\dsh\\lib\\bin.js",
    ]);
    let (mut install, _) = begin_install(NodeSource::Official, None, &strings(&["P"]), &disk);
    let _ = install.after_install(true);
    let saved = match install.after_prefix("C:\\npm\r\n", &disk).next {
        InstallNext::Save { path } => path.render(),
        _ => panic!("expected save"),
    };
    assert_eq!(saved, "C:\\npm\\node_modules\\@deepseek-ai\\dsh");
    let config = config_for(DshKind::Npm, &saved, "2025-01-01 00:00:00".to_string());
    let inst = detect(Some(&config), None, &strings(&[]), None, &disk).unwrap();
    assert_eq!(inst.kind, DshKind::Npm);
    assert_eq!(inst.root.render(), saved);
    assert_eq!(inst.entry.render(), "C:\\npm\\node_modules\\@deepseek-ai\\dsh\\lib\\bin.js");
}
