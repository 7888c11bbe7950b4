//! Installing the harness as a global npm package, from each npm registry in
//! turn, and recording where it went.
//!
//! The npm runs and the saving of the configuration happen outside the
//! library: `Install` says what to report and what to do next, and is told how
//! each run went.

use vstd::prelude::*;
use crate::config::opt_text;
use crate::locate::{find_npm_cli, npm_cli_in, package_entry, reported, texts_view};
use crate::names::NodeSource;
use crate::paths::{FsPath, probe, probe_accepts_all, probe_is_consistent};
use crate::setup::{Report, attempt_source, other_source, reports_view};
use crate::text::{chars_of, string_of, trim, trim_both};

verus! {

/// The label under which a source's npm registry is shown.
pub open spec fn registry_label(s: NodeSource) -> Seq<char> {
    match s {
        NodeSource::Official => "官方 npm 源"@,
        NodeSource::Mirror => "镜像 npm 源"@,
    }
}

/// The label under which a source's npm registry is shown.
pub fn npm_registry_label(s: NodeSource) -> (r: &'static str)
    ensures
        r@ == registry_label(s),
{
    match s {
        NodeSource::Official => "官方 npm 源",
        NodeSource::Mirror => "镜像 npm 源",
    }
}

/// The view of a list of texts.
pub open spec fn strings_view(v: Seq<String>) -> Seq<Seq<char>> {
    v.map_values(|s: String| s@)
}

/// The arguments that make Node.js run the npm script `npm_cli` to install the
/// harness package globally from `registry`.
pub fn npm_install_args(npm_cli: &str, registry: &str) -> (r: Vec<String>)
    ensures
        strings_view(r@) == seq![
            npm_cli@,
            "install"@,
            "-g"@,
            "@deepseek-ai/dsh"@,
            "--no-fund"@,
            "--no-audit"@,
            "--registry"@,
            registry@,
        ],
{
    let mut r: Vec<String> = Vec::new();
    r.push(String::from_str(npm_cli));
    r.push(String::from_str("install"));
    r.push(String::from_str("-g"));
    r.push(String::from_str("@deepseek-ai/dsh"));
    r.push(String::from_str("--no-fund"));
    r.push(String::from_str("--no-audit"));
    r.push(String::from_str("--registry"));
    r.push(String::from_str(registry));
    assert(strings_view(r@) =~= seq![
        npm_cli@,
        "install"@,
        "-g"@,
        "@deepseek-ai/dsh"@,
        "--no-fund"@,
        "--no-audit"@,
        "--registry"@,
        registry@,
    ]);
    r
}

/// The arguments that make Node.js run the npm script `npm_cli` to print the
/// global installation prefix.
pub fn npm_prefix_args(npm_cli: &str) -> (r: Vec<String>)
    ensures
        strings_view(r@) == seq![npm_cli@, "config"@, "get"@, "prefix"@],
{
    let mut r: Vec<String> = Vec::new();
    r.push(String::from_str(npm_cli));
    r.push(String::from_str("config"));
    r.push(String::from_str("get"));
    r.push(String::from_str("prefix"));
    assert(strings_view(r@) =~= seq![npm_cli@, "config"@, "get"@, "prefix"@]);
    r
}

/// What to do once the reports are shown.
pub enum InstallNext {
    /// Run npm (`npm_cli`) to install the package from the registry of `registry`.
    RunInstall { npm_cli: FsPath, registry: NodeSource },
    /// Run npm (`npm_cli`) to print its global prefix.
    ReadPrefix { npm_cli: FsPath },
    /// Save a configuration that records the npm package at `path`.
    Save { path: FsPath },
    /// The installation is complete.
    Done,
    /// Give up with this message.
    Fail(String),
}

/// An `InstallNext` as plain values.
pub enum InstallNextView {
    RunInstall(Seq<Seq<char>>, NodeSource),
    ReadPrefix(Seq<Seq<char>>),
    Save(Seq<Seq<char>>),
    Done,
    Fail(Seq<char>),
}

/// The view of an `InstallNext`.
pub open spec fn install_next_view(n: InstallNext) -> InstallNextView {
    match n {
        InstallNext::RunInstall { npm_cli, registry } => InstallNextView::RunInstall(
            npm_cli@,
            registry,
        ),
        InstallNext::ReadPrefix { npm_cli } => InstallNextView::ReadPrefix(npm_cli@),
        InstallNext::Save { path } => InstallNextView::Save(path@),
        InstallNext::Done => InstallNextView::Done,
        InstallNext::Fail(m) => InstallNextView::Fail(m@),
    }
}

/// One step of the installation: reports to show, then what to do.
pub struct InstallStep {
    pub reports: Vec<Report>,
    pub next: InstallNext,
}

/// An `InstallStep` as plain values.
pub open spec fn install_step_view(s: InstallStep) -> (Seq<(nat, Seq<char>)>, InstallNextView) {
    (reports_view(s.reports@), install_next_view(s.next))
}

/// Where an installation stands.
#[derive(Clone, Copy, PartialEq, Eq, Structural, Debug)]
pub enum InstallPhase {
    /// An npm install run is underway.
    Installing,
    /// The npm prefix is being read.
    ReadingPrefix,
    /// The configuration is being saved.
    Saving,
    /// Nothing more to do.
    Finished,
}

/// The message shown when the install from attempt `attempt` begins.
pub open spec fn install_start_message(source: NodeSource) -> Seq<char> {
    "正在从"@ + registry_label(source) + "下载并安装 DeepSeek Harness..."@
}

/// The first step: without npm, give up; else install from the preferred
/// registry.
pub open spec fn begin_install_view(
    preferred: NodeSource,
    npm_cli: Option<Seq<Seq<char>>>,
) -> (Seq<(nat, Seq<char>)>, InstallNextView) {
    match npm_cli {
        None => (Seq::empty(), InstallNextView::Fail("未找到 npm 组件，无法自动安装"@)),
        Some(cli) => (
            seq![(45, install_start_message(preferred))],
            InstallNextView::RunInstall(cli, preferred),
        ),
    }
}

/// The step after the install run of attempt `attempt`: read the prefix when it
/// succeeded, else report the failure and try the other registry, or give up
/// after both.
pub open spec fn after_install_view(
    preferred: NodeSource,
    attempt: nat,
    cli: Seq<Seq<char>>,
    succeeded: bool,
) -> (Seq<(nat, Seq<char>)>, InstallNextView) {
    let source = attempt_source(preferred, attempt);
    if succeeded {
        (Seq::empty(), InstallNextView::ReadPrefix(cli))
    } else {
        let failed = ((52 + attempt * 7) as nat, registry_label(source) + "安装失败，准备重试..."@);
        if attempt == 0 {
            (
                seq![failed, (52, install_start_message(other_source(preferred)))],
                InstallNextView::RunInstall(cli, other_source(preferred)),
            )
        } else {
            (
                seq![failed],
                InstallNextView::Fail(
                    "npm 安装失败：官方 npm 源和镜像源均不可用，请检查网络连接后重试"@,
                ),
            )
        }
    }
}

/// The package directory under the npm global prefix `prefix`.
pub open spec fn package_under_prefix(prefix: Seq<char>) -> Seq<Seq<char>> {
    seq![prefix, "node_modules"@, "@deepseek-ai"@, "dsh"@]
}

/// The step after npm printed `output` for its prefix: the trimmed text is the
/// prefix; the package must have its entry script there.
pub open spec fn after_prefix_view(fs: spec_fn(Seq<Seq<char>>) -> bool, output: Seq<char>) -> (
    Seq<(nat, Seq<char>)>,
    InstallNextView,
) {
    let prefix = trim_both(output);
    if prefix.len() == 0 {
        (Seq::empty(), InstallNextView::Fail("读取 npm 配置失败，无法完成自动安装"@))
    } else if !fs(package_entry(package_under_prefix(prefix))) {
        (
            Seq::empty(),
            InstallNextView::Fail("npm 安装完成但未找到 dsh 入口，无法完成自动安装"@),
        )
    } else {
        (Seq::empty(), InstallNextView::Save(package_under_prefix(prefix)))
    }
}

/// An installation in progress.
pub struct Install {
    preferred: NodeSource,
    attempt: usize,
    phase: InstallPhase,
    npm_cli: Option<FsPath>,
}

impl Install {
    /// The preferred source.
    pub closed spec fn preferred_source(&self) -> NodeSource {
        self.preferred
    }

    /// The install attempt underway or last made: 0 or 1.
    pub closed spec fn attempt_index(&self) -> nat {
        self.attempt as nat
    }

    /// Where the installation stands.
    pub closed spec fn current_phase(&self) -> InstallPhase {
        self.phase
    }

    /// The npm script in use.
    pub closed spec fn npm_cli_view(&self) -> Seq<Seq<char>> {
        match self.npm_cli {
            Some(p) => p@,
            None => Seq::empty(),
        }
    }

    /// The invariant: at most two attempts, and npm is known while it is run.
    pub closed spec fn wf(&self) -> bool {
        &&& self.attempt <= 1
        &&& (self.phase == InstallPhase::Installing || self.phase == InstallPhase::ReadingPrefix)
            ==> self.npm_cli is Some
    }

    /// Where the installation stands.
    pub fn phase(&self) -> (p: InstallPhase)
        ensures
            p == self.current_phase(),
    {
        self.phase
    }
}

/// The step that starts the install from `source`.
fn start_install(npm_cli: &FsPath, source: NodeSource, percent: u8) -> (r: (Report, InstallNext))
    ensures
        r.0.percent == percent,
        r.0.message@ == install_start_message(source),
        install_next_view(r.1) == InstallNextView::RunInstall(npm_cli@, source),
{
    let mut message = String::from_str("正在从");
    message.append(npm_registry_label(source));
    message.append("下载并安装 DeepSeek Harness...");
    (
        Report { percent, message },
        InstallNext::RunInstall { npm_cli: npm_cli.duplicate(), registry: source },
    )
}

/// Starts an installation that prefers `preferred`, once Node.js is ready.
pub fn begin_install<F: Fn(&FsPath) -> bool>(
    preferred: NodeSource,
    appdata: Option<&str>,
    dirs: &Vec<String>,
    is_file: &F,
) -> (r: (Install, InstallStep))
    requires
        probe_accepts_all(*is_file),
    ensures
        r.0.wf(),
        r.0.preferred_source() == preferred,
        r.0.attempt_index() == 0,
        r.0.current_phase() == (if install_step_view(r.1).1 is RunInstall {
            InstallPhase::Installing
        } else {
            InstallPhase::Finished
        }),
        install_step_view(r.1).1 is RunInstall ==> r.0.npm_cli_view()
            == install_step_view(r.1).1->RunInstall_0,
        install_step_view(r.1).1 is RunInstall ==> install_step_view(r.1) == (
            seq![(45nat, install_start_message(preferred))],
            InstallNextView::RunInstall(r.0.npm_cli_view(), preferred),
        ),
        probe_is_consistent(*is_file) ==> install_step_view(r.1) == begin_install_view(
            preferred,
            npm_cli_in(reported(*is_file), opt_text(appdata), texts_view(dirs@)),
        ),
{
    match find_npm_cli(appdata, dirs, is_file) {
        None => {
            let step = InstallStep {
                reports: Vec::new(),
                next: InstallNext::Fail(String::from_str("未找到 npm 组件，无法自动安装")),
            };
            assert(reports_view(step.reports@) =~= Seq::empty());
            (Install { preferred, attempt: 0, phase: InstallPhase::Finished, npm_cli: None }, step)
        },
        Some(cli) => {
            let (first, next) = start_install(&cli, preferred, 45);
            let mut reports: Vec<Report> = Vec::new();
            reports.push(first);
            let step = InstallStep { reports, next };
            assert(reports_view(step.reports@) =~= seq![(45nat, install_start_message(preferred))]);
            (Install { preferred, attempt: 0, phase: InstallPhase::Installing, npm_cli: Some(cli) }, step)
        },
    }
}

impl Install {
    /// Takes the outcome of the install run underway.
    pub fn after_install(&mut self, succeeded: bool) -> (r: InstallStep)
        requires
            old(self).wf(),
            old(self).current_phase() == InstallPhase::Installing,
        ensures
            final(self).wf(),
            final(self).preferred_source() == old(self).preferred_source(),
            final(self).npm_cli_view() == old(self).npm_cli_view(),
            install_step_view(r) == after_install_view(
                old(self).preferred_source(),
                old(self).attempt_index(),
                old(self).npm_cli_view(),
                succeeded,
            ),
            final(self).current_phase() == (match install_step_view(r).1 {
                InstallNextView::RunInstall(_, _) => InstallPhase::Installing,
                InstallNextView::ReadPrefix(_) => InstallPhase::ReadingPrefix,
                _ => InstallPhase::Finished,
            }),
            install_step_view(r).1 is RunInstall ==> final(self).attempt_index()
                == old(self).attempt_index() + 1,
    {
        if succeeded {
            self.phase = InstallPhase::ReadingPrefix;
            let step = InstallStep {
                reports: Vec::new(),
                next: InstallNext::ReadPrefix { npm_cli: self.npm_cli.as_ref().unwrap().duplicate() },
            };
            assert(reports_view(step.reports@) =~= Seq::empty());
            return step;
        }
        let order = self.preferred.try_order();
        let source = order[self.attempt];
        assert(source == attempt_source(self.preferred, self.attempt as nat));
        let percent: u8 = 52 + (self.attempt as u8) * 7;
        let mut message = String::from_str(npm_registry_label(source));
        message.append("安装失败，准备重试...");
        let mut reports: Vec<Report> = Vec::new();
        reports.push(Report { percent, message });
        if self.attempt == 0 {
            let (first, next) = start_install(self.npm_cli.as_ref().unwrap(), order[1], 52);
            reports.push(first);
            self.attempt = 1;
            let step = InstallStep { reports, next };
            assert(reports_view(step.reports@) =~= seq![
                (52nat, registry_label(source) + "安装失败，准备重试..."@),
                (52nat, install_start_message(order[1])),
            ]);
            step
        } else {
            self.phase = InstallPhase::Finished;
            let step = InstallStep {
                reports,
                next: InstallNext::Fail(
                    String::from_str("npm 安装失败：官方 npm 源和镜像源均不可用，请检查网络连接后重试"),
                ),
            };
            assert(reports_view(step.reports@) =~= seq![
                (59nat, registry_label(source) + "安装失败，准备重试..."@),
            ]);
            step
        }
    }

    /// Takes what npm printed for its global prefix.
    pub fn after_prefix<F: Fn(&FsPath) -> bool>(&mut self, output: &str, is_file: &F) -> (r:
        InstallStep)
        requires
            old(self).wf(),
            old(self).current_phase() == InstallPhase::ReadingPrefix,
            probe_accepts_all(*is_file),
        ensures
            final(self).wf(),
            final(self).preferred_source() == old(self).preferred_source(),
            final(self).current_phase() == (if install_step_view(r).1 is Save {
                InstallPhase::Saving
            } else {
                InstallPhase::Finished
            }),
            probe_is_consistent(*is_file) ==> install_step_view(r) == after_prefix_view(
                reported(*is_file),
                output@,
            ),
    {
        let v = chars_of(output);
        let prefix = trim(v.as_slice());
        if prefix.len() == 0 {
            self.phase = InstallPhase::Finished;
            let step = InstallStep {
                reports: Vec::new(),
                next: InstallNext::Fail(String::from_str("读取 npm 配置失败，无法完成自动安装")),
            };
            assert(reports_view(step.reports@) =~= Seq::empty());
            return step;
        }
        let prefix_text = string_of(prefix.as_slice());
        let pkg = FsPath::new(prefix_text.as_str()).join("node_modules").join("@deepseek-ai").join(
            "dsh",
        );
        assert(pkg@ =~= package_under_prefix(prefix@));
        let entry = pkg.join("lib").join("bin.js");
        assert(entry@ =~= package_entry(pkg@));
        if !probe(is_file, &entry) {
            self.phase = InstallPhase::Finished;
            let step = InstallStep {
                reports: Vec::new(),
                next: InstallNext::Fail(
                    String::from_str("npm 安装完成但未找到 dsh 入口，无法完成自动安装"),
                ),
            };
            assert(reports_view(step.reports@) =~= Seq::empty());
            return step;
        }
        self.phase = InstallPhase::Saving;
        let step = InstallStep { reports: Vec::new(), next: InstallNext::Save { path: pkg } };
        assert(reports_view(step.reports@) =~= Seq::empty());
        step
    }

    /// Takes the news that the configuration was saved.
    pub fn after_save(&mut self) -> (r: InstallStep)
        requires
            old(self).wf(),
            old(self).current_phase() == InstallPhase::Saving,
        ensures
            final(self).wf(),
            final(self).current_phase() == InstallPhase::Finished,
            install_step_view(r) == (
                seq![(80nat, "安装完成，正在启动服务..."@)],
                InstallNextView::Done,
            ),
    {
        self.phase = InstallPhase::Finished;
        let mut reports: Vec<Report> = Vec::new();
        reports.push(Report { percent: 80, message: String::from_str("安装完成，正在启动服务...") });
        let step = InstallStep { reports, next: InstallNext::Done };
        assert(reports_view(step.reports@) =~= seq![(80nat, "安装完成，正在启动服务..."@)]);
        step
    }
}

/// A step of outside work that can fail with an error of the operating system.
#[derive(Clone, Copy, PartialEq, Eq, Structural, Debug)]
pub enum OutsideWork {
    /// Running the Node.js download.
    Download,
    /// Running npm to install the package.
    NpmInstall,
    /// Running npm to read its prefix.
    NpmPrefix,
    /// Writing the configuration.
    SaveConfig,
}

/// The beginning of the message for a failure of `work`.
pub open spec fn failure_prefix(work: OutsideWork) -> Seq<char> {
    match work {
        OutsideWork::Download => "下载 Node.js 失败："@,
        OutsideWork::NpmInstall => "npm 安装执行失败："@,
        OutsideWork::NpmPrefix => "读取 npm 配置失败："@,
        OutsideWork::SaveConfig => "保存配置失败："@,
    }
}

/// The message shown when `work` failed with the error `error`.
pub fn failure_message(work: OutsideWork, error: &str) -> (r: String)
    ensures
        r@ == failure_prefix(work) + error@,
{
    let mut r = match work {
        OutsideWork::Download => String::from_str("下载 Node.js 失败："),
        OutsideWork::NpmInstall => String::from_str("npm 安装执行失败："),
        OutsideWork::NpmPrefix => String::from_str("读取 npm 配置失败："),
        OutsideWork::SaveConfig => String::from_str("保存配置失败："),
    };
    r.append(error);
    r
}

} // verus!
