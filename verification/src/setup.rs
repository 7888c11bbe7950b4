//! Making sure a Node.js runtime with npm is available: use one that is
//! installed, or download one from each source in turn.
//!
//! The download itself runs outside the library: `NodeSetup` says what to
//! report and which command to run, and is told how the run went.

use vstd::prelude::*;
use crate::config::{app_data_view, opt_text, runtime_node_path, runtime_root};
use crate::locate::{
    find_node, find_npm_cli, is_node_path, node_in, npm_cli_in, opt_path, reported, texts_view,
};
use crate::names::{NODE_ARCHIVE, NODE_VERSION, NodeSource, release_base, source_label};
use crate::paths::{FsPath, probe, probe_accepts_all, probe_is_consistent};
use crate::powershell::{
    download_command, download_failure_detail, failure_detail, node_download_command,
};

verus! {

/// A progress report for the user: a percentage and a message.
pub struct Report {
    pub percent: u8,
    pub message: String,
}

/// The view of a list of reports.
pub open spec fn reports_view(v: Seq<Report>) -> Seq<(nat, Seq<char>)> {
    v.map_values(|r: Report| (r.percent as nat, r.message@))
}

/// The places the Node.js download uses, under the launcher's data directory.
pub struct RuntimeLayout {
    /// The runtime directory, which holds the others.
    pub root: FsPath,
    /// Where the unpacked runtime ends up.
    pub dir: FsPath,
    /// Where the archive is downloaded to.
    pub archive: FsPath,
    /// Where the archive is unpacked before it is moved.
    pub staging: FsPath,
}

/// The places the Node.js download uses, for the value of `APPDATA`.
pub fn runtime_layout(appdata: Option<&str>) -> (l: RuntimeLayout)
    ensures
        l.root@ == app_data_view(opt_text(appdata)).push("runtime"@),
        l.dir@ == l.root@.push("node"@),
        l.archive@ == l.root@.push(NODE_ARCHIVE@),
        l.staging@ == l.root@.push("node-staging"@),
{
    let root = runtime_root(appdata);
    let dir = root.join("node");
    let archive = root.join(NODE_ARCHIVE);
    let staging = root.join("node-staging");
    RuntimeLayout { root, dir, archive, staging }
}

/// Those places written as text by the caller, as the download command needs them.
pub struct LayoutText {
    pub root: String,
    pub dir: String,
    pub archive: String,
    pub staging: String,
}

/// What to do once the reports are shown.
pub enum SetupNext {
    /// Run `command` in PowerShell, which downloads Node.js from `source`.
    Download { source: NodeSource, command: String },
    /// Use the Node.js executable at this path.
    Ready(FsPath),
    /// Give up with this message.
    Fail(String),
}

/// A `SetupNext` as plain values.
pub enum SetupNextView {
    Download(NodeSource, Seq<char>),
    Ready(Seq<Seq<char>>),
    Fail(Seq<char>),
}

/// One step of the setup: reports to show, then what to do.
pub struct SetupStep {
    pub reports: Vec<Report>,
    pub next: SetupNext,
}

/// A `SetupStep` as plain values.
pub type SetupStepView = (Seq<(nat, Seq<char>)>, SetupNextView);

/// The view of a `SetupNext`.
pub open spec fn setup_next_view(n: SetupNext) -> SetupNextView {
    match n {
        SetupNext::Download { source, command } => SetupNextView::Download(source, command@),
        SetupNext::Ready(p) => SetupNextView::Ready(p@),
        SetupNext::Fail(m) => SetupNextView::Fail(m@),
    }
}

/// The view of a `SetupStep`.
pub open spec fn setup_step_view(s: SetupStep) -> SetupStepView {
    (reports_view(s.reports@), setup_next_view(s.next))
}

/// The source that is not `s`.
pub open spec fn other_source(s: NodeSource) -> NodeSource {
    match s {
        NodeSource::Official => NodeSource::Mirror,
        NodeSource::Mirror => NodeSource::Official,
    }
}

/// The source tried at `attempt` (0 or 1).
pub open spec fn attempt_source(preferred: NodeSource, attempt: nat) -> NodeSource {
    if attempt == 0 {
        preferred
    } else {
        other_source(preferred)
    }
}

/// The Node.js executable to use without downloading: one is found and npm
/// sits beside it.
pub open spec fn ready_node_in(
    fs: spec_fn(Seq<Seq<char>>) -> bool,
    appdata: Option<Seq<char>>,
    dirs: Seq<Seq<char>>,
) -> Option<Seq<Seq<char>>> {
    match node_in(fs, appdata, dirs) {
        Some(n) => if npm_cli_in(fs, appdata, dirs) is Some {
            Some(n)
        } else {
            None
        },
        None => None,
    }
}

/// The layout texts as plain values: root, dir, archive, staging.
pub open spec fn layout_view(t: LayoutText) -> (Seq<char>, Seq<char>, Seq<char>, Seq<char>) {
    (t.root@, t.dir@, t.archive@, t.staging@)
}

/// The message shown when a download from `source` begins.
pub open spec fn download_start_message(source: NodeSource) -> Seq<char> {
    "正在从"@ + source_label(source) + "下载 Node.js 运行环境..."@
}

/// The report and the command that start a download from `source`.
pub open spec fn start_download(
    source: NodeSource,
    layout: (Seq<char>, Seq<char>, Seq<char>, Seq<char>),
) -> ((nat, Seq<char>), SetupNextView) {
    (
        (4, download_start_message(source)),
        SetupNextView::Download(
            source,
            download_command(
                release_base(source) + NODE_VERSION@ + "/"@ + NODE_ARCHIVE@,
                layout.2,
                layout.0,
                layout.1,
                layout.3,
            ),
        ),
    )
}

/// The first step: use an installed runtime unless `force` asks for a
/// download, else announce the download and start it from the preferred source.
pub open spec fn begin_view(
    force: bool,
    preferred: NodeSource,
    fs: spec_fn(Seq<Seq<char>>) -> bool,
    appdata: Option<Seq<char>>,
    dirs: Seq<Seq<char>>,
    layout: (Seq<char>, Seq<char>, Seq<char>, Seq<char>),
) -> SetupStepView {
    if !force && ready_node_in(fs, appdata, dirs) is Some {
        (Seq::empty(), SetupNextView::Ready(ready_node_in(fs, appdata, dirs)->0))
    } else {
        let (first, next) = start_download(preferred, layout);
        (seq![(3, "未检测到可用的 Node.js，正在下载运行环境..."@), first], next)
    }
}

/// The step after the download from attempt `attempt` finished: use the new
/// runtime when the download succeeded and it is in place, else report the
/// failure and try the other source, or give up after both.
pub open spec fn after_view(
    preferred: NodeSource,
    attempt: nat,
    succeeded: bool,
    stderr: Seq<char>,
    fs: spec_fn(Seq<Seq<char>>) -> bool,
    appdata: Option<Seq<char>>,
    dirs: Seq<Seq<char>>,
    layout: (Seq<char>, Seq<char>, Seq<char>, Seq<char>),
) -> SetupStepView {
    let source = attempt_source(preferred, attempt);
    if succeeded && fs(app_data_view(appdata) + seq!["runtime"@, "node"@, "node.exe"@])
        && ready_node_in(fs, appdata, dirs) is Some {
        (
            seq![(42, "Node.js 运行环境准备完成"@)],
            SetupNextView::Ready(ready_node_in(fs, appdata, dirs)->0),
        )
    } else {
        let failed = (4, source_label(source) + "下载失败："@ + failure_detail(stderr));
        if attempt == 0 {
            let (first, next) = start_download(other_source(preferred), layout);
            (seq![failed, first], next)
        } else {
            (seq![failed], SetupNextView::Fail("无法下载 Node.js 运行环境，请检查网络连接后重试"@))
        }
    }
}

/// The progress of a Node.js setup that waits for a download.
pub struct NodeSetup {
    preferred: NodeSource,
    attempt: usize,
    waiting: bool,
}

impl NodeSetup {
    /// The preferred source.
    pub closed spec fn preferred_source(&self) -> NodeSource {
        self.preferred
    }

    /// The attempt underway: 0 for the preferred source, 1 for the other.
    pub closed spec fn attempt_index(&self) -> nat {
        self.attempt as nat
    }

    /// Whether a download is underway, whose outcome `after_download` takes.
    pub closed spec fn is_waiting(&self) -> bool {
        self.waiting
    }

    /// The invariant: at most two attempts.
    pub closed spec fn wf(&self) -> bool {
        self.attempt <= 1
    }

    /// Whether a download is underway.
    pub fn awaiting_download(&self) -> (b: bool)
        ensures
            b == self.is_waiting(),
    {
        self.waiting
    }
}

/// The report and download step for `source`.
fn start_download_step(source: NodeSource, layout: &LayoutText) -> (r: (Report, SetupNext))
    ensures
        ((r.0.percent as nat, r.0.message@), setup_next_view(r.1)) == start_download(
            source,
            layout_view(*layout),
        ),
{
    let mut message = String::from_str("正在从");
    message.append(source.label());
    message.append("下载 Node.js 运行环境...");
    let url = source.node_url(NODE_VERSION, NODE_ARCHIVE);
    let command = node_download_command(
        url.as_str(),
        layout.archive.as_str(),
        layout.root.as_str(),
        layout.dir.as_str(),
        layout.staging.as_str(),
    );
    (Report { percent: 4, message }, SetupNext::Download { source, command })
}

/// A report with a fixed message.
fn report(percent: u8, message: &str) -> (r: Report)
    ensures
        r.percent == percent,
        r.message@ == message@,
{
    Report { percent, message: String::from_str(message) }
}

/// The Node.js executable to use without downloading, if one is ready.
fn ready_node<F: Fn(&FsPath) -> bool>(appdata: Option<&str>, dirs: &Vec<String>, is_file: &F) -> (r:
    Option<FsPath>)
    requires
        probe_accepts_all(*is_file),
    ensures
        probe_is_consistent(*is_file) ==> opt_path(r) == ready_node_in(
            reported(*is_file),
            opt_text(appdata),
            texts_view(dirs@),
        ),
        r matches Some(p) ==> is_node_path(p@),
{
    match find_node(appdata, dirs, is_file) {
        Some(node) => if find_npm_cli(appdata, dirs, is_file).is_some() {
            Some(node)
        } else {
            None
        },
        None => None,
    }
}

/// Starts a setup: when `force` is false and Node.js with npm is found, the
/// step says to use it; otherwise it starts the download from `preferred`.
pub fn begin_node_setup<F: Fn(&FsPath) -> bool>(
    force: bool,
    preferred: NodeSource,
    appdata: Option<&str>,
    dirs: &Vec<String>,
    layout: &LayoutText,
    is_file: &F,
) -> (r: (NodeSetup, SetupStep))
    requires
        probe_accepts_all(*is_file),
    ensures
        r.0.wf(),
        r.0.preferred_source() == preferred,
        r.0.attempt_index() == 0,
        r.0.is_waiting() == (setup_step_view(r.1).1 is Download),
        setup_step_view(r.1).1 matches SetupNextView::Ready(p) ==> is_node_path(p),
        force ==> setup_step_view(r.1).1 is Download,
        setup_step_view(r.1).1 is Download ==> setup_step_view(r.1) == (
            seq![
                (3nat, "未检测到可用的 Node.js，正在下载运行环境..."@),
                start_download(preferred, layout_view(*layout)).0,
            ],
            start_download(preferred, layout_view(*layout)).1,
        ),
        probe_is_consistent(*is_file) ==> setup_step_view(r.1) == begin_view(
            force,
            preferred,
            reported(*is_file),
            opt_text(appdata),
            texts_view(dirs@),
            layout_view(*layout),
        ),
{
    if !force {
        if let Some(node) = ready_node(appdata, dirs, is_file) {
            let step = SetupStep { reports: Vec::new(), next: SetupNext::Ready(node) };
            assert(reports_view(step.reports@) =~= Seq::empty());
            return (NodeSetup { preferred, attempt: 0, waiting: false }, step);
        }
    }
    let (first, next) = start_download_step(preferred, layout);
    let mut reports: Vec<Report> = Vec::new();
    reports.push(report(3, "未检测到可用的 Node.js，正在下载运行环境..."));
    reports.push(first);
    let step = SetupStep { reports, next };
    assert(reports_view(step.reports@) =~= seq![
        (3nat, "未检测到可用的 Node.js，正在下载运行环境..."@),
        start_download(preferred, layout_view(*layout)).0,
    ]);
    (NodeSetup { preferred, attempt: 0, waiting: true }, step)
}

impl NodeSetup {
    /// Takes the outcome of the download underway: whether PowerShell
    /// succeeded and what it wrote to standard error.
    pub fn after_download<F: Fn(&FsPath) -> bool>(
        &mut self,
        succeeded: bool,
        stderr: &str,
        appdata: Option<&str>,
        dirs: &Vec<String>,
        layout: &LayoutText,
        is_file: &F,
    ) -> (r: SetupStep)
        requires
            old(self).wf(),
            old(self).is_waiting(),
            probe_accepts_all(*is_file),
        ensures
            final(self).wf(),
            final(self).preferred_source() == old(self).preferred_source(),
            final(self).is_waiting() == (setup_step_view(r).1 is Download),
            setup_step_view(r).1 matches SetupNextView::Ready(p) ==> is_node_path(p),
            final(self).is_waiting() ==> final(self).attempt_index() == old(self).attempt_index()
                + 1,
            probe_is_consistent(*is_file) ==> setup_step_view(r) == after_view(
                old(self).preferred_source(),
                old(self).attempt_index(),
                succeeded,
                stderr@,
                reported(*is_file),
                opt_text(appdata),
                texts_view(dirs@),
                layout_view(*layout),
            ),
    {
        let order = self.preferred.try_order();
        let source = order[self.attempt];
        assert(source == attempt_source(self.preferred, self.attempt as nat));
        if succeeded {
            let runtime_node = runtime_node_path(appdata);
            if probe(is_file, &runtime_node) {
                if let Some(node) = ready_node(appdata, dirs, is_file) {
                    self.waiting = false;
                    let mut reports: Vec<Report> = Vec::new();
                    reports.push(report(42, "Node.js 运行环境准备完成"));
                    let step = SetupStep { reports, next: SetupNext::Ready(node) };
                    assert(reports_view(step.reports@) =~= seq![(42nat, "Node.js 运行环境准备完成"@)]);
                    return step;
                }
            }
        }
        let mut message = String::from_str(source.label());
        message.append("下载失败：");
        let detail = download_failure_detail(stderr);
        message.append(detail.as_str());
        let failed = Report { percent: 4, message };
        let mut reports: Vec<Report> = Vec::new();
        reports.push(failed);
        if self.attempt == 0 {
            let (first, next) = start_download_step(order[1], layout);
            reports.push(first);
            self.attempt = 1;
            let step = SetupStep { reports, next };
            assert(reports_view(step.reports@) =~= seq![
                (4nat, source_label(source) + "下载失败："@ + failure_detail(stderr@)),
                start_download(order[1], layout_view(*layout)).0,
            ]);
            step
        } else {
            self.waiting = false;
            let step = SetupStep {
                reports,
                next: SetupNext::Fail(String::from_str("无法下载 Node.js 运行环境，请检查网络连接后重试")),
            };
            assert(reports_view(step.reports@) =~= seq![
                (4nat, source_label(source) + "下载失败："@ + failure_detail(stderr@)),
            ]);
            step
        }
    }
}

} // verus!
