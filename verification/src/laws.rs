//! Properties that hold across the launcher's functions.

use vstd::prelude::*;
use crate::locate::{
    checkout_in, config_is_valid, configured_in, detect_in, npm_global_bin_in, package_entry,
    path_package_in, repo_entry_in,
};
use crate::names::{DEFAULT_REPO, DshKind, NODE_ARCHIVE, NODE_VERSION, NodeSource, kind_name, release_base, source_label};
use crate::powershell::{
    DownloadLineView, classify_line, download_command, download_percent, download_progress_message,
    progress_marker,
};
use crate::setup::{SetupNextView, after_view, attempt_source, begin_view, other_source};
use crate::paths::{lemma_rendered_append, rendered};
use crate::install::{
    InstallNextView, after_install_view, after_prefix_view, begin_install_view, registry_label,
};
use crate::launch::{
    LaunchActionView, LaunchEventView, UiEventView, LaunchKind, LaunchPhase, launch_begin_view, launch_step_view,
    phase_awaiting,
};
use crate::text::{all_digits, decimal, is_digit, is_white_space, numeral_value, parse_unsigned, trim_both, trim_end, trim_start};

verus! {

proof fn lemma_decimal_digits(n: nat)
    ensures
        decimal(n).len() > 0,
        all_digits(decimal(n)),
        numeral_value(decimal(n)) == n,
    decreases n,
{
    let d = decimal(n);
    if n < 10 {
        assert(d.drop_last() =~= Seq::<char>::empty());
        assert(numeral_value(d.drop_last()) == 0);
    } else {
        lemma_decimal_digits(n / 10);
        assert(d.drop_last() == decimal(n / 10));
        assert forall|i: int| 0 <= i < d.len() implies is_digit(#[trigger] d[i]) by {
            if i < d.len() - 1 {
                assert(d[i] == decimal(n / 10)[i]);
            }
        }
    }
}

/// A number written in decimal (as in the `taskkill` arguments) reads back as
/// the same number wherever the type can hold it (as the `netstat` reading does).
pub proof fn lemma_decimal_reads_back(n: nat, max: nat)
    requires
        n <= max,
    ensures
        parse_unsigned(decimal(n), max) == Some(n),
{
    lemma_decimal_digits(n);
    assert(is_digit(decimal(n)[0]));
}

/// A saved configuration that names an npm package whose entry script exists is
/// the installation that detection picks, whatever else is on disk.
pub proof fn lemma_saved_package_is_detected(
    fs: spec_fn(Seq<Seq<char>>) -> bool,
    path: Seq<char>,
    dsh_home: Option<Seq<char>>,
    dirs: Seq<Seq<char>>,
    appdata: Option<Seq<char>>,
)
    requires
        fs(package_entry(seq![path])),
    ensures
        config_is_valid(fs, path, kind_name(DshKind::Npm)),
        detect_in(fs, Some((path, kind_name(DshKind::Npm))), dsh_home, dirs, appdata) == Some(
            (DshKind::Npm, seq![path], package_entry(seq![path])),
        ),
{
    reveal_strlit("repo");
    reveal_strlit("npm");
    assert("repo"@.len() != "npm"@.len());
    assert(configured_in(fs, Some((path, kind_name(DshKind::Npm)))) is Some);
}

/// A saved configuration that names a source checkout with an entry script is
/// the installation that detection picks, whatever else is on disk.
pub proof fn lemma_saved_checkout_is_detected(
    fs: spec_fn(Seq<Seq<char>>) -> bool,
    path: Seq<char>,
    dsh_home: Option<Seq<char>>,
    dirs: Seq<Seq<char>>,
    appdata: Option<Seq<char>>,
)
    requires
        repo_entry_in(fs, seq![path]) is Some,
    ensures
        config_is_valid(fs, path, kind_name(DshKind::Repo)),
        detect_in(fs, Some((path, kind_name(DshKind::Repo))), dsh_home, dirs, appdata) == Some(
            (DshKind::Repo, seq![path], repo_entry_in(fs, seq![path])->0),
        ),
{
    reveal_strlit("repo");
    reveal_strlit("npm");
    assert("repo"@.len() != "npm"@.len());
    assert(configured_in(fs, Some((path, kind_name(DshKind::Repo)))) is Some);
}

/// The percentage shown during a Node.js download stays between 5 and 40 and
/// never goes down as the download advances.
pub proof fn lemma_download_percent_bounded_monotone(n: nat, m: nat)
    requires
        n <= m,
    ensures
        5 <= download_percent(n) <= 40,
        download_percent(n) <= download_percent(m),
{
    assert(n * 35 <= m * 35) by (nonlinear_arith)
        requires
            n <= m,
    ;
    assert(n * 35 / 100 <= m * 35 / 100) by (nonlinear_arith)
        requires
            n * 35 <= m * 35,
    ;
}

/// The two download attempts (and the two npm install attempts) use different sources.
pub proof fn lemma_attempts_use_both_sources(preferred: NodeSource)
    ensures
        attempt_source(preferred, 0) == preferred,
        attempt_source(preferred, 1) != preferred,
{
}

/// How far a launch has come: each step moves it strictly further.
pub open spec fn phase_rank(p: LaunchPhase) -> nat {
    match p {
        LaunchPhase::CheckingRunning => 0,
        LaunchPhase::Stopping => 0,
        LaunchPhase::Detecting => 1,
        LaunchPhase::Starting => 2,
        LaunchPhase::Waiting => 3,
        LaunchPhase::Finished => 4,
    }
}

/// Every launch ends: each awaited event moves it to a later phase, so after at
/// most four events it is finished, and a finished launch awaits nothing.
pub proof fn lemma_launch_always_progresses(kind: LaunchKind, e: LaunchEventView)
    ensures
        phase_rank(launch_step_view(kind, e).0) > phase_rank(phase_awaiting(e)),
        phase_awaiting(e) != LaunchPhase::Finished,
        phase_rank(launch_begin_view(kind).0) == 0,
{
}

/// The Node.js setup downloads at most twice: after the second download it
/// either uses the runtime or gives up.
pub proof fn lemma_setup_downloads_at_most_twice(
    preferred: NodeSource,
    succeeded: bool,
    stderr: Seq<char>,
    fs: spec_fn(Seq<Seq<char>>) -> bool,
    appdata: Option<Seq<char>>,
    dirs: Seq<Seq<char>>,
    layout: (Seq<char>, Seq<char>, Seq<char>, Seq<char>),
)
    ensures
        !(after_view(preferred, 1, succeeded, stderr, fs, appdata, dirs, layout).1 is Download),
        after_view(preferred, 0, succeeded, stderr, fs, appdata, dirs, layout).1 is Download ==> after_view(
            preferred,
            0,
            succeeded,
            stderr,
            fs,
            appdata,
            dirs,
            layout,
        ).1->Download_0 == other_source(preferred),
{
}

/// The npm installation runs at most twice, the second time from the other
/// registry, and stops at the first run that succeeds.
pub proof fn lemma_install_runs_at_most_twice(
    preferred: NodeSource,
    cli: Seq<Seq<char>>,
    succeeded: bool,
)
    ensures
        !(after_install_view(preferred, 1, cli, succeeded).1 is RunInstall),
        succeeded ==> after_install_view(preferred, 0, cli, succeeded).1 is ReadPrefix,
        !succeeded ==> after_install_view(preferred, 0, cli, succeeded).1 == InstallNextView::RunInstall(
            cli,
            other_source(preferred),
        ),
{
}

/// The files on a disk, as a predicate on path views: a path is there when the
/// text it stands for names a file in `files`.
pub open spec fn on_disk(files: spec_fn(Seq<char>) -> bool) -> spec_fn(Seq<Seq<char>>) -> bool {
    |v: Seq<Seq<char>>| files(rendered(v))
}

/// After an automatic installation saves the package directory it found (as
/// the text that directory stands for), the next detection on the same disk
/// picks that package, with the entry script the installation checked.
pub proof fn lemma_installed_package_is_detected(
    files: spec_fn(Seq<char>) -> bool,
    prefix_output: Seq<char>,
    dsh_home: Option<Seq<char>>,
    dirs: Seq<Seq<char>>,
    appdata: Option<Seq<char>>,
)
    requires
        after_prefix_view(on_disk(files), prefix_output).1 is Save,
    ensures
        ({
            let pkg = after_prefix_view(on_disk(files), prefix_output).1->Save_0;
            let saved = rendered(pkg);
            &&& detect_in(on_disk(files), Some((saved, kind_name(DshKind::Npm))), dsh_home, dirs, appdata)
                == Some((DshKind::Npm, seq![saved], package_entry(seq![saved])))
            &&& rendered(package_entry(seq![saved])) == rendered(package_entry(pkg))
        }),
{
    let pkg = after_prefix_view(on_disk(files), prefix_output).1->Save_0;
    let saved = rendered(pkg);
    assert(pkg.len() == 4);
    lemma_rendered_append(pkg, seq!["lib"@, "bin.js"@]);
    assert(seq![saved] + seq!["lib"@, "bin.js"@] == package_entry(seq![saved]));
    assert(on_disk(files)(package_entry(seq![saved])));
    lemma_saved_package_is_detected(on_disk(files), saved, dsh_home, dirs, appdata);
}


/// Once the service process has started, every launch (at start-up or on a
/// restart) waits for the service to answer on its port, and does nothing else
/// yet: the web interface is not entered and no success is reported.
pub proof fn lemma_started_service_is_awaited(kind: LaunchKind)
    ensures
        launch_step_view(kind, LaunchEventView::Started(Ok(()))) == (
            LaunchPhase::Waiting,
            seq![LaunchActionView::WaitForServer],
        ),
{
}

/// The window enters the service's web interface only after the service was
/// seen to answer: when it already ran, or when it answered after a start.
pub proof fn lemma_webui_only_when_answering(kind: LaunchKind, e: LaunchEventView)
    ensures
        launch_step_view(kind, e).1.contains(LaunchActionView::EnterWebui) ==> (e
            == LaunchEventView::Running(true) || e == LaunchEventView::Ready(true)),
{
    let acts = launch_step_view(kind, e).1;
    if acts.contains(LaunchActionView::EnterWebui) {
        let i = choose|i: int| 0 <= i < acts.len() && acts[i] == LaunchActionView::EnterWebui;
        assert(0 <= i < acts.len() && acts[i] == LaunchActionView::EnterWebui);
    }
}

/// When npm is found, the first install run uses the registry of the preferred
/// source (the source of the first attempt), and the report names that registry.
pub proof fn lemma_first_install_uses_preferred(preferred: NodeSource, cli: Seq<Seq<char>>)
    ensures
        begin_install_view(preferred, Some(cli)) == (
            seq![(45nat, "正在从"@ + registry_label(preferred) + "下载并安装 DeepSeek Harness..."@)],
            InstallNextView::RunInstall(cli, preferred),
        ),
        begin_install_view(preferred, Some(cli)).1->RunInstall_1 == attempt_source(preferred, 0),
{
}

/// The Node.js setup downloads exactly when it is forced to or no runtime with
/// npm is ready, and its first download, forced or not, comes from the
/// preferred source (the source of the first attempt), from that source's
/// release directory, and is announced under that source's name.
pub proof fn lemma_first_download_uses_preferred(
    force: bool,
    preferred: NodeSource,
    fs: spec_fn(Seq<Seq<char>>) -> bool,
    appdata: Option<Seq<char>>,
    dirs: Seq<Seq<char>>,
    layout: (Seq<char>, Seq<char>, Seq<char>, Seq<char>),
)
    ensures
        (begin_view(force, preferred, fs, appdata, dirs, layout).1 is Download) == (force
            || crate::setup::ready_node_in(fs, appdata, dirs) is None),
        begin_view(force, preferred, fs, appdata, dirs, layout).1 is Download ==> begin_view(
            force,
            preferred,
            fs,
            appdata,
            dirs,
            layout,
        ) == (
            seq![
                (3nat, "未检测到可用的 Node.js，正在下载运行环境..."@),
                (4nat, "正在从"@ + source_label(preferred) + "下载 Node.js 运行环境..."@),
            ],
            SetupNextView::Download(
                preferred,
                download_command(
                    release_base(preferred) + NODE_VERSION@ + "/"@ + NODE_ARCHIVE@,
                    layout.2,
                    layout.0,
                    layout.1,
                    layout.3,
                ),
            ),
        ),
        begin_view(force, preferred, fs, appdata, dirs, layout).1 is Download ==> begin_view(
            force,
            preferred,
            fs,
            appdata,
            dirs,
            layout,
        ).1->Download_0 == attempt_source(preferred, 0),
{
}

/// A `DSH_HOME` that holds no source checkout changes nothing: detection goes
/// on to the search path and the global npm package as if it were unset.
pub proof fn lemma_dsh_home_without_checkout_is_ignored(
    fs: spec_fn(Seq<Seq<char>>) -> bool,
    cfg: Option<(Seq<char>, Seq<char>)>,
    home: Seq<char>,
    dirs: Seq<Seq<char>>,
    appdata: Option<Seq<char>>,
)
    requires
        checkout_in(fs, home) is None,
    ensures
        detect_in(fs, cfg, Some(home), dirs, appdata) == detect_in(fs, cfg, None, dirs, appdata),
{
}

/// Whenever the harness is installed as a global npm package, detection finds
/// an installation, whatever `DSH_HOME`, the search path and the saved
/// configuration say.
pub proof fn lemma_global_package_is_found(
    fs: spec_fn(Seq<Seq<char>>) -> bool,
    cfg: Option<(Seq<char>, Seq<char>)>,
    dsh_home: Option<Seq<char>>,
    dirs: Seq<Seq<char>>,
    appdata: Option<Seq<char>>,
)
    requires
        npm_global_bin_in(fs, appdata) is Some,
    ensures
        detect_in(fs, cfg, dsh_home, dirs, appdata) is Some,
{
}

/// A `PROGRESS:<n>` line that the download prints is shown as the download's
/// share of the span from 5 to 40 percent: 5 plus 35 hundredths of `n`, rounded
/// down, and 40 from `n` = 100 on; the message repeats `n`.
pub proof fn lemma_progress_line_shows_share(n: nat, label: Seq<char>)
    requires
        n <= 255,
    ensures
        classify_line(progress_marker() + decimal(n), label) == DownloadLineView::Progress(
            if n <= 100 {
                5 + n * 35 / 100
            } else {
                40
            },
            download_progress_message(label, n),
        ),
{
    let d = decimal(n);
    let s = progress_marker() + d;
    lemma_decimal_digits(n);
    assert(is_digit(d[0]));
    assert(is_digit(d[d.len() - 1]));
    assert(s[0] == 'P');
    assert(!is_white_space(s[0]));
    assert(trim_start(s) == s);
    assert(s.last() == d[d.len() - 1]);
    assert(!is_white_space(s.last()));
    assert(trim_end(s) == s);
    assert(trim_both(s) == s);
    assert(s.take(9) =~= progress_marker());
    assert(s.skip(9) =~= d);
    assert(!is_white_space(d[0]));
    assert(trim_start(d) == d);
    assert(!is_white_space(d.last()));
    assert(trim_end(d) == d);
    lemma_decimal_reads_back(n, 255);
    if n <= 100 {
        assert(n * 35 / 100 <= 35) by (nonlinear_arith)
            requires
                n <= 100,
        ;
    } else {
        assert(n * 35 / 100 >= 35) by (nonlinear_arith)
            requires
                n > 100,
        ;
    }
}

/// During a download the shown percentage moves at least one step for every
/// three percent downloaded, and strictly whenever 35 hundredths of the
/// downloaded percentage, rounded down, grows.
pub proof fn lemma_download_percent_keeps_moving(n: nat, m: nat)
    requires
        n < m <= 100,
    ensures
        n * 35 / 100 < m * 35 / 100 ==> download_percent(n) < download_percent(m),
        n + 3 <= m ==> download_percent(n) < download_percent(m),
        download_percent(m) - download_percent(n) <= (m - n) * 35 / 100 + 1,
{
    assert(n * 35 / 100 <= 35 && m * 35 / 100 <= 35) by (nonlinear_arith)
        requires
            n < m <= 100,
    ;
    assert(n + 3 <= m ==> n * 35 / 100 < m * 35 / 100) by (nonlinear_arith)
        requires
            n < m <= 100,
    ;
    assert(m * 35 / 100 - n * 35 / 100 <= (m - n) * 35 / 100 + 1) by (nonlinear_arith)
        requires
            n < m <= 100,
    ;
}

/// A start-up first asks whether the service already answers; a restart first
/// stops the service, and says so.
pub proof fn lemma_how_launches_begin()
    ensures
        launch_begin_view(LaunchKind::Bootstrap) == (
            LaunchPhase::CheckingRunning,
            seq![LaunchActionView::CheckRunning],
        ),
        launch_begin_view(LaunchKind::Restart) == (
            LaunchPhase::Stopping,
            seq![
                LaunchActionView::Ui(UiEventView::Progress(5, "正在停止服务..."@)),
                LaunchActionView::StopServer,
            ],
        ),
{
}

/// Every way a launch can fail ends it and tells the window: the start error
/// is shown as it came, a service that does not answer in time is reported as
/// a time-out (and its web interface is not entered), and a missing
/// installation asks the user to install.
pub proof fn lemma_launch_failures_are_reported(kind: LaunchKind, m: Seq<char>)
    ensures
        launch_step_view(kind, LaunchEventView::Started(Err(m))) == (
            LaunchPhase::Finished,
            seq![LaunchActionView::Ui(UiEventView::Error(m))],
        ),
        launch_step_view(kind, LaunchEventView::Ready(false)).0 == LaunchPhase::Finished,
        launch_step_view(kind, LaunchEventView::Ready(false)).1.len() == 1,
        launch_step_view(kind, LaunchEventView::Ready(false)).1[0] is Ui,
        launch_step_view(kind, LaunchEventView::Ready(false)).1[0]->Ui_0 is Error,
        launch_step_view(kind, LaunchEventView::Detected(None)).0 == LaunchPhase::Finished,
        launch_step_view(kind, LaunchEventView::Detected(None)).1.last() == LaunchActionView::Ui(
            UiEventView::NeedInstall,
        ),
{
}

/// With no usable saved configuration and no checkout at the default place, a
/// checkout at `DSH_HOME` is the installation detected.
pub proof fn lemma_dsh_home_checkout_is_detected(
    fs: spec_fn(Seq<Seq<char>>) -> bool,
    cfg: Option<(Seq<char>, Seq<char>)>,
    home: Seq<char>,
    dirs: Seq<Seq<char>>,
    appdata: Option<Seq<char>>,
)
    requires
        configured_in(fs, cfg) is None,
        checkout_in(fs, DEFAULT_REPO@) is None,
        checkout_in(fs, home) is Some,
    ensures
        detect_in(fs, cfg, Some(home), dirs, appdata) == checkout_in(fs, home),
{
}

/// When nothing earlier applies, the package beside the first launcher script
/// on the search path is preferred to the global npm package.
pub proof fn lemma_path_package_before_global(
    fs: spec_fn(Seq<Seq<char>>) -> bool,
    cfg: Option<(Seq<char>, Seq<char>)>,
    dsh_home: Option<Seq<char>>,
    dirs: Seq<Seq<char>>,
    appdata: Option<Seq<char>>,
)
    requires
        configured_in(fs, cfg) is None,
        checkout_in(fs, DEFAULT_REPO@) is None,
        dsh_home is Some ==> checkout_in(fs, dsh_home->0) is None,
        path_package_in(fs, dirs) is Some,
    ensures
        detect_in(fs, cfg, dsh_home, dirs, appdata) == path_package_in(fs, dirs),
{
}

} // verus!
