//! Bringing the harness service up for the window: on start-up and on restart.
//!
//! Probing the service, stopping, detecting, starting and waiting happen
//! outside the library: `Launch` says what to do next and is told what came of it.

use vstd::prelude::*;
use crate::locate::{Installation, InstallationView};

verus! {

/// A message for the window.
pub enum UiEvent {
    /// Progress: a percentage and a message.
    Progress { percent: u8, message: String },
    /// An error message.
    Error(String),
    /// No installation was found; the window asks the user to install.
    NeedInstall,
}

/// A `UiEvent` as plain values.
pub enum UiEventView {
    Progress(nat, Seq<char>),
    Error(Seq<char>),
    NeedInstall,
}

/// The view of a `UiEvent`.
pub open spec fn ui_event_view(e: UiEvent) -> UiEventView {
    match e {
        UiEvent::Progress { percent, message } => UiEventView::Progress(percent as nat, message@),
        UiEvent::Error(m) => UiEventView::Error(m@),
        UiEvent::NeedInstall => UiEventView::NeedInstall,
    }
}

/// The event channel a message goes out on.
pub open spec fn channel_of(e: UiEventView) -> Seq<char> {
    match e {
        UiEventView::Progress(_, _) => "dsh-progress"@,
        UiEventView::Error(_) => "dsh-error"@,
        UiEventView::NeedInstall => "dsh-need-install"@,
    }
}

/// The (percent, message) payload a message carries.
pub open spec fn payload_of(e: UiEventView) -> (nat, Seq<char>) {
    match e {
        UiEventView::Progress(p, m) => (p, m),
        UiEventView::Error(m) => (0, m),
        UiEventView::NeedInstall => (0, Seq::empty()),
    }
}

impl UiEvent {
    /// The event channel this message goes out on.
    pub fn channel(&self) -> (r: &'static str)
        ensures
            r@ == channel_of(ui_event_view(*self)),
    {
        match self {
            UiEvent::Progress { .. } => "dsh-progress",
            UiEvent::Error(_) => "dsh-error",
            UiEvent::NeedInstall => "dsh-need-install",
        }
    }

    /// The percentage this message carries: 0 for errors and install requests.
    pub fn percent(&self) -> (r: u8)
        ensures
            r as nat == payload_of(ui_event_view(*self)).0,
    {
        match self {
            UiEvent::Progress { percent, .. } => *percent,
            _ => 0,
        }
    }

    /// The text this message carries: empty for install requests.
    pub fn message(&self) -> (r: String)
        ensures
            r@ == payload_of(ui_event_view(*self)).1,
    {
        match self {
            UiEvent::Progress { message, .. } => message.clone(),
            UiEvent::Error(m) => m.clone(),
            UiEvent::NeedInstall => String::new(),
        }
    }
}

/// A progress message.
fn progress(percent: u8, message: &str) -> (r: LaunchAction)
    ensures
        launch_action_view(r) == LaunchActionView::Ui(UiEventView::Progress(percent as nat, message@)),
{
    LaunchAction::Ui(UiEvent::Progress { percent, message: String::from_str(message) })
}

/// Why the service is being brought up.
#[derive(Clone, Copy, PartialEq, Eq, Structural, Debug)]
pub enum LaunchKind {
    /// The window has just opened.
    Bootstrap,
    /// The user asked for a restart.
    Restart,
}

/// What the launch waits for.
#[derive(Clone, Copy, PartialEq, Eq, Structural, Debug)]
pub enum LaunchPhase {
    /// Whether the service already runs.
    CheckingRunning,
    /// The old service to stop.
    Stopping,
    /// The installation to be found.
    Detecting,
    /// The service process to be started.
    Starting,
    /// The service to answer.
    Waiting,
    /// Nothing; the launch is over.
    Finished,
}

/// Outside work to do.
pub enum LaunchAction {
    /// Tell the window.
    Ui(UiEvent),
    /// Show the service's web interface in the window.
    EnterWebui,
    /// Bring the window to the front.
    ShowMain,
    /// Find out whether the service answers on its port.
    CheckRunning,
    /// Stop the service and whatever listens on its port, and wait for it to go.
    StopServer,
    /// Look for an installation.
    Detect,
    /// Start the service of this installation.
    StartServer(Installation),
    /// Wait for the service to answer.
    WaitForServer,
}

/// A `LaunchAction` as plain values.
pub enum LaunchActionView {
    Ui(UiEventView),
    EnterWebui,
    ShowMain,
    CheckRunning,
    StopServer,
    Detect,
    StartServer(InstallationView),
    WaitForServer,
}

/// The view of a `LaunchAction`.
pub open spec fn launch_action_view(a: LaunchAction) -> LaunchActionView {
    match a {
        LaunchAction::Ui(e) => LaunchActionView::Ui(ui_event_view(e)),
        LaunchAction::EnterWebui => LaunchActionView::EnterWebui,
        LaunchAction::ShowMain => LaunchActionView::ShowMain,
        LaunchAction::CheckRunning => LaunchActionView::CheckRunning,
        LaunchAction::StopServer => LaunchActionView::StopServer,
        LaunchAction::Detect => LaunchActionView::Detect,
        LaunchAction::StartServer(i) => LaunchActionView::StartServer((i.kind, i.root@, i.entry@)),
        LaunchAction::WaitForServer => LaunchActionView::WaitForServer,
    }
}

/// The view of a list of actions.
pub open spec fn actions_view(v: Seq<LaunchAction>) -> Seq<LaunchActionView> {
    v.map_values(|a: LaunchAction| launch_action_view(a))
}

/// What came of the outside work.
pub enum LaunchEvent {
    /// Whether the service already answers.
    Running(bool),
    /// The old service is gone.
    Stopped,
    /// The installation found, if any.
    Detected(Option<Installation>),
    /// The service process started, or the error that stopped it.
    Started(Result<(), String>),
    /// Whether the service answered in time.
    Ready(bool),
}

/// A `LaunchEvent` as plain values.
pub enum LaunchEventView {
    Running(bool),
    Stopped,
    Detected(Option<InstallationView>),
    Started(Result<(), Seq<char>>),
    Ready(bool),
}

/// The view of a `LaunchEvent`.
pub open spec fn launch_event_view(e: LaunchEvent) -> LaunchEventView {
    match e {
        LaunchEvent::Running(b) => LaunchEventView::Running(b),
        LaunchEvent::Stopped => LaunchEventView::Stopped,
        LaunchEvent::Detected(o) => LaunchEventView::Detected(
            match o {
                Some(i) => Some((i.kind, i.root@, i.entry@)),
                None => None,
            },
        ),
        LaunchEvent::Started(r) => LaunchEventView::Started(
            match r {
                Ok(()) => Ok(()),
                Err(m) => Err(m@),
            },
        ),
        LaunchEvent::Ready(b) => LaunchEventView::Ready(b),
    }
}

/// The phase in which `e` is awaited.
pub open spec fn phase_awaiting(e: LaunchEventView) -> LaunchPhase {
    match e {
        LaunchEventView::Running(_) => LaunchPhase::CheckingRunning,
        LaunchEventView::Stopped => LaunchPhase::Stopping,
        LaunchEventView::Detected(_) => LaunchPhase::Detecting,
        LaunchEventView::Started(_) => LaunchPhase::Starting,
        LaunchEventView::Ready(_) => LaunchPhase::Waiting,
    }
}

/// How a launch of kind `kind` begins.
pub open spec fn launch_begin_view(kind: LaunchKind) -> (LaunchPhase, Seq<LaunchActionView>) {
    match kind {
        LaunchKind::Bootstrap => (LaunchPhase::CheckingRunning, seq![LaunchActionView::CheckRunning]),
        LaunchKind::Restart => (
            LaunchPhase::Stopping,
            seq![
                LaunchActionView::Ui(UiEventView::Progress(5, "正在停止服务..."@)),
                LaunchActionView::StopServer,
            ],
        ),
    }
}

/// What a launch of kind `kind` does with the awaited event `e`: the next
/// phase and the actions to take.
pub open spec fn launch_step_view(kind: LaunchKind, e: LaunchEventView) -> (
    LaunchPhase,
    Seq<LaunchActionView>,
) {
    match e {
        LaunchEventView::Running(true) => (
            LaunchPhase::Finished,
            seq![
                LaunchActionView::Ui(UiEventView::Progress(95, "检测到服务已在运行"@)),
                LaunchActionView::EnterWebui,
            ],
        ),
        LaunchEventView::Running(false) => (LaunchPhase::Detecting, seq![LaunchActionView::Detect]),
        LaunchEventView::Stopped => (
            LaunchPhase::Detecting,
            seq![
                LaunchActionView::Ui(UiEventView::Progress(15, "正在重新启动服务..."@)),
                LaunchActionView::Detect,
            ],
        ),
        LaunchEventView::Detected(Some(i)) => (
            LaunchPhase::Starting,
            if kind == LaunchKind::Bootstrap {
                seq![
                    LaunchActionView::Ui(
                        UiEventView::Progress(15, "已找到 DeepSeek Harness，正在启动服务..."@),
                    ),
                    LaunchActionView::StartServer(i),
                ]
            } else {
                seq![LaunchActionView::StartServer(i)]
            },
        ),
        LaunchEventView::Detected(None) => (
            LaunchPhase::Finished,
            if kind == LaunchKind::Bootstrap {
                seq![
                    LaunchActionView::Ui(UiEventView::Progress(5, "未检测到安装"@)),
                    LaunchActionView::Ui(UiEventView::NeedInstall),
                ]
            } else {
                seq![LaunchActionView::ShowMain, LaunchActionView::Ui(UiEventView::NeedInstall)]
            },
        ),
        LaunchEventView::Started(Err(m)) => (
            LaunchPhase::Finished,
            seq![LaunchActionView::Ui(UiEventView::Error(m))],
        ),
        LaunchEventView::Started(Ok(())) => (
            LaunchPhase::Waiting,
            seq![LaunchActionView::WaitForServer],
        ),
        LaunchEventView::Ready(true) => (
            LaunchPhase::Finished,
            seq![
                LaunchActionView::Ui(
                    UiEventView::Progress(
                        100,
                        if kind == LaunchKind::Bootstrap {
                            "服务已就绪"@
                        } else {
                            "服务已重新启动"@
                        },
                    ),
                ),
                LaunchActionView::EnterWebui,
            ],
        ),
        LaunchEventView::Ready(false) => (
            LaunchPhase::Finished,
            seq![
                LaunchActionView::Ui(
                    UiEventView::Error(
                        if kind == LaunchKind::Bootstrap {
                            "服务启动超时，请查看日志确认状态"@
                        } else {
                            "服务重启超时，请查看日志确认状态"@
                        },
                    ),
                ),
            ],
        ),
    }
}

/// A launch of the service in progress.
pub struct Launch {
    kind: LaunchKind,
    phase: LaunchPhase,
}

impl Launch {
    /// Why the service is being brought up.
    pub closed spec fn launch_kind(&self) -> LaunchKind {
        self.kind
    }

    /// What the launch waits for.
    pub closed spec fn current_phase(&self) -> LaunchPhase {
        self.phase
    }

    /// What the launch waits for.
    pub fn phase(&self) -> (p: LaunchPhase)
        ensures
            p == self.current_phase(),
    {
        self.phase
    }

    /// Begins a launch of kind `kind`.
    pub fn begin(kind: LaunchKind) -> (r: (Launch, Vec<LaunchAction>))
        ensures
            r.0.launch_kind() == kind,
            (r.0.current_phase(), actions_view(r.1@)) == launch_begin_view(kind),
    {
        let mut actions: Vec<LaunchAction> = Vec::new();
        match kind {
            LaunchKind::Bootstrap => {
                actions.push(LaunchAction::CheckRunning);
                assert(actions_view(actions@) =~= seq![LaunchActionView::CheckRunning]);
                (Launch { kind, phase: LaunchPhase::CheckingRunning }, actions)
            },
            LaunchKind::Restart => {
                actions.push(progress(5, "正在停止服务..."));
                actions.push(LaunchAction::StopServer);
                assert(actions_view(actions@) =~= launch_begin_view(kind).1);
                (Launch { kind, phase: LaunchPhase::Stopping }, actions)
            },
        }
    }

    /// Takes the event the launch waits for, and says what to do next.
    pub fn step(&mut self, event: LaunchEvent) -> (r: Vec<LaunchAction>)
        requires
            old(self).current_phase() == phase_awaiting(launch_event_view(event)),
        ensures
            final(self).launch_kind() == old(self).launch_kind(),
            (final(self).current_phase(), actions_view(r@)) == launch_step_view(
                old(self).launch_kind(),
                launch_event_view(event),
            ),
    {
        let ghost ev = launch_event_view(event);
        let bootstrap = self.kind == LaunchKind::Bootstrap;
        let mut actions: Vec<LaunchAction> = Vec::new();
        match event {
            LaunchEvent::Running(true) => {
                actions.push(progress(95, "检测到服务已在运行"));
                actions.push(LaunchAction::EnterWebui);
                self.phase = LaunchPhase::Finished;
            },
            LaunchEvent::Running(false) => {
                actions.push(LaunchAction::Detect);
                self.phase = LaunchPhase::Detecting;
            },
            LaunchEvent::Stopped => {
                actions.push(progress(15, "正在重新启动服务..."));
                actions.push(LaunchAction::Detect);
                self.phase = LaunchPhase::Detecting;
            },
            LaunchEvent::Detected(Some(inst)) => {
                if bootstrap {
                    actions.push(progress(15, "已找到 DeepSeek Harness，正在启动服务..."));
                }
                actions.push(LaunchAction::StartServer(inst));
                self.phase = LaunchPhase::Starting;
            },
            LaunchEvent::Detected(None) => {
                if bootstrap {
                    actions.push(progress(5, "未检测到安装"));
                } else {
                    actions.push(LaunchAction::ShowMain);
                }
                actions.push(LaunchAction::Ui(UiEvent::NeedInstall));
                self.phase = LaunchPhase::Finished;
            },
            LaunchEvent::Started(Err(m)) => {
                actions.push(LaunchAction::Ui(UiEvent::Error(m)));
                self.phase = LaunchPhase::Finished;
            },
            LaunchEvent::Started(Ok(())) => {
                actions.push(LaunchAction::WaitForServer);
                self.phase = LaunchPhase::Waiting;
            },
            LaunchEvent::Ready(true) => {
                if bootstrap {
                    actions.push(progress(100, "服务已就绪"));
                } else {
                    actions.push(progress(100, "服务已重新启动"));
                }
                actions.push(LaunchAction::EnterWebui);
                self.phase = LaunchPhase::Finished;
            },
            LaunchEvent::Ready(false) => {
                let message = if bootstrap {
                    String::from_str("服务启动超时，请查看日志确认状态")
                } else {
                    String::from_str("服务重启超时，请查看日志确认状态")
                };
                actions.push(LaunchAction::Ui(UiEvent::Error(message)));
                self.phase = LaunchPhase::Finished;
            },
        }
        assert(actions_view(actions@) =~= launch_step_view(self.kind, ev).1);
        actions
    }
}

/// What one look at the starting service decides.
pub enum WaitTick {
    /// The service answers: report this and enter it.
    Ready(UiEvent),
    /// Not yet: report this, if anything, and look again later.
    Continue(Option<UiEvent>),
    /// Not in time: report this, if anything, and give up.
    GiveUp(Option<UiEvent>),
}

/// A `WaitTick` as plain values: (ready, given up, report).
pub open spec fn wait_tick_view(t: WaitTick) -> (bool, bool, Option<UiEventView>) {
    match t {
        WaitTick::Ready(e) => (true, false, Some(ui_event_view(e))),
        WaitTick::Continue(o) => (false, false, match o {
            Some(e) => Some(ui_event_view(e)),
            None => None,
        }),
        WaitTick::GiveUp(o) => (false, true, match o {
            Some(e) => Some(ui_event_view(e)),
            None => None,
        }),
    }
}

/// Waiting for the starting service to answer; remembers the percentage last
/// reported.
pub struct ReadyWait {
    pub last_percent: u8,
}

/// What one look decides: ready when the service answers; otherwise a new
/// percentage that is a multiple of ten is reported, and the wait ends once
/// its time is over.
pub open spec fn wait_tick_spec(last: u8, running: bool, percent: u8, over_time: bool) -> (
    bool,
    bool,
    Option<UiEventView>,
) {
    if running {
        (true, false, Some(UiEventView::Progress(92, "服务已就绪，正在进入..."@)))
    } else {
        let report = if percent != last && percent % 10 == 0 {
            Some(UiEventView::Progress(percent as nat, "正在启动本地服务..."@))
        } else {
            None
        };
        (false, over_time, report)
    }
}

impl ReadyWait {
    /// A wait that has reported 15 percent.
    pub fn new() -> (w: ReadyWait)
        ensures
            w.last_percent == 15,
    {
        ReadyWait { last_percent: 15 }
    }

    /// One look at the service: whether it answers, the percentage its start
    /// has reached, and whether the time for it is over.
    pub fn tick(&mut self, running: bool, percent: u8, over_time: bool) -> (r: WaitTick)
        ensures
            wait_tick_view(r) == wait_tick_spec(old(self).last_percent, running, percent, over_time),
            final(self).last_percent == (if !running && percent != old(self).last_percent
                && percent % 10 == 0 {
                percent
            } else {
                old(self).last_percent
            }),
    {
        if running {
            return WaitTick::Ready(
                UiEvent::Progress { percent: 92, message: String::from_str("服务已就绪，正在进入...") },
            );
        }
        let report = if percent != self.last_percent && percent % 10 == 0 {
            self.last_percent = percent;
            Some(UiEvent::Progress { percent, message: String::from_str("正在启动本地服务...") })
        } else {
            None
        };
        if over_time {
            WaitTick::GiveUp(report)
        } else {
            WaitTick::Continue(report)
        }
    }
}

} // verus!
