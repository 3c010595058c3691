//! The two flows that drive child processes: the recording inside the
//! multiplexer session, and the web terminal server around it.

use vstd::prelude::*;
use crate::action::Action;
use crate::action::ActionView;
use crate::action::ChildEndView;
use crate::action::Event;
use crate::action::EventView;
use crate::action::Outcome;
use crate::action::OutcomeView;
use crate::action::spec_check_view;
use crate::action::spec_outcome_view;
use crate::command::recorder_args;
use crate::command::recording_line;
use crate::command::server_url;
use crate::command::serving_line;
use crate::command::spec_recorder_args;
use crate::command::spec_recording_line;
use crate::command::spec_server_url;
use crate::command::spec_serving_line;
use crate::command::spec_tmux_args;
use crate::command::spec_ttyd_args;
use crate::command::spec_waiting_line;
use crate::command::tmux_args;
use crate::command::TmuxCommand;
use crate::command::ttyd_args;
use crate::command::waiting_line;
use crate::exit::child_exit_code;
use crate::exit::EXIT_FAILURE;
use crate::exit::EXIT_SESSION;
use crate::exit::EXIT_SPAWN;
use crate::exit::EXIT_WAIT;
use crate::exit::spec_child_exit_code;
use crate::net::Poll;
use crate::net::PollStep;
use crate::net::spec_wait_for_tcp;
use crate::net::wait_for_tcp;
use crate::session::SessionDescriptor;
use crate::session::SessionView;
use crate::text::error_line;
use crate::text::spec_error_line;

verus! {

/// The text that `{:?}` formatting gives for a list of strings: the list in
/// square brackets, each string quoted and escaped.
pub uninterp spec fn spec_debug_list(args: Seq<Seq<char>>) -> Seq<char>;

/// Formats an argument list with std's `{:?}`. The contract claims only
/// that the text is a function of the strings in the list; it does not say
/// how they are quoted or escaped.
#[verifier::external_body]
fn debug_list(args: &Vec<String>) -> (r: String)
    ensures
        r@ == spec_debug_list(args.deep_view()),
{
    format!("{:?}", args)
}

/// Whether a child ran to its end and succeeded.
pub open spec fn spec_succeeded(outcome: OutcomeView) -> bool {
    outcome matches Ok(end) && end.success()
}

/// Tells whether a child ran to its end and exited with code zero.
pub fn succeeded(outcome: &Outcome) -> (r: bool)
    ensures
        r == spec_succeeded(spec_outcome_view(*outcome)),
{
    match outcome {
        Ok(end) => match end.code {
            Some(c) => c == 0,
            None => false,
        },
        Err(_) => false,
    }
}

/// The words for a run of the multiplexer that did not succeed: the
/// arguments as `rendered`, and the exit status.
pub open spec fn spec_tmux_failure(rendered: Seq<char>, status: Seq<char>) -> Seq<char> {
    "tmux "@ + rendered + " failed: "@ + status
}

/// Puts a run of the multiplexer that did not succeed in words. `rendered`
/// is the argument list as text, `status` the exit status as text.
pub fn tmux_failure(rendered: &str, status: &str) -> (r: String)
    ensures
        r@ == spec_tmux_failure(rendered@, status@),
{
    let mut r = String::from_str("tmux ");
    r.append(rendered);
    r.append(" failed: ");
    r.append(status);
    r
}

/// What a run of the multiplexer with `args` amounts to: success, or the
/// failure in words.
pub open spec fn spec_run_tmux(args: Seq<Seq<char>>, outcome: OutcomeView) -> Result<
    (),
    Seq<char>,
> {
    match outcome {
        Err(reason) => Err(reason),
        Ok(end) => if end.success() {
            Ok(())
        } else {
            Err(spec_tmux_failure(spec_debug_list(args), end.text))
        },
    }
}

/// Judges a run of the multiplexer. The caller has run it with `args` and
/// waited for it. Where it could not be run, the reason is the error.
/// Where it ran and did not exit with code zero, the error names the
/// arguments and the exit status.
pub fn run_tmux(args: &Vec<String>, outcome: &Outcome) -> (r: Result<(), String>)
    ensures
        spec_check_view(r) == spec_run_tmux(args.deep_view(), spec_outcome_view(*outcome)),
{
    match outcome {
        Err(reason) => Err(reason.clone()),
        Ok(end) => {
            if succeeded(outcome) {
                Ok(())
            } else {
                let list = debug_list(args);
                Err(tmux_failure(list.as_str(), end.text.as_str()))
            }
        },
    }
}

/// Where the flow that records inside the multiplexer session stands.
#[derive(Clone, Copy, Debug, PartialEq, Eq, Structural)]
pub enum HookPhase {
    /// Making sure that the directory of the cast file exists.
    PreparingOutput,
    /// Asking the multiplexer whether the session exists.
    ProbingSession,
    /// Creating the session, which does not exist yet.
    CreatingSession,
    /// Switching the status line of the new session off.
    HidingStatus,
    /// Letting the window size be set by hand.
    SizingByHand,
    /// Switching the status line off, whoever made the session.
    RemovingStatus,
    /// Giving the window the requested size.
    Resizing,
    /// Telling where the recording goes.
    Announcing,
    /// Running the recorder.
    Recording,
    /// Reporting that the session could not be created.
    ReportingNoSession,
    /// Reporting that the recorder could not be run.
    ReportingNoRecorder,
    /// Destroying the session, as the teardown policy asks.
    KillingSession,
    /// Stopping the multiplexer server behind the session.
    KillingServer,
    /// Done: nothing is left but to exit.
    Finished,
}

/// The flow that records inside the multiplexer session: the session, the
/// phase, and what the flow will exit with.
#[derive(Debug, PartialEq, Eq)]
pub struct HookFlow {
    /// The session that is recorded.
    pub desc: SessionDescriptor,
    /// Where the flow stands.
    pub phase: HookPhase,
    /// The exit code, once the recorder has run or the flow has failed.
    pub code: i32,
    /// The failure to report, in a reporting phase.
    pub note: String,
}

/// `HookFlow` as specifications see it.
pub struct HookFlowView {
    pub desc: SessionView,
    pub phase: HookPhase,
    pub code: i32,
    pub note: Seq<char>,
}

impl View for HookFlow {
    type V = HookFlowView;

    open spec fn view(&self) -> HookFlowView {
        HookFlowView { desc: self.desc@, phase: self.phase, code: self.code, note: self.note@ }
    }
}

impl HookFlowView {
    /// The same flow in another phase.
    pub open spec fn at(self, phase: HookPhase) -> HookFlowView {
        HookFlowView { phase, ..self }
    }

    /// The flow once the recorder is done and `code` stands for it: the
    /// teardown where the policy asks for it, the end otherwise.
    pub open spec fn wrap_up(self, code: i32) -> HookFlowView {
        HookFlowView {
            phase: if self.desc.kill_on_detach {
                HookPhase::KillingSession
            } else {
                HookPhase::Finished
            },
            code,
            ..self
        }
    }

    /// The flow at its start.
    pub open spec fn spec_begin(desc: SessionView) -> HookFlowView {
        HookFlowView {
            desc,
            phase: HookPhase::PreparingOutput,
            code: EXIT_FAILURE,
            note: Seq::<char>::empty(),
        }
    }

    /// The multiplexer command of a phase that runs one.
    pub open spec fn tmux(self, command: TmuxCommand) -> ActionView {
        ActionView::Tmux {
            command,
            args: spec_tmux_args(command, self.desc),
            quiet: command == TmuxCommand::HasSession,
        }
    }

    /// What the flow asks for in its phase.
    pub open spec fn spec_action(self) -> ActionView {
        match self.phase {
            HookPhase::PreparingOutput => ActionView::CreateParentDirs { file: self.desc.out },
            HookPhase::ProbingSession => self.tmux(TmuxCommand::HasSession),
            HookPhase::CreatingSession => self.tmux(TmuxCommand::NewSession),
            HookPhase::HidingStatus => self.tmux(TmuxCommand::StatusOff),
            HookPhase::SizingByHand => self.tmux(TmuxCommand::ManualSize),
            HookPhase::RemovingStatus => self.tmux(TmuxCommand::StatusOff),
            HookPhase::Resizing => self.tmux(TmuxCommand::Resize),
            HookPhase::Announcing => ActionView::Announce { line: spec_recording_line(self.desc) },
            HookPhase::Recording => ActionView::Record { args: spec_recorder_args(self.desc) },
            HookPhase::ReportingNoSession => ActionView::Announce {
                line: spec_error_line(self.note),
            },
            HookPhase::ReportingNoRecorder => ActionView::Announce {
                line: spec_error_line(self.note),
            },
            HookPhase::KillingSession => self.tmux(TmuxCommand::KillSession),
            HookPhase::KillingServer => self.tmux(TmuxCommand::KillServer),
            HookPhase::Finished => ActionView::Exit { code: self.code },
        }
    }
}

/// The flow after `event` has answered the action of its phase. An event
/// that does not answer that action leaves the flow as it is.
pub open spec fn spec_record_flow(f: HookFlowView, event: EventView) -> HookFlowView {
    match f.phase {
        HookPhase::PreparingOutput => match event {
            EventView::Done => f.at(HookPhase::ProbingSession),
            _ => f,
        },
        HookPhase::ProbingSession => match event {
            EventView::Exited(o) => if spec_succeeded(o) {
                f.at(HookPhase::SizingByHand)
            } else {
                f.at(HookPhase::CreatingSession)
            },
            _ => f,
        },
        HookPhase::CreatingSession => match event {
            EventView::Exited(o) => match spec_run_tmux(
                spec_tmux_args(TmuxCommand::NewSession, f.desc),
                o,
            ) {
                Ok(_) => f.at(HookPhase::HidingStatus),
                Err(e) => HookFlowView {
                    phase: HookPhase::ReportingNoSession,
                    code: EXIT_SESSION,
                    note: "Failed to create tmux session: "@ + e,
                    ..f
                },
            },
            _ => f,
        },
        HookPhase::HidingStatus => match event {
            EventView::Exited(_) => f.at(HookPhase::SizingByHand),
            _ => f,
        },
        HookPhase::SizingByHand => match event {
            EventView::Exited(_) => f.at(HookPhase::RemovingStatus),
            _ => f,
        },
        HookPhase::RemovingStatus => match event {
            EventView::Exited(_) => f.at(HookPhase::Resizing),
            _ => f,
        },
        HookPhase::Resizing => match event {
            EventView::Exited(_) => f.at(HookPhase::Announcing),
            _ => f,
        },
        HookPhase::Announcing => match event {
            EventView::Done => f.at(HookPhase::Recording),
            _ => f,
        },
        HookPhase::Recording => match event {
            EventView::Exited(Ok(end)) => f.wrap_up(spec_child_exit_code(end.code)),
            EventView::Exited(Err(e)) => HookFlowView {
                phase: HookPhase::ReportingNoRecorder,
                code: EXIT_FAILURE,
                note: "Failed to run asciinema: "@ + e,
                ..f
            },
            _ => f,
        },
        HookPhase::ReportingNoSession => match event {
            EventView::Done => f.at(HookPhase::Finished),
            _ => f,
        },
        HookPhase::ReportingNoRecorder => match event {
            EventView::Done => f.wrap_up(f.code),
            _ => f,
        },
        HookPhase::KillingSession => match event {
            EventView::Exited(_) => f.at(HookPhase::KillingServer),
            _ => f,
        },
        HookPhase::KillingServer => match event {
            EventView::Exited(_) => f.at(HookPhase::Finished),
            _ => f,
        },
        HookPhase::Finished => f,
    }
}

impl HookFlow {
    /// Begins the flow for a session: nothing has been done yet.
    pub fn begin(desc: SessionDescriptor) -> (r: HookFlow)
        ensures
            r@ == HookFlowView::spec_begin(desc@),
    {
        HookFlow { desc, phase: HookPhase::PreparingOutput, code: EXIT_FAILURE, note: String::new() }
    }

    /// The multiplexer command of a phase that runs one.
    fn tmux(&self, command: TmuxCommand) -> (r: Action)
        ensures
            r@ == self@.tmux(command),
    {
        let quiet = match command {
            TmuxCommand::HasSession => true,
            _ => false,
        };
        Action::Tmux { command, args: tmux_args(command, &self.desc), quiet }
    }

    /// What the flow asks its caller to do next.
    pub fn action(&self) -> (r: Action)
        ensures
            r@ == self@.spec_action(),
    {
        match self.phase {
            HookPhase::PreparingOutput => Action::CreateParentDirs { file: self.desc.out.clone() },
            HookPhase::ProbingSession => self.tmux(TmuxCommand::HasSession),
            HookPhase::CreatingSession => self.tmux(TmuxCommand::NewSession),
            HookPhase::HidingStatus => self.tmux(TmuxCommand::StatusOff),
            HookPhase::SizingByHand => self.tmux(TmuxCommand::ManualSize),
            HookPhase::RemovingStatus => self.tmux(TmuxCommand::StatusOff),
            HookPhase::Resizing => self.tmux(TmuxCommand::Resize),
            HookPhase::Announcing => Action::Announce { line: recording_line(&self.desc) },
            HookPhase::Recording => Action::Record { args: recorder_args(&self.desc) },
            HookPhase::ReportingNoSession => Action::Announce {
                line: error_line(self.note.as_str()),
            },
            HookPhase::ReportingNoRecorder => Action::Announce {
                line: error_line(self.note.as_str()),
            },
            HookPhase::KillingSession => self.tmux(TmuxCommand::KillSession),
            HookPhase::KillingServer => self.tmux(TmuxCommand::KillServer),
            HookPhase::Finished => Action::Exit { code: self.code },
        }
    }

    /// The same flow in another phase.
    fn at(self, phase: HookPhase) -> (r: HookFlow)
        ensures
            r@ == self@.at(phase),
    {
        HookFlow { desc: self.desc, phase, code: self.code, note: self.note }
    }

    /// The flow once the recorder is done and `code` stands for it.
    fn wrap_up(self, code: i32) -> (r: HookFlow)
        ensures
            r@ == self@.wrap_up(code),
    {
        let phase = if self.desc.kill_on_detach {
            HookPhase::KillingSession
        } else {
            HookPhase::Finished
        };
        HookFlow { desc: self.desc, phase, code, note: self.note }
    }

    /// The flow in a reporting phase, with the failure and its exit code.
    fn fail(self, phase: HookPhase, code: i32, what: &str, reason: &str) -> (r: HookFlow)
        ensures
            r@ == (HookFlowView { phase, code, note: what@ + reason@, ..self@ }),
    {
        let mut note = String::from_str(what);
        note.append(reason);
        HookFlow { desc: self.desc, phase, code, note }
    }
}

/// One decision of the recording flow: the flow after `event` has answered
/// the action of its phase.
///
/// The flow probes for the session and creates it only where the probe
/// fails. Then, whoever made the session, it sets the window size to
/// manual, switches the status line off and resizes the window; what comes
/// of these three is not looked at. It tells where the recording goes and
/// runs the recorder. The recorder's exit code is the flow's, the generic
/// failure where there is none. With the teardown policy set, the session
/// and its server are destroyed afterwards, again without a look at what
/// comes of it. A session that cannot be created is reported and ends the
/// flow with a code of its own.
pub fn record_flow(flow: HookFlow, event: Event) -> (r: HookFlow)
    ensures
        r@ == spec_record_flow(flow@, event@),
{
    match flow.phase {
        HookPhase::PreparingOutput => match event {
            Event::Done => flow.at(HookPhase::ProbingSession),
            _ => flow,
        },
        HookPhase::ProbingSession => match event {
            Event::Exited(o) => if succeeded(&o) {
                flow.at(HookPhase::SizingByHand)
            } else {
                flow.at(HookPhase::CreatingSession)
            },
            _ => flow,
        },
        HookPhase::CreatingSession => match event {
            Event::Exited(o) => {
                let args = tmux_args(TmuxCommand::NewSession, &flow.desc);
                match run_tmux(&args, &o) {
                    Ok(_) => flow.at(HookPhase::HidingStatus),
                    Err(e) => flow.fail(
                        HookPhase::ReportingNoSession,
                        EXIT_SESSION,
                        "Failed to create tmux session: ",
                        e.as_str(),
                    ),
                }
            },
            _ => flow,
        },
        HookPhase::HidingStatus => match event {
            Event::Exited(_) => flow.at(HookPhase::SizingByHand),
            _ => flow,
        },
        HookPhase::SizingByHand => match event {
            Event::Exited(_) => flow.at(HookPhase::RemovingStatus),
            _ => flow,
        },
        HookPhase::RemovingStatus => match event {
            Event::Exited(_) => flow.at(HookPhase::Resizing),
            _ => flow,
        },
        HookPhase::Resizing => match event {
            Event::Exited(_) => flow.at(HookPhase::Announcing),
            _ => flow,
        },
        HookPhase::Announcing => match event {
            Event::Done => flow.at(HookPhase::Recording),
            _ => flow,
        },
        HookPhase::Recording => match event {
            Event::Exited(Ok(end)) => flow.wrap_up(child_exit_code(end.code)),
            Event::Exited(Err(e)) => flow.fail(
                HookPhase::ReportingNoRecorder,
                EXIT_FAILURE,
                "Failed to run asciinema: ",
                e.as_str(),
            ),
            _ => flow,
        },
        HookPhase::ReportingNoSession => match event {
            Event::Done => flow.at(HookPhase::Finished),
            _ => flow,
        },
        HookPhase::ReportingNoRecorder => match event {
            Event::Done => {
                let code = flow.code;
                flow.wrap_up(code)
            },
            _ => flow,
        },
        HookPhase::KillingSession => match event {
            Event::Exited(_) => flow.at(HookPhase::KillingServer),
            _ => flow,
        },
        HookPhase::KillingServer => match event {
            Event::Exited(_) => flow.at(HookPhase::Finished),
            _ => flow,
        },
        HookPhase::Finished => flow,
    }
}

/// How many times the server's port is tried before the run goes on
/// without an answer.
pub const READY_ATTEMPTS: usize = 100;

/// The pause after a failed try of the server's port, in milliseconds.
pub const READY_INTERVAL_MS: u64 = 50;

/// Where a run of the web terminal server stands.
#[derive(Clone, Copy, Debug, PartialEq, Eq, Structural)]
pub enum ServerPhase {
    /// Starting the server.
    Spawning,
    /// Arranging for an interrupt to reach the server.
    Guarding,
    /// Telling which address is awaited.
    AnnouncingWait,
    /// Trying to connect to the server's port.
    Connecting,
    /// Pausing after a try that failed.
    Resting,
    /// Looking for a program that opens a browser.
    LocatingBrowser,
    /// Opening the browser on the server's address.
    OpeningBrowser,
    /// Telling where the server answers.
    AnnouncingService,
    /// Waiting for the server to exit.
    Waiting,
    /// Reporting that the server could not be started or waited on.
    Reporting,
    /// Done: nothing is left but to exit.
    Finished,
}

/// A run of the web terminal server: what it serves, where it stands, and
/// what it will exit with.
#[derive(Debug, PartialEq, Eq)]
pub struct ServerRun {
    /// The port that the server listens on.
    pub port: u16,
    /// The font size of the server's page.
    pub font_size: u32,
    /// The fixed title of the server's page.
    pub title: String,
    /// The environment of the served command, as assignments.
    pub envs: Vec<String>,
    /// The command that the server runs for each client.
    pub command: Vec<String>,
    /// Where the run stands.
    pub phase: ServerPhase,
    /// The server's process identifier, once it has been started.
    pub pid: u32,
    /// The readiness poll, while the run is connecting or resting.
    pub poll: Poll,
    /// The exit code, once the server has exited or the run has failed.
    pub code: i32,
    /// The failure to report, in the reporting phase.
    pub note: String,
}

/// `ServerRun` as specifications see it.
pub struct ServerRunView {
    pub port: u16,
    pub font_size: u32,
    pub title: Seq<char>,
    pub envs: Seq<Seq<char>>,
    pub command: Seq<Seq<char>>,
    pub phase: ServerPhase,
    pub pid: u32,
    pub poll: Poll,
    pub code: i32,
    pub note: Seq<char>,
}

impl View for ServerRun {
    type V = ServerRunView;

    open spec fn view(&self) -> ServerRunView {
        ServerRunView {
            port: self.port,
            font_size: self.font_size,
            title: self.title@,
            envs: self.envs.deep_view(),
            command: self.command.deep_view(),
            phase: self.phase,
            pid: self.pid,
            poll: self.poll,
            code: self.code,
            note: self.note@,
        }
    }
}

impl ServerRunView {
    /// The same run in another phase.
    pub open spec fn at(self, phase: ServerPhase) -> ServerRunView {
        ServerRunView { phase, ..self }
    }

    /// The run as a step of its readiness poll leaves it: connecting,
    /// resting, or past the poll, however that ended.
    pub open spec fn polling(self, step: PollStep) -> ServerRunView {
        match step {
            PollStep::Connect(poll) => ServerRunView {
                phase: ServerPhase::Connecting,
                poll,
                ..self
            },
            PollStep::Sleep(poll) => ServerRunView { phase: ServerPhase::Resting, poll, ..self },
            PollStep::Ready => self.at(ServerPhase::LocatingBrowser),
            PollStep::GaveUp => self.at(ServerPhase::LocatingBrowser),
        }
    }

    /// The run at its start.
    pub open spec fn spec_begin(
        port: u16,
        font_size: u32,
        title: Seq<char>,
        envs: Seq<Seq<char>>,
        command: Seq<Seq<char>>,
    ) -> ServerRunView {
        ServerRunView {
            port,
            font_size,
            title,
            envs,
            command,
            phase: ServerPhase::Spawning,
            pid: 0,
            poll: Poll { port, attempts: READY_ATTEMPTS, interval_ms: READY_INTERVAL_MS, made: 0 },
            code: EXIT_FAILURE,
            note: Seq::<char>::empty(),
        }
    }

    /// What the run asks for in its phase.
    pub open spec fn spec_action(self) -> ActionView {
        match self.phase {
            ServerPhase::Spawning => ActionView::SpawnServer {
                args: spec_ttyd_args(
                    self.port,
                    self.font_size,
                    self.title,
                    self.envs,
                    self.command,
                ),
            },
            ServerPhase::Guarding => ActionView::ForwardInterrupt { pid: self.pid },
            ServerPhase::AnnouncingWait => ActionView::Announce {
                line: spec_waiting_line(self.port),
            },
            ServerPhase::Connecting => ActionView::Connect { port: self.poll.port },
            ServerPhase::Resting => ActionView::Sleep { millis: self.poll.interval_ms },
            ServerPhase::LocatingBrowser => ActionView::LocateBrowser,
            ServerPhase::OpeningBrowser => ActionView::OpenBrowser {
                url: spec_server_url(self.port),
            },
            ServerPhase::AnnouncingService => ActionView::Announce {
                line: spec_serving_line(self.port, self.pid),
            },
            ServerPhase::Waiting => ActionView::WaitServer,
            ServerPhase::Reporting => ActionView::Announce { line: spec_error_line(self.note) },
            ServerPhase::Finished => ActionView::Exit { code: self.code },
        }
    }
}

/// The run after `event` has answered the action of its phase. An event
/// that does not answer that action leaves the run as it is.
pub open spec fn spec_spawn_ttyd_and_wait(r: ServerRunView, event: EventView) -> ServerRunView {
    match r.phase {
        ServerPhase::Spawning => match event {
            EventView::Spawned(Ok(pid)) => ServerRunView {
                phase: ServerPhase::Guarding,
                pid,
                ..r
            },
            EventView::Spawned(Err(e)) => ServerRunView {
                phase: ServerPhase::Reporting,
                code: EXIT_SPAWN,
                note: "Failed to spawn ttyd: "@ + e,
                ..r
            },
            _ => r,
        },
        ServerPhase::Guarding => match event {
            EventView::Done => r.at(ServerPhase::AnnouncingWait),
            _ => r,
        },
        ServerPhase::AnnouncingWait => match event {
            EventView::Done => r.polling(
                Poll::spec_begin(r.port, READY_ATTEMPTS, READY_INTERVAL_MS),
            ),
            _ => r,
        },
        ServerPhase::Connecting => match event {
            EventView::Answer(connected) => r.polling(spec_wait_for_tcp(r.poll, connected)),
            _ => r,
        },
        ServerPhase::Resting => match event {
            EventView::Done => r.polling(r.poll.spec_resume()),
            _ => r,
        },
        ServerPhase::LocatingBrowser => match event {
            EventView::Answer(found) => if found {
                r.at(ServerPhase::OpeningBrowser)
            } else {
                r.at(ServerPhase::AnnouncingService)
            },
            _ => r,
        },
        ServerPhase::OpeningBrowser => match event {
            EventView::Done => r.at(ServerPhase::AnnouncingService),
            _ => r,
        },
        ServerPhase::AnnouncingService => match event {
            EventView::Done => r.at(ServerPhase::Waiting),
            _ => r,
        },
        ServerPhase::Waiting => match event {
            EventView::Exited(Ok(end)) => ServerRunView {
                phase: ServerPhase::Finished,
                code: spec_child_exit_code(end.code),
                ..r
            },
            EventView::Exited(Err(e)) => ServerRunView {
                phase: ServerPhase::Reporting,
                code: EXIT_WAIT,
                note: "Failed waiting for ttyd: "@ + e,
                ..r
            },
            _ => r,
        },
        ServerPhase::Reporting => match event {
            EventView::Done => r.at(ServerPhase::Finished),
            _ => r,
        },
        ServerPhase::Finished => r,
    }
}

impl ServerRun {
    /// Begins a run of the server on `port`: nothing has been started yet.
    pub fn begin(
        port: u16,
        font_size: u32,
        title: String,
        envs: Vec<String>,
        command: Vec<String>,
    ) -> (r: ServerRun)
        ensures
            r@ == ServerRunView::spec_begin(
                port,
                font_size,
                title@,
                envs.deep_view(),
                command.deep_view(),
            ),
    {
        ServerRun {
            port,
            font_size,
            title,
            envs,
            command,
            phase: ServerPhase::Spawning,
            pid: 0,
            poll: Poll { port, attempts: READY_ATTEMPTS, interval_ms: READY_INTERVAL_MS, made: 0 },
            code: EXIT_FAILURE,
            note: String::new(),
        }
    }

    /// What the run asks its caller to do next.
    pub fn action(&self) -> (r: Action)
        ensures
            r@ == self@.spec_action(),
    {
        match self.phase {
            ServerPhase::Spawning => Action::SpawnServer {
                args: ttyd_args(
                    self.port,
                    self.font_size,
                    self.title.as_str(),
                    &self.envs,
                    &self.command,
                ),
            },
            ServerPhase::Guarding => Action::ForwardInterrupt { pid: self.pid },
            ServerPhase::AnnouncingWait => Action::Announce { line: waiting_line(self.port) },
            ServerPhase::Connecting => Action::Connect { port: self.poll.port },
            ServerPhase::Resting => Action::Sleep { millis: self.poll.interval_ms },
            ServerPhase::LocatingBrowser => Action::LocateBrowser,
            ServerPhase::OpeningBrowser => Action::OpenBrowser { url: server_url(self.port) },
            ServerPhase::AnnouncingService => Action::Announce {
                line: serving_line(self.port, self.pid),
            },
            ServerPhase::Waiting => Action::WaitServer,
            ServerPhase::Reporting => Action::Announce { line: error_line(self.note.as_str()) },
            ServerPhase::Finished => Action::Exit { code: self.code },
        }
    }

    /// The same run in another phase.
    fn at(self, phase: ServerPhase) -> (r: ServerRun)
        ensures
            r@ == self@.at(phase),
    {
        ServerRun {
            port: self.port,
            font_size: self.font_size,
            title: self.title,
            envs: self.envs,
            command: self.command,
            phase,
            pid: self.pid,
            poll: self.poll,
            code: self.code,
            note: self.note,
        }
    }

    /// The run as a step of its readiness poll leaves it.
    fn polling(self, step: PollStep) -> (r: ServerRun)
        ensures
            r@ == self@.polling(step),
    {
        match step {
            PollStep::Connect(poll) => {
                let mut r = self.at(ServerPhase::Connecting);
                r.poll = poll;
                r
            },
            PollStep::Sleep(poll) => {
                let mut r = self.at(ServerPhase::Resting);
                r.poll = poll;
                r
            },
            PollStep::Ready => self.at(ServerPhase::LocatingBrowser),
            PollStep::GaveUp => self.at(ServerPhase::LocatingBrowser),
        }
    }

    /// The run at its end, with the exit code.
    fn finish(self, code: i32) -> (r: ServerRun)
        ensures
            r@ == (ServerRunView { phase: ServerPhase::Finished, code, ..self@ }),
    {
        let mut r = self.at(ServerPhase::Finished);
        r.code = code;
        r
    }

    /// The run in the reporting phase, with the failure and its exit code.
    fn fail(self, code: i32, what: &str, reason: &str) -> (r: ServerRun)
        ensures
            r@ == (ServerRunView {
                phase: ServerPhase::Reporting,
                code,
                note: what@ + reason@,
                ..self@
            }),
    {
        let mut note = String::from_str(what);
        note.append(reason);
        let mut r = self.at(ServerPhase::Reporting);
        r.code = code;
        r.note = note;
        r
    }
}

/// One decision of a run of the web terminal server: the run after `event`
/// has answered the action of its phase.
///
/// The server is started; a server that cannot be started is reported and
/// ends the run with a code of its own. An interrupt is arranged to reach
/// the server, the awaited address is told, and the port is polled until it
/// answers or the budget is spent, which is no failure. The browser is
/// opened where a program for that is found. Then the run waits for the
/// server: the server's exit code is the run's, the generic failure where
/// there is none, and a server that cannot be waited on is reported and
/// ends the run with a code of its own.
pub fn spawn_ttyd_and_wait(run: ServerRun, event: Event) -> (r: ServerRun)
    ensures
        r@ == spec_spawn_ttyd_and_wait(run@, event@),
{
    match run.phase {
        ServerPhase::Spawning => match event {
            Event::Spawned(Ok(pid)) => {
                let mut r = run.at(ServerPhase::Guarding);
                r.pid = pid;
                r
            },
            Event::Spawned(Err(e)) => run.fail(EXIT_SPAWN, "Failed to spawn ttyd: ", e.as_str()),
            _ => run,
        },
        ServerPhase::Guarding => match event {
            Event::Done => run.at(ServerPhase::AnnouncingWait),
            _ => run,
        },
        ServerPhase::AnnouncingWait => match event {
            Event::Done => {
                let step = Poll::begin(run.port, READY_ATTEMPTS, READY_INTERVAL_MS);
                run.polling(step)
            },
            _ => run,
        },
        ServerPhase::Connecting => match event {
            Event::Answer(connected) => {
                let step = wait_for_tcp(run.poll, connected);
                run.polling(step)
            },
            _ => run,
        },
        ServerPhase::Resting => match event {
            Event::Done => {
                let step = run.poll.resume();
                run.polling(step)
            },
            _ => run,
        },
        ServerPhase::LocatingBrowser => match event {
            Event::Answer(found) => if found {
                run.at(ServerPhase::OpeningBrowser)
            } else {
                run.at(ServerPhase::AnnouncingService)
            },
            _ => run,
        },
        ServerPhase::OpeningBrowser => match event {
            Event::Done => run.at(ServerPhase::AnnouncingService),
            _ => run,
        },
        ServerPhase::AnnouncingService => match event {
            Event::Done => run.at(ServerPhase::Waiting),
            _ => run,
        },
        ServerPhase::Waiting => match event {
            Event::Exited(Ok(end)) => run.finish(child_exit_code(end.code)),
            Event::Exited(Err(e)) => run.fail(EXIT_WAIT, "Failed waiting for ttyd: ", e.as_str()),
            _ => run,
        },
        ServerPhase::Reporting => match event {
            Event::Done => run.at(ServerPhase::Finished),
            _ => run,
        },
        ServerPhase::Finished => run,
    }
}

/// A server that exits with a code of its own hands that code to the run:
/// the run ends at once, and what it exits with is the server's code and
/// no other.
pub proof fn server_code_is_passed_on(run: ServerRunView, code: i32, text: Seq<char>)
    requires
        run.phase == ServerPhase::Waiting,
    ensures
        spec_spawn_ttyd_and_wait(
            run,
            EventView::Exited(Ok(ChildEndView { code: Some(code), text })),
        ).spec_action() == (ActionView::Exit { code }),
{
}

} // verus!
