//! The two orchestrations: recording a session behind the web terminal
//! server, and the hook that the server runs for its client.

use vstd::prelude::*;
use crate::action::Action;
use crate::action::ActionView;
use crate::action::ChildEndView;
use crate::action::DirState;
use crate::action::Event;
use crate::action::EventView;
use crate::action::WriteStateView;
use crate::command::hook_command;
use crate::command::hook_env;
use crate::command::spec_hook_command;
use crate::command::spec_hook_env;
use crate::command::spec_ttyd_args;
use crate::exit::EXIT_FAILURE;
use crate::exit::EXIT_NO_PORT;
use crate::fsx::ensure_writable_dir;
use crate::fsx::spec_ensure_writable_dir;
use crate::fsx::spec_validate_workdir;
use crate::fsx::validate_workdir;
use crate::net::find_free_port;
use crate::net::PortScan;
use crate::net::ScanStep;
use crate::net::spec_find_free_port;
use crate::proc::HookFlow;
use crate::proc::HookFlowView;
use crate::proc::record_flow;
use crate::proc::ServerPhase;
use crate::proc::ServerRun;
use crate::proc::ServerRunView;
use crate::proc::spawn_ttyd_and_wait;
use crate::proc::spec_record_flow;
use crate::proc::spec_spawn_ttyd_and_wait;
use crate::session::SessionDescriptor;
use crate::session::SessionView;
use crate::text::error_line;
use crate::text::spec_decimal;
use crate::text::spec_error_line;

verus! {

/// The message for a port space without a free port.
pub const NO_FREE_PORT: &'static str = "No free TCP port found in range 1..=65535.";

/// The orchestration of a recording, from the first check to the exit.
#[derive(Debug, PartialEq, Eq)]
pub enum RecordRun {
    /// Checking the working directory.
    ValidatingWorkdir { desc: SessionDescriptor, font_size: u32 },
    /// Making the directory of the cast file ready.
    EnsuringOutput { desc: SessionDescriptor, font_size: u32 },
    /// Looking for a free port.
    Scanning { desc: SessionDescriptor, font_size: u32, scan: PortScan },
    /// Finding the running program, which the server is to run in hook
    /// mode; the port has been found.
    LocatingSelf { desc: SessionDescriptor, font_size: u32, port: u16 },
    /// Running the web terminal server.
    Serving { server: ServerRun },
    /// Reporting a failure, to exit with `code` after it.
    Reporting { line: String, code: i32 },
    /// Done: nothing is left but to exit.
    Finished { code: i32 },
}

/// `RecordRun` as specifications see it.
pub enum RecordRunView {
    ValidatingWorkdir { desc: SessionView, font_size: u32 },
    EnsuringOutput { desc: SessionView, font_size: u32 },
    Scanning { desc: SessionView, font_size: u32, scan: PortScan },
    LocatingSelf { desc: SessionView, font_size: u32, port: u16 },
    Serving { server: ServerRunView },
    Reporting { line: Seq<char>, code: i32 },
    Finished { code: i32 },
}

impl View for RecordRun {
    type V = RecordRunView;

    open spec fn view(&self) -> RecordRunView {
        match self {
            RecordRun::ValidatingWorkdir { desc, font_size } => RecordRunView::ValidatingWorkdir {
                desc: desc@,
                font_size: *font_size,
            },
            RecordRun::EnsuringOutput { desc, font_size } => RecordRunView::EnsuringOutput {
                desc: desc@,
                font_size: *font_size,
            },
            RecordRun::Scanning { desc, font_size, scan } => RecordRunView::Scanning {
                desc: desc@,
                font_size: *font_size,
                scan: *scan,
            },
            RecordRun::LocatingSelf { desc, font_size, port } => RecordRunView::LocatingSelf {
                desc: desc@,
                font_size: *font_size,
                port: *port,
            },
            RecordRun::Serving { server } => RecordRunView::Serving { server: server@ },
            RecordRun::Reporting { line, code } => RecordRunView::Reporting {
                line: line@,
                code: *code,
            },
            RecordRun::Finished { code } => RecordRunView::Finished { code: *code },
        }
    }
}

/// The report of a failure that ends an orchestration with `code`.
pub open spec fn spec_record_failure(msg: Seq<char>, code: i32) -> RecordRunView {
    RecordRunView::Reporting { line: spec_error_line(msg), code }
}

impl RecordRunView {
    /// The orchestration at its start.
    pub open spec fn spec_begin(desc: SessionView, font_size: u32) -> RecordRunView {
        RecordRunView::ValidatingWorkdir { desc, font_size }
    }

    /// What the orchestration asks for in its state.
    pub open spec fn spec_action(self) -> ActionView {
        match self {
            RecordRunView::ValidatingWorkdir { desc, font_size } => ActionView::ValidateWorkdir {
                path: desc.workdir,
            },
            RecordRunView::EnsuringOutput { desc, font_size } => ActionView::EnsureWritableDir {
                file: desc.out,
            },
            RecordRunView::Scanning { desc, font_size, scan } => ActionView::ProbePort {
                port: scan.candidate,
            },
            RecordRunView::LocatingSelf { desc, font_size, port } => ActionView::LocateSelf,
            RecordRunView::Serving { server } => server.spec_action(),
            RecordRunView::Reporting { line, code } => ActionView::Announce { line },
            RecordRunView::Finished { code } => ActionView::Exit { code },
        }
    }
}

/// The orchestration after `event` has answered the action of its state.
/// An event that does not answer that action leaves it as it is.
pub open spec fn spec_run_record(r: RecordRunView, event: EventView) -> RecordRunView {
    match r {
        RecordRunView::ValidatingWorkdir { desc, font_size } => match event {
            EventView::Workdir(state) => match spec_validate_workdir(desc.workdir, state) {
                Ok(_) => RecordRunView::EnsuringOutput { desc, font_size },
                Err(msg) => spec_record_failure(msg, EXIT_FAILURE),
            },
            _ => r,
        },
        RecordRunView::EnsuringOutput { desc, font_size } => match event {
            EventView::OutputDir(state) => match spec_ensure_writable_dir(state) {
                Ok(_) => RecordRunView::Scanning {
                    desc,
                    font_size,
                    scan: PortScan::spec_begin(desc.port),
                },
                Err(msg) => spec_record_failure(msg, EXIT_FAILURE),
            },
            _ => r,
        },
        RecordRunView::Scanning { desc, font_size, scan } => match event {
            EventView::Answer(bound) => match spec_find_free_port(scan, bound) {
                ScanStep::Found(port) => RecordRunView::LocatingSelf { desc, font_size, port },
                ScanStep::Probe(next) => RecordRunView::Scanning { desc, font_size, scan: next },
                ScanStep::Exhausted => spec_record_failure(NO_FREE_PORT@, EXIT_NO_PORT),
            },
            _ => r,
        },
        RecordRunView::LocatingSelf { desc, font_size, port } => match event {
            EventView::Path(exe) => RecordRunView::Serving {
                server: ServerRunView::spec_begin(
                    port,
                    font_size,
                    desc.session,
                    spec_hook_env(desc),
                    spec_hook_command(exe, desc),
                ),
            },
            _ => r,
        },
        RecordRunView::Serving { server } => RecordRunView::Serving {
            server: spec_spawn_ttyd_and_wait(server, event),
        },
        RecordRunView::Reporting { line, code } => match event {
            EventView::Done => RecordRunView::Finished { code },
            _ => r,
        },
        RecordRunView::Finished { code } => r,
    }
}

/// The report of a failure that ends an orchestration with `code`.
fn record_failure(msg: &str, code: i32) -> (r: RecordRun)
    ensures
        r@ == spec_record_failure(msg@, code),
{
    RecordRun::Reporting { line: error_line(msg), code }
}

impl RecordRun {
    /// Begins the orchestration of a recording: nothing has been checked
    /// yet, and nothing started.
    pub fn begin(desc: SessionDescriptor, font_size: u32) -> (r: RecordRun)
        ensures
            r@ == RecordRunView::spec_begin(desc@, font_size),
    {
        RecordRun::ValidatingWorkdir { desc, font_size }
    }

    /// What the orchestration asks its caller to do next.
    pub fn action(&self) -> (r: Action)
        ensures
            r@ == self@.spec_action(),
    {
        match self {
            RecordRun::ValidatingWorkdir { desc, font_size } => Action::ValidateWorkdir {
                path: desc.workdir.clone(),
            },
            RecordRun::EnsuringOutput { desc, font_size } => Action::EnsureWritableDir {
                file: desc.out.clone(),
            },
            RecordRun::Scanning { desc, font_size, scan } => Action::ProbePort {
                port: scan.candidate,
            },
            RecordRun::LocatingSelf { desc, font_size, port } => Action::LocateSelf,
            RecordRun::Serving { server } => server.action(),
            RecordRun::Reporting { line, code } => Action::Announce { line: line.clone() },
            RecordRun::Finished { code } => Action::Exit { code: *code },
        }
    }
}

/// One decision of the orchestration of a recording: the orchestration
/// after `event` has answered the action of its state.
///
/// The working directory is checked, then the directory of the cast file;
/// either failing is reported and ends the orchestration. A free port is
/// looked for from the descriptor's port on; a port space without one is
/// reported and ends the orchestration with a code of its own. Once the
/// running program is known, the server is run on the port that was found,
/// with the session handed to the hook both as arguments and in the
/// environment, and what it comes to is what the orchestration comes to.
pub fn run_record(run: RecordRun, event: Event) -> (r: RecordRun)
    ensures
        r@ == spec_run_record(run@, event@),
{
    match run {
        RecordRun::ValidatingWorkdir { desc, font_size } => match event {
            Event::Workdir(state) => match validate_workdir(desc.workdir.as_str(), state) {
                Ok(_) => RecordRun::EnsuringOutput { desc, font_size },
                Err(msg) => record_failure(msg.as_str(), EXIT_FAILURE),
            },
            _ => RecordRun::ValidatingWorkdir { desc, font_size },
        },
        RecordRun::EnsuringOutput { desc, font_size } => match event {
            Event::OutputDir(state) => match ensure_writable_dir(&state) {
                Ok(_) => {
                    let scan = PortScan::begin(desc.port);
                    RecordRun::Scanning { desc, font_size, scan }
                },
                Err(msg) => record_failure(msg.as_str(), EXIT_FAILURE),
            },
            _ => RecordRun::EnsuringOutput { desc, font_size },
        },
        RecordRun::Scanning { desc, font_size, scan } => match event {
            Event::Answer(bound) => match find_free_port(scan, bound) {
                ScanStep::Found(port) => RecordRun::LocatingSelf { desc, font_size, port },
                ScanStep::Probe(next) => RecordRun::Scanning { desc, font_size, scan: next },
                ScanStep::Exhausted => record_failure(NO_FREE_PORT, EXIT_NO_PORT),
            },
            _ => RecordRun::Scanning { desc, font_size, scan },
        },
        RecordRun::LocatingSelf { desc, font_size, port } => match event {
            Event::Path(exe) => {
                let envs = hook_env(&desc);
                let command = hook_command(exe.as_str(), &desc);
                RecordRun::Serving {
                    server: ServerRun::begin(port, font_size, desc.session, envs, command),
                }
            },
            _ => RecordRun::LocatingSelf { desc, font_size, port },
        },
        RecordRun::Serving { server } => RecordRun::Serving {
            server: spawn_ttyd_and_wait(server, event),
        },
        RecordRun::Reporting { line, code } => match event {
            Event::Done => RecordRun::Finished { code },
            _ => RecordRun::Reporting { line, code },
        },
        RecordRun::Finished { code } => RecordRun::Finished { code },
    }
}

/// The orchestration of the hook, from the first check to the exit.
#[derive(Debug, PartialEq, Eq)]
pub enum HookRun {
    /// Checking the working directory.
    ValidatingWorkdir { desc: SessionDescriptor },
    /// Making the directory of the cast file ready.
    EnsuringOutput { desc: SessionDescriptor },
    /// Recording inside the multiplexer session.
    Flowing { flow: HookFlow },
    /// Reporting a failure, to exit with `code` after it.
    Reporting { line: String, code: i32 },
    /// Done: nothing is left but to exit.
    Finished { code: i32 },
}

/// `HookRun` as specifications see it.
pub enum HookRunView {
    ValidatingWorkdir { desc: SessionView },
    EnsuringOutput { desc: SessionView },
    Flowing { flow: HookFlowView },
    Reporting { line: Seq<char>, code: i32 },
    Finished { code: i32 },
}

impl View for HookRun {
    type V = HookRunView;

    open spec fn view(&self) -> HookRunView {
        match self {
            HookRun::ValidatingWorkdir { desc } => HookRunView::ValidatingWorkdir { desc: desc@ },
            HookRun::EnsuringOutput { desc } => HookRunView::EnsuringOutput { desc: desc@ },
            HookRun::Flowing { flow } => HookRunView::Flowing { flow: flow@ },
            HookRun::Reporting { line, code } => HookRunView::Reporting {
                line: line@,
                code: *code,
            },
            HookRun::Finished { code } => HookRunView::Finished { code: *code },
        }
    }
}

/// The report of a failure that ends the hook with `code`.
pub open spec fn spec_hook_failure(msg: Seq<char>, code: i32) -> HookRunView {
    HookRunView::Reporting { line: spec_error_line(msg), code }
}

impl HookRunView {
    /// The hook at its start.
    pub open spec fn spec_begin(desc: SessionView) -> HookRunView {
        HookRunView::ValidatingWorkdir { desc }
    }

    /// What the hook asks for in its state.
    pub open spec fn spec_action(self) -> ActionView {
        match self {
            HookRunView::ValidatingWorkdir { desc } => ActionView::ValidateWorkdir {
                path: desc.workdir,
            },
            HookRunView::EnsuringOutput { desc } => ActionView::EnsureWritableDir {
                file: desc.out,
            },
            HookRunView::Flowing { flow } => flow.spec_action(),
            HookRunView::Reporting { line, code } => ActionView::Announce { line },
            HookRunView::Finished { code } => ActionView::Exit { code },
        }
    }
}

/// The hook after `event` has answered the action of its state. An event
/// that does not answer that action leaves it as it is.
pub open spec fn spec_run_record_hook(r: HookRunView, event: EventView) -> HookRunView {
    match r {
        HookRunView::ValidatingWorkdir { desc } => match event {
            EventView::Workdir(state) => match spec_validate_workdir(desc.workdir, state) {
                Ok(_) => HookRunView::EnsuringOutput { desc },
                Err(msg) => spec_hook_failure(msg, EXIT_FAILURE),
            },
            _ => r,
        },
        HookRunView::EnsuringOutput { desc } => match event {
            EventView::OutputDir(state) => match spec_ensure_writable_dir(state) {
                Ok(_) => HookRunView::Flowing { flow: HookFlowView::spec_begin(desc) },
                Err(msg) => spec_hook_failure(msg, EXIT_FAILURE),
            },
            _ => r,
        },
        HookRunView::Flowing { flow } => HookRunView::Flowing {
            flow: spec_record_flow(flow, event),
        },
        HookRunView::Reporting { line, code } => match event {
            EventView::Done => HookRunView::Finished { code },
            _ => r,
        },
        HookRunView::Finished { code } => r,
    }
}

/// The report of a failure that ends the hook with `code`.
fn hook_failure(msg: &str, code: i32) -> (r: HookRun)
    ensures
        r@ == spec_hook_failure(msg@, code),
{
    HookRun::Reporting { line: error_line(msg), code }
}

impl HookRun {
    /// Begins the hook for a session: nothing has been checked yet, and
    /// nothing run.
    pub fn begin(desc: SessionDescriptor) -> (r: HookRun)
        ensures
            r@ == HookRunView::spec_begin(desc@),
    {
        HookRun::ValidatingWorkdir { desc }
    }

    /// What the hook asks its caller to do next.
    pub fn action(&self) -> (r: Action)
        ensures
            r@ == self@.spec_action(),
    {
        match self {
            HookRun::ValidatingWorkdir { desc } => Action::ValidateWorkdir {
                path: desc.workdir.clone(),
            },
            HookRun::EnsuringOutput { desc } => Action::EnsureWritableDir {
                file: desc.out.clone(),
            },
            HookRun::Flowing { flow } => flow.action(),
            HookRun::Reporting { line, code } => Action::Announce { line: line.clone() },
            HookRun::Finished { code } => Action::Exit { code: *code },
        }
    }
}

/// One decision of the hook: the hook after `event` has answered the
/// action of its state.
///
/// The working directory is checked, then the directory of the cast file;
/// either failing is reported and ends the hook. Then the recording flow
/// runs, and what it comes to is what the hook comes to.
pub fn run_record_hook(run: HookRun, event: Event) -> (r: HookRun)
    ensures
        r@ == spec_run_record_hook(run@, event@),
{
    match run {
        HookRun::ValidatingWorkdir { desc } => match event {
            Event::Workdir(state) => match validate_workdir(desc.workdir.as_str(), state) {
                Ok(_) => HookRun::EnsuringOutput { desc },
                Err(msg) => hook_failure(msg.as_str(), EXIT_FAILURE),
            },
            _ => HookRun::ValidatingWorkdir { desc },
        },
        HookRun::EnsuringOutput { desc } => match event {
            Event::OutputDir(state) => match ensure_writable_dir(&state) {
                Ok(_) => HookRun::Flowing { flow: HookFlow::begin(desc) },
                Err(msg) => hook_failure(msg.as_str(), EXIT_FAILURE),
            },
            _ => HookRun::EnsuringOutput { desc },
        },
        HookRun::Flowing { flow } => HookRun::Flowing { flow: record_flow(flow, event) },
        HookRun::Reporting { line, code } => match event {
            Event::Done => HookRun::Finished { code },
            _ => HookRun::Reporting { line, code },
        },
        HookRun::Finished { code } => HookRun::Finished { code },
    }
}

/// Whether an action starts a child process.
pub open spec fn spec_starts_process(action: ActionView) -> bool {
    action is SpawnServer || action is OpenBrowser || action is Tmux || action is Record
}

/// The orchestration of a recording after each of `events`, in order, has
/// been handed to it.
pub open spec fn spec_record_after(r: RecordRunView, events: Seq<EventView>) -> RecordRunView
    decreases events.len(),
{
    if events.len() == 0 {
        r
    } else {
        spec_run_record(spec_record_after(r, events.drop_last()), events.last())
    }
}

/// The hook after each of `events`, in order, has been handed to it.
pub open spec fn spec_hook_after(r: HookRunView, events: Seq<EventView>) -> HookRunView
    decreases events.len(),
{
    if events.len() == 0 {
        r
    } else {
        spec_run_record_hook(spec_hook_after(r, events.drop_last()), events.last())
    }
}

/// An orchestration that has got past its two checks has been told that
/// the working directory is usable and that the output directory can be
/// written to.
proof fn lemma_record_checks(desc: SessionView, font_size: u32, events: Seq<EventView>)
    ensures
        ({
            let run = spec_record_after(RecordRunView::spec_begin(desc, font_size), events);
            &&& !(run is ValidatingWorkdir) && !(run is Reporting) && !(run is Finished)
                ==> events.contains(EventView::Workdir(DirState::Usable))
            &&& run is Scanning || run is LocatingSelf || run is Serving ==> events.contains(
                EventView::OutputDir(WriteStateView::Writable),
            )
            &&& run is LocatingSelf || run is Serving ==> events.contains(EventView::Answer(true))
        }),
    decreases events.len(),
{
    if events.len() > 0 {
        let before = events.drop_last();
        lemma_record_checks(desc, font_size, before);
        assert(events[events.len() - 1] == events.last());
        assert forall|e: EventView| before.contains(e) implies events.contains(e) by {
            let i = choose|i: int| 0 <= i < before.len() && before[i] == e;
            assert(events[i] == e);
        }
    }
}

/// No child process is started before the checks have passed: whatever
/// events an orchestration is handed, it asks for a process to be started
/// only if it has been told that the working directory is usable, that the
/// output directory can be written to, and that a port could be bound.
pub proof fn record_starts_nothing_before_checks(
    desc: SessionView,
    font_size: u32,
    events: Seq<EventView>,
)
    requires
        spec_starts_process(
            spec_record_after(RecordRunView::spec_begin(desc, font_size), events).spec_action(),
        ),
    ensures
        events.contains(EventView::Workdir(DirState::Usable)),
        events.contains(EventView::OutputDir(WriteStateView::Writable)),
        events.contains(EventView::Answer(true)),
{
    lemma_record_checks(desc, font_size, events);
}

/// An orchestration that has failed stays failed, with its code.
proof fn lemma_record_failed_stays(r: RecordRunView, code: i32, events: Seq<EventView>)
    requires
        (r matches RecordRunView::Reporting { line, code: c } && c == code)
            || r == (RecordRunView::Finished { code }),
    ensures
        ({
            let run = spec_record_after(r, events);
            (run matches RecordRunView::Reporting { line, code: c } && c == code)
                || run == (RecordRunView::Finished { code })
        }),
    decreases events.len(),
{
    if events.len() > 0 {
        lemma_record_failed_stays(r, code, events.drop_last());
    }
}

/// Handing over events one after another is handing over the first and
/// then the rest.
proof fn lemma_record_after_first(r: RecordRunView, first: EventView, later: Seq<EventView>)
    ensures
        spec_record_after(r, seq![first] + later) == spec_record_after(
            spec_run_record(r, first),
            later,
        ),
    decreases later.len(),
{
    let all = seq![first] + later;
    if later.len() == 0 {
        assert(all.drop_last() =~= Seq::<EventView>::empty());
        assert(all.last() == first);
        assert(spec_record_after(r, all.drop_last()) == r);
    } else {
        assert(all.drop_last() =~= seq![first] + later.drop_last());
        assert(all.last() == later.last());
        lemma_record_after_first(r, first, later.drop_last());
    }
}

/// A working directory that is missing, or cannot be read, ends the
/// orchestration before anything is started: the first thing asked for is
/// the look at the directory, and after it, whatever else is reported,
/// nothing is asked for but to print the failure and to exit with the
/// generic failure code, which is not zero.
pub proof fn unusable_workdir_aborts_before_spawn(
    desc: SessionView,
    font_size: u32,
    state: DirState,
    later: Seq<EventView>,
)
    requires
        state != DirState::Usable,
    ensures
        RecordRunView::spec_begin(desc, font_size).spec_action() == (ActionView::ValidateWorkdir {
            path: desc.workdir,
        }),
        ({
            let action = spec_record_after(
                RecordRunView::spec_begin(desc, font_size),
                seq![EventView::Workdir(state)] + later,
            ).spec_action();
            &&& !spec_starts_process(action)
            &&& action is Announce || action == (ActionView::Exit { code: EXIT_FAILURE })
        }),
        EXIT_FAILURE != 0,
        spec_run_record(
            spec_run_record(
                RecordRunView::spec_begin(desc, font_size),
                EventView::Workdir(state),
            ),
            EventView::Done,
        ) == (RecordRunView::Finished { code: EXIT_FAILURE }),
{
    let begin = RecordRunView::spec_begin(desc, font_size);
    let failed = spec_run_record(begin, EventView::Workdir(state));
    lemma_record_after_first(begin, EventView::Workdir(state), later);
    lemma_record_failed_stays(failed, EXIT_FAILURE, later);
}

/// The server is started on the port that discovery found, and on no
/// other: once a candidate could be bound and the running program is
/// known, the next thing asked for is the server, with that port behind
/// `-p` and the session handed on as environment and as arguments of the
/// hook.
pub proof fn server_runs_on_found_port(
    desc: SessionView,
    font_size: u32,
    scan: PortScan,
    exe: Seq<char>,
)
    ensures
        ({
            let found = spec_run_record(
                RecordRunView::Scanning { desc, font_size, scan },
                EventView::Answer(true),
            );
            let args = spec_ttyd_args(
                scan.candidate,
                font_size,
                desc.session,
                spec_hook_env(desc),
                spec_hook_command(exe, desc),
            );
            &&& found == (RecordRunView::LocatingSelf { desc, font_size, port: scan.candidate })
            &&& spec_run_record(found, EventView::Path(exe)).spec_action()
                == (ActionView::SpawnServer { args })
            &&& args[0] == "-p"@
            &&& args[1] == spec_decimal(scan.candidate as nat)
        }),
{
}

/// What the server exits with is what the orchestration exits with: a
/// server that ends with a code of its own ends the orchestration with
/// that code.
pub proof fn record_exits_with_server_code(server: ServerRunView, code: i32, text: Seq<char>)
    requires
        server.phase == ServerPhase::Waiting,
    ensures
        spec_run_record(
            RecordRunView::Serving { server },
            EventView::Exited(Ok(ChildEndView { code: Some(code), text })),
        ).spec_action() == (ActionView::Exit { code }),
{
}

/// A hook that has got past its two checks has been told that the working
/// directory is usable and that the output directory can be written to.
proof fn lemma_hook_checks(desc: SessionView, events: Seq<EventView>)
    ensures
        ({
            let run = spec_hook_after(HookRunView::spec_begin(desc), events);
            &&& run is EnsuringOutput || run is Flowing ==> events.contains(
                EventView::Workdir(DirState::Usable),
            )
            &&& run is Flowing ==> events.contains(EventView::OutputDir(WriteStateView::Writable))
        }),
    decreases events.len(),
{
    if events.len() > 0 {
        let before = events.drop_last();
        lemma_hook_checks(desc, before);
        assert(events[events.len() - 1] == events.last());
        assert forall|e: EventView| before.contains(e) implies events.contains(e) by {
            let i = choose|i: int| 0 <= i < before.len() && before[i] == e;
            assert(events[i] == e);
        }
    }
}

/// The hook runs neither the multiplexer nor the recorder before the
/// checks have passed: whatever events it is handed, it asks for a process
/// to be run only if it has been told that the working directory is usable
/// and that the output directory can be written to.
pub proof fn hook_starts_nothing_before_checks(desc: SessionView, events: Seq<EventView>)
    requires
        spec_starts_process(spec_hook_after(HookRunView::spec_begin(desc), events).spec_action()),
    ensures
        events.contains(EventView::Workdir(DirState::Usable)),
        events.contains(EventView::OutputDir(WriteStateView::Writable)),
{
    lemma_hook_checks(desc, events);
}

/// An unusable working directory ends the hook as it ends a recording:
/// the failure is printed, and the hook exits with the generic failure
/// code.
pub proof fn hook_aborts_on_unusable_workdir(desc: SessionView, state: DirState)
    requires
        state != DirState::Usable,
    ensures
        spec_run_record_hook(HookRunView::spec_begin(desc), EventView::Workdir(state))
            is Reporting,
        spec_run_record_hook(
            spec_run_record_hook(HookRunView::spec_begin(desc), EventView::Workdir(state)),
            EventView::Done,
        ) == (HookRunView::Finished { code: EXIT_FAILURE }),
{
}

} // verus!
