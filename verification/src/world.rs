//! A recording followed from its first check to its exit, on a machine
//! whose answers are known.
//!
//! The orchestration decides one step at a time and never sees the whole.
//! Here the whole is stated: given what the machine would answer to each
//! action, what the orchestration exits with, and which server it starts.

use vstd::prelude::*;
use crate::action::ActionView;
use crate::action::DirState;
use crate::action::EventView;
use crate::action::OutcomeView;
use crate::action::WriteStateView;
use crate::command::spec_hook_command;
use crate::command::spec_hook_env;
use crate::command::spec_server_url;
use crate::command::spec_serving_line;
use crate::command::spec_ttyd_args;
use crate::command::spec_waiting_line;
use crate::exit::EXIT_FAILURE;
use crate::exit::EXIT_NO_PORT;
use crate::exit::EXIT_SPAWN;
use crate::exit::EXIT_WAIT;
use crate::exit::spec_child_exit_code;
use crate::fsx::spec_ensure_writable_dir;
use crate::fsx::spec_validate_workdir;
use crate::net::MAX_PORT;
use crate::net::Poll;
use crate::net::PollAct;
use crate::net::polling_unreachable_spends_budget;
use crate::net::PollStep;
use crate::net::PortScan;
use crate::net::ScanStep;
use crate::net::spec_discover;
use crate::net::spec_find_free_port;
use crate::net::spec_poll_next;
use crate::net::spec_poll_trace;
use crate::net::spec_probes;
use crate::net::spec_refused_rounds;
use crate::net::spec_scan_outcome;
use crate::proc::READY_ATTEMPTS;
use crate::proc::READY_INTERVAL_MS;
use crate::proc::ServerPhase;
use crate::proc::ServerRunView;
use crate::proc::spec_spawn_ttyd_and_wait;
use crate::record::NO_FREE_PORT;
use crate::record::RecordRunView;
use crate::record::spec_run_record;
use crate::session::SessionView;
use crate::text::spec_error_line;

verus! {

/// What a machine answers to the actions of a recording.
pub struct World {
    /// What the working directory is like.
    pub workdir: DirState,
    /// Whether the output directory can be written to.
    pub output: WriteStateView,
    /// The ports that can be bound.
    pub free: Set<u16>,
    /// The path of the running program.
    pub exe: Seq<char>,
    /// What comes of starting the server.
    pub spawn: Result<u32, Seq<char>>,
    /// The connection attempts, counted from 0, that the server answers.
    pub up: Set<int>,
    /// Whether a program that opens a browser is installed.
    pub browser: bool,
    /// How the server ends, or why it cannot be waited on.
    pub end: OutcomeView,
}

/// The event with which the world answers the action of a server run.
pub open spec fn spec_server_event(s: ServerRunView, w: World) -> EventView {
    match s.phase {
        ServerPhase::Spawning => EventView::Spawned(w.spawn),
        ServerPhase::Connecting => EventView::Answer(w.up.contains(s.poll.made as int)),
        ServerPhase::LocatingBrowser => EventView::Answer(w.browser),
        ServerPhase::Waiting => EventView::Exited(w.end),
        _ => EventView::Done,
    }
}

/// How many attempts a poll has left.
pub open spec fn spec_attempts_left(s: ServerRunView) -> int {
    if s.poll.made < s.poll.attempts {
        s.poll.attempts - s.poll.made
    } else {
        0
    }
}

/// How many decisions a server run is from its end, at most.
pub open spec fn spec_server_rank(s: ServerRunView) -> int {
    match s.phase {
        ServerPhase::Spawning => 2 * READY_ATTEMPTS + 10,
        ServerPhase::Guarding => 2 * READY_ATTEMPTS + 9,
        ServerPhase::AnnouncingWait => 2 * READY_ATTEMPTS + 8,
        ServerPhase::Resting => 2 * spec_attempts_left(s) + 7,
        ServerPhase::Connecting => 2 * spec_attempts_left(s) + 6,
        ServerPhase::LocatingBrowser => 5,
        ServerPhase::OpeningBrowser => 4,
        ServerPhase::AnnouncingService => 3,
        ServerPhase::Waiting => 2,
        ServerPhase::Reporting => 1,
        ServerPhase::Finished => 0,
    }
}

/// A server run whose poll, while it is polled, is the one that the run
/// began, with its budget not overdrawn.
pub open spec fn spec_server_wf(s: ServerRunView) -> bool {
    &&& s.phase == ServerPhase::Connecting || s.phase == ServerPhase::Resting ==> {
        &&& s.poll.attempts == READY_ATTEMPTS
        &&& s.poll.interval_ms == READY_INTERVAL_MS
        &&& s.poll.port == s.port
        &&& s.poll.made <= s.poll.attempts
    }
    &&& s.phase == ServerPhase::Connecting ==> s.poll.made < s.poll.attempts
}

/// What a server run exits with when it is followed from `s` in the world
/// `w`.
pub open spec fn spec_server_outcome(s: ServerRunView, w: World) -> i32
    decreases spec_server_rank(s),
    when spec_server_wf(s)
{
    if s.phase == ServerPhase::Finished {
        s.code
    } else {
        spec_server_outcome(spec_spawn_ttyd_and_wait(s, spec_server_event(s, w)), w)
    }
}

/// What a server that was started comes to: its own exit code, the generic
/// failure where it ended without one, and the code for a server that
/// cannot be waited on.
pub open spec fn spec_after_wait(end: OutcomeView) -> i32 {
    match end {
        Ok(e) => spec_child_exit_code(e.code),
        Err(_) => EXIT_WAIT,
    }
}

/// What a server run comes to: the code for a server that cannot be
/// started, or what the started server comes to.
pub open spec fn spec_after_spawn(w: World) -> i32 {
    match w.spawn {
        Ok(_) => spec_after_wait(w.end),
        Err(_) => EXIT_SPAWN,
    }
}

/// One decision takes a well-formed server run to a well-formed one that
/// is nearer its end.
proof fn lemma_server_step(s: ServerRunView, w: World)
    requires
        spec_server_wf(s),
        s.phase != ServerPhase::Finished,
    ensures
        spec_server_wf(spec_spawn_ttyd_and_wait(s, spec_server_event(s, w))),
        spec_server_rank(spec_spawn_ttyd_and_wait(s, spec_server_event(s, w))) < spec_server_rank(
            s,
        ),
{
}

/// A server that was started is waited on, whatever came of polling it and
/// of opening the browser, and what it ends with is what the run ends
/// with.
proof fn lemma_started_server(s: ServerRunView, w: World)
    requires
        spec_server_wf(s),
        s.phase != ServerPhase::Spawning,
        s.phase != ServerPhase::Reporting,
        s.phase != ServerPhase::Finished,
    ensures
        spec_server_outcome(s, w) == spec_after_wait(w.end),
    decreases spec_server_rank(s),
{
    let next = spec_spawn_ttyd_and_wait(s, spec_server_event(s, w));
    lemma_server_step(s, w);
    if s.phase == ServerPhase::Waiting {
        if next.phase == ServerPhase::Reporting {
            let last = spec_spawn_ttyd_and_wait(next, spec_server_event(next, w));
            assert(spec_server_outcome(next, w) == spec_server_outcome(last, w));
            assert(spec_server_outcome(last, w) == last.code);
        } else {
            assert(spec_server_outcome(next, w) == next.code);
        }
    } else {
        lemma_started_server(next, w);
    }
}

/// A run of the server exits with the server's own code, with the generic
/// failure for a server that ended without one, or with the code that
/// stands for what went wrong: the server could not be started, or could
/// not be waited on. Neither an unanswered poll nor a missing browser
/// changes what it exits with.
pub proof fn server_run_outcome(
    port: u16,
    font_size: u32,
    title: Seq<char>,
    envs: Seq<Seq<char>>,
    command: Seq<Seq<char>>,
    w: World,
)
    ensures
        spec_server_outcome(ServerRunView::spec_begin(port, font_size, title, envs, command), w)
            == spec_after_spawn(w),
{
    let s = ServerRunView::spec_begin(port, font_size, title, envs, command);
    let next = spec_spawn_ttyd_and_wait(s, spec_server_event(s, w));
    lemma_server_step(s, w);
    match w.spawn {
        Ok(pid) => {
            lemma_started_server(next, w);
        },
        Err(e) => {
            let last = spec_spawn_ttyd_and_wait(next, spec_server_event(next, w));
            assert(spec_server_outcome(next, w) == spec_server_outcome(last, w));
            assert(spec_server_outcome(last, w) == last.code);
        },
    }
}

/// Everything that a server run asks for, in order, when it is followed
/// from `s` in the world `w`; the exit is left out.
pub open spec fn spec_server_trace(s: ServerRunView, w: World) -> Seq<ActionView>
    decreases spec_server_rank(s),
    when spec_server_wf(s)
{
    if s.phase == ServerPhase::Finished {
        Seq::<ActionView>::empty()
    } else {
        seq![s.spec_action()] + spec_server_trace(
            spec_spawn_ttyd_and_wait(s, spec_server_event(s, w)),
            w,
        )
    }
}

/// The action by which a poll of `port` has its caller do `act`.
pub open spec fn spec_poll_action(port: u16, act: PollAct) -> ActionView {
    match act {
        PollAct::Connect => ActionView::Connect { port },
        PollAct::Sleep(millis) => ActionView::Sleep { millis },
    }
}

/// The actions by which a poll of `port` has its caller do `acts`.
pub open spec fn spec_poll_actions(port: u16, acts: Seq<PollAct>) -> Seq<ActionView> {
    Seq::new(acts.len(), |i: int| spec_poll_action(port, acts[i]))
}

/// What a server run asks for once the poll is over: the browser, where
/// there is a program to open it, the line that tells where the server
/// answers, and the wait; and after a wait that failed, the report.
pub open spec fn spec_after_poll_plan(port: u16, pid: u32, w: World) -> Seq<ActionView> {
    seq![ActionView::LocateBrowser] + (if w.browser {
        seq![ActionView::OpenBrowser { url: spec_server_url(port) }]
    } else {
        Seq::<ActionView>::empty()
    }) + seq![
        ActionView::Announce { line: spec_serving_line(port, pid) },
        ActionView::WaitServer,
    ] + (match w.end {
        Ok(_) => Seq::<ActionView>::empty(),
        Err(e) => seq![
            ActionView::Announce { line: spec_error_line("Failed waiting for ttyd: "@ + e) },
        ],
    })
}

/// Everything that a run of the server asks for, in order, in the world
/// `w`: the server is started; where that fails, the failure is reported;
/// else the interrupt is arranged for, the awaited address is told, the
/// port is polled within the budget, and the run goes on as
/// `spec_after_poll_plan` says.
pub open spec fn spec_server_plan(
    port: u16,
    font_size: u32,
    title: Seq<char>,
    envs: Seq<Seq<char>>,
    command: Seq<Seq<char>>,
    w: World,
) -> Seq<ActionView> {
    seq![ActionView::SpawnServer { args: spec_ttyd_args(port, font_size, title, envs, command) }]
        + (match w.spawn {
        Err(e) => seq![
            ActionView::Announce { line: spec_error_line("Failed to spawn ttyd: "@ + e) },
        ],
        Ok(pid) => seq![
            ActionView::ForwardInterrupt { pid },
            ActionView::Announce { line: spec_waiting_line(port) },
        ] + spec_poll_actions(
            port,
            spec_poll_trace(Poll::spec_begin(port, READY_ATTEMPTS, READY_INTERVAL_MS), w.up),
        ) + spec_after_poll_plan(port, pid, w),
    })
}

/// Once the poll is over, a server run asks for what
/// `spec_after_poll_plan` lists.
proof fn lemma_after_poll(s: ServerRunView, w: World)
    requires
        s.phase == ServerPhase::LocatingBrowser,
    ensures
        spec_server_trace(s, w) == spec_after_poll_plan(s.port, s.pid, w),
{
    reveal_with_fuel(spec_server_trace, 7);
    assert(spec_server_trace(s, w) =~= spec_after_poll_plan(s.port, s.pid, w));
}

/// The step of its poll at which a polling server run stands.
pub open spec fn spec_poll_step_of(s: ServerRunView) -> PollStep {
    if s.phase == ServerPhase::Connecting {
        PollStep::Connect(s.poll)
    } else {
        PollStep::Sleep(s.poll)
    }
}

/// While it polls, a server run asks for what its poll asks for, and then
/// for what follows the poll.
proof fn lemma_polling(s: ServerRunView, w: World)
    requires
        spec_server_wf(s),
        s.phase == ServerPhase::Connecting || s.phase == ServerPhase::Resting,
    ensures
        spec_server_trace(s, w) == spec_poll_actions(
            s.port,
            spec_poll_trace(spec_poll_step_of(s), w.up),
        ) + spec_after_poll_plan(s.port, s.pid, w),
    decreases spec_server_rank(s),
{
    let step = spec_poll_step_of(s);
    let next = spec_spawn_ttyd_and_wait(s, spec_server_event(s, w));
    let next_step = spec_poll_next(step, w.up);
    lemma_server_step(s, w);
    let head = seq![s.spec_action()];
    let tail = spec_after_poll_plan(s.port, s.pid, w);
    assert(spec_server_trace(s, w) == head + spec_server_trace(next, w));
    if next.phase == ServerPhase::LocatingBrowser {
        lemma_after_poll(next, w);
        assert(next_step == PollStep::Ready || next_step == PollStep::GaveUp);
        assert(spec_poll_trace(next_step, w.up) =~= Seq::<PollAct>::empty());
        assert(spec_poll_actions(s.port, spec_poll_trace(step, w.up)) =~= head);
    } else {
        lemma_polling(next, w);
        assert(spec_poll_step_of(next) == next_step);
        let rest = spec_poll_trace(next_step, w.up);
        assert(spec_poll_actions(s.port, spec_poll_trace(step, w.up)) =~= head
            + spec_poll_actions(s.port, rest));
        assert(head + (spec_poll_actions(s.port, rest) + tail) =~= (head + spec_poll_actions(
            s.port,
            rest,
        )) + tail);
    }
}

/// A run of the server asks, step by step, for exactly what
/// `spec_server_plan` lists, and then to exit.
pub proof fn server_run_follows_plan(
    port: u16,
    font_size: u32,
    title: Seq<char>,
    envs: Seq<Seq<char>>,
    command: Seq<Seq<char>>,
    w: World,
)
    ensures
        spec_server_trace(ServerRunView::spec_begin(port, font_size, title, envs, command), w)
            == spec_server_plan(port, font_size, title, envs, command, w),
{
    let s0 = ServerRunView::spec_begin(port, font_size, title, envs, command);
    let s1 = spec_spawn_ttyd_and_wait(s0, spec_server_event(s0, w));
    lemma_server_step(s0, w);
    let plan = spec_server_plan(port, font_size, title, envs, command, w);
    match w.spawn {
        Err(e) => {
            reveal_with_fuel(spec_server_trace, 3);
            assert(spec_server_trace(s0, w) =~= plan);
        },
        Ok(pid) => {
            let s2 = spec_spawn_ttyd_and_wait(s1, spec_server_event(s1, w));
            lemma_server_step(s1, w);
            let s3 = spec_spawn_ttyd_and_wait(s2, spec_server_event(s2, w));
            lemma_server_step(s2, w);
            let begin = Poll::spec_begin(port, READY_ATTEMPTS, READY_INTERVAL_MS);
            assert(s3.phase == ServerPhase::Connecting);
            assert(spec_poll_step_of(s3) == begin);
            lemma_polling(s3, w);
            let rest = spec_server_trace(s3, w);
            assert(spec_server_trace(s2, w) == seq![s2.spec_action()] + rest);
            assert(spec_server_trace(s1, w) == seq![s1.spec_action()] + spec_server_trace(s2, w));
            assert(spec_server_trace(s0, w) == seq![s0.spec_action()] + spec_server_trace(s1, w));
            assert(spec_server_trace(s0, w) =~= plan);
        },
    }
}

/// The event with which the world answers the action of an orchestration.
pub open spec fn spec_world_event(r: RecordRunView, w: World) -> EventView {
    match r {
        RecordRunView::ValidatingWorkdir { desc, font_size } => EventView::Workdir(w.workdir),
        RecordRunView::EnsuringOutput { desc, font_size } => EventView::OutputDir(w.output),
        RecordRunView::Scanning { desc, font_size, scan } => EventView::Answer(
            w.free.contains(scan.candidate),
        ),
        RecordRunView::LocatingSelf { desc, font_size, port } => EventView::Path(w.exe),
        RecordRunView::Serving { server } => spec_server_event(server, w),
        RecordRunView::Reporting { line, code } => EventView::Done,
        RecordRunView::Finished { code } => EventView::Done,
    }
}

/// Whether an orchestration is at its end: nothing is left but to exit.
pub open spec fn spec_record_done(r: RecordRunView) -> bool {
    r.spec_action() is Exit
}

/// How many decisions an orchestration is from its end, at most.
pub open spec fn spec_record_rank(r: RecordRunView) -> int {
    match r {
        RecordRunView::ValidatingWorkdir { desc, font_size } => 2 * READY_ATTEMPTS + MAX_PORT + 14,
        RecordRunView::EnsuringOutput { desc, font_size } => 2 * READY_ATTEMPTS + MAX_PORT + 13,
        RecordRunView::Scanning { desc, font_size, scan } => 2 * READY_ATTEMPTS + 12 + (MAX_PORT
            - scan.tried()),
        RecordRunView::LocatingSelf { desc, font_size, port } => 2 * READY_ATTEMPTS + 11,
        RecordRunView::Serving { server } => spec_server_rank(server),
        RecordRunView::Reporting { line, code } => 1,
        RecordRunView::Finished { code } => 0,
    }
}

/// An orchestration whose scan and whose server run are well-formed.
pub open spec fn spec_record_wf(r: RecordRunView) -> bool {
    match r {
        RecordRunView::Scanning { desc, font_size, scan } => scan.wf(),
        RecordRunView::Serving { server } => spec_server_wf(server),
        _ => true,
    }
}

/// What an orchestration exits with when it is followed from `r` in the
/// world `w`.
pub open spec fn spec_record_outcome(r: RecordRunView, w: World) -> i32
    decreases spec_record_rank(r),
    when spec_record_wf(r)
{
    if spec_record_done(r) {
        r.spec_action()->Exit_code
    } else {
        spec_record_outcome(spec_run_record(r, spec_world_event(r, w)), w)
    }
}

/// The server run that an orchestration begins when it is followed from
/// `r` in the world `w`; none where it ends before it has begun one.
pub open spec fn spec_record_served(r: RecordRunView, w: World) -> Option<ServerRunView>
    decreases spec_record_rank(r),
    when spec_record_wf(r)
{
    if r is Serving {
        Some(r->server)
    } else if spec_record_done(r) {
        None
    } else {
        spec_record_served(spec_run_record(r, spec_world_event(r, w)), w)
    }
}

/// One decision takes a well-formed orchestration to a well-formed one
/// that is nearer its end.
proof fn lemma_record_step(r: RecordRunView, w: World)
    requires
        spec_record_wf(r),
        !spec_record_done(r),
    ensures
        spec_record_wf(spec_run_record(r, spec_world_event(r, w))),
        spec_record_rank(spec_run_record(r, spec_world_event(r, w))) < spec_record_rank(r),
{
    match r {
        RecordRunView::Serving { server } => {
            lemma_server_step(server, w);
        },
        _ => {},
    }
}

/// An orchestration that runs the server exits with what the server run
/// exits with.
proof fn lemma_serving_outcome(server: ServerRunView, w: World)
    requires
        spec_server_wf(server),
    ensures
        spec_record_outcome(RecordRunView::Serving { server }, w) == spec_server_outcome(
            server,
            w,
        ),
    decreases spec_server_rank(server),
{
    if server.phase != ServerPhase::Finished {
        lemma_server_step(server, w);
        lemma_serving_outcome(spec_spawn_ttyd_and_wait(server, spec_server_event(server, w)), w);
    }
}

/// What an orchestration comes to once it has found `port`.
pub open spec fn spec_served(desc: SessionView, font_size: u32, port: u16, w: World)
    -> ServerRunView {
    ServerRunView::spec_begin(
        port,
        font_size,
        desc.session,
        spec_hook_env(desc),
        spec_hook_command(w.exe, desc),
    )
}

/// From any point of its scan on, an orchestration comes to what the scan
/// comes to: the code for a full port space, or a server run on the port
/// that the scan finds.
proof fn lemma_scanning(desc: SessionView, font_size: u32, scan: PortScan, w: World)
    requires
        scan.wf(),
    ensures
        ({
            let r = RecordRunView::Scanning { desc, font_size, scan };
            match spec_scan_outcome(scan, w.free) {
                Some(port) => {
                    &&& spec_record_outcome(r, w) == spec_after_spawn(w)
                    &&& spec_record_served(r, w) == Some(spec_served(desc, font_size, port, w))
                },
                None => {
                    &&& spec_record_outcome(r, w) == EXIT_NO_PORT
                    &&& spec_record_served(r, w) is None
                },
            }
        }),
    decreases MAX_PORT - scan.tried(),
{
    let r = RecordRunView::Scanning { desc, font_size, scan };
    let next = spec_run_record(r, spec_world_event(r, w));
    lemma_record_step(r, w);
    match spec_find_free_port(scan, w.free.contains(scan.candidate)) {
        ScanStep::Found(port) => {
            let serving = spec_run_record(next, spec_world_event(next, w));
            lemma_record_step(next, w);
            let server = spec_served(desc, font_size, port, w);
            assert(serving == RecordRunView::Serving { server });
            lemma_serving_outcome(server, w);
            server_run_outcome(
                port,
                font_size,
                desc.session,
                spec_hook_env(desc),
                spec_hook_command(w.exe, desc),
                w,
            );
            assert(spec_record_outcome(next, w) == spec_record_outcome(serving, w));
            assert(spec_record_served(next, w) == spec_record_served(serving, w));
        },
        ScanStep::Probe(following) => {
            lemma_scanning(desc, font_size, following, w);
        },
        ScanStep::Exhausted => {
            lemma_failed(next, w);
        },
    }
}

/// An orchestration that reports a failure exits with the failure's code
/// and begins no server run.
proof fn lemma_failed(r: RecordRunView, w: World)
    requires
        r is Reporting,
    ensures
        spec_record_outcome(r, w) == r->Reporting_code,
        spec_record_served(r, w) is None,
{
    let last = spec_run_record(r, spec_world_event(r, w));
    assert(spec_record_outcome(r, w) == spec_record_outcome(last, w));
    assert(spec_record_served(r, w) == spec_record_served(last, w));
}

/// What the orchestration of a recording exits with in the world `w`.
///
/// An unusable working directory or output directory gives the generic
/// failure. A port space without a free port gives a code of its own.
/// Otherwise the server is run, and what that comes to is the result: the
/// code for a server that cannot be started, the code for one that cannot
/// be waited on, or the server's own code.
pub open spec fn spec_orchestration_code(desc: SessionView, w: World) -> i32 {
    if w.workdir != DirState::Usable {
        EXIT_FAILURE
    } else if !(w.output is Writable) {
        EXIT_FAILURE
    } else if spec_discover(desc.port, w.free) is None {
        EXIT_NO_PORT
    } else {
        spec_after_spawn(w)
    }
}

/// The orchestration of a recording, followed decision by decision from
/// its start on any machine, ends, and exits with the code that stands for
/// the first thing that went wrong, or with the server's.
pub proof fn orchestration_outcome(desc: SessionView, font_size: u32, w: World)
    ensures
        spec_record_outcome(RecordRunView::spec_begin(desc, font_size), w)
            == spec_orchestration_code(desc, w),
{
    lemma_orchestration(desc, font_size, w);
}

/// The orchestration of a recording starts a server only where both
/// directories are usable and a port is free, and then on the first free
/// port in scan order, with the session handed to the hook.
pub proof fn orchestration_serves_on_discovered_port(desc: SessionView, font_size: u32, w: World)
    ensures
        spec_record_served(RecordRunView::spec_begin(desc, font_size), w) == (if w.workdir
            == DirState::Usable && w.output is Writable {
            match spec_discover(desc.port, w.free) {
                Some(port) => Some(spec_served(desc, font_size, port, w)),
                None => None,
            }
        } else {
            None
        }),
{
    lemma_orchestration(desc, font_size, w);
}

/// Both facts about a whole orchestration, proved together along its
/// steps.
proof fn lemma_orchestration(desc: SessionView, font_size: u32, w: World)
    ensures
        spec_record_outcome(RecordRunView::spec_begin(desc, font_size), w)
            == spec_orchestration_code(desc, w),
        spec_record_served(RecordRunView::spec_begin(desc, font_size), w) == (if w.workdir
            == DirState::Usable && w.output is Writable {
            match spec_discover(desc.port, w.free) {
                Some(port) => Some(spec_served(desc, font_size, port, w)),
                None => None,
            }
        } else {
            None
        }),
{
    let begin = RecordRunView::spec_begin(desc, font_size);
    let second = spec_run_record(begin, spec_world_event(begin, w));
    lemma_record_step(begin, w);
    assert(spec_record_outcome(begin, w) == spec_record_outcome(second, w));
    assert(spec_record_served(begin, w) == spec_record_served(second, w));
    if w.workdir != DirState::Usable {
        lemma_failed(second, w);
    } else {
        let third = spec_run_record(second, spec_world_event(second, w));
        lemma_record_step(second, w);
        assert(spec_record_outcome(second, w) == spec_record_outcome(third, w));
        assert(spec_record_served(second, w) == spec_record_served(third, w));
        if !(w.output is Writable) {
            lemma_failed(third, w);
        } else {
            lemma_scanning(desc, font_size, PortScan::spec_begin(desc.port), w);
        }
    }
}

/// Everything that an orchestration asks for, in order, when it is
/// followed from `r` in the world `w`; the exit is left out.
pub open spec fn spec_record_trace(r: RecordRunView, w: World) -> Seq<ActionView>
    decreases spec_record_rank(r),
    when spec_record_wf(r)
{
    if spec_record_done(r) {
        Seq::<ActionView>::empty()
    } else {
        seq![r.spec_action()] + spec_record_trace(spec_run_record(r, spec_world_event(r, w)), w)
    }
}

/// The actions that probe `ports`, one after another.
pub open spec fn spec_probe_actions(ports: Seq<u16>) -> Seq<ActionView> {
    Seq::new(ports.len(), |i: int| ActionView::ProbePort { port: ports[i] })
}

/// What an orchestration asks for once the scan is over: the report of a
/// full port space, or the path of the running program and then the run of
/// the server on the port that was found.
pub open spec fn spec_after_scan_plan(
    desc: SessionView,
    font_size: u32,
    found: Option<u16>,
    w: World,
) -> Seq<ActionView> {
    match found {
        None => seq![ActionView::Announce { line: spec_error_line(NO_FREE_PORT@) }],
        Some(port) => seq![ActionView::LocateSelf] + spec_server_plan(
            port,
            font_size,
            desc.session,
            spec_hook_env(desc),
            spec_hook_command(w.exe, desc),
            w,
        ),
    }
}

/// Everything that the orchestration of a recording asks for, in order, in
/// the world `w`: the look at the working directory, then the output
/// directory, then the ports in scan order up to the first free one, then
/// the running program, then the run of the server. The first of these
/// that fails is reported, and nothing is asked for after the report.
pub open spec fn spec_record_plan(desc: SessionView, font_size: u32, w: World) -> Seq<
    ActionView,
> {
    seq![ActionView::ValidateWorkdir { path: desc.workdir }] + (match spec_validate_workdir(
        desc.workdir,
        w.workdir,
    ) {
        Err(msg) => seq![ActionView::Announce { line: spec_error_line(msg) }],
        Ok(_) => seq![ActionView::EnsureWritableDir { file: desc.out }]
            + (match spec_ensure_writable_dir(w.output) {
            Err(msg) => seq![ActionView::Announce { line: spec_error_line(msg) }],
            Ok(_) => spec_probe_actions(spec_probes(PortScan::spec_begin(desc.port), w.free))
                + spec_after_scan_plan(
                desc,
                font_size,
                spec_discover(desc.port, w.free),
                w,
            ),
        }),
    })
}

/// An orchestration that runs the server asks for what the server run asks
/// for.
proof fn lemma_serving_trace(server: ServerRunView, w: World)
    requires
        spec_server_wf(server),
    ensures
        spec_record_trace(RecordRunView::Serving { server }, w) == spec_server_trace(server, w),
    decreases spec_server_rank(server),
{
    if server.phase != ServerPhase::Finished {
        lemma_server_step(server, w);
        lemma_serving_trace(spec_spawn_ttyd_and_wait(server, spec_server_event(server, w)), w);
    }
}

/// From any point of its scan on, an orchestration asks for the ports that
/// the scan tries, and then for what follows the scan.
proof fn lemma_scanning_trace(desc: SessionView, font_size: u32, scan: PortScan, w: World)
    requires
        scan.wf(),
    ensures
        spec_record_trace(RecordRunView::Scanning { desc, font_size, scan }, w)
            == spec_probe_actions(spec_probes(scan, w.free)) + spec_after_scan_plan(
            desc,
            font_size,
            spec_scan_outcome(scan, w.free),
            w,
        ),
    decreases MAX_PORT - scan.tried(),
{
    let r = RecordRunView::Scanning { desc, font_size, scan };
    let next = spec_run_record(r, spec_world_event(r, w));
    lemma_record_step(r, w);
    let head = seq![r.spec_action()];
    let after = spec_after_scan_plan(desc, font_size, spec_scan_outcome(scan, w.free), w);
    assert(spec_record_trace(r, w) == head + spec_record_trace(next, w));
    match spec_find_free_port(scan, w.free.contains(scan.candidate)) {
        ScanStep::Found(port) => {
            let serving = spec_run_record(next, spec_world_event(next, w));
            lemma_record_step(next, w);
            let server = spec_served(desc, font_size, port, w);
            assert(serving == RecordRunView::Serving { server });
            lemma_serving_trace(server, w);
            server_run_follows_plan(
                port,
                font_size,
                desc.session,
                spec_hook_env(desc),
                spec_hook_command(w.exe, desc),
                w,
            );
            assert(spec_record_trace(next, w) == seq![next.spec_action()] + spec_record_trace(
                serving,
                w,
            ));
            assert(spec_probe_actions(spec_probes(scan, w.free)) =~= head);
            assert(spec_record_trace(next, w) =~= after);
        },
        ScanStep::Probe(following) => {
            lemma_scanning_trace(desc, font_size, following, w);
            let rest = spec_probe_actions(spec_probes(following, w.free));
            assert(spec_probe_actions(spec_probes(scan, w.free)) =~= head + rest);
            assert(head + (rest + after) =~= (head + rest) + after);
        },
        ScanStep::Exhausted => {
            let last = spec_run_record(next, spec_world_event(next, w));
            assert(spec_record_trace(next, w) == seq![next.spec_action()] + spec_record_trace(
                last,
                w,
            ));
            assert(spec_record_trace(last, w) =~= Seq::<ActionView>::empty());
            assert(spec_probe_actions(spec_probes(scan, w.free)) =~= head);
            assert(spec_record_trace(next, w) =~= after);
        },
    }
}

/// The orchestration of a recording asks, step by step, for exactly what
/// `spec_record_plan` lists, and then to exit.
pub proof fn orchestration_follows_plan(desc: SessionView, font_size: u32, w: World)
    ensures
        spec_record_trace(RecordRunView::spec_begin(desc, font_size), w) == spec_record_plan(
            desc,
            font_size,
            w,
        ),
{
    let r0 = RecordRunView::spec_begin(desc, font_size);
    let r1 = spec_run_record(r0, spec_world_event(r0, w));
    lemma_record_step(r0, w);
    let plan = spec_record_plan(desc, font_size, w);
    assert(spec_record_trace(r0, w) == seq![r0.spec_action()] + spec_record_trace(r1, w));
    if w.workdir != DirState::Usable {
        reveal_with_fuel(spec_record_trace, 3);
        assert(spec_record_trace(r0, w) =~= plan);
    } else {
        let r2 = spec_run_record(r1, spec_world_event(r1, w));
        lemma_record_step(r1, w);
        assert(spec_record_trace(r1, w) == seq![r1.spec_action()] + spec_record_trace(r2, w));
        if !(w.output is Writable) {
            reveal_with_fuel(spec_record_trace, 3);
            assert(spec_record_trace(r0, w) =~= plan);
        } else {
            lemma_scanning_trace(desc, font_size, PortScan::spec_begin(desc.port), w);
            assert(spec_record_trace(r0, w) =~= plan);
        }
    }
}

/// An orchestration whose working directory is missing, or cannot be
/// read, asks for two things only: the look at the directory and the
/// report of what is wrong with it. No process is started, and it exits
/// with the generic failure code, which is not zero.
pub proof fn unusable_workdir_starts_nothing(desc: SessionView, font_size: u32, w: World)
    requires
        w.workdir != DirState::Usable,
    ensures
        spec_record_trace(RecordRunView::spec_begin(desc, font_size), w) == seq![
            ActionView::ValidateWorkdir { path: desc.workdir },
            ActionView::Announce {
                line: spec_error_line(spec_validate_workdir(desc.workdir, w.workdir)->Err_0),
            },
        ],
        spec_record_outcome(RecordRunView::spec_begin(desc, font_size), w) == EXIT_FAILURE,
        EXIT_FAILURE != 0,
{
    orchestration_follows_plan(desc, font_size, w);
    orchestration_outcome(desc, font_size, w);
    assert(spec_record_plan(desc, font_size, w) =~= seq![
        ActionView::ValidateWorkdir { path: desc.workdir },
        ActionView::Announce {
            line: spec_error_line(spec_validate_workdir(desc.workdir, w.workdir)->Err_0),
        },
    ]);
}

/// A server that never answers is tried exactly as often as the budget
/// says, with the pause after each try, and the run then goes on as if it
/// had answered: giving up on the poll is no failure.
pub proof fn unanswered_poll_is_spent_and_passed_over(
    port: u16,
    font_size: u32,
    title: Seq<char>,
    envs: Seq<Seq<char>>,
    command: Seq<Seq<char>>,
    w: World,
)
    requires
        w.spawn is Ok,
        forall|i: int| 0 <= i < READY_ATTEMPTS ==> !w.up.contains(i),
    ensures
        spec_server_trace(ServerRunView::spec_begin(port, font_size, title, envs, command), w)
            == seq![
            ActionView::SpawnServer {
                args: spec_ttyd_args(port, font_size, title, envs, command),
            },
            ActionView::ForwardInterrupt { pid: w.spawn->Ok_0 },
            ActionView::Announce { line: spec_waiting_line(port) },
        ] + spec_poll_actions(port, spec_refused_rounds(READY_ATTEMPTS as nat, READY_INTERVAL_MS))
            + spec_after_poll_plan(port, w.spawn->Ok_0, w),
        spec_server_outcome(ServerRunView::spec_begin(port, font_size, title, envs, command), w)
            == spec_after_wait(w.end),
{
    server_run_follows_plan(port, font_size, title, envs, command, w);
    server_run_outcome(port, font_size, title, envs, command, w);
    polling_unreachable_spends_budget(port, READY_ATTEMPTS, READY_INTERVAL_MS, w.up);
    let polled = spec_poll_actions(
        port,
        spec_refused_rounds(READY_ATTEMPTS as nat, READY_INTERVAL_MS),
    );
    let after = spec_after_poll_plan(port, w.spawn->Ok_0, w);
    let head = seq![
        ActionView::SpawnServer { args: spec_ttyd_args(port, font_size, title, envs, command) },
    ];
    let mid = seq![
        ActionView::ForwardInterrupt { pid: w.spawn->Ok_0 },
        ActionView::Announce { line: spec_waiting_line(port) },
    ];
    assert(head + (mid + polled + after) =~= seq![
        ActionView::SpawnServer { args: spec_ttyd_args(port, font_size, title, envs, command) },
        ActionView::ForwardInterrupt { pid: w.spawn->Ok_0 },
        ActionView::Announce { line: spec_waiting_line(port) },
    ] + polled + after);
}

} // verus!
