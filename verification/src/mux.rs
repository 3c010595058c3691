//! The multiplexer session as the recording flow understands it, and what
//! the flow does to it.
//!
//! Nothing here runs the multiplexer. The model says which commands the
//! flow expects to succeed in which state of the session and what they
//! leave behind, and the laws below follow the flow's own decisions
//! against it.

use vstd::prelude::*;
use crate::action::ActionView;
use crate::action::DirState;
use crate::action::WriteStateView;
use crate::action::ChildEndView;
use crate::action::EventView;
use crate::action::OutcomeView;
use crate::command::TmuxCommand;
use crate::exit::EXIT_FAILURE;
use crate::exit::spec_child_exit_code;
use crate::proc::HookFlowView;
use crate::proc::HookPhase;
use crate::proc::spec_record_flow;
use crate::record::HookRunView;
use crate::record::spec_run_record_hook;
use crate::session::SessionView;

verus! {

/// A session on the multiplexer: absent, or running with the size of its
/// window and its chrome.
pub enum Mux {
    /// There is no such session.
    Absent,
    /// The session runs.
    Running {
        /// Width of its window in columns.
        cols: u32,
        /// Height of its window in rows.
        rows: u32,
        /// Whether the status line is shown.
        status_line: bool,
        /// Whether the window keeps the size it is given by hand.
        manual_size: bool,
    },
}

/// Whether the multiplexer does what `command` asks, and reports success,
/// for a session in state `m`: a session can be created only where there
/// is none, and everything else needs one.
pub open spec fn spec_mux_accepts(command: TmuxCommand, m: Mux) -> bool {
    match command {
        TmuxCommand::NewSession => m is Absent,
        _ => m is Running,
    }
}

/// The session after `command` was run for the descriptor `s`. A command
/// that the multiplexer refuses changes nothing. A new session has the
/// requested size and the default chrome.
pub open spec fn spec_mux_after(command: TmuxCommand, s: SessionView, m: Mux) -> Mux {
    if !spec_mux_accepts(command, m) {
        m
    } else {
        match command {
            TmuxCommand::HasSession => m,
            TmuxCommand::NewSession => Mux::Running {
                cols: s.cols,
                rows: s.rows,
                status_line: true,
                manual_size: false,
            },
            TmuxCommand::StatusOff => Mux::Running {
                cols: m->cols,
                rows: m->rows,
                status_line: false,
                manual_size: m->manual_size,
            },
            TmuxCommand::ManualSize => Mux::Running {
                cols: m->cols,
                rows: m->rows,
                status_line: m->status_line,
                manual_size: true,
            },
            TmuxCommand::Resize => Mux::Running {
                cols: s.cols,
                rows: s.rows,
                status_line: m->status_line,
                manual_size: m->manual_size,
            },
            TmuxCommand::KillSession => Mux::Absent,
            TmuxCommand::KillServer => Mux::Absent,
        }
    }
}

/// The session once its settings have been asserted for the descriptor
/// `s`: manual size, no status line, the requested size.
pub open spec fn spec_normalized(s: SessionView, m: Mux) -> Mux {
    spec_mux_after(
        TmuxCommand::Resize,
        s,
        spec_mux_after(TmuxCommand::StatusOff, s, spec_mux_after(TmuxCommand::ManualSize, s, m)),
    )
}

/// The session that the flow records: it runs at the requested size, by
/// hand, without a status line.
pub open spec fn spec_recorded_session(s: SessionView) -> Mux {
    Mux::Running { cols: s.cols, rows: s.rows, status_line: false, manual_size: true }
}

/// Asserting the settings of a running session gives the session that the
/// flow records, whatever its settings were; asserting them twice gives
/// what asserting them once gives, for a session in any state.
pub proof fn normalizing_is_idempotent(s: SessionView, m: Mux)
    ensures
        m is Running ==> spec_normalized(s, m) == spec_recorded_session(s),
        m is Absent ==> spec_normalized(s, m) is Absent,
        spec_normalized(s, spec_normalized(s, m)) == spec_normalized(s, m),
{
}

/// The event that answers `action` when the session is in state `m` and
/// the recorder, once run, ends as `recorder` says.
pub open spec fn spec_hook_event(action: ActionView, m: Mux, recorder: OutcomeView) -> EventView {
    match action {
        ActionView::Tmux { command, args, quiet } => EventView::Exited(
            Ok(
                if spec_mux_accepts(command, m) {
                    ChildEndView { code: Some(0i32), text: "exit status: 0"@ }
                } else {
                    ChildEndView { code: Some(1i32), text: "exit status: 1"@ }
                },
            ),
        ),
        ActionView::Record { args } => EventView::Exited(recorder),
        _ => EventView::Done,
    }
}

/// The session after `action` was carried out for the descriptor `s`.
pub open spec fn spec_hook_effect(action: ActionView, s: SessionView, m: Mux) -> Mux {
    match action {
        ActionView::Tmux { command, args, quiet } => spec_mux_after(command, s, m),
        _ => m,
    }
}

/// How many decisions a flow is from its end, at most.
pub open spec fn spec_hook_rank(phase: HookPhase) -> nat {
    match phase {
        HookPhase::PreparingOutput => 12,
        HookPhase::ProbingSession => 11,
        HookPhase::CreatingSession => 10,
        HookPhase::HidingStatus => 9,
        HookPhase::SizingByHand => 8,
        HookPhase::RemovingStatus => 7,
        HookPhase::Resizing => 6,
        HookPhase::Announcing => 5,
        HookPhase::Recording => 4,
        HookPhase::ReportingNoRecorder => 3,
        HookPhase::KillingSession => 2,
        HookPhase::KillingServer => 1,
        HookPhase::ReportingNoSession => 1,
        HookPhase::Finished => 0,
    }
}

/// Where a flow and its session end up when the flow is followed from `f`
/// with the session in state `m`: each action is answered as the model
/// says, and changes the session as the model says.
pub open spec fn spec_hook_run(f: HookFlowView, m: Mux, recorder: OutcomeView) -> (
    HookFlowView,
    Mux,
)
    decreases spec_hook_rank(f.phase),
{
    if f.phase == HookPhase::Finished {
        (f, m)
    } else {
        let action = f.spec_action();
        spec_hook_run(
            spec_record_flow(f, spec_hook_event(action, m, recorder)),
            spec_hook_effect(action, f.desc, m),
            recorder,
        )
    }
}

/// The multiplexer commands that a flow issues when it is followed from
/// `f` with the session in state `m`, in order.
pub open spec fn spec_hook_commands(f: HookFlowView, m: Mux, recorder: OutcomeView) -> Seq<
    TmuxCommand,
>
    decreases spec_hook_rank(f.phase),
{
    if f.phase == HookPhase::Finished {
        Seq::<TmuxCommand>::empty()
    } else {
        let action = f.spec_action();
        let rest = spec_hook_commands(
            spec_record_flow(f, spec_hook_event(action, m, recorder)),
            spec_hook_effect(action, f.desc, m),
            recorder,
        );
        match action {
            ActionView::Tmux { command, args, quiet } => seq![command] + rest,
            _ => rest,
        }
    }
}

/// The exit code that stands for the recorder's outcome.
pub open spec fn spec_recorder_code(recorder: OutcomeView) -> i32 {
    match recorder {
        Ok(end) => spec_child_exit_code(end.code),
        Err(_) => EXIT_FAILURE,
    }
}

/// The commands of the teardown, where the policy asks for one.
pub open spec fn spec_teardown(kill_on_detach: bool) -> Seq<TmuxCommand> {
    if kill_on_detach {
        seq![TmuxCommand::KillSession, TmuxCommand::KillServer]
    } else {
        Seq::<TmuxCommand>::empty()
    }
}

/// The teardown destroys the session, whatever state it is in, and leaves
/// the flow's exit code alone.
proof fn lemma_teardown(f: HookFlowView, m: Mux, recorder: OutcomeView)
    requires
        f.phase == HookPhase::KillingSession,
    ensures
        spec_hook_run(f, m, recorder).0.phase == HookPhase::Finished,
        spec_hook_run(f, m, recorder).0.code == f.code,
        spec_hook_run(f, m, recorder).1 is Absent,
        spec_hook_commands(f, m, recorder) == seq![
            TmuxCommand::KillSession,
            TmuxCommand::KillServer,
        ],
{
    reveal_with_fuel(spec_hook_run, 3);
    reveal_with_fuel(spec_hook_commands, 3);
    assert(spec_hook_commands(f, m, recorder) =~= seq![
        TmuxCommand::KillSession,
        TmuxCommand::KillServer,
    ]);
}

/// From the recorder on, the flow ends with the code that stands for the
/// recorder's outcome, and the session is destroyed exactly if the policy
/// asks for it.
proof fn lemma_recording(f: HookFlowView, m: Mux, recorder: OutcomeView)
    requires
        f.phase == HookPhase::Recording,
    ensures
        spec_hook_run(f, m, recorder).0.phase == HookPhase::Finished,
        spec_hook_run(f, m, recorder).0.code == spec_recorder_code(recorder),
        spec_hook_run(f, m, recorder).1 == (if f.desc.kill_on_detach {
            Mux::Absent
        } else {
            m
        }),
        spec_hook_commands(f, m, recorder) == spec_teardown(f.desc.kill_on_detach),
{
    let after = spec_record_flow(f, spec_hook_event(f.spec_action(), m, recorder));
    assert(spec_hook_run(f, m, recorder) == spec_hook_run(after, m, recorder));
    assert(spec_hook_commands(f, m, recorder) == spec_hook_commands(after, m, recorder));
    let settled = if after.phase == HookPhase::ReportingNoRecorder {
        spec_record_flow(after, spec_hook_event(after.spec_action(), m, recorder))
    } else {
        after
    };
    assert(spec_hook_run(after, m, recorder) == spec_hook_run(settled, m, recorder));
    assert(spec_hook_commands(after, m, recorder) == spec_hook_commands(settled, m, recorder));
    assert(settled.code == spec_recorder_code(recorder));
    if f.desc.kill_on_detach {
        lemma_teardown(settled, m, recorder);
    } else {
        assert(settled.phase == HookPhase::Finished);
        assert(spec_hook_commands(settled, m, recorder) =~= Seq::<TmuxCommand>::empty());
    }
}

/// From the assertion of the settings on, a flow on a running session makes
/// it the session that is recorded, and goes on to record.
proof fn lemma_normalizing(f: HookFlowView, m: Mux, recorder: OutcomeView)
    requires
        f.phase == HookPhase::SizingByHand,
        m is Running,
    ensures
        spec_hook_run(f, m, recorder).0.phase == HookPhase::Finished,
        spec_hook_run(f, m, recorder).0.code == spec_recorder_code(recorder),
        spec_hook_run(f, m, recorder).1 == (if f.desc.kill_on_detach {
            Mux::Absent
        } else {
            spec_recorded_session(f.desc)
        }),
        spec_hook_commands(f, m, recorder) == seq![
            TmuxCommand::ManualSize,
            TmuxCommand::StatusOff,
            TmuxCommand::Resize,
        ] + spec_teardown(f.desc.kill_on_detach),
{
    let f1 = spec_record_flow(f, spec_hook_event(f.spec_action(), m, recorder));
    let m1 = spec_hook_effect(f.spec_action(), f.desc, m);
    let f2 = spec_record_flow(f1, spec_hook_event(f1.spec_action(), m1, recorder));
    let m2 = spec_hook_effect(f1.spec_action(), f.desc, m1);
    let f3 = spec_record_flow(f2, spec_hook_event(f2.spec_action(), m2, recorder));
    let m3 = spec_hook_effect(f2.spec_action(), f.desc, m2);
    let f4 = spec_record_flow(f3, spec_hook_event(f3.spec_action(), m3, recorder));
    assert(f4.phase == HookPhase::Recording);
    assert(m3 == spec_recorded_session(f.desc));
    lemma_recording(f4, m3, recorder);
    assert(spec_hook_run(f3, m3, recorder) == spec_hook_run(f4, m3, recorder));
    assert(spec_hook_run(f2, m2, recorder) == spec_hook_run(f3, m3, recorder));
    assert(spec_hook_run(f1, m1, recorder) == spec_hook_run(f2, m2, recorder));
    assert(spec_hook_run(f, m, recorder) == spec_hook_run(f1, m1, recorder));
    let tail = spec_hook_commands(f4, m3, recorder);
    assert(spec_hook_commands(f3, m3, recorder) == tail);
    assert(spec_hook_commands(f2, m2, recorder) == seq![TmuxCommand::Resize] + tail);
    assert(spec_hook_commands(f1, m1, recorder) == seq![TmuxCommand::StatusOff]
        + spec_hook_commands(f2, m2, recorder));
    assert(spec_hook_commands(f, m, recorder) == seq![TmuxCommand::ManualSize]
        + spec_hook_commands(f1, m1, recorder));
    assert(spec_hook_commands(f, m, recorder) =~= seq![
        TmuxCommand::ManualSize,
        TmuxCommand::StatusOff,
        TmuxCommand::Resize,
    ] + spec_teardown(f.desc.kill_on_detach));
}

/// A flow that finds its session running reuses it: it probes, asserts the
/// settings and records, and creates nothing. It ends with the recorder's
/// code, never with that of a session that could not be created, and the
/// session it has recorded is the one that a fresh session would have
/// become.
pub proof fn existing_session_is_reused(s: SessionView, m: Mux, recorder: OutcomeView)
    requires
        m is Running,
    ensures
        spec_hook_commands(HookFlowView::spec_begin(s), m, recorder) == seq![
            TmuxCommand::HasSession,
            TmuxCommand::ManualSize,
            TmuxCommand::StatusOff,
            TmuxCommand::Resize,
        ] + spec_teardown(s.kill_on_detach),
        !spec_hook_commands(HookFlowView::spec_begin(s), m, recorder).contains(
            TmuxCommand::NewSession,
        ),
        spec_hook_run(HookFlowView::spec_begin(s), m, recorder).0.phase == HookPhase::Finished,
        spec_hook_run(HookFlowView::spec_begin(s), m, recorder).0.code == spec_recorder_code(
            recorder,
        ),
        spec_hook_run(HookFlowView::spec_begin(s), m, recorder).1 == spec_hook_run(
            HookFlowView::spec_begin(s),
            Mux::Absent,
            recorder,
        ).1,
{
    let f0 = HookFlowView::spec_begin(s);
    let f1 = spec_record_flow(f0, spec_hook_event(f0.spec_action(), m, recorder));
    let f2 = spec_record_flow(f1, spec_hook_event(f1.spec_action(), m, recorder));
    assert(f2.phase == HookPhase::SizingByHand);
    lemma_normalizing(f2, m, recorder);
    assert(spec_hook_run(f1, m, recorder) == spec_hook_run(f2, m, recorder));
    assert(spec_hook_run(f0, m, recorder) == spec_hook_run(f1, m, recorder));
    let tail = spec_hook_commands(f2, m, recorder);
    assert(spec_hook_commands(f1, m, recorder) == seq![TmuxCommand::HasSession] + tail);
    assert(spec_hook_commands(f0, m, recorder) == spec_hook_commands(f1, m, recorder));
    let cmds = spec_hook_commands(f0, m, recorder);
    let expected = seq![
        TmuxCommand::HasSession,
        TmuxCommand::ManualSize,
        TmuxCommand::StatusOff,
        TmuxCommand::Resize,
    ] + spec_teardown(s.kill_on_detach);
    assert(cmds =~= expected);
    assert(!cmds.contains(TmuxCommand::NewSession)) by {
        if cmds.contains(TmuxCommand::NewSession) {
            let i = choose|i: int| 0 <= i < cmds.len() && cmds[i] == TmuxCommand::NewSession;
            assert(expected[i] == TmuxCommand::NewSession);
        }
    }
    absent_session_is_created(s, recorder);
    teardown_follows_policy(s, Mux::Absent, recorder);
}

/// A flow that finds no session creates one, at the default chrome, and
/// then asserts the settings as it does for a session that it found.
pub proof fn absent_session_is_created(s: SessionView, recorder: OutcomeView)
    ensures
        spec_hook_commands(HookFlowView::spec_begin(s), Mux::Absent, recorder) == seq![
            TmuxCommand::HasSession,
            TmuxCommand::NewSession,
            TmuxCommand::StatusOff,
            TmuxCommand::ManualSize,
            TmuxCommand::StatusOff,
            TmuxCommand::Resize,
        ] + spec_teardown(s.kill_on_detach),
        spec_hook_run(HookFlowView::spec_begin(s), Mux::Absent, recorder).0.phase
            == HookPhase::Finished,
        spec_hook_run(HookFlowView::spec_begin(s), Mux::Absent, recorder).0.code
            == spec_recorder_code(recorder),
        spec_hook_run(HookFlowView::spec_begin(s), Mux::Absent, recorder).1 == (if s.kill_on_detach {
            Mux::Absent
        } else {
            spec_recorded_session(s)
        }),
{
    let m0 = Mux::Absent;
    let f0 = HookFlowView::spec_begin(s);
    let f1 = spec_record_flow(f0, spec_hook_event(f0.spec_action(), m0, recorder));
    let f2 = spec_record_flow(f1, spec_hook_event(f1.spec_action(), m0, recorder));
    assert(f2.phase == HookPhase::CreatingSession);
    let f3 = spec_record_flow(f2, spec_hook_event(f2.spec_action(), m0, recorder));
    let m3 = spec_hook_effect(f2.spec_action(), s, m0);
    assert(f3.phase == HookPhase::HidingStatus);
    let f4 = spec_record_flow(f3, spec_hook_event(f3.spec_action(), m3, recorder));
    let m4 = spec_hook_effect(f3.spec_action(), s, m3);
    assert(f4.phase == HookPhase::SizingByHand);
    lemma_normalizing(f4, m4, recorder);
    assert(spec_hook_run(f3, m3, recorder) == spec_hook_run(f4, m4, recorder));
    assert(spec_hook_run(f2, m0, recorder) == spec_hook_run(f3, m3, recorder));
    assert(spec_hook_run(f1, m0, recorder) == spec_hook_run(f2, m0, recorder));
    assert(spec_hook_run(f0, m0, recorder) == spec_hook_run(f1, m0, recorder));
    let tail = spec_hook_commands(f4, m4, recorder);
    assert(spec_hook_commands(f3, m3, recorder) == seq![TmuxCommand::StatusOff] + tail);
    assert(spec_hook_commands(f2, m0, recorder) == seq![TmuxCommand::NewSession]
        + spec_hook_commands(f3, m3, recorder));
    assert(spec_hook_commands(f1, m0, recorder) == seq![TmuxCommand::HasSession]
        + spec_hook_commands(f2, m0, recorder));
    assert(spec_hook_commands(f0, m0, recorder) == spec_hook_commands(f1, m0, recorder));
    assert(spec_hook_commands(f0, m0, recorder) =~= seq![
        TmuxCommand::HasSession,
        TmuxCommand::NewSession,
        TmuxCommand::StatusOff,
        TmuxCommand::ManualSize,
        TmuxCommand::StatusOff,
        TmuxCommand::Resize,
    ] + spec_teardown(s.kill_on_detach));
}

/// With the teardown policy set, the session is gone once the flow has
/// ended. Without it, the session is still there, at the size and with the
/// settings at which it was recorded. This holds whether the flow found
/// the session or made it, and however the recorder ended.
pub proof fn teardown_follows_policy(s: SessionView, m: Mux, recorder: OutcomeView)
    ensures
        s.kill_on_detach ==> spec_hook_run(HookFlowView::spec_begin(s), m, recorder).1 is Absent,
        !s.kill_on_detach ==> spec_hook_run(HookFlowView::spec_begin(s), m, recorder).1
            == spec_recorded_session(s),
        !s.kill_on_detach ==> spec_mux_accepts(
            TmuxCommand::HasSession,
            spec_hook_run(HookFlowView::spec_begin(s), m, recorder).1,
        ),
{
    if m is Running {
        let f0 = HookFlowView::spec_begin(s);
        let f1 = spec_record_flow(f0, spec_hook_event(f0.spec_action(), m, recorder));
        let f2 = spec_record_flow(f1, spec_hook_event(f1.spec_action(), m, recorder));
        assert(f2.phase == HookPhase::SizingByHand);
        lemma_normalizing(f2, m, recorder);
        assert(spec_hook_run(f1, m, recorder) == spec_hook_run(f2, m, recorder));
        assert(spec_hook_run(f0, m, recorder) == spec_hook_run(f1, m, recorder));
    } else {
        absent_session_is_created(s, recorder);
    }
}

/// Running the flow again on the session that a first run has left gives
/// the same session again: nothing is created twice and no setting moves.
pub proof fn rerun_leaves_session_unchanged(
    s: SessionView,
    m: Mux,
    first: OutcomeView,
    second: OutcomeView,
)
    ensures
        !s.kill_on_detach ==> spec_hook_run(
            HookFlowView::spec_begin(s),
            spec_hook_run(HookFlowView::spec_begin(s), m, first).1,
            second,
        ).1 == spec_hook_run(HookFlowView::spec_begin(s), m, first).1,
{
    teardown_follows_policy(s, m, first);
    teardown_follows_policy(s, spec_hook_run(HookFlowView::spec_begin(s), m, first).1, second);
}

/// What a machine answers to the actions of the hook.
pub struct HookWorld {
    /// What the working directory is like.
    pub workdir: DirState,
    /// Whether the output directory can be written to.
    pub output: WriteStateView,
    /// How the recorder ends, or why it cannot be run.
    pub recorder: OutcomeView,
}

/// The event with which the world answers the action of a hook whose
/// session is in state `m`.
pub open spec fn spec_hook_world_event(r: HookRunView, m: Mux, w: HookWorld) -> EventView {
    match r {
        HookRunView::ValidatingWorkdir { desc } => EventView::Workdir(w.workdir),
        HookRunView::EnsuringOutput { desc } => EventView::OutputDir(w.output),
        HookRunView::Flowing { flow } => spec_hook_event(flow.spec_action(), m, w.recorder),
        HookRunView::Reporting { line, code } => EventView::Done,
        HookRunView::Finished { code } => EventView::Done,
    }
}

/// The session after the action of a hook was carried out.
pub open spec fn spec_hook_world_effect(r: HookRunView, m: Mux) -> Mux {
    match r {
        HookRunView::Flowing { flow } => spec_hook_effect(flow.spec_action(), flow.desc, m),
        _ => m,
    }
}

/// How many decisions a hook is from its end, at most.
pub open spec fn spec_hook_run_rank(r: HookRunView) -> nat {
    match r {
        HookRunView::ValidatingWorkdir { desc } => 15,
        HookRunView::EnsuringOutput { desc } => 14,
        HookRunView::Flowing { flow } => spec_hook_rank(flow.phase),
        HookRunView::Reporting { line, code } => 1,
        HookRunView::Finished { code } => 0,
    }
}

/// What the hook exits with, and the state in which it leaves the session,
/// when it is followed from `r` with the session in state `m`.
pub open spec fn spec_hook_outcome(r: HookRunView, m: Mux, w: HookWorld) -> (i32, Mux)
    decreases spec_hook_run_rank(r),
{
    if r.spec_action() is Exit {
        (r.spec_action()->Exit_code, m)
    } else {
        spec_hook_outcome(
            spec_run_record_hook(r, spec_hook_world_event(r, m, w)),
            spec_hook_world_effect(r, m),
            w,
        )
    }
}

/// A hook that runs the flow comes to what the flow comes to.
proof fn lemma_flowing(flow: HookFlowView, m: Mux, w: HookWorld)
    ensures
        spec_hook_outcome(HookRunView::Flowing { flow }, m, w) == (
            spec_hook_run(flow, m, w.recorder).0.code,
            spec_hook_run(flow, m, w.recorder).1,
        ),
    decreases spec_hook_rank(flow.phase),
{
    if flow.phase != HookPhase::Finished {
        let action = flow.spec_action();
        lemma_flowing(
            spec_record_flow(flow, spec_hook_event(action, m, w.recorder)),
            spec_hook_effect(action, flow.desc, m),
            w,
        );
    }
}

/// What the hook comes to on any machine. An unusable working directory or
/// output directory ends it with the generic failure before the
/// multiplexer is touched: the session stays as it was. Otherwise the
/// hook exits with the code that stands for the recorder's outcome, and
/// the session is gone where the teardown policy is set and is the
/// recorded one where it is not.
pub proof fn hook_outcome(desc: SessionView, m: Mux, w: HookWorld)
    ensures
        spec_hook_outcome(HookRunView::spec_begin(desc), m, w) == (if w.workdir
            != DirState::Usable || !(w.output is Writable) {
            (EXIT_FAILURE, m)
        } else {
            (
                spec_recorder_code(w.recorder),
                if desc.kill_on_detach {
                    Mux::Absent
                } else {
                    spec_recorded_session(desc)
                },
            )
        }),
{
    let r0 = HookRunView::spec_begin(desc);
    let r1 = spec_run_record_hook(r0, spec_hook_world_event(r0, m, w));
    assert(spec_hook_outcome(r0, m, w) == spec_hook_outcome(r1, m, w));
    if w.workdir != DirState::Usable {
        let r2 = spec_run_record_hook(r1, spec_hook_world_event(r1, m, w));
        assert(spec_hook_outcome(r1, m, w) == spec_hook_outcome(r2, m, w));
        assert(spec_hook_outcome(r2, m, w) == (EXIT_FAILURE, m));
    } else {
        let r2 = spec_run_record_hook(r1, spec_hook_world_event(r1, m, w));
        assert(spec_hook_outcome(r1, m, w) == spec_hook_outcome(r2, m, w));
        if !(w.output is Writable) {
            let r3 = spec_run_record_hook(r2, spec_hook_world_event(r2, m, w));
            assert(spec_hook_outcome(r2, m, w) == spec_hook_outcome(r3, m, w));
            assert(spec_hook_outcome(r3, m, w) == (EXIT_FAILURE, m));
        } else {
            let flow = HookFlowView::spec_begin(desc);
            assert(r2 == HookRunView::Flowing { flow });
            lemma_flowing(flow, m, w);
            teardown_follows_policy(desc, m, w.recorder);
            if m is Running {
                existing_session_is_reused(desc, m, w.recorder);
            } else {
                absent_session_is_created(desc, w.recorder);
            }
        }
    }
}

} // verus!
