use shell_scene::action::Action;
use shell_scene::action::ChildEnd;
use shell_scene::action::DirState;
use shell_scene::action::Event;
use shell_scene::action::WriteState;
use shell_scene::exit::EXIT_FAILURE;
use shell_scene::exit::EXIT_NO_PORT;
use shell_scene::net::PortScan;
use shell_scene::record::run_record;
use shell_scene::record::run_record_hook;
use shell_scene::record::HookRun;
use shell_scene::record::RecordRun;
use shell_scene::session::SessionDescriptor;

fn wanted(port: u16) -> SessionDescriptor {
    SessionDescriptor {
        session: "cast".to_string(),
        cols: 80,
        rows: 24,
        port,
        out: "/home/me/casts/cast-20240102-030405.cast".to_string(),
        workdir: "/home/me".to_string(),
        kill_on_detach: false,
    }
}

/// A machine on which a recording is orchestrated.
struct World {
    workdir: DirState,
    taken: Vec<u16>,
    server_code: i32,
}

fn is_process(action: &Action) -> bool {
    matches!(
        action,
        Action::SpawnServer { .. }
            | Action::OpenBrowser { .. }
            | Action::Tmux { .. }
            | Action::Record { .. }
    )
}

/// Follows the orchestration of a recording to its exit. Returns the exit
/// code and every action that was asked for, the exit left out.
fn orchestrate(desc: SessionDescriptor, world: &World) -> (i32, Vec<Action>) {
    let mut run = RecordRun::begin(desc, 24);
    let mut asked = Vec::new();
    for _ in 0..200_000 {
        let action = run.action();
        let event = match &action {
            Action::Exit { code } => return (*code, asked),
            Action::ValidateWorkdir { .. } => Event::Workdir(world.workdir),
            Action::EnsureWritableDir { .. } => Event::OutputDir(WriteState::Writable),
            Action::ProbePort { port } => Event::Answer(!world.taken.contains(port)),
            Action::LocateSelf => Event::Path("/usr/bin/shell-scene".to_string()),
            Action::SpawnServer { .. } => Event::Spawned(Ok(77)),
            Action::Connect { .. } => Event::Answer(true),
            Action::LocateBrowser => Event::Answer(false),
            Action::WaitServer => Event::Exited(Ok(ChildEnd {
                code: Some(world.server_code),
                text: format!("exit status: {}", world.server_code),
            })),
            _ => Event::Done,
        };
        asked.push(action);
        run = run_record(run, event);
    }
    panic!("the orchestration did not end");
}

#[test]
fn orchestration_begins_with_the_working_directory() {
    let run = RecordRun::begin(wanted(7681), 24);
    assert_eq!(run.action(), Action::ValidateWorkdir { path: "/home/me".to_string() });
}

#[test]
fn steps_before_the_server_come_in_order() {
    let world = World { workdir: DirState::Usable, taken: vec![], server_code: 0 };
    let (code, asked) = orchestrate(wanted(7681), &world);
    assert_eq!(code, 0);
    assert_eq!(asked[0], Action::ValidateWorkdir { path: "/home/me".to_string() });
    assert_eq!(
        asked[1],
        Action::EnsureWritableDir { file: "/home/me/casts/cast-20240102-030405.cast".to_string() }
    );
    assert_eq!(asked[2], Action::ProbePort { port: 7681 });
    assert_eq!(asked[3], Action::LocateSelf);
    assert!(matches!(asked[4], Action::SpawnServer { .. }));
}

#[test]
fn taken_start_port_puts_the_server_on_the_next() {
    let world = World { workdir: DirState::Usable, taken: vec![7681], server_code: 0 };
    let (code, asked) = orchestrate(wanted(7681), &world);
    assert_eq!(code, 0);
    let probes: Vec<&Action> =
        asked.iter().filter(|a| matches!(a, Action::ProbePort { .. })).collect();
    assert_eq!(probes, vec![&Action::ProbePort { port: 7681 }, &Action::ProbePort { port: 7682 }]);
    let args = asked
        .iter()
        .find_map(|a| match a {
            Action::SpawnServer { args } => Some(args.clone()),
            _ => None,
        })
        .unwrap();
    assert_eq!(args[0], "-p");
    assert_eq!(args[1], "7682");
    assert!(!args.contains(&"7681".to_string()));
    assert!(asked.contains(&Action::Connect { port: 7682 }));
}

#[test]
fn server_gets_the_session_as_environment_and_arguments() {
    let world = World { workdir: DirState::Usable, taken: vec![], server_code: 0 };
    let (_, asked) = orchestrate(wanted(7681), &world);
    let args = asked
        .iter()
        .find_map(|a| match a {
            Action::SpawnServer { args } => Some(args.clone()),
            _ => None,
        })
        .unwrap();
    assert_eq!(
        args,
        vec![
            "-p",
            "7681",
            "-o",
            "-W",
            "-t",
            "fontSize=24",
            "-t",
            "disableReconnect=true",
            "-t",
            "titleFixed=cast",
            "env",
            "SESSION=cast",
            "TMUX_COLS=80",
            "TMUX_ROWS=24",
            "ASCII_OUT=/home/me/casts/cast-20240102-030405.cast",
            "WORKING_DIRECTORY=/home/me",
            "TMUX_KILL_ON_DETACH=false",
            "/usr/bin/shell-scene",
            "record-hook",
            "--child",
            "--session",
            "cast",
            "--cols",
            "80",
            "--rows",
            "24",
            "--out",
            "/home/me/casts/cast-20240102-030405.cast",
            "--workdir",
            "/home/me"
        ]
    );
}

#[test]
fn missing_working_directory_aborts_before_anything_is_started() {
    let world = World { workdir: DirState::Missing, taken: vec![], server_code: 0 };
    let (code, asked) = orchestrate(wanted(7681), &world);
    assert_ne!(code, 0);
    assert_eq!(code, EXIT_FAILURE);
    assert!(!asked.iter().any(is_process));
    assert_eq!(
        asked,
        vec![
            Action::ValidateWorkdir { path: "/home/me".to_string() },
            Action::Announce {
                line: "ERROR: WORKING_DIRECTORY does not exist: /home/me".to_string()
            }
        ]
    );
}

#[test]
fn unreadable_working_directory_aborts_too() {
    let world = World { workdir: DirState::Unreadable, taken: vec![], server_code: 0 };
    let (code, asked) = orchestrate(wanted(7681), &world);
    assert_eq!(code, EXIT_FAILURE);
    assert!(!asked.iter().any(is_process));
    assert_eq!(
        asked[1],
        Action::Announce { line: "ERROR: WORKING_DIRECTORY is not readable: /home/me".to_string() }
    );
}

#[test]
fn unwritable_output_directory_aborts_before_the_scan() {
    let run = RecordRun::begin(wanted(7681), 24);
    let run = run_record(run, Event::Workdir(DirState::Usable));
    let run = run_record(
        run,
        Event::OutputDir(WriteState::NotWritable { dir: "/home/me/casts".to_string() }),
    );
    assert_eq!(
        run.action(),
        Action::Announce { line: "ERROR: Directory is not writable: /home/me/casts".to_string() }
    );
    let run = run_record(run, Event::Done);
    assert_eq!(run.action(), Action::Exit { code: EXIT_FAILURE });
}

#[test]
fn output_directory_that_cannot_be_created_aborts() {
    let run = RecordRun::begin(wanted(7681), 24);
    let run = run_record(run, Event::Workdir(DirState::Usable));
    let run = run_record(
        run,
        Event::OutputDir(WriteState::CreateFailed {
            dir: "/proc/casts".to_string(),
            reason: "Permission denied (os error 13)".to_string(),
        }),
    );
    assert_eq!(
        run.action(),
        Action::Announce {
            line: "ERROR: Directory does not exist and could not be created: /proc/casts \
                   (Permission denied (os error 13))"
                .to_string()
        }
    );
}

#[test]
fn child_exit_code_three_is_the_orchestrators() {
    let world = World { workdir: DirState::Usable, taken: vec![], server_code: 3 };
    let (code, _) = orchestrate(wanted(7681), &world);
    assert_eq!(code, 3);
    assert_ne!(code, EXIT_FAILURE);
}

#[test]
fn full_port_space_ends_with_its_own_code() {
    let run = RecordRun::Scanning {
        desc: wanted(7681),
        font_size: 24,
        scan: PortScan { first: 7681, candidate: 7680 },
    };
    let run = run_record(run, Event::Answer(false));
    assert_eq!(
        run.action(),
        Action::Announce { line: "ERROR: No free TCP port found in range 1..=65535.".to_string() }
    );
    let run = run_record(run, Event::Done);
    assert_eq!(run.action(), Action::Exit { code: EXIT_NO_PORT });
}

#[test]
fn orchestration_over_a_full_port_space_tries_each_port_once() {
    let world =
        World { workdir: DirState::Usable, taken: (1..=65535).collect(), server_code: 0 };
    let (code, asked) = orchestrate(wanted(40000), &world);
    assert_eq!(code, EXIT_NO_PORT);
    let probes = asked.iter().filter(|a| matches!(a, Action::ProbePort { .. })).count();
    assert_eq!(probes, 65535);
    assert!(!asked.iter().any(is_process));
}

#[test]
fn start_port_zero_is_scanned_from_one() {
    let world = World { workdir: DirState::Usable, taken: vec![], server_code: 0 };
    let (_, asked) = orchestrate(wanted(0), &world);
    assert_eq!(asked[2], Action::ProbePort { port: 1 });
}

#[test]
fn finished_orchestration_stays_finished() {
    let run = RecordRun::Finished { code: 9 };
    let run = run_record(run, Event::Done);
    let run = run_record(run, Event::Answer(true));
    assert_eq!(run, RecordRun::Finished { code: 9 });
}

#[test]
fn event_that_answers_nothing_leaves_the_orchestration() {
    let run = run_record(RecordRun::begin(wanted(7681), 24), Event::Done);
    assert_eq!(run, RecordRun::begin(wanted(7681), 24));
}

#[test]
fn hook_checks_then_flows() {
    let run = HookRun::begin(wanted(7681));
    assert_eq!(run.action(), Action::ValidateWorkdir { path: "/home/me".to_string() });
    let run = run_record_hook(run, Event::Workdir(DirState::Usable));
    assert_eq!(
        run.action(),
        Action::EnsureWritableDir { file: "/home/me/casts/cast-20240102-030405.cast".to_string() }
    );
    let run = run_record_hook(run, Event::OutputDir(WriteState::Writable));
    assert_eq!(
        run.action(),
        Action::CreateParentDirs { file: "/home/me/casts/cast-20240102-030405.cast".to_string() }
    );
}

#[test]
fn hook_aborts_on_a_missing_working_directory() {
    let run = HookRun::begin(wanted(7681));
    let run = run_record_hook(run, Event::Workdir(DirState::Missing));
    assert_eq!(
        run.action(),
        Action::Announce { line: "ERROR: WORKING_DIRECTORY does not exist: /home/me".to_string() }
    );
    let run = run_record_hook(run, Event::Done);
    assert_eq!(run.action(), Action::Exit { code: EXIT_FAILURE });
    let run = run_record_hook(run, Event::Done);
    assert_eq!(run, HookRun::Finished { code: EXIT_FAILURE });
}

#[test]
fn hook_exits_with_the_recorders_code() {
    let mut run = HookRun::begin(wanted(7681));
    for _ in 0..64 {
        let event = match run.action() {
            Action::Exit { code } => {
                assert_eq!(code, 42);
                return;
            }
            Action::ValidateWorkdir { .. } => Event::Workdir(DirState::Usable),
            Action::EnsureWritableDir { .. } => Event::OutputDir(WriteState::Writable),
            Action::Tmux { .. } => {
                Event::Exited(Ok(ChildEnd { code: Some(0), text: "exit status: 0".to_string() }))
            }
            Action::Record { .. } => {
                Event::Exited(Ok(ChildEnd { code: Some(42), text: "exit status: 42".to_string() }))
            }
            _ => Event::Done,
        };
        run = run_record_hook(run, event);
    }
    panic!("the hook did not end");
}
