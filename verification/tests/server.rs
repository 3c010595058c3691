use shell_scene::action::Action;
use shell_scene::action::ChildEnd;
use shell_scene::action::Event;
use shell_scene::exit::EXIT_FAILURE;
use shell_scene::exit::EXIT_SPAWN;
use shell_scene::exit::EXIT_WAIT;
use shell_scene::proc::spawn_ttyd_and_wait;
use shell_scene::proc::ServerPhase;
use shell_scene::proc::ServerRun;
use shell_scene::proc::READY_ATTEMPTS;
use shell_scene::proc::READY_INTERVAL_MS;

fn new_server() -> ServerRun {
    ServerRun::begin(
        7682,
        24,
        "cast".to_string(),
        vec!["SESSION=cast".to_string()],
        vec!["/bin/prog".to_string(), "record-hook".to_string()],
    )
}

/// Follows a server run to its exit. The server becomes reachable at
/// attempt number `up_at`, a browser opener is found if `browser`, and the
/// server ends as `end` says. Returns the exit code and every action that
/// was asked for, the exit left out.
fn follow_server(up_at: usize, browser: bool, end: fn() -> Event) -> (i32, Vec<Action>) {
    let mut run = new_server();
    let mut asked = Vec::new();
    let mut attempt: usize = 0;
    for _ in 0..1000 {
        let action = run.action();
        let event = match &action {
            Action::Exit { code } => return (*code, asked),
            Action::SpawnServer { .. } => Event::Spawned(Ok(4242)),
            Action::Connect { .. } => {
                attempt += 1;
                Event::Answer(attempt > up_at)
            }
            Action::LocateBrowser => Event::Answer(browser),
            Action::WaitServer => end(),
            _ => Event::Done,
        };
        asked.push(action);
        run = spawn_ttyd_and_wait(run, event);
    }
    panic!("the run did not end");
}

fn ended_with(code: i32) -> Event {
    Event::Exited(Ok(ChildEnd { code: Some(code), text: format!("exit status: {}", code) }))
}

#[test]
fn run_begins_by_starting_the_server() {
    let run = new_server();
    assert_eq!(run.phase, ServerPhase::Spawning);
    assert_eq!(
        run.action(),
        Action::SpawnServer {
            args: vec![
                "-p".to_string(),
                "7682".to_string(),
                "-o".to_string(),
                "-W".to_string(),
                "-t".to_string(),
                "fontSize=24".to_string(),
                "-t".to_string(),
                "disableReconnect=true".to_string(),
                "-t".to_string(),
                "titleFixed=cast".to_string(),
                "env".to_string(),
                "SESSION=cast".to_string(),
                "/bin/prog".to_string(),
                "record-hook".to_string(),
            ]
        }
    );
}

#[test]
fn steps_of_a_run_come_in_order() {
    let (code, asked) = follow_server(0, true, || ended_with(0));
    assert_eq!(code, 0);
    assert_eq!(asked.len(), 8);
    assert!(matches!(asked[0], Action::SpawnServer { .. }));
    assert_eq!(asked[1], Action::ForwardInterrupt { pid: 4242 });
    assert_eq!(
        asked[2],
        Action::Announce { line: "[ttyd] Waiting for http://127.0.0.1:7682/ ...".to_string() }
    );
    assert_eq!(asked[3], Action::Connect { port: 7682 });
    assert_eq!(asked[4], Action::LocateBrowser);
    assert_eq!(asked[5], Action::OpenBrowser { url: "http://127.0.0.1:7682/".to_string() });
    assert_eq!(
        asked[6],
        Action::Announce {
            line: "[ttyd] Serving at http://127.0.0.1:7682/ (pid 4242). Press Ctrl-C to stop."
                .to_string()
        }
    );
    assert_eq!(asked[7], Action::WaitServer);
}

#[test]
fn missing_browser_opener_is_no_error() {
    let (code, asked) = follow_server(0, false, || ended_with(0));
    assert_eq!(code, 0);
    assert!(!asked.iter().any(|a| matches!(a, Action::OpenBrowser { .. })));
    assert_eq!(asked.last(), Some(&Action::WaitServer));
}

#[test]
fn server_exit_code_is_passed_on() {
    assert_eq!(follow_server(0, true, || ended_with(3)).0, 3);
    assert_eq!(follow_server(0, false, || ended_with(0)).0, 0);
    assert_eq!(follow_server(5, false, || ended_with(255)).0, 255);
    assert_eq!(follow_server(5, false, || ended_with(-1)).0, -1);
}

#[test]
fn server_stopped_by_a_signal_gives_the_generic_failure() {
    let end =
        || Event::Exited(Ok(ChildEnd { code: None, text: "signal: 15 (SIGTERM)".to_string() }));
    assert_eq!(follow_server(0, true, end).0, EXIT_FAILURE);
}

#[test]
fn server_that_cannot_start_is_reported() {
    let run = new_server();
    let run = spawn_ttyd_and_wait(run, Event::Spawned(Err("not found".to_string())));
    assert_eq!(run.phase, ServerPhase::Reporting);
    assert_eq!(
        run.action(),
        Action::Announce { line: "ERROR: Failed to spawn ttyd: not found".to_string() }
    );
    let run = spawn_ttyd_and_wait(run, Event::Done);
    assert_eq!(run.action(), Action::Exit { code: EXIT_SPAWN });
}

#[test]
fn server_that_cannot_be_waited_on_is_reported() {
    let (code, asked) = follow_server(0, false, || Event::Exited(Err("interrupted".to_string())));
    assert_eq!(code, EXIT_WAIT);
    assert_eq!(
        asked.last(),
        Some(&Action::Announce { line: "ERROR: Failed waiting for ttyd: interrupted".to_string() })
    );
}

#[test]
fn unreachable_server_is_polled_to_the_budget_and_then_waited_on() {
    let (code, asked) = follow_server(usize::MAX, false, || ended_with(0));
    assert_eq!(code, 0);
    let connects = asked.iter().filter(|a| **a == Action::Connect { port: 7682 }).count();
    let sleeps = asked.iter().filter(|a| **a == Action::Sleep { millis: 50 }).count();
    assert_eq!(connects, 100);
    assert_eq!(sleeps, 100);
    assert_eq!(READY_ATTEMPTS, 100);
    assert_eq!(READY_INTERVAL_MS, 50);
    assert_eq!(asked.last(), Some(&Action::WaitServer));
}

#[test]
fn server_up_after_some_attempts_ends_the_polling() {
    let (_, asked) = follow_server(3, false, || ended_with(0));
    let connects = asked.iter().filter(|a| matches!(a, Action::Connect { .. })).count();
    let sleeps = asked.iter().filter(|a| matches!(a, Action::Sleep { .. })).count();
    assert_eq!(connects, 4);
    assert_eq!(sleeps, 3);
}

#[test]
fn event_that_answers_nothing_leaves_the_run() {
    let run = spawn_ttyd_and_wait(new_server(), Event::Done);
    assert_eq!(run, new_server());
    let run = spawn_ttyd_and_wait(run, Event::Answer(true));
    assert_eq!(run, new_server());
}
