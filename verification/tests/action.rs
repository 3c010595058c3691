use shell_scene::action::Action;
use shell_scene::action::Invocation;
use shell_scene::action::Stream;
use shell_scene::command::TmuxCommand;

#[test]
fn server_runs_without_input() {
    let action = Action::SpawnServer { args: vec!["-p".to_string(), "7681".to_string()] };
    assert_eq!(
        action.invocation(),
        Some(Invocation {
            program: "ttyd".to_string(),
            args: vec!["-p".to_string(), "7681".to_string()],
            stdin: Stream::Closed,
            stdout: Stream::Inherit,
            stderr: Stream::Inherit,
        })
    );
}

#[test]
fn browser_opener_runs_without_output() {
    let action = Action::OpenBrowser { url: "http://127.0.0.1:7681/".to_string() };
    assert_eq!(
        action.invocation(),
        Some(Invocation {
            program: "xdg-open".to_string(),
            args: vec!["http://127.0.0.1:7681/".to_string()],
            stdin: Stream::Inherit,
            stdout: Stream::Closed,
            stderr: Stream::Closed,
        })
    );
}

#[test]
fn quiet_multiplexer_run_discards_its_output() {
    let action = Action::Tmux {
        command: TmuxCommand::HasSession,
        args: vec!["has-session".to_string()],
        quiet: true,
    };
    assert_eq!(
        action.invocation(),
        Some(Invocation {
            program: "tmux".to_string(),
            args: vec!["has-session".to_string()],
            stdin: Stream::Inherit,
            stdout: Stream::Closed,
            stderr: Stream::Closed,
        })
    );
}

#[test]
fn other_multiplexer_runs_share_the_terminal() {
    let action = Action::Tmux {
        command: TmuxCommand::KillServer,
        args: vec!["kill-server".to_string()],
        quiet: false,
    };
    let inv = action.invocation().unwrap();
    assert_eq!(inv.program, "tmux");
    assert_eq!((inv.stdin, inv.stdout, inv.stderr), (Stream::Inherit, Stream::Inherit, Stream::Inherit));
}

#[test]
fn recorder_shares_the_terminal() {
    let action = Action::Record { args: vec!["rec".to_string()] };
    assert_eq!(
        action.invocation(),
        Some(Invocation {
            program: "asciinema".to_string(),
            args: vec!["rec".to_string()],
            stdin: Stream::Inherit,
            stdout: Stream::Inherit,
            stderr: Stream::Inherit,
        })
    );
}

#[test]
fn actions_that_run_nothing_have_no_invocation() {
    assert_eq!(Action::LocateSelf.invocation(), None);
    assert_eq!(Action::WaitServer.invocation(), None);
    assert_eq!(Action::ProbePort { port: 1 }.invocation(), None);
    assert_eq!(Action::Exit { code: 0 }.invocation(), None);
    assert_eq!(Action::Sleep { millis: 50 }.invocation(), None);
}
