use shell_scene::command::attach_command;
use shell_scene::command::hook_command;
use shell_scene::command::hook_env;
use shell_scene::command::push_all;
use shell_scene::command::push_number;
use shell_scene::command::push_text;
use shell_scene::command::recorder_args;
use shell_scene::command::recording_line;
use shell_scene::command::server_url;
use shell_scene::command::serving_line;
use shell_scene::command::socket_name;
use shell_scene::command::tmux_args;
use shell_scene::command::ttyd_args;
use shell_scene::command::waiting_line;
use shell_scene::command::TmuxCommand;
use shell_scene::session::SessionDescriptor;

fn demo_session(kill_on_detach: bool) -> SessionDescriptor {
    SessionDescriptor {
        session: "demo".to_string(),
        cols: 120,
        rows: 40,
        port: 7681,
        out: "/tmp/casts/demo.cast".to_string(),
        workdir: "/home/me/work".to_string(),
        kill_on_detach,
    }
}

#[test]
fn socket_is_named_after_the_session() {
    assert_eq!(socket_name("cast"), "ttyd-cast");
    assert_eq!(socket_name(""), "ttyd-");
}

#[test]
fn has_session_arguments() {
    let args = tmux_args(TmuxCommand::HasSession, &demo_session(false));
    assert_eq!(args, vec!["-L", "ttyd-demo", "has-session", "-t", "demo"]);
}

#[test]
fn new_session_arguments() {
    let args = tmux_args(TmuxCommand::NewSession, &demo_session(false));
    assert_eq!(
        args,
        vec![
            "-L",
            "ttyd-demo",
            "new-session",
            "-c",
            "/home/me/work",
            "-d",
            "-s",
            "demo",
            "-x",
            "120",
            "-y",
            "40",
            "bash",
            "-l"
        ]
    );
}

#[test]
fn chrome_arguments() {
    let s = demo_session(false);
    assert_eq!(
        tmux_args(TmuxCommand::StatusOff, &s),
        vec!["-L", "ttyd-demo", "set", "-g", "status", "off"]
    );
    assert_eq!(
        tmux_args(TmuxCommand::ManualSize, &s),
        vec!["-L", "ttyd-demo", "set", "-g", "window-size", "manual"]
    );
}

#[test]
fn resize_arguments_name_the_first_window() {
    let args = tmux_args(TmuxCommand::Resize, &demo_session(false));
    assert_eq!(
        args,
        vec!["-L", "ttyd-demo", "resize-window", "-t", "demo:0", "-x", "120", "-y", "40"]
    );
}

#[test]
fn teardown_arguments() {
    let s = demo_session(true);
    assert_eq!(
        tmux_args(TmuxCommand::KillSession, &s),
        vec!["-L", "ttyd-demo", "kill-session", "-t", "demo"]
    );
    assert_eq!(tmux_args(TmuxCommand::KillServer, &s), vec!["-L", "ttyd-demo", "kill-server"]);
}

#[test]
fn attach_command_quotes_socket_and_session() {
    assert_eq!(attach_command("demo"), "tmux -L \"ttyd-demo\" attach -t \"demo\"");
}

#[test]
fn recorder_arguments() {
    let args = recorder_args(&demo_session(false));
    assert_eq!(
        args,
        vec![
            "rec",
            "--overwrite",
            "-q",
            "--cols",
            "120",
            "--rows",
            "40",
            "/tmp/casts/demo.cast",
            "-c",
            "tmux -L \"ttyd-demo\" attach -t \"demo\""
        ]
    );
}

#[test]
fn hook_command_without_teardown() {
    let args = hook_command("/usr/bin/shell-scene", &demo_session(false));
    assert_eq!(
        args,
        vec![
            "/usr/bin/shell-scene",
            "record-hook",
            "--child",
            "--session",
            "demo",
            "--cols",
            "120",
            "--rows",
            "40",
            "--out",
            "/tmp/casts/demo.cast",
            "--workdir",
            "/home/me/work"
        ]
    );
}

#[test]
fn hook_command_with_teardown_ends_in_the_flag() {
    let args = hook_command("/usr/bin/shell-scene", &demo_session(true));
    assert_eq!(args.len(), 14);
    assert_eq!(args[13], "--kill-on-detach");
    assert_eq!(args[..13], hook_command("/usr/bin/shell-scene", &demo_session(false))[..]);
}

#[test]
fn hook_environment_names_every_setting() {
    assert_eq!(
        hook_env(&demo_session(false)),
        vec![
            "SESSION=demo",
            "TMUX_COLS=120",
            "TMUX_ROWS=40",
            "ASCII_OUT=/tmp/casts/demo.cast",
            "WORKING_DIRECTORY=/home/me/work",
            "TMUX_KILL_ON_DETACH=false"
        ]
    );
    assert_eq!(hook_env(&demo_session(true))[5], "TMUX_KILL_ON_DETACH=true");
}

#[test]
fn server_arguments_in_order() {
    let envs = vec!["A=1".to_string(), "B=2".to_string()];
    let command = vec!["prog".to_string(), "record-hook".to_string()];
    let args = ttyd_args(7682, 24, "demo", &envs, &command);
    assert_eq!(
        args,
        vec![
            "-p",
            "7682",
            "-o",
            "-W",
            "-t",
            "fontSize=24",
            "-t",
            "disableReconnect=true",
            "-t",
            "titleFixed=demo",
            "env",
            "A=1",
            "B=2",
            "prog",
            "record-hook"
        ]
    );
}

#[test]
fn server_arguments_without_environment_or_command() {
    let args = ttyd_args(1, 0, "", &Vec::new(), &Vec::new());
    assert_eq!(
        args,
        vec![
            "-p",
            "1",
            "-o",
            "-W",
            "-t",
            "fontSize=0",
            "-t",
            "disableReconnect=true",
            "-t",
            "titleFixed=",
            "env"
        ]
    );
}

#[test]
fn server_url_is_on_the_loopback_address() {
    assert_eq!(server_url(7681), "http://127.0.0.1:7681/");
    assert_eq!(server_url(65535), "http://127.0.0.1:65535/");
}

#[test]
fn announcement_lines() {
    assert_eq!(
        recording_line(&demo_session(false)),
        "[ttyd] Recording to: /tmp/casts/demo.cast (size 120x40)"
    );
    assert_eq!(waiting_line(7681), "[ttyd] Waiting for http://127.0.0.1:7681/ ...");
    assert_eq!(
        serving_line(7681, 4242),
        "[ttyd] Serving at http://127.0.0.1:7681/ (pid 4242). Press Ctrl-C to stop."
    );
}

#[test]
fn pushing_appends_at_the_end() {
    let mut args = vec!["a".to_string()];
    push_text(&mut args, "b");
    push_number(&mut args, 42);
    push_all(&mut args, &vec!["c".to_string(), "d".to_string()]);
    assert_eq!(args, vec!["a", "b", "42", "c", "d"]);
}
