//! Command lines of the three programs that a recording drives: the
//! multiplexer, the recorder and the web terminal server.

use vstd::prelude::*;
use crate::net::LOOPBACK;
use crate::session::SessionDescriptor;
use crate::session::SessionView;
use crate::text::render_u64;
use crate::text::spec_decimal;

verus! {

/// Appends one argument to an argument list.
pub fn push_text(args: &mut Vec<String>, piece: &str)
    ensures
        final(args).deep_view() == old(args).deep_view().push(piece@),
{
    args.push(String::from_str(piece));
    assert(args.deep_view() =~= old(args).deep_view().push(piece@));
}

/// Appends the decimal numeral of `n` to an argument list.
pub fn push_number(args: &mut Vec<String>, n: u64)
    ensures
        final(args).deep_view() == old(args).deep_view().push(spec_decimal(n as nat)),
{
    args.push(render_u64(n));
    assert(args.deep_view() =~= old(args).deep_view().push(spec_decimal(n as nat)));
}

/// Name of the multiplexer socket that belongs to a session.
pub open spec fn spec_socket_name(session: Seq<char>) -> Seq<char> {
    "ttyd-"@ + session
}

/// Builds the socket name of a session: `ttyd-` and the session's name.
pub fn socket_name(session: &str) -> (r: String)
    ensures
        r@ == spec_socket_name(session@),
{
    let mut r = String::from_str("ttyd-");
    r.append(session);
    r
}

/// What the multiplexer is asked to do to a session.
#[derive(Clone, Copy, Debug, PartialEq, Eq, Structural)]
pub enum TmuxCommand {
    /// Ask whether the session exists; changes nothing.
    HasSession,
    /// Create the session, detached, with a login shell.
    NewSession,
    /// Switch the status line off.
    StatusOff,
    /// Let the window size be set by hand.
    ManualSize,
    /// Give the session's first window the requested size.
    Resize,
    /// Destroy the session.
    KillSession,
    /// Stop the multiplexer server behind the session's socket.
    KillServer,
}

/// The arguments that every multiplexer call starts with: the socket.
pub open spec fn spec_tmux_prefix(session: Seq<char>) -> Seq<Seq<char>> {
    seq!["-L"@, spec_socket_name(session)]
}

/// The argument list of a multiplexer command for a session.
pub open spec fn spec_tmux_args(cmd: TmuxCommand, s: SessionView) -> Seq<Seq<char>> {
    spec_tmux_prefix(s.session) + match cmd {
        TmuxCommand::HasSession => seq!["has-session"@, "-t"@, s.session],
        TmuxCommand::NewSession => seq![
            "new-session"@,
            "-c"@,
            s.workdir,
            "-d"@,
            "-s"@,
            s.session,
            "-x"@,
            spec_decimal(s.cols as nat),
            "-y"@,
            spec_decimal(s.rows as nat),
            "bash"@,
            "-l"@,
        ],
        TmuxCommand::StatusOff => seq!["set"@, "-g"@, "status"@, "off"@],
        TmuxCommand::ManualSize => seq!["set"@, "-g"@, "window-size"@, "manual"@],
        TmuxCommand::Resize => seq![
            "resize-window"@,
            "-t"@,
            s.session + ":0"@,
            "-x"@,
            spec_decimal(s.cols as nat),
            "-y"@,
            spec_decimal(s.rows as nat),
        ],
        TmuxCommand::KillSession => seq!["kill-session"@, "-t"@, s.session],
        TmuxCommand::KillServer => seq!["kill-server"@],
    }
}

/// Builds the argument list of a multiplexer command.
pub fn tmux_args(cmd: TmuxCommand, s: &SessionDescriptor) -> (r: Vec<String>)
    ensures
        r.deep_view() == spec_tmux_args(cmd, s@),
{
    let mut r: Vec<String> = Vec::new();
    assert(r.deep_view() =~= Seq::<Seq<char>>::empty());
    push_text(&mut r, "-L");
    let sock = socket_name(s.session.as_str());
    push_text(&mut r, sock.as_str());
    match cmd {
        TmuxCommand::HasSession => {
            push_text(&mut r, "has-session");
            push_text(&mut r, "-t");
            push_text(&mut r, s.session.as_str());
        },
        TmuxCommand::NewSession => {
            push_text(&mut r, "new-session");
            push_text(&mut r, "-c");
            push_text(&mut r, s.workdir.as_str());
            push_text(&mut r, "-d");
            push_text(&mut r, "-s");
            push_text(&mut r, s.session.as_str());
            push_text(&mut r, "-x");
            push_number(&mut r, s.cols as u64);
            push_text(&mut r, "-y");
            push_number(&mut r, s.rows as u64);
            push_text(&mut r, "bash");
            push_text(&mut r, "-l");
        },
        TmuxCommand::StatusOff => {
            push_text(&mut r, "set");
            push_text(&mut r, "-g");
            push_text(&mut r, "status");
            push_text(&mut r, "off");
        },
        TmuxCommand::ManualSize => {
            push_text(&mut r, "set");
            push_text(&mut r, "-g");
            push_text(&mut r, "window-size");
            push_text(&mut r, "manual");
        },
        TmuxCommand::Resize => {
            push_text(&mut r, "resize-window");
            push_text(&mut r, "-t");
            let mut target = s.session.clone();
            target.append(":0");
            push_text(&mut r, target.as_str());
            push_text(&mut r, "-x");
            push_number(&mut r, s.cols as u64);
            push_text(&mut r, "-y");
            push_number(&mut r, s.rows as u64);
        },
        TmuxCommand::KillSession => {
            push_text(&mut r, "kill-session");
            push_text(&mut r, "-t");
            push_text(&mut r, s.session.as_str());
        },
        TmuxCommand::KillServer => {
            push_text(&mut r, "kill-server");
        },
    }
    assert(r.deep_view() =~= spec_tmux_args(cmd, s@));
    r
}

/// The command that the recorder runs inside the cast: attach to the
/// session through its socket.
pub open spec fn spec_attach_command(session: Seq<char>) -> Seq<char> {
    "tmux -L \""@ + spec_socket_name(session) + "\" attach -t \""@ + session + "\""@
}

/// Builds the attach command of a session.
pub fn attach_command(session: &str) -> (r: String)
    ensures
        r@ == spec_attach_command(session@),
{
    let sock = socket_name(session);
    let mut r = String::from_str("tmux -L \"");
    r.append(sock.as_str());
    r.append("\" attach -t \"");
    r.append(session);
    r.append("\"");
    r
}

/// The argument list of the recorder for a session.
pub open spec fn spec_recorder_args(s: SessionView) -> Seq<Seq<char>> {
    seq![
        "rec"@,
        "--overwrite"@,
        "-q"@,
        "--cols"@,
        spec_decimal(s.cols as nat),
        "--rows"@,
        spec_decimal(s.rows as nat),
        s.out,
        "-c"@,
        spec_attach_command(s.session),
    ]
}

/// Builds the argument list of the recorder: overwrite the cast file
/// quietly, at the session's size, and run the attach command in it.
pub fn recorder_args(s: &SessionDescriptor) -> (r: Vec<String>)
    ensures
        r.deep_view() == spec_recorder_args(s@),
{
    let mut r: Vec<String> = Vec::new();
    assert(r.deep_view() =~= Seq::<Seq<char>>::empty());
    push_text(&mut r, "rec");
    push_text(&mut r, "--overwrite");
    push_text(&mut r, "-q");
    push_text(&mut r, "--cols");
    push_number(&mut r, s.cols as u64);
    push_text(&mut r, "--rows");
    push_number(&mut r, s.rows as u64);
    push_text(&mut r, s.out.as_str());
    push_text(&mut r, "-c");
    let attach = attach_command(s.session.as_str());
    push_text(&mut r, attach.as_str());
    assert(r.deep_view() =~= spec_recorder_args(s@));
    r
}

/// The command line by which the server re-invokes this program in hook
/// mode: the program itself, the mode, and the session as arguments.
pub open spec fn spec_hook_command(exe: Seq<char>, s: SessionView) -> Seq<Seq<char>> {
    seq![
        exe,
        "record-hook"@,
        "--child"@,
        "--session"@,
        s.session,
        "--cols"@,
        spec_decimal(s.cols as nat),
        "--rows"@,
        spec_decimal(s.rows as nat),
        "--out"@,
        s.out,
        "--workdir"@,
        s.workdir,
    ] + if s.kill_on_detach {
        seq!["--kill-on-detach"@]
    } else {
        Seq::<Seq<char>>::empty()
    }
}

/// Builds the hook command line for the program at `exe`.
pub fn hook_command(exe: &str, s: &SessionDescriptor) -> (r: Vec<String>)
    ensures
        r.deep_view() == spec_hook_command(exe@, s@),
{
    let mut r: Vec<String> = Vec::new();
    assert(r.deep_view() =~= Seq::<Seq<char>>::empty());
    push_text(&mut r, exe);
    push_text(&mut r, "record-hook");
    push_text(&mut r, "--child");
    push_text(&mut r, "--session");
    push_text(&mut r, s.session.as_str());
    push_text(&mut r, "--cols");
    push_number(&mut r, s.cols as u64);
    push_text(&mut r, "--rows");
    push_number(&mut r, s.rows as u64);
    push_text(&mut r, "--out");
    push_text(&mut r, s.out.as_str());
    push_text(&mut r, "--workdir");
    push_text(&mut r, s.workdir.as_str());
    if s.kill_on_detach {
        push_text(&mut r, "--kill-on-detach");
    }
    assert(r.deep_view() =~= spec_hook_command(exe@, s@));
    r
}

/// The text of a flag in the environment: `true` or `false`.
pub open spec fn spec_flag_text(b: bool) -> Seq<char> {
    if b {
        "true"@
    } else {
        "false"@
    }
}

/// The environment that carries the session to the hook, as assignments
/// `NAME=value` in the order in which the server receives them.
pub open spec fn spec_hook_env(s: SessionView) -> Seq<Seq<char>> {
    seq![
        "SESSION="@ + s.session,
        "TMUX_COLS="@ + spec_decimal(s.cols as nat),
        "TMUX_ROWS="@ + spec_decimal(s.rows as nat),
        "ASCII_OUT="@ + s.out,
        "WORKING_DIRECTORY="@ + s.workdir,
        "TMUX_KILL_ON_DETACH="@ + spec_flag_text(s.kill_on_detach),
    ]
}

/// The session reaches the hook twice over: every setting of it stands
/// among the arguments of the hook command, behind its flag, and again in
/// the environment, under its name. The teardown policy is the flag
/// `--kill-on-detach`, which is there exactly if the policy is set.
pub proof fn session_reaches_hook_both_ways(exe: Seq<char>, s: SessionView)
    ensures
        ({
            let args = spec_hook_command(exe, s);
            let envs = spec_hook_env(s);
            &&& args[0] == exe
            &&& args[1] == "record-hook"@
            &&& args[3] == "--session"@ && args[4] == s.session
            &&& args[5] == "--cols"@ && args[6] == spec_decimal(s.cols as nat)
            &&& args[7] == "--rows"@ && args[8] == spec_decimal(s.rows as nat)
            &&& args[9] == "--out"@ && args[10] == s.out
            &&& args[11] == "--workdir"@ && args[12] == s.workdir
            &&& args.len() == (if s.kill_on_detach {
                14int
            } else {
                13int
            })
            &&& s.kill_on_detach ==> args[13] == "--kill-on-detach"@
            &&& envs.len() == 6
            &&& envs[0] == "SESSION="@ + s.session
            &&& envs[1] == "TMUX_COLS="@ + spec_decimal(s.cols as nat)
            &&& envs[2] == "TMUX_ROWS="@ + spec_decimal(s.rows as nat)
            &&& envs[3] == "ASCII_OUT="@ + s.out
            &&& envs[4] == "WORKING_DIRECTORY="@ + s.workdir
            &&& envs[5] == "TMUX_KILL_ON_DETACH="@ + spec_flag_text(s.kill_on_detach)
        }),
{
}

/// Appends the assignment `name=value` to an argument list.
fn push_assignment(args: &mut Vec<String>, name_eq: &str, value: &str)
    ensures
        final(args).deep_view() == old(args).deep_view().push(name_eq@ + value@),
{
    let mut a = String::from_str(name_eq);
    a.append(value);
    push_text(args, a.as_str());
}

/// Builds the environment assignments of the hook.
pub fn hook_env(s: &SessionDescriptor) -> (r: Vec<String>)
    ensures
        r.deep_view() == spec_hook_env(s@),
{
    let mut r: Vec<String> = Vec::new();
    assert(r.deep_view() =~= Seq::<Seq<char>>::empty());
    push_assignment(&mut r, "SESSION=", s.session.as_str());
    let cols = render_u64(s.cols as u64);
    push_assignment(&mut r, "TMUX_COLS=", cols.as_str());
    let rows = render_u64(s.rows as u64);
    push_assignment(&mut r, "TMUX_ROWS=", rows.as_str());
    push_assignment(&mut r, "ASCII_OUT=", s.out.as_str());
    push_assignment(&mut r, "WORKING_DIRECTORY=", s.workdir.as_str());
    let flag = if s.kill_on_detach {
        "true"
    } else {
        "false"
    };
    push_assignment(&mut r, "TMUX_KILL_ON_DETACH=", flag);
    assert(r.deep_view() =~= spec_hook_env(s@));
    r
}

/// The argument list of the web terminal server: the port, the options of
/// its page, then `env`, the assignments and the command that it runs for
/// each client.
pub open spec fn spec_ttyd_args(
    port: u16,
    font_size: u32,
    title: Seq<char>,
    envs: Seq<Seq<char>>,
    command: Seq<Seq<char>>,
) -> Seq<Seq<char>> {
    seq![
        "-p"@,
        spec_decimal(port as nat),
        "-o"@,
        "-W"@,
        "-t"@,
        "fontSize="@ + spec_decimal(font_size as nat),
        "-t"@,
        "disableReconnect=true"@,
        "-t"@,
        "titleFixed="@ + title,
        "env"@,
    ] + envs + command
}

/// Appends copies of all of `more` to an argument list.
pub fn push_all(args: &mut Vec<String>, more: &Vec<String>)
    ensures
        final(args).deep_view() == old(args).deep_view() + more.deep_view(),
{
    let mut i: usize = 0;
    assert(args.deep_view() =~= old(args).deep_view() + more.deep_view().take(0));
    while i < more.len()
        invariant
            i <= more.len(),
            args.deep_view() == old(args).deep_view() + more.deep_view().take(i as int),
        decreases more.len() - i,
    {
        push_text(args, more[i].as_str());
        assert(more.deep_view().take(i as int + 1) =~= more.deep_view().take(i as int).push(
            more[i as int]@,
        ));
        assert(args.deep_view() =~= old(args).deep_view() + more.deep_view().take(i as int + 1));
        i = i + 1;
    }
    assert(more.deep_view().take(more.len() as int) =~= more.deep_view());
}

/// Builds the argument list of the web terminal server.
pub fn ttyd_args(
    port: u16,
    font_size: u32,
    title: &str,
    envs: &Vec<String>,
    command: &Vec<String>,
) -> (r: Vec<String>)
    ensures
        r.deep_view() == spec_ttyd_args(port, font_size, title@, envs.deep_view(), command.deep_view()),
{
    let mut r: Vec<String> = Vec::new();
    assert(r.deep_view() =~= Seq::<Seq<char>>::empty());
    push_text(&mut r, "-p");
    push_number(&mut r, port as u64);
    push_text(&mut r, "-o");
    push_text(&mut r, "-W");
    push_text(&mut r, "-t");
    let font = render_u64(font_size as u64);
    push_assignment(&mut r, "fontSize=", font.as_str());
    push_text(&mut r, "-t");
    push_text(&mut r, "disableReconnect=true");
    push_text(&mut r, "-t");
    push_assignment(&mut r, "titleFixed=", title);
    push_text(&mut r, "env");
    push_all(&mut r, envs);
    push_all(&mut r, command);
    assert(r.deep_view() =~= spec_ttyd_args(
        port,
        font_size,
        title@,
        envs.deep_view(),
        command.deep_view(),
    ));
    r
}

/// The address at which the server answers on this machine.
pub open spec fn spec_server_url(port: u16) -> Seq<char> {
    "http://"@ + LOOPBACK@ + ":"@ + spec_decimal(port as nat) + "/"@
}

/// Builds the server's address for a port.
pub fn server_url(port: u16) -> (r: String)
    ensures
        r@ == spec_server_url(port),
{
    let mut r = String::from_str("http://");
    r.append(LOOPBACK);
    r.append(":");
    let p = render_u64(port as u64);
    r.append(p.as_str());
    r.append("/");
    r
}

/// The line that tells where a recording goes and at what size.
pub open spec fn spec_recording_line(s: SessionView) -> Seq<char> {
    "[ttyd] Recording to: "@ + s.out + " (size "@ + spec_decimal(s.cols as nat) + "x"@ + spec_decimal(
        s.rows as nat,
    ) + ")"@
}

/// Builds the line that tells where a recording goes and at what size.
pub fn recording_line(s: &SessionDescriptor) -> (r: String)
    ensures
        r@ == spec_recording_line(s@),
{
    let mut r = String::from_str("[ttyd] Recording to: ");
    r.append(s.out.as_str());
    r.append(" (size ");
    let cols = render_u64(s.cols as u64);
    r.append(cols.as_str());
    r.append("x");
    let rows = render_u64(s.rows as u64);
    r.append(rows.as_str());
    r.append(")");
    r
}

/// The line that tells which address the server is awaited at.
pub open spec fn spec_waiting_line(port: u16) -> Seq<char> {
    "[ttyd] Waiting for "@ + spec_server_url(port) + " ..."@
}

/// Builds the line that tells which address the server is awaited at.
pub fn waiting_line(port: u16) -> (r: String)
    ensures
        r@ == spec_waiting_line(port),
{
    let mut r = String::from_str("[ttyd] Waiting for ");
    let url = server_url(port);
    r.append(url.as_str());
    r.append(" ...");
    r
}

/// The line that tells where the server answers and how to stop it.
pub open spec fn spec_serving_line(port: u16, pid: u32) -> Seq<char> {
    "[ttyd] Serving at "@ + spec_server_url(port) + " (pid "@ + spec_decimal(pid as nat)
        + "). Press Ctrl-C to stop."@
}

/// Builds the line that tells where the server answers and how to stop it.
pub fn serving_line(port: u16, pid: u32) -> (r: String)
    ensures
        r@ == spec_serving_line(port, pid),
{
    let mut r = String::from_str("[ttyd] Serving at ");
    let url = server_url(port);
    r.append(url.as_str());
    r.append(" (pid ");
    let p = render_u64(pid as u64);
    r.append(p.as_str());
    r.append("). Press Ctrl-C to stop.");
    r
}

} // verus!
