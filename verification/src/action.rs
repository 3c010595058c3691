//! The vocabulary between the decisions and whoever carries them out:
//! actions to perform and events that report what came of them.

use vstd::prelude::*;
use crate::command::push_text;
use crate::command::TmuxCommand;
use crate::deps::ASCIINEMA;
use crate::deps::BROWSER_OPENER;
use crate::deps::TMUX;
use crate::deps::TTYD;

verus! {

/// What a look at the working directory found.
#[derive(Clone, Copy, Debug, PartialEq, Eq, Structural)]
pub enum DirState {
    /// It is a directory and its entries can be listed.
    Usable,
    /// There is no directory at the path.
    Missing,
    /// It is a directory, but its entries cannot be listed.
    Unreadable,
}

/// What came of making a directory ready to be written to.
#[derive(Debug, PartialEq, Eq)]
pub enum WriteState {
    /// The directory exists, and a probe file could be created in it.
    Writable,
    /// The directory `dir` did not exist and could not be created, for
    /// `reason`.
    CreateFailed { dir: String, reason: String },
    /// The directory `dir` exists, but no file can be created in it.
    NotWritable { dir: String },
}

/// `WriteState` as specifications see it.
pub enum WriteStateView {
    Writable,
    CreateFailed { dir: Seq<char>, reason: Seq<char> },
    NotWritable { dir: Seq<char> },
}

impl View for WriteState {
    type V = WriteStateView;

    open spec fn view(&self) -> WriteStateView {
        match self {
            WriteState::Writable => WriteStateView::Writable,
            WriteState::CreateFailed { dir, reason } => WriteStateView::CreateFailed {
                dir: dir@,
                reason: reason@,
            },
            WriteState::NotWritable { dir } => WriteStateView::NotWritable { dir: dir@ },
        }
    }
}

/// One thing for the caller to do. Each action names the event that
/// answers it.
#[derive(Debug, PartialEq, Eq)]
pub enum Action {
    /// Look whether `path` is a directory whose entries can be listed.
    /// Answered by `Event::Workdir`.
    ValidateWorkdir { path: String },
    /// Create the directory that holds `file`, with its parents, and try to
    /// create a probe file in it. Answered by `Event::OutputDir`.
    EnsureWritableDir { file: String },
    /// Bind a listening socket on the local address at `port` and release
    /// it at once. Answered by `Event::Answer`: whether it could be bound.
    ProbePort { port: u16 },
    /// Find the path of the running program. Answered by `Event::Path`.
    LocateSelf,
    /// Start the web terminal server with `args`, its input closed and its
    /// output inherited. Answered by `Event::Spawned`.
    SpawnServer { args: Vec<String> },
    /// From now on, pass an interrupt on to process `pid` as a request to
    /// terminate. Answered by `Event::Done`, whether or not it worked.
    ForwardInterrupt { pid: u32 },
    /// Write `line` to the error stream. Answered by `Event::Done`.
    Announce { line: String },
    /// Try to connect to the local address at `port`. Answered by
    /// `Event::Answer`: whether it connected.
    Connect { port: u16 },
    /// Sleep for `millis` milliseconds. Answered by `Event::Done`.
    Sleep { millis: u64 },
    /// Look whether a program that opens a browser is installed. Answered
    /// by `Event::Answer`.
    LocateBrowser,
    /// Start the browser opener on `url` and let it go. Answered by
    /// `Event::Done`, whether or not it started.
    OpenBrowser { url: String },
    /// Wait for the web terminal server to exit. Answered by
    /// `Event::Exited`.
    WaitServer,
    /// Create the directory that holds `file`, with its parents. Answered
    /// by `Event::Done`, whether or not it worked.
    CreateParentDirs { file: String },
    /// Run the multiplexer with `args`, which are those of `command`, and
    /// wait for it; discard what it prints if `quiet`. Answered by
    /// `Event::Exited`.
    Tmux { command: TmuxCommand, args: Vec<String>, quiet: bool },
    /// Run the recorder with `args` on the inherited terminal and wait for
    /// it. Answered by `Event::Exited`.
    Record { args: Vec<String> },
    /// Leave with `code`. Nothing answers this.
    Exit { code: i32 },
}

/// `Action` as specifications see it.
pub enum ActionView {
    ValidateWorkdir { path: Seq<char> },
    EnsureWritableDir { file: Seq<char> },
    ProbePort { port: u16 },
    LocateSelf,
    SpawnServer { args: Seq<Seq<char>> },
    ForwardInterrupt { pid: u32 },
    Announce { line: Seq<char> },
    Connect { port: u16 },
    Sleep { millis: u64 },
    LocateBrowser,
    OpenBrowser { url: Seq<char> },
    WaitServer,
    CreateParentDirs { file: Seq<char> },
    Tmux { command: TmuxCommand, args: Seq<Seq<char>>, quiet: bool },
    Record { args: Seq<Seq<char>> },
    Exit { code: i32 },
}

impl View for Action {
    type V = ActionView;

    open spec fn view(&self) -> ActionView {
        match self {
            Action::ValidateWorkdir { path } => ActionView::ValidateWorkdir { path: path@ },
            Action::EnsureWritableDir { file } => ActionView::EnsureWritableDir { file: file@ },
            Action::ProbePort { port } => ActionView::ProbePort { port: *port },
            Action::LocateSelf => ActionView::LocateSelf,
            Action::SpawnServer { args } => ActionView::SpawnServer { args: args.deep_view() },
            Action::ForwardInterrupt { pid } => ActionView::ForwardInterrupt { pid: *pid },
            Action::Announce { line } => ActionView::Announce { line: line@ },
            Action::Connect { port } => ActionView::Connect { port: *port },
            Action::Sleep { millis } => ActionView::Sleep { millis: *millis },
            Action::LocateBrowser => ActionView::LocateBrowser,
            Action::OpenBrowser { url } => ActionView::OpenBrowser { url: url@ },
            Action::WaitServer => ActionView::WaitServer,
            Action::CreateParentDirs { file } => ActionView::CreateParentDirs { file: file@ },
            Action::Tmux { command, args, quiet } => ActionView::Tmux {
                command: *command,
                args: args.deep_view(),
                quiet: *quiet,
            },
            Action::Record { args } => ActionView::Record { args: args.deep_view() },
            Action::Exit { code } => ActionView::Exit { code: *code },
        }
    }
}

/// What becomes of one of the three standard streams of a child.
#[derive(Clone, Copy, Debug, PartialEq, Eq, Structural)]
pub enum Stream {
    /// The child shares the stream of the caller.
    Inherit,
    /// The stream is closed off: nothing comes in, and what goes out is
    /// discarded.
    Closed,
}

/// How a child process is to be run: the program, its arguments, and its
/// three standard streams.
#[derive(Debug, PartialEq, Eq)]
pub struct Invocation {
    /// Name of the program, to be found on the search path.
    pub program: String,
    /// Its arguments.
    pub args: Vec<String>,
    /// Its standard input.
    pub stdin: Stream,
    /// Its standard output.
    pub stdout: Stream,
    /// Its standard error.
    pub stderr: Stream,
}

/// `Invocation` as specifications see it.
pub struct InvocationView {
    pub program: Seq<char>,
    pub args: Seq<Seq<char>>,
    pub stdin: Stream,
    pub stdout: Stream,
    pub stderr: Stream,
}

impl View for Invocation {
    type V = InvocationView;

    open spec fn view(&self) -> InvocationView {
        InvocationView {
            program: self.program@,
            args: self.args.deep_view(),
            stdin: self.stdin,
            stdout: self.stdout,
            stderr: self.stderr,
        }
    }
}

/// The stream of a child whose output is discarded if `quiet`.
pub open spec fn spec_output(quiet: bool) -> Stream {
    if quiet {
        Stream::Closed
    } else {
        Stream::Inherit
    }
}

impl ActionView {
    /// How the child of an action is to be run; none for an action that
    /// runs no child.
    ///
    /// The server gets no input, for its clients come over the network,
    /// and shares the caller's output. The browser opener's output is
    /// discarded. The multiplexer's output is discarded where the action
    /// says so. The recorder shares the caller's terminal.
    pub open spec fn spec_invocation(self) -> Option<InvocationView> {
        match self {
            ActionView::SpawnServer { args } => Some(
                InvocationView {
                    program: TTYD@,
                    args,
                    stdin: Stream::Closed,
                    stdout: Stream::Inherit,
                    stderr: Stream::Inherit,
                },
            ),
            ActionView::OpenBrowser { url } => Some(
                InvocationView {
                    program: BROWSER_OPENER@,
                    args: seq![url],
                    stdin: Stream::Inherit,
                    stdout: Stream::Closed,
                    stderr: Stream::Closed,
                },
            ),
            ActionView::Tmux { command, args, quiet } => Some(
                InvocationView {
                    program: TMUX@,
                    args,
                    stdin: Stream::Inherit,
                    stdout: spec_output(quiet),
                    stderr: spec_output(quiet),
                },
            ),
            ActionView::Record { args } => Some(
                InvocationView {
                    program: ASCIINEMA@,
                    args,
                    stdin: Stream::Inherit,
                    stdout: Stream::Inherit,
                    stderr: Stream::Inherit,
                },
            ),
            _ => None,
        }
    }
}

/// A copy of an argument list.
fn copy_args(args: &Vec<String>) -> (r: Vec<String>)
    ensures
        r.deep_view() == args.deep_view(),
{
    let mut r: Vec<String> = Vec::new();
    assert(r.deep_view() =~= Seq::<Seq<char>>::empty());
    crate::command::push_all(&mut r, args);
    assert(r.deep_view() =~= args.deep_view());
    r
}

impl Action {
    /// How the child of this action is to be run; none for an action that
    /// runs no child.
    pub fn invocation(&self) -> (r: Option<Invocation>)
        ensures
            r.is_some() == self@.spec_invocation().is_some(),
            r matches Some(inv) ==> inv@ == self@.spec_invocation()->0,
    {
        match self {
            Action::SpawnServer { args } => Some(
                Invocation {
                    program: String::from_str(TTYD),
                    args: copy_args(args),
                    stdin: Stream::Closed,
                    stdout: Stream::Inherit,
                    stderr: Stream::Inherit,
                },
            ),
            Action::OpenBrowser { url } => {
                let mut args: Vec<String> = Vec::new();
                assert(args.deep_view() =~= Seq::<Seq<char>>::empty());
                push_text(&mut args, url.as_str());
                assert(args.deep_view() =~= seq![url@]);
                Some(
                    Invocation {
                        program: String::from_str(BROWSER_OPENER),
                        args,
                        stdin: Stream::Inherit,
                        stdout: Stream::Closed,
                        stderr: Stream::Closed,
                    },
                )
            },
            Action::Tmux { command, args, quiet } => {
                let output = if *quiet {
                    Stream::Closed
                } else {
                    Stream::Inherit
                };
                Some(
                    Invocation {
                        program: String::from_str(TMUX),
                        args: copy_args(args),
                        stdin: Stream::Inherit,
                        stdout: output,
                        stderr: output,
                    },
                )
            },
            Action::Record { args } => Some(
                Invocation {
                    program: String::from_str(ASCIINEMA),
                    args: copy_args(args),
                    stdin: Stream::Inherit,
                    stdout: Stream::Inherit,
                    stderr: Stream::Inherit,
                },
            ),
            _ => None,
        }
    }
}

/// How a child process ended, in plain values.
#[derive(Debug, PartialEq, Eq)]
pub struct ChildEnd {
    /// Its exit code; none where a signal stopped it.
    pub code: Option<i32>,
    /// Its exit status in words, as the operating system puts it.
    pub text: String,
}

/// `ChildEnd` as specifications see it.
pub struct ChildEndView {
    pub code: Option<i32>,
    pub text: Seq<char>,
}

impl View for ChildEnd {
    type V = ChildEndView;

    open spec fn view(&self) -> ChildEndView {
        ChildEndView { code: self.code, text: self.text@ }
    }
}

impl ChildEndView {
    /// A child succeeded if it exited, and with code zero.
    pub open spec fn success(self) -> bool {
        self.code == Some(0i32)
    }
}

/// What came of running a child to its end: how it ended, or, where it
/// could not be started or waited on, the reason in words.
pub type Outcome = Result<ChildEnd, String>;

/// `Outcome` as specifications see it.
pub type OutcomeView = Result<ChildEndView, Seq<char>>;

/// The view of an outcome.
pub open spec fn spec_outcome_view(o: Outcome) -> OutcomeView {
    match o {
        Ok(end) => Ok(end@),
        Err(reason) => Err(reason@),
    }
}

/// The outcome of a check, as specifications see it: nothing, or the
/// failure in words.
pub open spec fn spec_check_view(r: Result<(), String>) -> Result<(), Seq<char>> {
    match r {
        Ok(_) => Ok(()),
        Err(e) => Err(e@),
    }
}

/// What came of an action.
#[derive(Debug, PartialEq, Eq)]
pub enum Event {
    /// The action was carried out; nothing of its outcome matters.
    Done,
    /// The answer to a question: yes or no.
    Answer(bool),
    /// What the working directory is like.
    Workdir(DirState),
    /// Whether the output directory can be written to.
    OutputDir(WriteState),
    /// The path of the running program.
    Path(String),
    /// The server was started as the process with this identifier, or
    /// could not be started, for the reason given.
    Spawned(Result<u32, String>),
    /// A child has run to its end, or could not be run.
    Exited(Outcome),
}

/// `Event` as specifications see it.
pub enum EventView {
    Done,
    Answer(bool),
    Workdir(DirState),
    OutputDir(WriteStateView),
    Path(Seq<char>),
    Spawned(Result<u32, Seq<char>>),
    Exited(OutcomeView),
}

impl View for Event {
    type V = EventView;

    open spec fn view(&self) -> EventView {
        match self {
            Event::Done => EventView::Done,
            Event::Answer(b) => EventView::Answer(*b),
            Event::Workdir(d) => EventView::Workdir(*d),
            Event::OutputDir(w) => EventView::OutputDir(w@),
            Event::Path(p) => EventView::Path(p@),
            Event::Spawned(r) => EventView::Spawned(
                match r {
                    Ok(pid) => Ok(*pid),
                    Err(e) => Err(e@),
                },
            ),
            Event::Exited(o) => EventView::Exited(spec_outcome_view(*o)),
        }
    }
}

} // verus!
