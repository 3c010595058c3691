//! The programs that a recording needs, and those it can do without.

use vstd::prelude::*;
use crate::command::push_text;

verus! {

/// Whether a program of this name is found on the search path, by the
/// `which` crate's `which`. The answer depends on the search path and on
/// what is on disk, so nothing is claimed of it.
#[verifier::external_body]
pub fn have(cmd: &str) -> bool {
    which::which(cmd).is_ok()
}

/// Name of the web terminal server's program.
pub const TTYD: &'static str = "ttyd";

/// Name of the multiplexer's program.
pub const TMUX: &'static str = "tmux";

/// Name of the recorder's program.
pub const ASCIINEMA: &'static str = "asciinema";

/// Name of the program that opens a browser.
pub const BROWSER_OPENER: &'static str = "xdg-open";

/// The programs without which nothing can be recorded.
pub open spec fn spec_required_commands() -> Seq<Seq<char>> {
    seq![TTYD@, TMUX@, ASCIINEMA@]
}

/// Lists the programs without which nothing can be recorded.
pub fn required_commands() -> (r: Vec<String>)
    ensures
        r.deep_view() == spec_required_commands(),
{
    let mut r: Vec<String> = Vec::new();
    assert(r.deep_view() =~= Seq::<Seq<char>>::empty());
    push_text(&mut r, TTYD);
    push_text(&mut r, TMUX);
    push_text(&mut r, ASCIINEMA);
    assert(r.deep_view() =~= spec_required_commands());
    r
}

/// The line that names a missing program.
pub open spec fn spec_missing_line(cmd: Seq<char>) -> Seq<char> {
    "Missing required command: "@ + cmd
}

/// Whether program number `i` was found: `found[i]`, and no where the
/// answers end before `i`.
pub open spec fn spec_was_found(found: Seq<bool>, i: int) -> bool {
    0 <= i < found.len() && found[i]
}

/// One line for each of the first `n` of `cmds` that was not found, in the
/// order of `cmds`.
pub open spec fn spec_missing_lines(cmds: Seq<Seq<char>>, found: Seq<bool>, n: int) -> Seq<
    Seq<char>,
>
    decreases n,
{
    if n <= 0 {
        Seq::<Seq<char>>::empty()
    } else if spec_was_found(found, n - 1) {
        spec_missing_lines(cmds, found, n - 1)
    } else {
        spec_missing_lines(cmds, found, n - 1).push(spec_missing_line(cmds[n - 1]))
    }
}

/// What the check of the required programs amounts to: nothing where all
/// were found, else the report: a line for each missing program, and the
/// advice to install them.
pub open spec fn spec_require_cmds(cmds: Seq<Seq<char>>, found: Seq<bool>) -> Result<
    (),
    Seq<Seq<char>>,
> {
    let lines = spec_missing_lines(cmds, found, cmds.len() as int);
    if lines.len() == 0 {
        Ok(())
    } else {
        Err(lines.push("Please install all required dependencies."@))
    }
}

/// The outcome of a check that reports in lines, as specifications see
/// it.
pub open spec fn spec_report_view(r: Result<(), Vec<String>>) -> Result<(), Seq<Seq<char>>> {
    match r {
        Ok(_) => Ok(()),
        Err(lines) => Err(lines.deep_view()),
    }
}

/// Judges a search for programs: `found[i]` tells whether `cmds[i]` was
/// found, and a program without an answer counts as not found. Where any
/// is missing, the error is the report to print.
pub fn check_requirements(cmds: &Vec<String>, found: &Vec<bool>) -> (r: Result<(), Vec<String>>)
    ensures
        spec_report_view(r) == spec_require_cmds(cmds.deep_view(), found@),
{
    let mut lines: Vec<String> = Vec::new();
    assert(lines.deep_view() =~= Seq::<Seq<char>>::empty());
    let mut i: usize = 0;
    while i < cmds.len()
        invariant
            i <= cmds.len(),
            lines.deep_view() == spec_missing_lines(cmds.deep_view(), found@, i as int),
        decreases cmds.len() - i,
    {
        if !(i < found.len() && found[i]) {
            let mut line = String::from_str("Missing required command: ");
            line.append(cmds[i].as_str());
            push_text(&mut lines, line.as_str());
        }
        i = i + 1;
    }
    if lines.len() == 0 {
        Ok(())
    } else {
        push_text(&mut lines, "Please install all required dependencies.");
        Err(lines)
    }
}

/// Looks for each of `cmds` on the search path. Whatever is installed, the
/// result is what `check_requirements` makes of some answer for each
/// program: nothing, or the report to print before giving up.
pub fn require_cmds(cmds: &Vec<String>) -> (r: Result<(), Vec<String>>)
    ensures
        exists|found: Seq<bool>|
            found.len() == cmds.len() && spec_report_view(r) == #[trigger] spec_require_cmds(
                cmds.deep_view(),
                found,
            ),
{
    let mut found: Vec<bool> = Vec::new();
    let mut i: usize = 0;
    while i < cmds.len()
        invariant
            i <= cmds.len(),
            found.len() == i,
        decreases cmds.len() - i,
    {
        found.push(have(cmds[i].as_str()));
        i = i + 1;
    }
    check_requirements(cmds, &found)
}

/// The warning for a machine without a program to probe an address.
pub const NO_HTTP_PROBE: &'static str =
    "Neither 'curl' nor 'nc' found; readiness check uses a built-in TCP connect.";

/// The warning for a machine without a program to list sockets.
pub const NO_SOCKET_LISTER: &'static str =
    "Neither 'ss' nor 'netstat' found; using bind-probe to find a free port.";

/// The warning for a machine without a program to open a browser.
pub const NO_BROWSER_OPENER: &'static str =
    "'xdg-open' not found; not opening a browser automatically.";

/// The warnings for the helpers that were not found, in the order in which
/// they are given.
pub open spec fn spec_optional_warnings(
    http_probe: bool,
    socket_lister: bool,
    browser_opener: bool,
) -> Seq<Seq<char>> {
    (if http_probe {
        Seq::<Seq<char>>::empty()
    } else {
        seq![NO_HTTP_PROBE@]
    }) + (if socket_lister {
        Seq::<Seq<char>>::empty()
    } else {
        seq![NO_SOCKET_LISTER@]
    }) + (if browser_opener {
        Seq::<Seq<char>>::empty()
    } else {
        seq![NO_BROWSER_OPENER@]
    })
}

/// The warnings to give for the helpers that are not installed.
/// `http_probe` tells whether `curl` or `nc` was found, `socket_lister`
/// whether `ss` or `netstat` was, `browser_opener` whether `xdg-open`
/// was. None of them is needed: each has a built-in replacement, or is
/// done without.
pub fn optional_warnings(http_probe: bool, socket_lister: bool, browser_opener: bool) -> (r: Vec<
    String,
>)
    ensures
        r.deep_view() == spec_optional_warnings(http_probe, socket_lister, browser_opener),
{
    let mut r: Vec<String> = Vec::new();
    assert(r.deep_view() =~= Seq::<Seq<char>>::empty());
    if !http_probe {
        push_text(&mut r, NO_HTTP_PROBE);
    }
    if !socket_lister {
        push_text(&mut r, NO_SOCKET_LISTER);
    }
    if !browser_opener {
        push_text(&mut r, NO_BROWSER_OPENER);
    }
    assert(r.deep_view() =~= spec_optional_warnings(http_probe, socket_lister, browser_opener));
    r
}

/// Looks for the optional helpers and returns the warnings to give.
/// Whatever is installed, the result is what `optional_warnings` gives for
/// some answer to each of its three questions.
pub fn warn_optionals() -> (r: Vec<String>)
    ensures
        exists|http_probe: bool, socket_lister: bool, browser_opener: bool|
            r.deep_view() == #[trigger] spec_optional_warnings(
                http_probe,
                socket_lister,
                browser_opener,
            ),
{
    let http_probe = have("curl") || have("nc");
    let socket_lister = have("ss") || have("netstat");
    let browser_opener = have(BROWSER_OPENER);
    optional_warnings(http_probe, socket_lister, browser_opener)
}

} // verus!
