//! Choosing the log level.

use vstd::prelude::*;

verus! {

/// How much is logged: nothing, or everything up to a level.
#[derive(Clone, Copy, Debug, PartialEq, Eq, Structural)]
pub enum LogLevel {
    Off,
    Error,
    Warn,
    Info,
    Debug,
    Trace,
}

/// The upper-case form of an ASCII letter; any other character is left as
/// it is.
pub open spec fn spec_ascii_upper(c: char) -> char {
    if 'a' <= c <= 'z' {
        ((c as u8) - 32) as char
    } else {
        c
    }
}

/// Whether two texts are the same but for the case of ASCII letters.
pub open spec fn spec_same_ignoring_case(a: Seq<char>, b: Seq<char>) -> bool {
    a.len() == b.len() && forall|i: int|
        0 <= i < a.len() ==> spec_ascii_upper(#[trigger] a[i]) == spec_ascii_upper(b[i])
}

/// The level that a name stands for: one of `off`, `error`, `warn`,
/// `info`, `debug` and `trace`, in any case.
pub open spec fn spec_parse_level(name: Seq<char>) -> Option<LogLevel> {
    if spec_same_ignoring_case(name, "OFF"@) {
        Some(LogLevel::Off)
    } else if spec_same_ignoring_case(name, "ERROR"@) {
        Some(LogLevel::Error)
    } else if spec_same_ignoring_case(name, "WARN"@) {
        Some(LogLevel::Warn)
    } else if spec_same_ignoring_case(name, "INFO"@) {
        Some(LogLevel::Info)
    } else if spec_same_ignoring_case(name, "DEBUG"@) {
        Some(LogLevel::Debug)
    } else if spec_same_ignoring_case(name, "TRACE"@) {
        Some(LogLevel::Trace)
    } else {
        None
    }
}

/// Parses the name of a level with the `log` crate's
/// `LevelFilter::from_str`. That function compares the name with `OFF`,
/// `ERROR`, `WARN`, `INFO`, `DEBUG` and `TRACE`, in this order and without
/// regard to the case of ASCII letters, and takes the first that matches;
/// the contract says the same.
#[verifier::external_body]
fn parse_level(name: &str) -> (r: Option<LogLevel>)
    ensures
        r == spec_parse_level(name@),
{
    match <log::LevelFilter as std::str::FromStr>::from_str(name) {
        Ok(log::LevelFilter::Off) => Some(LogLevel::Off),
        Ok(log::LevelFilter::Error) => Some(LogLevel::Error),
        Ok(log::LevelFilter::Warn) => Some(LogLevel::Warn),
        Ok(log::LevelFilter::Info) => Some(LogLevel::Info),
        Ok(log::LevelFilter::Debug) => Some(LogLevel::Debug),
        Ok(log::LevelFilter::Trace) => Some(LogLevel::Trace),
        Err(_) => None,
    }
}

/// The level that is logged at for a name: the level that the name stands
/// for, and `Info` for a name that stands for none.
pub open spec fn spec_level_filter(name: Seq<char>) -> LogLevel {
    match spec_parse_level(name) {
        Some(level) => level,
        None => LogLevel::Info,
    }
}

/// The level to log at for the name of a level. A name that is no level's
/// gives `Info`.
pub fn level_filter(name: &str) -> (r: LogLevel)
    ensures
        r == spec_level_filter(name@),
{
    match parse_level(name) {
        Some(level) => level,
        None => LogLevel::Info,
    }
}

/// The name of the level that is asked for: `debug` with the verbose flag,
/// else what the command line names, else what the environment names, else
/// `info`.
pub open spec fn spec_level_name(
    verbose: bool,
    cli: Option<Seq<char>>,
    env: Option<Seq<char>>,
) -> Seq<char> {
    if verbose {
        "debug"@
    } else {
        match cli {
            Some(name) => name,
            None => match env {
                Some(name) => name,
                None => "info"@,
            },
        }
    }
}

/// Chooses the name of the level to log at. The verbose flag wins over a
/// level named on the command line, which wins over one named in the
/// environment; with none of them the level is `info`.
pub fn level_name(verbose: bool, cli: Option<String>, env: Option<String>) -> (r: String)
    ensures
        r@ == spec_level_name(verbose, cli.deep_view(), env.deep_view()),
{
    if verbose {
        String::from_str("debug")
    } else {
        match cli {
            Some(name) => name,
            None => match env {
                Some(name) => name,
                None => String::from_str("info"),
            },
        }
    }
}

} // verus!
