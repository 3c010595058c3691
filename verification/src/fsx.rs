//! Judging what the file system reported, and naming cast files.

use vstd::prelude::*;
use crate::action::DirState;
use crate::action::spec_check_view;
use crate::action::WriteState;
use crate::action::WriteStateView;

verus! {

/// Name of the file that is created, and removed again, to find out
/// whether a directory can be written to.
pub const WRITABLE_PROBE: &'static str = ".writable_probe.tmp";

/// Name of the directory below the home directory in which casts go where
/// no output path is given.
pub const CAST_DIR: &'static str = "casts";

/// The current local time as `YYYYMMDD-HHMMSS`, from chrono's
/// `Local::now` and `DateTime::format` with `%Y%m%d-%H%M%S`. The text
/// depends on the clock and the time zone of the machine, so nothing is
/// claimed of it. chrono panics on a system clock that stands before 1970
/// and on time zone data that yields no local time; nothing that a caller
/// passes can rule that out.
#[verifier::external_body]
pub fn now_yyyymmdd_hhmmss() -> String {
    chrono::Local::now().format("%Y%m%d-%H%M%S").to_string()
}

/// The file name of a cast of `session` that was begun at `stamp`.
pub open spec fn spec_cast_file_name(session: Seq<char>, stamp: Seq<char>) -> Seq<char> {
    session + "-"@ + stamp + ".cast"@
}

/// Builds the file name of a cast: the session's name, a hyphen, the time
/// stamp, and the extension `.cast`.
pub fn cast_file_name(session: &str, stamp: &str) -> (r: String)
    ensures
        r@ == spec_cast_file_name(session@, stamp@),
{
    let mut r = String::from_str(session);
    r.append("-");
    r.append(stamp);
    r.append(".cast");
    r
}

/// The file name of a cast of `session` that begins now. Whatever the
/// clock says, the name is the one that `cast_file_name` builds from some
/// time stamp.
pub fn default_cast_name(session: &str) -> (r: String)
    ensures
        exists|stamp: Seq<char>| r@ == spec_cast_file_name(session@, stamp),
{
    let stamp = now_yyyymmdd_hhmmss();
    cast_file_name(session, stamp.as_str())
}

/// What the look-up of the home directory amounts to.
pub open spec fn spec_home_dir(var: Option<Seq<char>>) -> Result<Seq<char>, Seq<char>> {
    match var {
        Some(home) => Ok(home),
        None => Err("Could not determine $HOME"@),
    }
}

/// Judges the look-up of the home directory. `var` is the value of `HOME`
/// in the environment, if it is set. An unset `HOME` is an error.
pub fn home_dir(var: Option<String>) -> (r: Result<String, String>)
    ensures
        match r {
            Ok(home) => spec_home_dir(var.deep_view()) == Ok::<Seq<char>, Seq<char>>(home@),
            Err(e) => spec_home_dir(var.deep_view()) == Err::<Seq<char>, Seq<char>>(e@),
        },
{
    match var {
        Some(home) => Ok(home),
        None => Err(String::from_str("Could not determine $HOME")),
    }
}

/// What a look at the working directory amounts to.
pub open spec fn spec_validate_workdir(path: Seq<char>, state: DirState) -> Result<
    (),
    Seq<char>,
> {
    match state {
        DirState::Usable => Ok(()),
        DirState::Missing => Err("WORKING_DIRECTORY does not exist: "@ + path),
        DirState::Unreadable => Err("WORKING_DIRECTORY is not readable: "@ + path),
    }
}

/// Judges the working directory at `path`. It must be a directory, and its
/// entries must be listable; each failure has a message of its own.
pub fn validate_workdir(path: &str, state: DirState) -> (r: Result<(), String>)
    ensures
        spec_check_view(r) == spec_validate_workdir(path@, state),
{
    match state {
        DirState::Usable => Ok(()),
        DirState::Missing => {
            let mut e = String::from_str("WORKING_DIRECTORY does not exist: ");
            e.append(path);
            Err(e)
        },
        DirState::Unreadable => {
            let mut e = String::from_str("WORKING_DIRECTORY is not readable: ");
            e.append(path);
            Err(e)
        },
    }
}

/// What making a directory ready to be written to amounts to.
pub open spec fn spec_ensure_writable_dir(state: WriteStateView) -> Result<
    (),
    Seq<char>,
> {
    match state {
        WriteStateView::Writable => Ok(()),
        WriteStateView::CreateFailed { dir, reason } => Err(
            "Directory does not exist and could not be created: "@ + dir + " ("@ + reason + ")"@,
        ),
        WriteStateView::NotWritable { dir } => Err(
            "Directory is not writable: "@ + dir,
        ),
    }
}

/// Judges the directory that is to hold the cast file. It must exist, or
/// have been created, and a file must have been created in it; each
/// failure has a message of its own.
pub fn ensure_writable_dir(state: &WriteState) -> (r: Result<(), String>)
    ensures
        spec_check_view(r) == spec_ensure_writable_dir(state@),
{
    match state {
        WriteState::Writable => Ok(()),
        WriteState::CreateFailed { dir, reason } => {
            let mut e = String::from_str("Directory does not exist and could not be created: ");
            e.append(dir.as_str());
            e.append(" (");
            e.append(reason.as_str());
            e.append(")");
            Err(e)
        },
        WriteState::NotWritable { dir } => {
            let mut e = String::from_str("Directory is not writable: ");
            e.append(dir.as_str());
            Err(e)
        },
    }
}

} // verus!
