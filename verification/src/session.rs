//! The session descriptor: what one recording is asked to be.

use vstd::prelude::*;

verus! {

/// One recording, as the configuration source hands it over: already typed
/// and already defaulted. The value is built once and never changed.
#[derive(Debug, PartialEq, Eq)]
pub struct SessionDescriptor {
    /// Name of the multiplexer session.
    pub session: String,
    /// Terminal width in columns.
    pub cols: u32,
    /// Terminal height in rows.
    pub rows: u32,
    /// Port at which free-port discovery starts.
    pub port: u16,
    /// Path of the cast file that the recorder writes.
    pub out: String,
    /// Directory in which a new multiplexer session starts.
    pub workdir: String,
    /// Teardown policy: destroy the session once the recorder has exited.
    pub kill_on_detach: bool,
}

/// A session descriptor as specifications see it: texts as sequences of
/// characters.
pub struct SessionView {
    pub session: Seq<char>,
    pub cols: u32,
    pub rows: u32,
    pub port: u16,
    pub out: Seq<char>,
    pub workdir: Seq<char>,
    pub kill_on_detach: bool,
}

impl View for SessionDescriptor {
    type V = SessionView;

    open spec fn view(&self) -> SessionView {
        SessionView {
            session: self.session@,
            cols: self.cols,
            rows: self.rows,
            port: self.port,
            out: self.out@,
            workdir: self.workdir@,
            kill_on_detach: self.kill_on_detach,
        }
    }
}

} // verus!
