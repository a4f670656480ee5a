//! The shared mode/position holder.
//!
//! `SharedState` owns the two values that the event-processing path writes
//! and the query path reads: the discrete operating `mode` and the musical
//! time `position`. The position is held as its decimal text, exactly the
//! form in which the query path reports it; the caller that obtains the
//! position from the host renders it to text before handing it over.
//!
//! Every operation overwrites or reads a whole field at once, so a reader
//! always sees a value that some writer put there. The embedding program is
//! expected to wrap one `SharedState` in its mutual-exclusion primitive and
//! share it between the event path and the query path.

use vstd::prelude::*;
use vstd::string::StringExecFns;

verus! {

/// Holder of the current operating mode and transport position.
pub struct SharedState {
    /// The currently selected operating mode. Writers internal to the
    /// event router only ever store values in `0 ..= 8`; the holder itself
    /// accepts any value the caller supplies.
    pub mode: u8,
    /// The transport position in quarter-note units, as decimal text.
    pub position: String,
}

impl SharedState {
    /// A fresh holder with the default values: mode `0`, position `0`.
    pub fn new() -> (s: SharedState)
        ensures
            s.mode == 0,
            s.position@ == "0"@,
    {
        SharedState { mode: 0, position: String::from_str("0") }
    }

    /// Overwrite the mode; the position is untouched. No validation is
    /// applied beyond accepting the supplied value.
    pub fn set_mode(&mut self, value: u8)
        ensures
            final(self).mode == value,
            final(self).position == old(self).position,
    {
        self.mode = value;
    }

    /// Overwrite the position text; the mode is untouched. The last value
    /// written is the one every later read returns.
    pub fn set_position(&mut self, value: String)
        ensures
            final(self).position == value,
            final(self).mode == old(self).mode,
    {
        self.position = value;
    }

    /// Read the current mode.
    pub fn get_mode(&self) -> (m: u8)
        ensures
            m == self.mode,
    {
        self.mode
    }

    /// Read the current position text.
    pub fn get_position(&self) -> (p: String)
        ensures
            p@ == self.position@,
    {
        self.position.clone()
    }
}

} // verus!
