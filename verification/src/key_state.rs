//! The input snapshot a tick sees.
//!
//! The host samples its input source once per tick and hands the simulation
//! this set of currently-held abstract commands; no partial or analog input
//! exists.

use vstd::prelude::*;

verus! {

/// Which commands are held during one tick: move forward, jump, slide.
#[derive(Clone, Copy, PartialEq, Eq, Structural, Debug)]
pub struct KeyState {
    pub arrow_right: bool,
    pub space: bool,
    pub arrow_down: bool,
}

impl KeyState {
    /// A snapshot with nothing held.
    pub fn new() -> (r: KeyState)
        ensures
            r == (KeyState { arrow_right: false, space: false, arrow_down: false }),
    {
        KeyState { arrow_right: false, space: false, arrow_down: false }
    }
}

} // verus!
