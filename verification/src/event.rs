//! The abstract input events the interface reacts to.  Reading the
//! terminal and mapping raw key presses happen with the callers.

use vstd::prelude::*;

verus! {

#[derive(Debug, Clone, Copy, PartialEq, Eq, Structural)]
pub enum Event {
    Quit,
    Tab(usize),
    NextTab,
    PrevTab,
    Up,
    Down,
    Enter,
    Refresh,
    Help,
    Idle,
}

} // verus!
