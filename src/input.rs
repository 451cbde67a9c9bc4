use vstd::prelude::*;

use crate::joypad::Key;

verus! {

/// An event from the host's input source.
#[derive(Debug, Clone, Copy, PartialEq, Eq, Structural)]
pub enum Control {
    KeyUp(Key),
    KeyDown(Key),
    Quit,
}

} // verus!
