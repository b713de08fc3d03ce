//! Input blocking while the overlay captures the mouse or keyboard.

use vstd::prelude::*;

verus! {

/// Which input methods to block.
#[derive(Clone, Copy, Debug, PartialEq, Eq, Structural)]
pub struct InputFlags {
    /// Input from a player's controller.
    pub game_pad: bool,
    /// Input from a player's keyboard.
    pub keyboard: bool,
    /// Input from a player's mouse.
    pub mouse: bool,
}

impl InputFlags {
    /// No input method selected.
    pub fn empty() -> (r: InputFlags)
        ensures
            !r.game_pad,
            !r.keyboard,
            !r.mouse,
    {
        InputFlags { game_pad: false, keyboard: false, mouse: false }
    }
}

/// A shared trait for structs that block inputs to the game itself.
pub trait InputBlocker {
    /// Blocks all input from inputs selected by [`InputFlags`] and unblocks
    /// all input from inputs that aren't selected.
    ///
    /// This doesn't remove blocks added by the game itself (for example
    /// because a platform overlay is active).
    fn block_only(&self, inputs: InputFlags);
}

/// An [`InputBlocker`] that does nothing. Used for games whose input
/// blocking hasn't yet been reverse-engineered.
pub struct NoOpInputBlocker;

impl InputBlocker for NoOpInputBlocker {
    fn block_only(&self, _inputs: InputFlags) {
    }
}

/// The inputs to block while the overlay captures input: mouse and keyboard
/// follow the capture state, and the pad is blocked only when both are
/// captured (for example while a modal dialog is up).
pub fn capture_flags(want_capture_mouse: bool, want_capture_keyboard: bool) -> (r: InputFlags)
    ensures
        r.mouse == want_capture_mouse,
        r.keyboard == want_capture_keyboard,
        r.game_pad == (want_capture_mouse && want_capture_keyboard),
{
    InputFlags {
        game_pad: want_capture_mouse && want_capture_keyboard,
        keyboard: want_capture_keyboard,
        mouse: want_capture_mouse,
    }
}

} // verus!
