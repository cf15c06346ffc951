//! The terminal-mode model: which modes a session holds at each moment.
//!
//! The real terminal is switched by the surrounding program; this model is
//! the session's book-keeping of the three flags that matter — raw mode,
//! the alternate screen, and a hidden cursor — and it pins down the one
//! unconditional guarantee of the design: whatever the event loop's
//! outcome, the session ends with every flag back in its original state.

use vstd::prelude::*;
use crate::error::AppError;

verus! {

/// The four terminal states a session touches: raw mode, the alternate
/// screen, a hidden cursor, and the colour attributes. A fresh shell is in
/// cooked mode on the primary screen with a visible cursor and default
/// colours; `enter` turns raw mode and the alternate screen on; painting
/// hides the cursor and leaves the frame's own colours set; `restore`
/// brings every one of the four back.
#[derive(Clone, Copy, PartialEq, Eq, Structural, Debug)]
pub struct TerminalModes {
    pub raw_mode: bool,
    pub alternate_screen: bool,
    pub cursor_hidden: bool,
    pub colors_default: bool,
}

impl TerminalModes {
    /// The terminal as the session finds it and must leave it: cooked mode,
    /// primary screen, visible cursor, default colours.
    pub open spec fn is_original(self) -> bool {
        &&& !self.raw_mode
        &&& !self.alternate_screen
        &&& !self.cursor_hidden
        &&& self.colors_default
    }

    /// The state of the shell before the session starts.
    pub fn initial() -> (t: TerminalModes)
        ensures
            t.is_original(),
    {
        TerminalModes {
            raw_mode: false,
            alternate_screen: false,
            cursor_hidden: false,
            colors_default: true,
        }
    }

    /// Entering the session: alternate screen first, then raw mode.
    pub fn enter(&mut self)
        ensures
            final(self).raw_mode,
            final(self).alternate_screen,
            final(self).cursor_hidden == old(self).cursor_hidden,
            final(self).colors_default == old(self).colors_default,
    {
        self.alternate_screen = true;
        self.raw_mode = true;
    }

    /// Painting a frame hides the cursor before writing; the frame text
    /// carries colour attributes of its own, so afterwards the colours can
    /// no longer be assumed default.
    pub fn on_paint(&mut self)
        ensures
            final(self).cursor_hidden,
            !final(self).colors_default,
            final(self).raw_mode == old(self).raw_mode,
            final(self).alternate_screen == old(self).alternate_screen,
    {
        self.cursor_hidden = true;
        self.colors_default = false;
    }

    /// Restoration: default colours, visible cursor, primary screen, cooked
    /// mode — from any state whatsoever.
    pub fn restore(&mut self)
        ensures
            final(self).is_original(),
    {
        self.colors_default = true;
        self.cursor_hidden = false;
        self.alternate_screen = false;
        self.raw_mode = false;
    }
}

/// Closes a session. The loop's outcome — clean exit or any failure,
/// including one in the middle of a paint — is handed in; the modes are
/// restored first, unconditionally, and only then is the outcome surfaced.
pub fn conclude_session(modes: &mut TerminalModes, outcome: Result<(), AppError>) -> (r: Result<
    (),
    AppError,
>)
    ensures
        final(modes).is_original(),
        r == outcome,
{
    modes.restore();
    outcome
}

} // verus!
