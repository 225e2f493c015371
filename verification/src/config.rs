//! The daemon's switches.
use vstd::prelude::*;

verus! {

/// The settings that steer the gesture logic. (The pointer speed factor
/// is a floating-point number and is applied where the motion is scaled,
/// outside this crate.)
#[derive(Clone, Copy, Debug, PartialEq, Eq, Structural)]
pub struct InputConfig {
    /// A short touch without motion clicks the left button.
    pub tap_to_click: bool,
    /// Two-finger scrolling moves the content with the fingers.
    pub natural_scrolling: bool,
    /// Touchpad motion and taps are dropped right after a keystroke.
    pub disable_while_typing: bool,
}

impl Default for InputConfig {
    /// Every switch on.
    fn default() -> (c: InputConfig)
        ensures
            c.tap_to_click,
            c.natural_scrolling,
            c.disable_while_typing,
    {
        InputConfig { tap_to_click: true, natural_scrolling: true, disable_while_typing: true }
    }
}

} // verus!
