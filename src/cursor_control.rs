//! What the pointer and keyboard currently act on.

use crate::graph::BubbleId;
use vstd::prelude::*;

verus! {

/// How input is interpreted.
#[derive(Debug, Clone, Copy, PartialEq, Eq, Structural)]
pub enum InputMode {
    /// Pan the view and select bubbles.
    Travel,
    /// Edit the focused bubble.
    Edit(BubbleId),
}

impl Default for InputMode {
    fn default() -> (r: Self)
        ensures
            r == InputMode::Travel,
    {
        InputMode::Travel
    }
}

impl InputMode {
    /// The mode's name, in lower case.
    pub fn as_str(&self) -> (r: &'static str)
        ensures
            r@ == (match self {
                InputMode::Travel => "travel"@,
                InputMode::Edit(_) => "edit"@,
            }),
    {
        match self {
            InputMode::Travel => "travel",
            InputMode::Edit(_) => "edit",
        }
    }
}

/// The input mode and the selected bubble.
#[derive(Debug, Clone, Copy, PartialEq, Eq, Structural)]
pub struct CursorControl {
    pub input_mode: InputMode,
    /// The selected bubble, if any.
    pub selected: Option<BubbleId>,
}

impl Default for CursorControl {
    fn default() -> (r: Self)
        ensures
            r.input_mode == InputMode::Travel,
            r.selected is None,
    {
        CursorControl { input_mode: InputMode::Travel, selected: None }
    }
}

impl CursorControl {
    /// Switches to `mode`; the selection stays.
    pub fn change_mode(&mut self, mode: InputMode)
        ensures
            final(self).input_mode == mode,
            final(self).selected == old(self).selected,
    {
        self.input_mode = mode;
    }
}

} // verus!
