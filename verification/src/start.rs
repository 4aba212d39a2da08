//! Input gathered between two ticks.

use vstd::prelude::*;

verus! {

/// The pointer input of one tick: the last movement and the last scroll.
#[derive(Debug, Clone, Copy, PartialEq, Eq, Structural)]
pub struct MouseEvent {
    pub dx: i32,
    pub dy: i32,
    pub ds: i32,
}

/// What the event handlers leave for the tick to read.
#[derive(Debug, Clone, Copy, PartialEq, Eq, Structural)]
pub struct Events {
    pub paused: bool,
    pub mouse: MouseEvent,
}

impl Events {
    /// Hands out the pointer input gathered since the last tick and forgets
    /// it in the same step, so that no input is used twice or lost between
    /// reading and clearing.
    pub fn take(&mut self) -> (mouse: MouseEvent)
        ensures
            mouse == old(self).mouse,
            final(self).mouse == (MouseEvent { dx: 0, dy: 0, ds: 0 }),
            final(self).paused == old(self).paused,
    {
        let mouse = self.mouse;
        self.reset();
        mouse
    }

    /// Forgets the pointer input once the tick has used it. The pause flag
    /// stays.
    pub fn reset(&mut self)
        ensures
            final(self).mouse == (MouseEvent { dx: 0, dy: 0, ds: 0 }),
            final(self).paused == old(self).paused,
    {
        self.mouse = MouseEvent { dx: 0, dy: 0, ds: 0 }
    }
}

} // verus!
