//! Pause and fullscreen state, driven by events from the page.

use vstd::prelude::*;
use crate::renderer::{Rect, Renderer};
use crate::viewport::Viewport;

verus! {

/// What the page is asked to do when fullscreen is toggled.
#[derive(Clone, Copy, Debug, PartialEq, Eq, Structural)]
pub enum FullscreenRequest {
    Enter,
    Exit,
}

/// Whether the game is paused and whether the page is fullscreen.
pub struct Game {
    fullscreen: bool,
    paused: bool,
}

impl Game {
    /// Whether the page is taken to be fullscreen.
    pub closed spec fn is_fullscreen(&self) -> bool {
        self.fullscreen
    }

    /// Whether the game is paused.
    pub closed spec fn is_paused(&self) -> bool {
        self.paused
    }

    /// A paused game on a page that is fullscreen or not, as given.
    pub fn new(fullscreen: bool) -> (g: Self)
        ensures
            g.is_fullscreen() == fullscreen,
            g.is_paused(),
    {
        Self { fullscreen, paused: true }
    }

    /// Whether the page is taken to be fullscreen.
    pub fn fullscreen(&self) -> (f: bool)
        ensures
            f == self.is_fullscreen(),
    {
        self.fullscreen
    }

    /// Whether the game is paused.
    pub fn paused(&self) -> (p: bool)
        ensures
            p == self.is_paused(),
    {
        self.paused
    }

    /// The pointer was captured or released: a paused game runs and a
    /// running game pauses. The camera's gestures are allowed exactly while
    /// the game runs.
    pub fn pointer_lock_changed(&mut self, viewport: &mut Viewport)
        ensures
            final(self).is_paused() == !old(self).is_paused(),
            final(self).is_fullscreen() == old(self).is_fullscreen(),
            final(viewport).zoom() == !final(self).is_paused(),
            final(viewport).rotate() == !final(self).is_paused(),
            final(viewport).proj() == old(viewport).proj(),
    {
        self.paused = !self.paused;
        if self.paused {
            viewport.lock();
        } else {
            viewport.unlock();
        }
    }

    /// The page entered or left fullscreen by itself.
    pub fn fullscreen_changed(&mut self, fullscreen: bool)
        ensures
            final(self).is_fullscreen() == fullscreen,
            final(self).is_paused() == old(self).is_paused(),
    {
        self.fullscreen = fullscreen;
    }

    /// The window took a new size: renderer and camera both follow, so the
    /// aspect of the projection is that of the surface.
    pub fn resized(&self, renderer: &mut Renderer, viewport: &mut Viewport, width: u32, height: u32)
        ensures
            *final(renderer) == old(renderer).spec_resize(width, height),
            *final(viewport) == old(viewport).spec_resize(width, height),
            final(renderer).well_formed(),
            final(renderer).surface() == (Rect { width, height }),
            final(viewport).proj().width == final(renderer).surface().width,
            final(viewport).proj().height == final(renderer).surface().height,
    {
        renderer.resize(width, height);
        viewport.resize(width, height);
    }

    /// The player asked to resume: the camera's gestures are allowed again.
    /// The caller asks the page to capture the pointer; the game leaves the
    /// pause when the page reports the capture.
    pub fn resume(&self, viewport: &mut Viewport)
        ensures
            final(viewport).zoom(),
            final(viewport).rotate(),
            final(viewport).proj() == old(viewport).proj(),
    {
        viewport.unlock();
    }

    /// Flips fullscreen and says what to ask of the page: to leave
    /// fullscreen when it was on, to enter it when it was off.
    pub fn toggle_fullscreen(&mut self) -> (request: FullscreenRequest)
        ensures
            final(self).is_fullscreen() == !old(self).is_fullscreen(),
            final(self).is_paused() == old(self).is_paused(),
            request == if old(self).is_fullscreen() {
                FullscreenRequest::Exit
            } else {
                FullscreenRequest::Enter
            },
    {
        if self.fullscreen {
            self.fullscreen = false;
            FullscreenRequest::Exit
        } else {
            self.fullscreen = true;
            FullscreenRequest::Enter
        }
    }

    /// Whether this tick steps the physics and draws: always on the first
    /// frame, and afterwards while the game is not paused.
    pub fn ticks(&self, first_frame: bool) -> (run: bool)
        ensures
            run == (!self.is_paused() || first_frame),
    {
        !self.paused || first_frame
    }
}

} // verus!
