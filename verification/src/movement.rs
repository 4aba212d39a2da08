//! Movement intent accumulated from the keyboard.

use vstd::prelude::*;
use vstd::string::StrSliceExecFns;

verus! {

/// Net movement intent along the two steering axes: `dx` counts right minus
/// left, `dy` counts forward minus backward.
#[derive(Debug)]
pub struct Movement {
    pub dx: isize,
    pub dy: isize,
}

/// `a + b`, held at the ends of the range of `isize`.
pub open spec fn clamped(a: isize, b: int) -> isize {
    if a + b > isize::MAX {
        isize::MAX
    } else if a + b < isize::MIN {
        isize::MIN
    } else {
        (a + b) as isize
    }
}

/// What one press of `key` adds to the intent, as `(dx, dy)`: `w` is
/// forward, `s` backward, `a` left and `d` right. Any other key adds
/// nothing.
pub open spec fn key_step(key: Seq<char>) -> (int, int) {
    if key == seq!['w'] {
        (0, 1)
    } else if key == seq!['s'] {
        (0, -1)
    } else if key == seq!['a'] {
        (-1, 0)
    } else if key == seq!['d'] {
        (1, 0)
    } else {
        (0, 0)
    }
}

/// `a + 1`, held at the upper end of the range.
fn up(a: isize) -> (r: isize)
    ensures
        r == clamped(a, 1),
{
    if a < isize::MAX {
        a + 1
    } else {
        a
    }
}

/// `a - 1`, held at the lower end of the range.
fn down(a: isize) -> (r: isize)
    ensures
        r == clamped(a, -1),
{
    if a > isize::MIN {
        a - 1
    } else {
        a
    }
}

impl Movement {
    /// No intent on either axis.
    pub fn new() -> (m: Self)
        ensures
            m.dx == 0,
            m.dy == 0,
    {
        Self { dx: 0, dy: 0 }
    }

    /// Whether there is no intent on either axis, in which case the forces
    /// on the steered body are reset instead of an impulse being applied.
    pub fn is_idle(&self) -> (idle: bool)
        ensures
            idle == (self.dx == 0 && self.dy == 0),
    {
        self.dx == 0 && self.dy == 0
    }

    /// A key went down: its step is added to the intent.
    pub fn key_down(&mut self, key: &str)
        ensures
            final(self).dx == clamped(old(self).dx, key_step(key@).0),
            final(self).dy == clamped(old(self).dy, key_step(key@).1),
    {
        if key.unicode_len() == 1 {
            let c = key.get_char(0);
            assert(key@ =~= seq![c]);
            if c == 'w' {
                self.dy = up(self.dy);
            } else if c == 's' {
                self.dy = down(self.dy);
            } else if c == 'a' {
                self.dx = down(self.dx);
            } else if c == 'd' {
                self.dx = up(self.dx);
            }
        }
    }

    /// A key went up: its step is taken from the intent again.
    pub fn key_up(&mut self, key: &str)
        ensures
            final(self).dx == clamped(old(self).dx, -key_step(key@).0),
            final(self).dy == clamped(old(self).dy, -key_step(key@).1),
    {
        if key.unicode_len() == 1 {
            let c = key.get_char(0);
            assert(key@ =~= seq![c]);
            if c == 'w' {
                self.dy = down(self.dy);
            } else if c == 's' {
                self.dy = up(self.dy);
            } else if c == 'a' {
                self.dx = up(self.dx);
            } else if c == 'd' {
                self.dx = down(self.dx);
            }
        }
    }
}

/// A press followed by the release of the same key leaves the intent as it
/// was, as long as the press did not run into the end of the range.
pub proof fn lemma_press_release(dx: isize, dy: isize, key: Seq<char>)
    requires
        isize::MIN < dx < isize::MAX,
        isize::MIN < dy < isize::MAX,
    ensures
        clamped(clamped(dx, key_step(key).0), -key_step(key).0) == dx,
        clamped(clamped(dy, key_step(key).1), -key_step(key).1) == dy,
{
}

} // verus!
