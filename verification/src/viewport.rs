//! The camera's control state: what the projection is built from and which
//! gestures are allowed.
//!
//! The poses and matrices of the camera are floating-point values and live
//! with the caller. This module decides what the caller does to them.

use vstd::prelude::*;
use crate::scalar::{FIELD_OF_VIEW, HALF, ONE, SENSITIVITY, TENTH, THOUSAND, ZERO, ZOOM_IN, ZOOM_OUT};

verus! {

/// The parameters of a perspective projection. The aspect ratio is
/// `width / height`; the other three are words.
#[derive(Clone, Copy, Debug, PartialEq, Eq, Structural)]
pub struct Projection {
    pub width: u32,
    pub height: u32,
    /// Vertical field of view in radians.
    pub fov: u32,
    pub near: u32,
    pub far: u32,
}

/// A pointer movement to turn the view by: yaw by `dx` and pitch by `dy`
/// pointer units, each unit worth `sensitivity` radians.
#[derive(Clone, Copy, Debug, PartialEq, Eq, Structural)]
pub struct Turn {
    pub dx: i32,
    pub dy: i32,
    pub sensitivity: u32,
}

/// The camera's control state.
pub struct Viewport {
    proj: Projection,
    zoom: bool,
    rotate: bool,
}

impl Viewport {
    /// The projection parameters.
    pub closed spec fn proj(&self) -> Projection {
        self.proj
    }

    /// Whether zooming is allowed.
    pub closed spec fn zoom(&self) -> bool {
        self.zoom
    }

    /// Whether rotating is allowed.
    pub closed spec fn rotate(&self) -> bool {
        self.rotate
    }

    /// The projection for a surface of the given size: a field of view of
    /// 72 degrees between a near plane at 0.1 and a far plane at 1000.
    pub open spec fn spec_projection(width: u32, height: u32) -> Projection {
        Projection { width, height, fov: FIELD_OF_VIEW, near: TENTH, far: THOUSAND }
    }

    /// This viewport after the surface took the size `width` by `height`.
    pub closed spec fn spec_resize(self, width: u32, height: u32) -> Viewport {
        Viewport {
            proj: Projection { width, height, fov: self.proj.fov, near: self.proj.near, far: self.proj.far },
            zoom: self.zoom,
            rotate: self.rotate,
        }
    }

    /// The factor that a scroll of `ds` scales the distance from eye to
    /// target by: more than one when scrolling away, less than one when
    /// scrolling closer, none when zooming is not allowed or nothing was
    /// scrolled.
    pub open spec fn spec_zoom(&self, ds: i32) -> Option<u32> {
        if !self.zoom() || ds == 0 {
            None
        } else if ds > 0 {
            Some(ZOOM_OUT)
        } else {
            Some(ZOOM_IN)
        }
    }

    /// A camera for a surface of the given size, with both gestures
    /// disabled.
    pub fn new(width: u32, height: u32) -> (v: Self)
        ensures
            v.proj() == Self::spec_projection(width, height),
            !v.zoom(),
            !v.rotate(),
    {
        Self {
            proj: Projection { width, height, fov: FIELD_OF_VIEW, near: TENTH, far: THOUSAND },
            zoom: false,
            rotate: false,
        }
    }

    /// A camera with the given projection parameters, with both gestures
    /// disabled.
    pub fn with_projection(proj: Projection) -> (v: Self)
        ensures
            v.proj() == proj,
            !v.zoom(),
            !v.rotate(),
    {
        Self { proj, zoom: false, rotate: false }
    }

    /// The parameters to build the projection matrix from.
    pub fn projection(&self) -> (p: Projection)
        ensures
            p == self.proj(),
    {
        self.proj
    }

    /// The matrix that takes depth from the range -1 to 1 to the device's
    /// range 0 to 1, column by column: the identity, but for a third column
    /// of (0, 0, 1/2, 0) and a fourth of (0, 0, 1/2, 1). The view-projection
    /// matrix is this matrix times the projection times the inverse of the
    /// view pose.
    pub fn depth_remap() -> (m: [u32; 16])
        ensures
            m@ == seq![
                ONE, ZERO, ZERO, ZERO,
                ZERO, ONE, ZERO, ZERO,
                ZERO, ZERO, HALF, ZERO,
                ZERO, ZERO, HALF, ONE,
            ],
    {
        let m: [u32; 16] = [
            ONE, ZERO, ZERO, ZERO,
            ZERO, ONE, ZERO, ZERO,
            ZERO, ZERO, HALF, ZERO,
            ZERO, ZERO, HALF, ONE,
        ];
        assert(m@ =~= seq![
            ONE, ZERO, ZERO, ZERO,
            ZERO, ONE, ZERO, ZERO,
            ZERO, ZERO, HALF, ZERO,
            ZERO, ZERO, HALF, ONE,
        ]);
        m
    }

    /// Takes on a new surface size: the aspect ratio follows the surface,
    /// the field of view and the two planes stay fixed, and so do the
    /// gates.
    pub fn resize(&mut self, width: u32, height: u32)
        ensures
            *final(self) == old(self).spec_resize(width, height),
            final(self).proj() == (Projection { width, height, ..old(self).proj() }),
            final(self).zoom() == old(self).zoom(),
            final(self).rotate() == old(self).rotate(),
    {
        self.proj.width = width;
        self.proj.height = height;
    }

    /// The factor to scale the distance from eye to target by for a scroll
    /// of `ds`, if any.
    pub fn update_zoom(&self, ds: i32) -> (factor: Option<u32>)
        ensures
            factor == self.spec_zoom(ds),
    {
        if self.zoom && ds != 0 {
            Some(
                if ds > 0 {
                    ZOOM_OUT
                } else {
                    ZOOM_IN
                },
            )
        } else {
            None
        }
    }

    /// The turn to apply for a pointer movement of `(dx, dy)`: none while
    /// rotating is not allowed.
    pub fn update_rot(&self, dx: i32, dy: i32) -> (turn: Option<Turn>)
        ensures
            turn == if self.rotate() {
                Some(Turn { dx, dy, sensitivity: SENSITIVITY })
            } else {
                None
            },
    {
        if self.rotate {
            Some(Turn { dx, dy, sensitivity: SENSITIVITY })
        } else {
            None
        }
    }

    /// Allows both gestures.
    pub fn unlock(&mut self)
        ensures
            final(self).zoom(),
            final(self).rotate(),
            final(self).proj() == old(self).proj(),
    {
        self.zoom = true;
        self.rotate = true;
    }

    /// Disables both gestures.
    pub fn lock(&mut self)
        ensures
            !final(self).zoom(),
            !final(self).rotate(),
            final(self).proj() == old(self).proj(),
    {
        self.zoom = false;
        self.rotate = false;
    }
}

/// After a resize the projection has the aspect of the surface and is
/// otherwise what it was; a second resize to the same size changes
/// nothing, so the projection built from it is the same both times.
pub proof fn lemma_resize_idempotent(viewport: Viewport, width: u32, height: u32)
    ensures
        viewport.spec_resize(width, height).proj().width == width,
        viewport.spec_resize(width, height).proj().height == height,
        viewport.spec_resize(width, height).spec_resize(width, height) == viewport.spec_resize(
            width,
            height,
        ),
{
}

/// While zooming is not allowed, no scroll yields a factor.
pub proof fn lemma_locked_is_inert(viewport: Viewport, ds: i32)
    requires
        !viewport.zoom(),
    ensures
        viewport.spec_zoom(ds) is None,
{
}

/// Scrolling away scales the distance up and scrolling closer scales it
/// down: the two factors lie on either side of one. Both are positive
/// finite words, for which the order of the words is the order of the
/// numbers.
pub proof fn lemma_zoom_factors()
    ensures
        crate::scalar::is_positive(ZOOM_IN),
        crate::scalar::is_positive(ZOOM_OUT),
        ZOOM_IN < ONE < ZOOM_OUT,
{
}

} // verus!
