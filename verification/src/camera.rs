//! The camera: where the view is centred, how far it is zoomed in, and how
//! large the viewport is. The library keeps these numbers; the arithmetic
//! that maps the screen to the world is the caller's.

use vstd::prelude::*;
use crate::item::Scalar;

verus! {

/// The view onto the board.
#[derive(Debug, Clone, Copy, PartialEq, Eq)]
pub struct Camera {
    /// The centre of the view, in world units.
    pub centre: (Scalar, Scalar),
    /// The zoom factor.
    pub zoom: Scalar,
    /// The width and the height of the viewport.
    pub resolution: (Scalar, Scalar),
}

impl Camera {
    /// A camera at the origin with zoom one and the given viewport.
    pub fn new(resolution: (Scalar, Scalar)) -> (r: Camera)
        ensures
            r == (Camera {
                centre: (Scalar::zero(), Scalar::zero()),
                zoom: Scalar::one(),
                resolution,
            }),
    {
        Camera { centre: (Scalar::zero(), Scalar::zero()), zoom: Scalar::one(), resolution }
    }

    /// Whether a rectangle, given as its corner, width and height, may be
    /// on screen. Every rectangle may: no state of the camera, degenerate or
    /// not, hides an item from drawing or from selection.
    pub fn contains(&self, r: (Scalar, Scalar, Scalar, Scalar)) -> (visible: bool)
        ensures
            visible,
    {
        true
    }
}

} // verus!
