//! Model of the device context's presentable surface: the part of its
//! configuration that the frame loop reads and updates. The device, queue and
//! surface handles themselves live with the host; the loop's obligation is
//! that this configuration always matches the last known window client size.

use vstd::prelude::*;

verus! {

/// The surface configuration's width and height in pixels.
#[derive(Debug, Clone, Copy, PartialEq, Eq, Structural)]
pub struct SurfaceState {
    pub width: u32,
    pub height: u32,
}

impl SurfaceState {
    pub fn new(width: u32, height: u32) -> (s: Self)
        ensures
            s.width == width,
            s.height == height,
    {
        SurfaceState { width, height }
    }

    /// Reconfigure the surface to a new client size; called whenever the
    /// window signals a size change.
    pub fn resize_surface(&mut self, dim: (u32, u32))
        ensures
            final(self).width == dim.0,
            final(self).height == dim.1,
    {
        self.width = dim.0;
        self.height = dim.1;
    }
}

} // verus!
