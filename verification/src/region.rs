//! The fixed screen rectangle that is captured each run.

use vstd::prelude::*;

verus! {

/// A rectangular region of the primary display, in pixels.
#[derive(Clone, Copy, Debug, PartialEq, Eq, Structural)]
pub struct Region {
    pub x: i32,
    pub y: i32,
    pub width: u32,
    pub height: u32,
}

impl Region {
    /// A region is well formed when it has positive extent. Whether it
    /// lies within the display's bounds only the capture subsystem can
    /// tell, and a region outside them fails the capture.
    pub open spec fn well_formed(self) -> bool {
        self.width > 0 && self.height > 0
    }
}

/// The one region this utility captures: a fixed rectangle of the
/// primary display, chosen at build time, never configured.
pub fn capture_region() -> (r: Region)
    ensures
        r == (Region { x: 772, y: 425, width: 350, height: 30 }),
        r.well_formed(),
{
    Region { x: 772, y: 425, width: 350, height: 30 }
}

} // verus!
