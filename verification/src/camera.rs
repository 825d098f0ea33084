use vstd::prelude::*;

verus! {

/// An orthographic projection, given by the world coordinates of the four
/// edges of the visible region. The scene keeps to whole coordinates, so the
/// edges are held exactly as integers.
#[derive(Clone, Copy, Debug, PartialEq, Eq, Structural)]
pub struct Orthographic {
    pub left: i32,
    pub right: i32,
    pub bottom: i32,
    pub top: i32,
}

impl Orthographic {
    /// A projection is well formed when the visible region has positive
    /// extent on both axes.
    pub open spec fn wf(&self) -> bool {
        self.left < self.right && self.bottom < self.top
    }

    /// Width of the visible region, in world units.
    pub open spec fn spec_width(&self) -> int {
        self.right - self.left
    }

    /// Height of the visible region, in world units.
    pub open spec fn spec_height(&self) -> int {
        self.top - self.bottom
    }

    /// The projection with the given edges.
    pub fn new(left: i32, right: i32, bottom: i32, top: i32) -> (c: Orthographic)
        requires
            left < right,
            bottom < top,
        ensures
            c == (Orthographic { left, right, bottom, top }),
            c.wf(),
    {
        Orthographic { left, right, bottom, top }
    }

    /// The projection centered on the origin that shows exactly a
    /// `width` by `height` region: each axis runs from minus half the extent
    /// to plus half of it.
    pub fn centered(width: u32, height: u32) -> (c: Orthographic)
        requires
            0 < width <= 0x7fff_ffff,
            0 < height <= 0x7fff_ffff,
            width % 2 == 0,
            height % 2 == 0,
        ensures
            c.wf(),
            c.left == -(width as int / 2) && c.right == width as int / 2,
            c.bottom == -(height as int / 2) && c.top == height as int / 2,
            c.spec_width() == width,
            c.spec_height() == height,
    {
        let half_w: i32 = (width / 2) as i32;
        let half_h: i32 = (height / 2) as i32;
        Orthographic { left: -half_w, right: half_w, bottom: -half_h, top: half_h }
    }

    /// Width of the visible region.
    pub fn width(&self) -> (w: i64)
        ensures
            w == self.spec_width(),
    {
        self.right as i64 - self.left as i64
    }

    /// Height of the visible region.
    pub fn height(&self) -> (h: i64)
        ensures
            h == self.spec_height(),
    {
        self.top as i64 - self.bottom as i64
    }
}

} // verus!
