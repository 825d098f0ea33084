use vstd::prelude::*;

verus! {

/// Placement of an entity in the scene, in whole world units.
///
/// The engine positions entities with floating-point transforms, but every
/// placement this library describes lies on integer coordinates, so a
/// translation is held exactly as three integers. `z` orders entities from
/// back (smaller) to front (larger).
#[derive(Clone, Copy, Debug, PartialEq, Eq, Structural)]
pub struct Translation {
    pub x: i32,
    pub y: i32,
    pub z: i32,
}

impl Translation {
    /// The translation at the origin of the scene.
    pub open spec fn spec_origin() -> Translation {
        Translation { x: 0, y: 0, z: 0 }
    }

    /// A translation at the origin, where a freshly made transform places an
    /// entity.
    pub fn origin() -> (t: Translation)
        ensures
            t == Self::spec_origin(),
    {
        Translation { x: 0, y: 0, z: 0 }
    }

    /// Move to `x` along the horizontal axis; the other coordinates stay.
    pub fn set_x(&mut self, x: i32)
        ensures
            final(self).x == x,
            final(self).y == old(self).y,
            final(self).z == old(self).z,
    {
        self.x = x;
    }

    /// Move to `y` along the vertical axis; the other coordinates stay.
    pub fn set_y(&mut self, y: i32)
        ensures
            final(self).x == old(self).x,
            final(self).y == y,
            final(self).z == old(self).z,
    {
        self.y = y;
    }

    /// Move to depth `z`; the other coordinates stay.
    pub fn set_z(&mut self, z: i32)
        ensures
            final(self).x == old(self).x,
            final(self).y == old(self).y,
            final(self).z == z,
    {
        self.z = z;
    }
}

impl Default for Translation {
    /// The default placement is the origin.
    fn default() -> (t: Self)
        ensures
            t == Self::spec_origin(),
    {
        Translation { x: 0, y: 0, z: 0 }
    }
}

} // verus!
