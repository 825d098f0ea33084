use vstd::prelude::*;
use crate::assets::SpriteSheetAsset;
use crate::assets::TextureAsset;
use crate::assets::background_texture;
use crate::assets::knight_sprite_sheet;
use crate::camera::Orthographic;
use crate::transform::Translation;

verus! {

/// One entity of the scene, as the engine is asked to create it.
#[derive(Clone, Copy, Debug, PartialEq, Eq, Structural)]
pub enum EntityDesc {
    /// The camera that views the scene through an orthographic projection.
    Camera { projection: Orthographic, at: Translation },
    /// A plain image: the scene's background texture, drawn whole.
    Image { at: Translation },
    /// One sprite cut from the scene's sprite sheet, drawn transparently when
    /// `transparent` is set so the background shows through its empty parts.
    Sprite { sprite_number: usize, at: Translation, transparent: bool },
}

/// How many of the entities are cameras.
pub open spec fn cameras_in(s: Seq<EntityDesc>) -> nat
    decreases s.len(),
{
    if s.len() == 0 {
        0
    } else {
        cameras_in(s.drop_last()) + if s.last() is Camera {
            1nat
        } else {
            0nat
        }
    }
}

/// The whole scene: which assets it draws from and which entities it holds,
/// in the order they are created.
#[derive(Clone, Debug, PartialEq, Eq)]
pub struct Scene {
    pub background: TextureAsset,
    pub sprite_sheet: SpriteSheetAsset,
    pub entities: Vec<EntityDesc>,
}

impl Scene {
    /// A scene is well formed when it holds exactly one camera and every
    /// camera's projection is well formed.
    pub open spec fn wf(&self) -> bool {
        &&& cameras_in(self.entities@) == 1
        &&& forall|i: int|
            0 <= i < self.entities@.len() ==> ((#[trigger] self.entities@[i]) matches EntityDesc::Camera {
                projection,
                ..
            } ==> projection.wf())
    }
}

/// The camera entity: centered on the origin, one world unit toward the
/// viewer, showing a 1920 by 1080 region of the scene.
pub fn camera_entity() -> (e: EntityDesc)
    ensures
        e == (EntityDesc::Camera {
            projection: Orthographic { left: -960i32, right: 960, bottom: -540i32, top: 540 },
            at: Translation { x: 0, y: 0, z: 1 },
        }),
{
    let mut at = Translation::default();
    at.set_z(1);
    EntityDesc::Camera { projection: Orthographic::centered(1920, 1080), at }
}

/// The background image entity, placed at the origin.
pub fn background_entity() -> (e: EntityDesc)
    ensures
        e == (EntityDesc::Image { at: Translation { x: 0, y: 0, z: 0 } }),
{
    let mut at = Translation::default();
    at.set_x(0);
    at.set_y(0);
    EntityDesc::Image { at }
}

/// The knight entity: the first sprite of the sheet, centered horizontally,
/// lowered 402 world units so it stands on the ground of the background, and
/// drawn transparently.
pub fn knight_entity() -> (e: EntityDesc)
    ensures
        e == (EntityDesc::Sprite {
            sprite_number: 0,
            at: Translation { x: 0, y: -402i32, z: 0 },
            transparent: true,
        }),
{
    let mut at = Translation::default();
    at.set_x(0);
    at.set_y(-402);
    EntityDesc::Sprite { sprite_number: 0, at, transparent: true }
}

/// The scene as played: the background image and the knight over it, viewed
/// by the one camera, created in that order.
pub fn play_scene() -> (s: Scene)
    ensures
        s.background.path@ == "background.png"@,
        s.sprite_sheet.image_path@ == "knight_spritesheet.png"@,
        s.sprite_sheet.metadata_path@ == "knight_spritesheet.ron"@,
        s.entities@.len() == 3,
        s.entities@[0] == (EntityDesc::Image { at: Translation { x: 0, y: 0, z: 0 } }),
        s.entities@[1] == (EntityDesc::Sprite {
            sprite_number: 0,
            at: Translation { x: 0, y: -402i32, z: 0 },
            transparent: true,
        }),
        s.entities@[2] == (EntityDesc::Camera {
            projection: Orthographic { left: -960i32, right: 960, bottom: -540i32, top: 540 },
            at: Translation { x: 0, y: 0, z: 1 },
        }),
        s.wf(),
{
    let mut entities: Vec<EntityDesc> = Vec::new();
    entities.push(background_entity());
    entities.push(knight_entity());
    entities.push(camera_entity());
    let s = Scene { background: background_texture(), sprite_sheet: knight_sprite_sheet(), entities };
    proof {
        reveal_with_fuel(cameras_in, 4);
        assert(s.entities@.drop_last().drop_last().drop_last() =~= Seq::<EntityDesc>::empty());
    }
    s
}

} // verus!
