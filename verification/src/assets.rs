use vstd::prelude::*;

verus! {

/// A texture asset: the location of an image file, relative to the assets
/// directory. The engine loads and decodes the file; this library only names
/// it.
#[derive(Clone, Debug, PartialEq, Eq)]
pub struct TextureAsset {
    pub path: String,
}

/// A sprite sheet asset: an image holding the sprites side by side, and a
/// metadata file describing where each sprite lies within it. Both paths are
/// relative to the assets directory.
#[derive(Clone, Debug, PartialEq, Eq)]
pub struct SpriteSheetAsset {
    pub image_path: String,
    pub metadata_path: String,
}

/// The image drawn behind everything else in the scene.
pub fn background_texture() -> (t: TextureAsset)
    ensures
        t.path@ == "background.png"@,
{
    TextureAsset { path: String::from_str("background.png") }
}

/// The knight's sprite sheet: its image and the metadata that cuts the image
/// into individual sprites.
pub fn knight_sprite_sheet() -> (s: SpriteSheetAsset)
    ensures
        s.image_path@ == "knight_spritesheet.png"@,
        s.metadata_path@ == "knight_spritesheet.ron"@,
{
    SpriteSheetAsset {
        image_path: String::from_str("knight_spritesheet.png"),
        metadata_path: String::from_str("knight_spritesheet.ron"),
    }
}

} // verus!
