use quartz_knight::camera::Orthographic;
use quartz_knight::scene::EntityDesc;
use quartz_knight::scene::play_scene;
use quartz_knight::transform::Translation;

#[test]
fn play_scene_holds_three_entities_in_order() {
    let s = play_scene();
    assert_eq!(s.entities.len(), 3);
    assert_eq!(
        s.entities[0],
        EntityDesc::Image { at: Translation { x: 0, y: 0, z: 0 } }
    );
    assert_eq!(
        s.entities[1],
        EntityDesc::Sprite {
            sprite_number: 0,
            at: Translation { x: 0, y: -402, z: 0 },
            transparent: true,
        }
    );
    assert_eq!(
        s.entities[2],
        EntityDesc::Camera {
            projection: Orthographic { left: -960, right: 960, bottom: -540, top: 540 },
            at: Translation { x: 0, y: 0, z: 1 },
        }
    );
}

#[test]
fn play_scene_names_its_assets() {
    let s = play_scene();
    assert_eq!(s.background.path, "background.png");
    assert_eq!(s.sprite_sheet.image_path, "knight_spritesheet.png");
    assert_eq!(s.sprite_sheet.metadata_path, "knight_spritesheet.ron");
}

#[test]
fn play_scene_has_exactly_one_camera() {
    let s = play_scene();
    let mut cameras = 0;
    for e in &s.entities {
        if matches!(e, EntityDesc::Camera { .. }) {
            cameras += 1;
        }
    }
    assert_eq!(cameras, 1);
}

#[test]
fn entity_builders_match_the_scene() {
    let s = play_scene();
    assert_eq!(s.entities[0], quartz_knight::scene::background_entity());
    assert_eq!(s.entities[1], quartz_knight::scene::knight_entity());
    assert_eq!(s.entities[2], quartz_knight::scene::camera_entity());
}
