use quartz_knight::transform::Translation;

#[test]
fn default_is_the_origin() {
    let t = Translation::default();
    assert_eq!(t, Translation { x: 0, y: 0, z: 0 });
    assert_eq!(t, Translation::origin());
}

#[test]
fn setters_move_one_axis_each() {
    let mut t = Translation::default();
    t.set_z(1);
    assert_eq!(t, Translation { x: 0, y: 0, z: 1 });
    t.set_x(-7);
    assert_eq!(t, Translation { x: -7, y: 0, z: 1 });
    t.set_y(-402);
    assert_eq!(t, Translation { x: -7, y: -402, z: 1 });
}
