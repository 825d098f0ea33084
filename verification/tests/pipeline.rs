use quartz_knight::pipeline::BlendMode;
use quartz_knight::pipeline::ChannelMask;
use quartz_knight::pipeline::DepthMode;
use quartz_knight::pipeline::Rgba;
use quartz_knight::pipeline::Transparency;
use quartz_knight::pipeline::sprite_stage;

#[test]
fn sprite_stage_clears_to_opaque_black() {
    let s = sprite_stage();
    assert_eq!(
        s.clear_color,
        Rgba { red: 0, green: 0, blue: 0, alpha: 255 }
    );
}

#[test]
fn sprite_stage_blends_by_alpha_and_writes_depth() {
    let s = sprite_stage();
    assert_eq!(
        s.transparency,
        Some(Transparency {
            mask: ChannelMask { red: true, green: true, blue: true, alpha: true },
            blend: BlendMode::Alpha,
            depth: Some(DepthMode::LessEqualWrite),
        })
    );
}
