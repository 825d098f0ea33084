use vstd::prelude::*;

verus! {

/// A color with four 8-bit channels; 255 is full intensity, and a full alpha
/// channel means fully opaque.
#[derive(Clone, Copy, Debug, PartialEq, Eq, Structural)]
pub struct Rgba {
    pub red: u8,
    pub green: u8,
    pub blue: u8,
    pub alpha: u8,
}

impl Rgba {
    /// Fully opaque black, the color the scene clears the screen to.
    pub fn opaque_black() -> (c: Rgba)
        ensures
            c == (Rgba { red: 0, green: 0, blue: 0, alpha: 255 }),
    {
        Rgba { red: 0, green: 0, blue: 0, alpha: 255 }
    }
}

/// Which color channels a render pass may write.
#[derive(Clone, Copy, Debug, PartialEq, Eq, Structural)]
pub struct ChannelMask {
    pub red: bool,
    pub green: bool,
    pub blue: bool,
    pub alpha: bool,
}

impl ChannelMask {
    /// Whether every channel is written.
    pub open spec fn is_all(&self) -> bool {
        self.red && self.green && self.blue && self.alpha
    }

    /// The mask that writes every channel.
    pub fn all() -> (m: ChannelMask)
        ensures
            m.is_all(),
    {
        ChannelMask { red: true, green: true, blue: true, alpha: true }
    }
}

/// How a pass combines what it draws with what is already on the screen.
#[derive(Clone, Copy, Debug, PartialEq, Eq, Structural)]
pub enum BlendMode {
    /// Weigh the incoming color by its alpha channel.
    Alpha,
    /// Add the incoming color onto the existing one.
    Add,
    /// Multiply the incoming color with the existing one.
    Multiply,
}

/// How a pass uses the depth buffer.
#[derive(Clone, Copy, Debug, PartialEq, Eq, Structural)]
pub enum DepthMode {
    /// Draw where the incoming depth passes a less-or-equal test; leave the
    /// depth buffer as it is.
    LessEqualTest,
    /// Draw where the incoming depth passes a less-or-equal test, and record
    /// the new depth.
    LessEqualWrite,
}

/// The transparency settings of a render pass: which channels it writes, how
/// it blends, and how it uses the depth buffer, if at all.
#[derive(Clone, Copy, Debug, PartialEq, Eq, Structural)]
pub struct Transparency {
    pub mask: ChannelMask,
    pub blend: BlendMode,
    pub depth: Option<DepthMode>,
}

/// One render stage: clear the back buffer to `clear_color` (and the depth
/// buffer to the far plane), then draw the scene's flat sprites, blended as
/// `transparency` says when it is set.
#[derive(Clone, Copy, Debug, PartialEq, Eq, Structural)]
pub struct StageDesc {
    pub clear_color: Rgba,
    pub transparency: Option<Transparency>,
}

/// The single stage this scene renders with: a black clear, then one sprite
/// pass that writes every channel, blends by alpha, and both tests and writes
/// depth, so that sprites sorted by visibility overlay the background
/// cleanly.
pub fn sprite_stage() -> (s: StageDesc)
    ensures
        s.clear_color == (Rgba { red: 0, green: 0, blue: 0, alpha: 255 }),
        s.transparency matches Some(t) && t == (Transparency {
            mask: ChannelMask { red: true, green: true, blue: true, alpha: true },
            blend: BlendMode::Alpha,
            depth: Some(DepthMode::LessEqualWrite),
        }),
{
    StageDesc {
        clear_color: Rgba::opaque_black(),
        transparency: Some(
            Transparency {
                mask: ChannelMask::all(),
                blend: BlendMode::Alpha,
                depth: Some(DepthMode::LessEqualWrite),
            },
        ),
    }
}

} // verus!
