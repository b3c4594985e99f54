use vstd::prelude::*;

verus! {

/// The binding point of a framebuffer.
#[derive(Clone, Copy, Debug, PartialEq, Eq, Structural)]
pub enum FramebufferTarget {
    Read,
    Draw,
    /// Both for reading and for drawing.
    Both,
}

/// One call on the graphics context, as a value for the host to carry out.
/// A framebuffer of `None` is the window's default framebuffer.
#[derive(Clone, Copy, Debug, PartialEq, Eq, Structural)]
pub enum GlCommand {
    /// Set the clear colour to transparent black.
    ClearColorTransparent,
    Scissor { x: i32, y: i32, width: i32, height: i32 },
    EnableScissorTest,
    /// Clear the colour buffer.
    ClearColorBuffer,
    DisableScissorTest,
    BindFramebuffer { target: FramebufferTarget, framebuffer: Option<u32> },
    /// Copy the colour buffer of the rectangle between two corners, from the
    /// read framebuffer to the same place in the draw framebuffer, unscaled.
    BlitColor { x0: i32, y0: i32, x1: i32, y1: i32 },
}

/// The part of the target that a paint callback may draw to, in device
/// pixels, measured from the left and from the bottom.
#[derive(Clone, Copy, Debug, PartialEq, Eq, Structural)]
pub struct Viewport {
    pub left_px: i32,
    pub from_bottom_px: i32,
    pub width_px: i32,
    pub height_px: i32,
}

impl Viewport {
    /// Whether the far corner of the viewport can be written as `i32`s.
    pub open spec fn corner_fits(self) -> bool {
        &&& i32::MIN <= self.left_px + self.width_px <= i32::MAX
        &&& i32::MIN <= self.from_bottom_px + self.height_px <= i32::MAX
    }

    /// Tells whether the far corner of the viewport can be written as `i32`s.
    pub fn has_corner(&self) -> (fits: bool)
        ensures
            fits == self.corner_fits(),
    {
        self.left_px.checked_add(self.width_px).is_some()
            && self.from_bottom_px.checked_add(self.height_px).is_some()
    }
}

/// A deferred copy of the engine's picture into the panel's drawing target.
/// It holds the two framebuffers by value, as they were when it was scheduled.
#[derive(Clone, Copy, Debug, PartialEq, Eq, Structural)]
pub struct Blit {
    /// The framebuffer that the engine rendered to.
    pub source: Option<u32>,
    /// The framebuffer that the panel draws to.
    pub target: Option<u32>,
}

/// The name of a framebuffer object as the graphics context wants it: zero
/// names no object and stands for the default framebuffer.
pub open spec fn framebuffer_name_spec(raw: u32) -> Option<u32> {
    if raw == 0 {
        None
    } else {
        Some(raw)
    }
}

/// Converts a raw framebuffer object name.
pub fn framebuffer_name(raw: u32) -> (name: Option<u32>)
    ensures
        name == framebuffer_name_spec(raw),
{
    if raw == 0 {
        None
    } else {
        Some(raw)
    }
}

impl Blit {
    /// The calls that carry out the copy within `clip`.
    pub open spec fn commands_spec(self, clip: Viewport) -> Seq<GlCommand> {
        seq![
            GlCommand::ClearColorTransparent,
            (GlCommand::Scissor {
                x: clip.left_px,
                y: clip.from_bottom_px,
                width: clip.width_px,
                height: clip.height_px,
            }),
            GlCommand::EnableScissorTest,
            GlCommand::ClearColorBuffer,
            GlCommand::DisableScissorTest,
            (GlCommand::BindFramebuffer { target: FramebufferTarget::Read, framebuffer: self.source }),
            (GlCommand::BindFramebuffer { target: FramebufferTarget::Draw, framebuffer: self.target }),
            (GlCommand::BlitColor {
                x0: clip.left_px,
                y0: clip.from_bottom_px,
                x1: (clip.left_px + clip.width_px) as i32,
                y1: (clip.from_bottom_px + clip.height_px) as i32,
            }),
            (GlCommand::BindFramebuffer { target: FramebufferTarget::Both, framebuffer: self.target }),
        ]
    }

    /// Lists the calls that carry out the copy when the toolkit paints:
    /// clear the region, copy the engine's picture into it, and leave the
    /// panel's target bound.
    pub fn commands(&self, clip: Viewport) -> (commands: Vec<GlCommand>)
        requires
            clip.corner_fits(),
        ensures
            commands@ == self.commands_spec(clip),
    {
        let x: i32 = clip.left_px;
        let y: i32 = clip.from_bottom_px;
        let width: i32 = clip.width_px;
        let height: i32 = clip.height_px;
        let mut commands: Vec<GlCommand> = Vec::new();
        commands.push(GlCommand::ClearColorTransparent);
        commands.push(GlCommand::Scissor { x, y, width, height });
        commands.push(GlCommand::EnableScissorTest);
        commands.push(GlCommand::ClearColorBuffer);
        commands.push(GlCommand::DisableScissorTest);
        commands.push(GlCommand::BindFramebuffer { target: FramebufferTarget::Read, framebuffer: self.source });
        commands.push(GlCommand::BindFramebuffer { target: FramebufferTarget::Draw, framebuffer: self.target });
        commands.push(GlCommand::BlitColor { x0: x, y0: y, x1: x + width, y1: y + height });
        commands.push(GlCommand::BindFramebuffer { target: FramebufferTarget::Both, framebuffer: self.target });
        assert(commands@ =~= self.commands_spec(clip));
        commands
    }
}

} // verus!
