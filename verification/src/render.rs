//! Plans for the render passes the frame loop issues: what the default
//! render does to a freshly acquired frame, and how the overlay pass is laid
//! over it without disturbing what was already drawn. The host translates a
//! plan into the graphics API's pass descriptor, one field for one field.

use vstd::prelude::*;

verus! {

/// A clear color, one byte per channel.
#[derive(Debug, Clone, Copy, PartialEq, Eq, Structural)]
pub struct ClearColor {
    pub red: u8,
    pub green: u8,
    pub blue: u8,
    pub alpha: u8,
}

/// Opaque black: all color channels zero, alpha full.
pub open spec fn opaque_black() -> ClearColor {
    ClearColor { red: 0, green: 0, blue: 0, alpha: 255 }
}

/// What a render pass does with the frame's previous contents.
#[derive(Debug, Clone, Copy, PartialEq, Eq, Structural)]
pub enum LoadOperation {
    /// Replace them with a clear color.
    Clear(ClearColor),
    /// Keep them and draw on top.
    Load,
}

/// One render pass over the frame's single color attachment.
#[derive(Debug, Clone, Copy, PartialEq, Eq, Structural)]
pub struct RenderPassPlan {
    /// How the pass begins: clearing or loading the frame.
    pub load: LoadOperation,
    /// Whether the pass's output is stored to the frame.
    pub store: bool,
    /// Whether the pass carries a depth or stencil attachment.
    pub has_depth_stencil: bool,
}

/// The default render: a single pass that clears the frame to opaque black,
/// stores the result, and draws nothing further. A user application's own
/// render must satisfy or exceed this.
pub fn default_render_plan() -> (passes: Vec<RenderPassPlan>)
    ensures
        passes@.len() == 1,
        passes@[0].load == LoadOperation::Clear(opaque_black()),
        passes@[0].store,
        !passes@[0].has_depth_stencil,
{
    let mut passes: Vec<RenderPassPlan> = Vec::new();
    passes.push(
        RenderPassPlan {
            load: LoadOperation::Clear(ClearColor { red: 0, green: 0, blue: 0, alpha: 255 }),
            store: true,
            has_depth_stencil: false,
        },
    );
    passes
}

/// The overlay's pass: strictly additive. It loads the already-drawn frame
/// contents — it never clears them — stores the result, and carries no depth
/// or stencil attachment.
pub fn overlay_render_plan() -> (pass: RenderPassPlan)
    ensures
        pass.load is Load,
        pass.store,
        !pass.has_depth_stencil,
{
    RenderPassPlan { load: LoadOperation::Load, store: true, has_depth_stencil: false }
}

/// The overlay context's initial configuration: no settings file on disk,
/// the default font at thirteen pixels, one horizontal oversample, snapped
/// to whole pixels. The font scale is the reciprocal of the window's scale
/// factor, which the host computes.
#[derive(Debug, Clone, Copy, PartialEq, Eq, Structural)]
pub struct OverlayConfig {
    /// Whether overlay settings are persisted to an ini file.
    pub use_ini_file: bool,
    /// Font size in pixels.
    pub font_size_px: u32,
    /// Horizontal oversampling of the rasterized font.
    pub oversample_h: u32,
    /// Whether glyphs snap to whole pixels.
    pub pixel_snap_h: bool,
}

/// The configuration the default overlay setup applies.
pub fn default_overlay_config() -> (c: OverlayConfig)
    ensures
        !c.use_ini_file,
        c.font_size_px == 13,
        c.oversample_h == 1,
        c.pixel_snap_h,
{
    OverlayConfig { use_ini_file: false, font_size_px: 13, oversample_h: 1, pixel_snap_h: true }
}

} // verus!
