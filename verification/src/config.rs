use vstd::prelude::*;

verus! {

/// Presentation parameters for a configured surface.
///
/// This is the part of a surface configuration the backend's own logic
/// reads or fixes: the drawable size in pixels, the surface's pixel format,
/// and the presentation mode. The remaining wgpu parameters are constant for
/// this backend (render-attachment usage, automatic alpha compositing and
/// color space, a frame latency of two) and are filled in at the wgpu
/// boundary.
pub struct SurfaceConfig {
    /// Drawable width in pixels; strictly positive for a configurable surface.
    pub width: u32,
    /// Drawable height in pixels; strictly positive for a configurable surface.
    pub height: u32,
    /// Pixel format of the presentable texture.
    pub format: wgpu::TextureFormat,
    /// How presented frames are scheduled onto the display.
    pub present_mode: wgpu::PresentMode,
}

impl SurfaceConfig {
    /// A configuration the surface can be established with: a non-empty
    /// drawable.
    pub open spec fn wf(self) -> bool {
        self.width > 0 && self.height > 0
    }
}

} // verus!
