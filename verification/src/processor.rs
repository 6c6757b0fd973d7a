use vstd::prelude::*;

use crate::config::SurfaceConfig;
use crate::geometry::Dimensions;
use crate::gpu;

verus! {

/// A pipeline for post-processing rendered text: the pluggable stage that
/// reads the composited text texture and produces the final image on the
/// surface view. Concrete effects implement this interface and are selected
/// at construction time through [`PostProcessorBuilder`].
pub trait PostProcessor {
    /// Called after the drawing dimensions have changed (e.g. the surface
    /// was resized), before the next `process`. Implementations must
    /// rebuild whatever GPU objects depend on the drawable's size, and need
    /// not rebuild pipeline objects that do not.
    fn resize(
        &mut self,
        device: &wgpu::Device,
        text_view: &wgpu::TextureView,
        surface_config: &SurfaceConfig,
    );

    /// Called after text has finished compositing. The provided `text_view`
    /// is the composited text; the implementation renders the final image
    /// into `surface_view`, recording commands into `encoder` and possibly
    /// submitting or copying via `queue`. The surface view's backing
    /// resource is recreated every frame: retaining it past this call
    /// violates the frame lifetime contract.
    fn process(
        &mut self,
        encoder: &mut wgpu::CommandEncoder,
        queue: &wgpu::Queue,
        text_view: &wgpu::TextureView,
        surface_config: &SurfaceConfig,
        surface_view: &wgpu::TextureView,
    );

    /// Whether this post-processor wants the screen updated even without a
    /// text change. The backend invokes `process` only when text changed or
    /// this returns true; an effect that animates over time overrides this
    /// to force per-frame invocation.
    fn needs_update(&self) -> bool {
        false
    }
}

/// One-time factory for a [`PostProcessor`]. Splitting compilation from the
/// runtime object keeps heavyweight GPU object creation (invoked once at
/// backend initialization, or when the surface's pixel format changes) out
/// of the per-frame path. `compile` receives a view of the initial text
/// target texture and the initial surface configuration so that pipelines
/// and bind groups referencing them can be built eagerly.
pub trait PostProcessorBuilder: Sized {
    /// The post-processor this builder compiles.
    type PostProcessor: PostProcessor;

    /// Fully initializes the post-processor for rendering; the result
    /// renders to the final surface during [`PostProcessor::process`].
    fn compile(
        self,
        device: &wgpu::Device,
        text_view: &wgpu::TextureView,
        surface_config: &SurfaceConfig,
    ) -> Self::PostProcessor;
}

/// The backend's dispatch policy for the post-processing stage: a frame is
/// composited and post-processed exactly when the text content changed or
/// the processor itself requests an update.
pub open spec fn spec_should_process(text_changed: bool, wants_update: bool) -> bool {
    text_changed || wants_update
}

/// Decides whether the post-processor runs this frame, from whether the
/// text content changed and what the processor's `needs_update` reported.
pub fn should_process(text_changed: bool, wants_update: bool) -> (r: bool)
    ensures
        r == spec_should_process(text_changed, wants_update),
{
    text_changed || wants_update
}

/// A processor leaving `needs_update` at its default of `false` is skipped
/// while the text is unchanged; one reporting `true` is invoked every
/// frame regardless of text changes.
pub proof fn lemma_update_dispatch(text_changed: bool)
    ensures
        !spec_should_process(false, false),
        spec_should_process(text_changed, true),
{
}

/// The minimum-one-pixel clamp applied to each side of the intermediate
/// texture: GPU texture creation forbids zero-sized dimensions, which can
/// occur transiently while a window is minimized.
pub open spec fn clamp_min_one(v: u32) -> u32 {
    if v == 0 {
        1u32
    } else {
        v
    }
}

/// GPU state that crosses frame boundaries: the intermediate compositing
/// texture ("text target") all text drawing renders into, its view, and
/// the size it was allocated at. The texture is always in the canonical
/// 8-bit RGBA format, whatever the surface's own format.
pub struct WgpuState {
    /// The intermediate color texture text is composited into.
    pub text_dest: wgpu::Texture,
    /// A full view of it: the exclusive destination of text draw calls and
    /// the input the post-processor reads.
    pub text_dest_view: wgpu::TextureView,
    /// Width the texture was allocated at; never zero.
    pub text_width: u32,
    /// Height the texture was allocated at; never zero.
    pub text_height: u32,
}

impl WgpuState {
    /// The intermediate texture is never zero-sized.
    pub open spec fn wf(self) -> bool {
        self.text_width > 0 && self.text_height > 0
    }

    /// The size the intermediate texture was allocated at. The
    /// minimum-one-pixel clamp is what guarantees the strictly positive
    /// dimensions the type stands for.
    pub fn text_dimensions(&self) -> (d: Dimensions)
        ensures
            d.width == self.text_width,
            d.height == self.text_height,
            self.wf() ==> d.wf(),
    {
        Dimensions { width: self.text_width, height: self.text_height }
    }
}

/// Allocates the intermediate text target for a drawable of the given
/// size, clamping each side to at least one pixel. Rebuilt whenever the
/// drawable size changes; the caller drops the old state only after the
/// new one is in place, so no frame observes a half-recreated texture.
pub fn build_wgpu_state(device: &wgpu::Device, drawable_width: u32, drawable_height: u32) -> (s:
    WgpuState)
    ensures
        s.text_width == clamp_min_one(drawable_width),
        s.text_height == clamp_min_one(drawable_height),
        s.wf(),
{
    let width: u32 = if drawable_width == 0 {
        1
    } else {
        drawable_width
    };
    let height: u32 = if drawable_height == 0 {
        1
    } else {
        drawable_height
    };
    let text_dest = gpu::create_text_target(device, width, height);
    let text_dest_view = gpu::texture_view(&text_dest);
    WgpuState { text_dest, text_dest_view, text_width: width, text_height: height }
}

/// For the configured sizes the backend accepts (both sides strictly
/// positive) the intermediate texture keeps exactly the drawable's
/// dimensions: the minimum-one-pixel clamp only affects a transiently
/// zero-sized drawable.
pub proof fn lemma_text_target_tracks_drawable(drawable_width: u32, drawable_height: u32)
    requires
        drawable_width > 0,
        drawable_height > 0,
    ensures
        clamp_min_one(drawable_width) == drawable_width,
        clamp_min_one(drawable_height) == drawable_height,
{
}

} // verus!
