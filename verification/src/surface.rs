use vstd::prelude::*;

use crate::config::SurfaceConfig;
use crate::gpu;

verus! {

/// A presentation surface bound to a live window, together with the state
/// the backend tracks about it: whether it has been configured since
/// creation (frame acquisition is attempted only once the surface holds a
/// swapchain), and which format and presentation mode the last capability
/// query reported, so that only configurations the surface can present
/// are handed back to it.
pub struct LiveSurface<'s> {
    /// The underlying wgpu presentation surface.
    pub surface: wgpu::Surface<'s>,
    /// Whether `configure` has completed at least once.
    pub configured: bool,
    /// The format the most recent capability query (`get_default_config`)
    /// reported presentable on this surface; `None` before any query.
    pub queried_format: Option<wgpu::TextureFormat>,
    /// The presentation mode the most recent capability query reported
    /// supported on this surface; `None` before any query.
    pub queried_present_mode: Option<wgpu::PresentMode>,
}

/// The synthetic, offscreen stand-in for a presentation surface, used by
/// test harnesses: a plain color texture plays the part of the swapchain,
/// and a CPU-readable staging buffer sized `row_stride(width) * height`
/// allows the presented image to be read back out-of-band.
pub struct Headless {
    /// The offscreen texture standing in for the next presentable frame;
    /// allocated by the first `configure`.
    pub texture: Option<wgpu::Texture>,
    /// The read-back buffer; allocated together with `texture`.
    pub buffer: Option<wgpu::Buffer>,
    /// Bytes per row of the read-back buffer: `texel_bytes` per pixel.
    pub buffer_width: u32,
    /// Drawable width recorded by the last `configure`; zero before any.
    pub width: u32,
    /// Drawable height recorded by the last `configure`; zero before any.
    pub height: u32,
    /// The pixel format the offscreen texture is allocated in.
    pub format: wgpu::TextureFormat,
    /// Bytes per texel of `format`, fixed at construction; the row stride
    /// of the read-back buffer follows it.
    pub texel_bytes: u32,
    /// The presentation mode the synthesized configurations report.
    pub present_mode: wgpu::PresentMode,
}

impl Headless {
    /// A synthetic surface has allocated its texture and read-back buffer
    /// together, sized for a strictly positive drawable at its format's
    /// row stride; before any allocation the recorded size and stride are
    /// zero.
    pub open spec fn wf(self) -> bool {
        &&& self.texel_bytes > 0
        &&& self.texture is Some <==> self.buffer is Some
        &&& self.texture is Some ==> {
            &&& self.width > 0
            &&& self.height > 0
            &&& self.buffer_width == self.texel_bytes * self.width
        }
        &&& self.texture is None ==> self.width == 0 && self.height == 0 && self.buffer_width == 0
    }
}

/// Why one frame acquisition yielded no target. Every kind is transient:
/// the caller skips the frame, may log the kind, and tries again next
/// tick; nothing needs tearing down.
#[derive(Clone, Copy, Debug, PartialEq, Eq, Structural)]
pub enum AcquireFailure {
    /// The surface has not been configured since creation, so it holds no
    /// swapchain (live) or no allocated texture (synthetic) to draw into.
    Unconfigured,
    /// The presentation mechanism did not hand out a frame in time.
    Timeout,
    /// The window is occluded (e.g. minimized); nothing would be seen.
    Occluded,
    /// The surface changed (e.g. was resized) and the current
    /// configuration no longer matches; reconfigure and retry.
    Outdated,
    /// The underlying surface was lost and must be recreated.
    Lost,
    /// The presentation mechanism reported a validation error for this
    /// acquisition.
    Validation,
}

impl AcquireFailure {
    /// The line a host logs for a frame skipped on this failure.
    pub open spec fn spec_message(self) -> Seq<char> {
        match self {
            AcquireFailure::Unconfigured => "surface not configured; skipping frame"@,
            AcquireFailure::Timeout => "frame acquisition timed out; skipping frame"@,
            AcquireFailure::Occluded => "window occluded; skipping frame"@,
            AcquireFailure::Outdated => "surface configuration outdated; skipping frame"@,
            AcquireFailure::Lost => "surface lost; skipping frame"@,
            AcquireFailure::Validation => "frame acquisition failed validation; skipping frame"@,
        }
    }

    /// A short description of the failure, for the host's frame log.
    pub fn message(&self) -> (r: &'static str)
        ensures
            r@ == self.spec_message(),
    {
        match self {
            AcquireFailure::Unconfigured => "surface not configured; skipping frame",
            AcquireFailure::Timeout => "frame acquisition timed out; skipping frame",
            AcquireFailure::Occluded => "window occluded; skipping frame",
            AcquireFailure::Outdated => "surface configuration outdated; skipping frame",
            AcquireFailure::Lost => "surface lost; skipping frame",
            AcquireFailure::Validation => "frame acquisition failed validation; skipping frame",
        }
    }
}

/// Where presented pixels ultimately land: a live presentation surface
/// bound to a window, or a synthetic offscreen surface for deterministic
/// tests. Both variants share one contract surface, so test harnesses and
/// production drive the same code path above this abstraction.
pub enum RenderSurface<'s> {
    /// A real presentable surface.
    Surface(LiveSurface<'s>),
    /// The offscreen stand-in.
    Headless(Headless),
}

/// The result of one frame's acquisition: a view to draw the final image
/// into, consumed by a single terminal `present`. A target must not outlive
/// the frame it was acquired in.
pub enum RenderTarget {
    /// A frame acquired from a live surface; presenting hands the acquired
    /// texture back to the display.
    Surface {
        /// The acquired presentable texture.
        texture: wgpu::SurfaceTexture,
        /// A full view of it.
        view: wgpu::TextureView,
    },
    /// A frame on the synthetic surface; presenting is a no-op, the pixels
    /// are read back out-of-band instead.
    Headless {
        /// A full view of the offscreen texture.
        view: wgpu::TextureView,
    },
}

impl RenderTarget {
    /// The view this frame's final image must be rendered into.
    pub open spec fn spec_view(self) -> wgpu::TextureView {
        match self {
            RenderTarget::Surface { view, .. } => view,
            RenderTarget::Headless { view } => view,
        }
    }

    /// Borrows the view to draw this frame into; valid only for the
    /// target's lifetime.
    pub fn get_view(&self) -> (r: &wgpu::TextureView)
        ensures
            *r == self.spec_view(),
    {
        match self {
            RenderTarget::Surface { view, .. } => view,
            RenderTarget::Headless { view } => view,
        }
    }

    /// Consumes the target, ending the frame: a live frame is handed to the
    /// display via the queue, a synthetic frame needs no action. Taking
    /// `self` by value is what forbids presenting twice or using the view
    /// after presentation.
    pub fn present(self, queue: &wgpu::Queue) {
        match self {
            RenderTarget::Surface { texture, .. } => gpu::present_frame(queue, texture),
            RenderTarget::Headless { .. } => {
                // nothing to deliver
            },
        }
    }
}

impl<'s> RenderSurface<'s> {
    /// The structural invariant of a surface: a synthetic variant keeps its
    /// allocation bookkeeping consistent.
    pub open spec fn wf(self) -> bool {
        match self {
            RenderSurface::Surface(_) => true,
            RenderSurface::Headless(h) => h.wf(),
        }
    }

    /// Whether a frame acquisition is guaranteed to yield a target: the
    /// synthetic surface always yields one once its texture is allocated
    /// and never before; a live surface promises nothing (acquisition may
    /// fail transiently).
    pub open spec fn spec_ready(self) -> bool {
        match self {
            RenderSurface::Surface(_) => false,
            RenderSurface::Headless(h) => h.texture is Some,
        }
    }

    /// Wraps a live presentation surface; the surface starts unconfigured
    /// and unqueried.
    pub fn new_surface(surface: wgpu::Surface<'s>) -> (r: Self)
        ensures
            r matches RenderSurface::Surface(s) && !s.configured && s.surface == surface
                && s.queried_format is None && s.queried_present_mode is None,
            r.wf(),
    {
        RenderSurface::Surface(
            LiveSurface {
                surface,
                configured: false,
                queried_format: None,
                queried_present_mode: None,
            },
        )
    }

    /// Creates a synthetic surface in the canonical 8-bit RGBA format, with
    /// nothing allocated yet.
    pub fn new_headless() -> (r: Self)
        ensures
            r matches RenderSurface::Headless(h) && h.texture is None && h.buffer is None
                && h.buffer_width == 0 && h.width == 0 && h.height == 0,
            r.wf(),
            !r.spec_ready(),
    {
        Self::new_headless_with_format(gpu::rgba8_unorm_format())
    }

    /// Creates a synthetic surface in the given pixel format, with nothing
    /// allocated yet. The format's bytes-per-texel, which later sizes the
    /// read-back rows, is fixed here; a format without a single per-texel
    /// copy size (a combined depth-stencil or multi-planar format, which
    /// no color drawable uses) falls back to four bytes.
    pub fn new_headless_with_format(format: wgpu::TextureFormat) -> (r: Self)
        ensures
            r matches RenderSurface::Headless(h) && h.texture is None && h.buffer is None
                && h.buffer_width == 0 && h.width == 0 && h.height == 0 && h.format == format,
            r.wf(),
            !r.spec_ready(),
    {
        let texel_bytes: u32 = match gpu::format_texel_bytes(&format) {
            Some(bytes) => bytes,
            None => 4,
        };
        let present_mode = gpu::immediate_present_mode();
        RenderSurface::Headless(
            Headless {
                texture: None,
                buffer: None,
                buffer_width: 0,
                width: 0,
                height: 0,
                format,
                texel_bytes,
                present_mode,
            },
        )
    }

    /// The underlying wgpu surface of the live variant, if this is one.
    pub fn wgpu_surface(&self) -> (r: Option<&wgpu::Surface<'s>>)
        ensures
            r is Some <==> self matches RenderSurface::Surface(_),
            self matches RenderSurface::Surface(s) ==> (r matches Some(w) && *w == s.surface),
    {
        match self {
            RenderSurface::Surface(live) => Some(&live.surface),
            RenderSurface::Headless(_) => None,
        }
    }

    /// The synthetic state, if this is the synthetic variant.
    pub fn headless(&self) -> (r: Option<&Headless>)
        ensures
            r is Some <==> self matches RenderSurface::Headless(_),
            self matches RenderSurface::Headless(h) ==> (r matches Some(rh) && *rh == h),
    {
        match self {
            RenderSurface::Surface(_) => None,
            RenderSurface::Headless(headless) => Some(headless),
        }
    }

    /// Queries presentation parameters compatible with the adapter for the
    /// given size. A live surface reports nothing when the adapter cannot
    /// present to it, and otherwise records the reported format and
    /// presentation mode so that a later `configure` only receives
    /// configurations this surface can present. The synthetic surface
    /// always succeeds unchanged, synthesizing a fixed configuration in
    /// its own format and recorded presentation mode, so that test
    /// harnesses stay independent of platform capabilities.
    pub fn get_default_config(&mut self, adapter: &wgpu::Adapter, width: u32, height: u32) -> (r:
        Option<SurfaceConfig>)
        ensures
            r matches Some(c) ==> c.width == width && c.height == height,
            (*old(self)).wf() ==> (*final(self)).wf(),
            (*final(self)) is Headless <==> (*old(self)) is Headless,
            (*old(self)) matches RenderSurface::Headless(h) ==> (*final(self)) == (*old(self))
                && (r matches Some(c) && c.width == width && c.height == height && c.format
                == h.format && c.present_mode == h.present_mode),
            (*old(self)) matches RenderSurface::Surface(s) ==> ((*final(self))
                matches RenderSurface::Surface(s2) && s2.surface == s.surface && s2.configured
                == s.configured && (r matches Some(c) ==> s2.queried_format == Some(c.format)
                && s2.queried_present_mode == Some(c.present_mode)) && (r is None
                ==> s2.queried_format == s.queried_format && s2.queried_present_mode
                == s.queried_present_mode)),
    {
        match self {
            RenderSurface::Surface(live) => {
                match gpu::default_surface_config(&live.surface, adapter, width, height) {
                    Some(config) => {
                        live.queried_format = Some(gpu::copy_format(&config.format));
                        live.queried_present_mode = Some(
                            gpu::copy_present_mode(&config.present_mode),
                        );
                        Some(config)
                    },
                    None => None,
                }
            },
            RenderSurface::Headless(h) => Some(
                SurfaceConfig {
                    width,
                    height,
                    format: gpu::copy_format(&h.format),
                    present_mode: gpu::copy_present_mode(&h.present_mode),
                },
            ),
        }
    }

    /// Establishes or re-establishes the drawable swap state for the given
    /// configuration; idempotent. The live variant hands the parameters to
    /// the presentation mechanism — only in a format and presentation mode
    /// its own capability query reported, which is what the preconditions
    /// track — and is thereafter ready for acquisition. The synthetic variant
    /// (re)allocates its offscreen texture and a read-back buffer of
    /// `texel_bytes * width` bytes per row, and records the new size; the
    /// old allocation is released only once the new one is in place.
    pub fn configure(&mut self, device: &wgpu::Device, config: &SurfaceConfig)
        requires
            (*old(self)).wf(),
            config.wf(),
            (*old(self)) matches RenderSurface::Surface(s) ==> s.queried_format == Some(
                config.format,
            ) && s.queried_present_mode == Some(config.present_mode),
            (*old(self)) matches RenderSurface::Headless(h) ==> h.texel_bytes * config.width
                <= u32::MAX,
        ensures
            (*final(self)).wf(),
            (*final(self)) is Headless <==> (*old(self)) is Headless,
            (*old(self)) matches RenderSurface::Headless(h) ==> ((*final(self))
                matches RenderSurface::Headless(h2) && h2.texture is Some && h2.buffer is Some
                && h2.width == config.width && h2.height == config.height && h2.buffer_width
                == h.texel_bytes * config.width && h2.format == h.format && h2.texel_bytes
                == h.texel_bytes && h2.present_mode == h.present_mode),
            (*old(self)) matches RenderSurface::Surface(s) ==> ((*final(self))
                matches RenderSurface::Surface(s2) && s2.configured && s2.surface == s.surface
                && s2.queried_format == s.queried_format && s2.queried_present_mode
                == s.queried_present_mode),
            (*old(self)) is Headless ==> (*final(self)).spec_ready(),
    {
        match self {
            RenderSurface::Surface(live) => {
                gpu::configure_surface(live, device, config);
                live.configured = true;
            },
            RenderSurface::Headless(h) => {
                let texture = gpu::create_offscreen_target(
                    device,
                    config.width,
                    config.height,
                    &h.format,
                );
                let row_bytes: u32 = h.texel_bytes * config.width;
                proof {
                    assert((row_bytes as int) * (config.height as int) < 0x10000000000000000int)
                        by (nonlinear_arith)
                        requires
                            row_bytes <= 0xFFFF_FFFFu32,
                            config.height <= 0xFFFF_FFFFu32,
                    ;
                }
                let size: u64 = (row_bytes as u64) * (config.height as u64);
                let buffer = gpu::create_readback_buffer(device, size);
                h.texture = Some(texture);
                h.buffer = Some(buffer);
                h.buffer_width = row_bytes;
                h.width = config.width;
                h.height = config.height;
            },
        }
    }

    /// Acquires the next frame's drawable, reporting why when none comes.
    /// Failure is soft: the caller skips the frame, may log the reported
    /// kind, and retries next tick without tearing anything down. A
    /// surface that was never configured fails with `Unconfigured`; a
    /// configured live surface fails only with one of the transient kinds
    /// the presentation mechanism reports; the synthetic surface succeeds
    /// exactly when a texture has been allocated by a prior `configure`.
    pub fn try_acquire(&self) -> (r: Result<RenderTarget, AcquireFailure>)
        ensures
            self matches RenderSurface::Headless(h) ==> (r is Ok <==> h.texture is Some),
            self matches RenderSurface::Headless(h) && h.texture is None ==> (r matches Err(e)
                && e is Unconfigured),
            self.spec_ready() ==> r is Ok,
            self matches RenderSurface::Surface(s) && !s.configured ==> (r matches Err(e)
                && e is Unconfigured),
            self matches RenderSurface::Surface(s) && s.configured ==> (r matches Err(e)
                ==> !(e is Unconfigured)),
            r matches Ok(t) ==> ((t is Surface) <==> (self is Surface)),
    {
        match self {
            RenderSurface::Surface(live) => {
                if !live.configured {
                    return Err(AcquireFailure::Unconfigured);
                }
                match gpu::acquire_frame(live) {
                    Ok(frame) => {
                        let view = gpu::texture_view(gpu::surface_texture_inner(&frame));
                        Ok(RenderTarget::Surface { texture: frame, view })
                    },
                    Err(failure) => Err(failure),
                }
            },
            RenderSurface::Headless(h) => {
                match &h.texture {
                    Some(texture) => Ok(RenderTarget::Headless { view: gpu::texture_view(texture) }),
                    None => Err(AcquireFailure::Unconfigured),
                }
            },
        }
    }

    /// Acquires the next frame's drawable, discarding the failure kind.
    /// Same soft-failure policy as [`RenderSurface::try_acquire`], which
    /// callers wanting to log or count failures use instead.
    pub fn get_current_texture(&self) -> (r: Option<RenderTarget>)
        ensures
            self matches RenderSurface::Headless(h) ==> (r is Some <==> h.texture is Some),
            self.spec_ready() ==> r is Some,
            self matches RenderSurface::Surface(s) && !s.configured ==> r is None,
            r matches Some(t) ==> ((t is Surface) <==> (self is Surface)),
    {
        match self.try_acquire() {
            Ok(target) => Some(target),
            Err(_) => None,
        }
    }
}

} // verus!
