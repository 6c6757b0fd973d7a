use vstd::prelude::*;

use crate::config::SurfaceConfig;
use crate::surface::AcquireFailure;
use crate::surface::LiveSurface;

verus! {

// Declarations of the wgpu handle types the backend carries. Each is opaque
// to verification: values of these types are only produced and consumed by
// the trusted wrappers below.

#[verifier::external_type_specification]
#[verifier::external_body]
pub struct ExDevice(wgpu::Device);

#[verifier::external_type_specification]
#[verifier::external_body]
pub struct ExAdapter(wgpu::Adapter);

#[verifier::external_type_specification]
#[verifier::external_body]
pub struct ExQueue(wgpu::Queue);

#[verifier::external_type_specification]
#[verifier::external_body]
pub struct ExCommandEncoder(wgpu::CommandEncoder);

#[verifier::external_type_specification]
#[verifier::external_body]
pub struct ExSurface<'window>(wgpu::Surface<'window>);

#[verifier::external_type_specification]
#[verifier::external_body]
pub struct ExSurfaceTexture(wgpu::SurfaceTexture);

#[verifier::external_type_specification]
#[verifier::external_body]
pub struct ExTexture(wgpu::Texture);

#[verifier::external_type_specification]
#[verifier::external_body]
pub struct ExTextureView(wgpu::TextureView);

#[verifier::external_type_specification]
#[verifier::external_body]
pub struct ExBuffer(wgpu::Buffer);

#[verifier::external_type_specification]
#[verifier::external_body]
pub struct ExTextureFormat(wgpu::TextureFormat);

#[verifier::external_type_specification]
#[verifier::external_body]
pub struct ExPresentMode(wgpu::PresentMode);

/// Relies on `wgpu::TextureFormat::Rgba8Unorm` being the canonical
/// 8-bit-per-channel RGBA format this backend composites text in.
#[verifier::external_body]
pub(crate) fn rgba8_unorm_format() -> wgpu::TextureFormat {
    wgpu::TextureFormat::Rgba8Unorm
}

/// Relies on `wgpu::PresentMode::Immediate`: the fixed presentation mode
/// synthesized for offscreen surface configurations.
#[verifier::external_body]
pub(crate) fn immediate_present_mode() -> wgpu::PresentMode {
    wgpu::PresentMode::Immediate
}

/// Relies on `wgpu::TextureFormat` being `Copy`: the returned value equals
/// the input.
#[verifier::external_body]
pub(crate) fn copy_format(format: &wgpu::TextureFormat) -> (r: wgpu::TextureFormat)
    ensures
        r == *format,
{
    *format
}

/// Relies on `wgpu::PresentMode` being `Copy`: the returned value equals
/// the input.
#[verifier::external_body]
pub(crate) fn copy_present_mode(mode: &wgpu::PresentMode) -> (r: wgpu::PresentMode)
    ensures
        r == *mode,
{
    *mode
}

/// Relies on `wgpu::TextureFormat::block_copy_size` queried without an
/// aspect: the number of bytes one texel block of the format occupies in a
/// buffer copy — for an uncompressed format, one texel — always at least
/// one byte when defined; `None` for combined depth-stencil and
/// multi-planar formats, which have no single per-texel size.
#[verifier::external_body]
pub(crate) fn format_texel_bytes(format: &wgpu::TextureFormat) -> (r: Option<u32>)
    ensures
        r matches Some(bytes) ==> bytes > 0,
{
    format.block_copy_size(None)
}

/// Relies on `wgpu::Surface::get_default_config`, which returns `None` when
/// the adapter cannot present to the surface, and otherwise a configuration
/// carrying exactly the requested width and height together with the
/// surface's preferred format and presentation mode.
#[verifier::external_body]
pub(crate) fn default_surface_config(
    surface: &wgpu::Surface<'_>,
    adapter: &wgpu::Adapter,
    width: u32,
    height: u32,
) -> (r: Option<SurfaceConfig>)
    ensures
        r matches Some(c) ==> c.width == width && c.height == height,
{
    let config = surface.get_default_config(adapter, width, height)?;
    Some(SurfaceConfig {
        width: config.width,
        height: config.height,
        format: config.format,
        present_mode: config.present_mode,
    })
}

/// Relies on `wgpu::Surface::configure`, which establishes the swapchain
/// for the given parameters. Its failure conditions are ruled out by the
/// preconditions: a zero-sized drawable (`config.wf()`), a format the
/// surface cannot present, and a presentation mode the surface does not
/// support (the tracked `queried_format` and `queried_present_mode` pin
/// both to the ones this surface's own capability query reported, which
/// `Surface::get_default_config` takes from the surface's supported
/// lists; the automatic color space passed below is supported for every
/// format). The one panic no precondition can reach is ambient: an
/// acquired frame of this surface still alive at the moment of
/// reconfiguration, a frame lifetime violation the design treats as
/// abort-level misuse. The remaining parameters are this backend's
/// constants: render-attachment usage, automatic color space and alpha
/// compositing, a frame latency of two.
#[verifier::external_body]
pub(crate) fn configure_surface(
    surface: &LiveSurface<'_>,
    device: &wgpu::Device,
    config: &SurfaceConfig,
)
    requires
        config.wf(),
        surface.queried_format == Some(config.format),
        surface.queried_present_mode == Some(config.present_mode),
{
    surface.surface.configure(device, &wgpu::SurfaceConfiguration {
        usage: wgpu::TextureUsages::RENDER_ATTACHMENT,
        format: config.format,
        color_space: wgpu::SurfaceColorSpace::Auto,
        width: config.width,
        height: config.height,
        present_mode: config.present_mode,
        desired_maximum_frame_latency: 2,
        alpha_mode: wgpu::CompositeAlphaMode::Auto,
        view_formats: vec![],
    });
}

/// Relies on `wgpu::Surface::get_current_texture`, which panics only on a
/// surface that was never configured (hence the precondition on the
/// tracked flag) and otherwise reports either an acquired frame (possibly
/// suboptimal) or one of five transient failures, mapped here variant for
/// variant. Nothing is promised about which outcome occurs; the mapping
/// never produces `Unconfigured`.
#[verifier::external_body]
pub(crate) fn acquire_frame(surface: &LiveSurface<'_>) -> (r: Result<
    wgpu::SurfaceTexture,
    AcquireFailure,
>)
    requires
        surface.configured,
    ensures
        r matches Err(failure) ==> !(failure is Unconfigured),
{
    match surface.surface.get_current_texture() {
        wgpu::CurrentSurfaceTexture::Success(frame) => Ok(frame),
        wgpu::CurrentSurfaceTexture::Suboptimal(frame) => Ok(frame),
        wgpu::CurrentSurfaceTexture::Timeout => Err(AcquireFailure::Timeout),
        wgpu::CurrentSurfaceTexture::Occluded => Err(AcquireFailure::Occluded),
        wgpu::CurrentSurfaceTexture::Outdated => Err(AcquireFailure::Outdated),
        wgpu::CurrentSurfaceTexture::Lost => Err(AcquireFailure::Lost),
        wgpu::CurrentSurfaceTexture::Validation => Err(AcquireFailure::Validation),
    }
}

/// Relies on the public `texture` field of `wgpu::SurfaceTexture`: the
/// acquired presentable texture.
#[verifier::external_body]
pub(crate) fn surface_texture_inner(frame: &wgpu::SurfaceTexture) -> &wgpu::Texture {
    &frame.texture
}

/// Relies on `wgpu::Texture::create_view` with the default descriptor, which
/// derives a full view of the texture and does not panic.
#[verifier::external_body]
pub(crate) fn texture_view(texture: &wgpu::Texture) -> wgpu::TextureView {
    texture.create_view(&wgpu::TextureViewDescriptor::default())
}

/// Relies on `wgpu::Queue::present`, which schedules the acquired frame for
/// display and consumes it.
#[verifier::external_body]
pub(crate) fn present_frame(queue: &wgpu::Queue, frame: wgpu::SurfaceTexture) {
    queue.present(frame);
}

/// Relies on `wgpu::Device::create_texture`: allocates a 2D color texture of
/// exactly the given size in the given format, usable as a render attachment
/// and as a copy source, for the offscreen presentable image of a synthetic
/// surface. Texture creation forbids zero-sized dimensions (hence the
/// precondition); a side beyond the device's `max_texture_dimension_2d`
/// limit raises a validation error that the device's error handler decides,
/// as does a format unusable as a render attachment.
#[verifier::external_body]
pub(crate) fn create_offscreen_target(
    device: &wgpu::Device,
    width: u32,
    height: u32,
    format: &wgpu::TextureFormat,
) -> wgpu::Texture
    requires
        width > 0,
        height > 0,
{
    device.create_texture(&wgpu::TextureDescriptor {
        label: None,
        size: wgpu::Extent3d { width, height, depth_or_array_layers: 1 },
        mip_level_count: 1,
        sample_count: 1,
        dimension: wgpu::TextureDimension::D2,
        format: *format,
        usage: wgpu::TextureUsages::RENDER_ATTACHMENT | wgpu::TextureUsages::COPY_SRC,
        view_formats: &[],
    })
}

/// Relies on `wgpu::Device::create_buffer`: allocates an unmapped buffer of
/// exactly `size` bytes usable as a copy destination and for CPU read-back.
/// A size beyond the device's `max_buffer_size` limit raises a validation
/// error that the device's error handler decides.
#[verifier::external_body]
pub(crate) fn create_readback_buffer(device: &wgpu::Device, size: u64) -> wgpu::Buffer {
    device.create_buffer(&wgpu::BufferDescriptor {
        label: None,
        size,
        usage: wgpu::BufferUsages::COPY_DST | wgpu::BufferUsages::MAP_READ,
        mapped_at_creation: false,
    })
}

/// Relies on `wgpu::Device::create_texture`: allocates the intermediate text
/// target, a 2D texture of exactly the given size in the canonical
/// 8-bit-per-channel RGBA format, readable as a texture binding by the
/// post-processor and writable as a render attachment by the text stage.
/// Texture creation forbids zero-sized dimensions (hence the precondition);
/// a side beyond the device's `max_texture_dimension_2d` limit raises a
/// validation error that the device's error handler decides.
#[verifier::external_body]
pub(crate) fn create_text_target(device: &wgpu::Device, width: u32, height: u32) -> wgpu::Texture
    requires
        width > 0,
        height > 0,
{
    device.create_texture(&wgpu::TextureDescriptor {
        label: Some("Text Compositor Out"),
        size: wgpu::Extent3d { width, height, depth_or_array_layers: 1 },
        mip_level_count: 1,
        sample_count: 1,
        dimension: wgpu::TextureDimension::D2,
        format: wgpu::TextureFormat::Rgba8Unorm,
        usage: wgpu::TextureUsages::TEXTURE_BINDING | wgpu::TextureUsages::RENDER_ATTACHMENT,
        view_formats: &[],
    })
}

} // verus!
