use compositor_backend::AcquireFailure;
use compositor_backend::PostProcessor;
use compositor_backend::PostProcessorBuilder;
use compositor_backend::RenderSurface;
use compositor_backend::SurfaceConfig;
use compositor_backend::build_wgpu_state;
use compositor_backend::should_process;

fn gpu() -> (wgpu::Adapter, wgpu::Device, wgpu::Queue) {
    let mut desc = wgpu::InstanceDescriptor::new_without_display_handle();
    desc.backends = wgpu::Backends::NOOP;
    desc.backend_options.noop = wgpu::NoopBackendOptions::enabled();
    let instance = wgpu::Instance::new(desc);
    let adapter = pollster::block_on(instance.request_adapter(&wgpu::RequestAdapterOptions::default()))
        .expect("noop adapter");
    let (device, queue) =
        pollster::block_on(adapter.request_device(&wgpu::DeviceDescriptor::default()))
            .expect("noop device");
    (adapter, device, queue)
}

#[test]
fn headless_yields_nothing_before_configure() {
    let surface = RenderSurface::new_headless();
    assert!(surface.get_current_texture().is_none());
    assert!(surface.wgpu_surface().is_none());
    assert!(surface.headless().is_some());
}

#[test]
fn headless_default_config_keeps_size_and_format() {
    let (adapter, _device, _queue) = gpu();
    let mut surface = RenderSurface::new_headless_with_format(wgpu::TextureFormat::Bgra8Unorm);
    let config = surface.get_default_config(&adapter, 800, 600).expect("synthetic config");
    assert_eq!(config.width, 800);
    assert_eq!(config.height, 600);
    assert_eq!(config.format, wgpu::TextureFormat::Bgra8Unorm);
    assert_eq!(config.present_mode, wgpu::PresentMode::Immediate);
}

#[test]
fn acquisition_failure_reports_unconfigured() {
    let surface = RenderSurface::new_headless();
    assert_eq!(surface.try_acquire().err(), Some(AcquireFailure::Unconfigured));
}

#[test]
fn failure_message_names_the_kind() {
    assert_eq!(
        AcquireFailure::Unconfigured.message(),
        "surface not configured; skipping frame"
    );
    assert_eq!(
        AcquireFailure::Timeout.message(),
        "frame acquisition timed out; skipping frame"
    );
    assert_eq!(AcquireFailure::Lost.message(), "surface lost; skipping frame");
}

#[test]
fn try_acquire_succeeds_once_configured() {
    let (adapter, device, queue) = gpu();
    let mut surface = RenderSurface::new_headless();
    let config = surface.get_default_config(&adapter, 64, 64).unwrap();
    surface.configure(&device, &config);
    let target = surface.try_acquire().expect("configured synthetic surface");
    target.present(&queue);
}

#[test]
fn row_stride_follows_wide_format() {
    let (adapter, device, _queue) = gpu();
    let mut surface = RenderSurface::new_headless_with_format(wgpu::TextureFormat::Rgba16Float);
    let config = surface.get_default_config(&adapter, 10, 5).unwrap();
    surface.configure(&device, &config);
    let headless = surface.headless().unwrap();
    assert_eq!(headless.buffer_width, 80);
    assert_eq!(headless.buffer.as_ref().unwrap().size(), 400);
}

#[test]
fn configure_then_acquire_yields_target() {
    let (adapter, device, queue) = gpu();
    let mut surface = RenderSurface::new_headless();
    let config = surface.get_default_config(&adapter, 800, 600).unwrap();
    surface.configure(&device, &config);
    let target = surface.get_current_texture().expect("configured synthetic surface");
    target.present(&queue);
}

#[test]
fn configure_records_size_and_allocates() {
    let (adapter, device, _queue) = gpu();
    let mut surface = RenderSurface::new_headless();
    let config = surface.get_default_config(&adapter, 123, 45).unwrap();
    surface.configure(&device, &config);
    let headless = surface.headless().unwrap();
    assert_eq!(headless.width, 123);
    assert_eq!(headless.height, 45);
    assert_eq!(headless.buffer_width, 4 * 123);
    let texture = headless.texture.as_ref().expect("allocated texture");
    assert_eq!(texture.width(), 123);
    assert_eq!(texture.height(), 45);
    let buffer = headless.buffer.as_ref().expect("allocated read-back buffer");
    assert_eq!(buffer.size(), 4 * 123 * 45);
}

#[test]
fn text_target_matches_drawable() {
    let (_adapter, device, _queue) = gpu();
    let state = build_wgpu_state(&device, 800, 600);
    assert_eq!(state.text_width, 800);
    assert_eq!(state.text_height, 600);
    assert_eq!(state.text_dest.width(), 800);
    assert_eq!(state.text_dest.height(), 600);
    assert_eq!(state.text_dest.format(), wgpu::TextureFormat::Rgba8Unorm);
}

#[test]
fn text_target_clamps_zero_drawable() {
    let (_adapter, device, _queue) = gpu();
    let state = build_wgpu_state(&device, 0, 0);
    assert_eq!(state.text_width, 1);
    assert_eq!(state.text_height, 1);
    assert_eq!(state.text_dest.width(), 1);
    assert_eq!(state.text_dest.height(), 1);
    let d = state.text_dimensions();
    assert_eq!(d, compositor_backend::Dimensions::new(1, 1).unwrap());
}

struct CountingProcessor {
    resized: u32,
    processed: u32,
}

impl PostProcessor for CountingProcessor {
    fn resize(
        &mut self,
        _device: &wgpu::Device,
        _text_view: &wgpu::TextureView,
        _surface_config: &SurfaceConfig,
    ) {
        self.resized += 1;
    }

    fn process(
        &mut self,
        _encoder: &mut wgpu::CommandEncoder,
        _queue: &wgpu::Queue,
        _text_view: &wgpu::TextureView,
        _surface_config: &SurfaceConfig,
        _surface_view: &wgpu::TextureView,
    ) {
        self.processed += 1;
    }
}

struct CountingBuilder;

impl PostProcessorBuilder for CountingBuilder {
    type PostProcessor = CountingProcessor;

    fn compile(
        self,
        _device: &wgpu::Device,
        _text_view: &wgpu::TextureView,
        _surface_config: &SurfaceConfig,
    ) -> CountingProcessor {
        CountingProcessor { resized: 0, processed: 0 }
    }
}

#[test]
fn full_frame_sequence_with_resize() {
    let (adapter, device, queue) = gpu();
    let mut surface = RenderSurface::new_headless();

    let config = surface.get_default_config(&adapter, 800, 600).unwrap();
    surface.configure(&device, &config);
    let state = build_wgpu_state(&device, config.width, config.height);
    let mut processor = CountingBuilder.compile(&device, &state.text_dest_view, &config);

    let target = surface.get_current_texture().expect("first frame");
    let mut encoder = device.create_command_encoder(&wgpu::CommandEncoderDescriptor::default());
    assert!(should_process(true, processor.needs_update()));
    processor.process(&mut encoder, &queue, &state.text_dest_view, &config, target.get_view());
    target.present(&queue);
    assert_eq!(processor.processed, 1);

    // Resize: reconfigure, rebuild the text target, then resize the
    // processor before the next process call.
    let config = surface.get_default_config(&adapter, 400, 300).unwrap();
    surface.configure(&device, &config);
    let state = build_wgpu_state(&device, config.width, config.height);
    processor.resize(&device, &state.text_dest_view, &config);
    assert_eq!(processor.resized, 1);

    assert_eq!(state.text_dest.width(), 400);
    assert_eq!(state.text_dest.height(), 300);
    assert_eq!(surface.headless().unwrap().width, 400);
    assert_eq!(surface.headless().unwrap().height, 300);

    let target = surface.get_current_texture().expect("frame after resize");
    let mut encoder = device.create_command_encoder(&wgpu::CommandEncoderDescriptor::default());
    processor.process(&mut encoder, &queue, &state.text_dest_view, &config, target.get_view());
    target.present(&queue);
    assert_eq!(processor.processed, 2);
}
