//! Presentation-surface and post-processing layer of a GPU text compositor.
//!
//! The crate decouples where pixels land (a live presentation surface bound
//! to a window, or a synthetic offscreen surface used by test harnesses) from
//! how composited text becomes final pixels (a pluggable post-processing
//! stage). It owns the per-frame acquisition/present cycle, the intermediate
//! texture that text is composited into, and the size bookkeeping around
//! surface reconfiguration.

mod config;
mod geometry;
mod gpu;
mod processor;
mod surface;

pub use config::SurfaceConfig;
pub use geometry::Dimensions;
pub use geometry::DrawRegion;
pub use geometry::Viewport;
pub use processor::PostProcessor;
pub use processor::PostProcessorBuilder;
pub use processor::WgpuState;
pub use processor::build_wgpu_state;
pub use processor::should_process;
pub use surface::AcquireFailure;
pub use surface::Headless;
pub use surface::LiveSurface;
pub use surface::RenderSurface;
pub use surface::RenderTarget;
