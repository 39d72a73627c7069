//! The core of a small application shell for Dear ImGui over SDL3
//! and wgpu: the decisions of the main loop, a PNG decoder for textures,
//! fitting images into the texture size limit, the registry of textures,
//! the choice of surface format, and the demo gradient image.
//!
//! The window, the GPU and the files are handled by the application around
//! this library; it hands the library plain values and carries out what the
//! library decides.
pub mod demo_image;
pub mod frame_loop;
pub mod image_fit;
pub mod image_load;
pub mod png_backend;
pub mod png_decoder;
pub mod surface;
pub mod textures;

pub use demo_image::make_image;
pub use frame_loop::{
    frame_wait_ms, handle_event, plan_frame, should_build_frame, EventAction, FramePlan,
    LoopEvent, LoopState, SurfaceStatus, WindowEventKind,
};
pub use image_fit::{fit_to_max_size, FittedImage, RgbaImage};
pub use image_load::{decode_rgba, load_fitted};
pub use png_decoder::{ColorType, ExtendedColorType, ImageError, Limits, PngDecoder};
pub use surface::pick_surface_format;
pub use textures::{TextureInfo, TextureRegistry, TexturesPersistent};
