//! Caption overlays for images: a three-line caption is filled into a vector
//! template, laid out with embedded fonts, rasterized, and burned into a fixed
//! frame cropped out of a base image.

pub mod auth;
pub mod codec;
pub mod compositor;
pub mod errors;
pub mod markup;
pub mod pipeline;
pub mod pixels;
pub mod raster;
pub mod request;
pub mod scene;
pub mod template;
pub mod text;

pub use auth::is_authed;
pub use compositor::{compose, compose_frame, composite_overlay, crop_to_frame};
pub use compositor::{FRAME_HEIGHT, FRAME_LEFT, FRAME_TOP, FRAME_WIDTH, OVERLAY_LEFT, OVERLAY_TOP};
pub use errors::OverlayError;
pub use markup::escape_markup;
pub use pipeline::{create_overlay_png, process_image_overlay};
pub use pixels::PixelBuffer;
pub use scene::{build_scene, FontRegistry, VectorScene};
pub use raster::rasterize;
pub use request::{AikuText, ImageOverlayReq};
pub use template::{render_template, FONT_FAMILY, OVERLAY_HEIGHT, OVERLAY_TEMPLATE, OVERLAY_WIDTH};
