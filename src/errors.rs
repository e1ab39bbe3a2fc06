use vstd::prelude::*;

verus! {

/// Why a stage of the overlay pipeline failed. Each stage reports its own
/// kind, and the first failure ends the pipeline.
#[derive(Debug, PartialEq, Eq)]
pub enum OverlayError {
    /// The base image could not be fetched.
    NetworkError(String),
    /// Bytes that should hold an image are not a supported, valid image.
    DecodeError(String),
    /// The caption template could not be parsed or rendered.
    TemplateError(String),
    /// The filled template is not valid vector markup.
    SceneParseError(String),
    /// A typeface that the template names is not in the font registry.
    FontResolutionError(String),
    /// The scene could not be rendered to pixels.
    RasterError(String),
    /// The base image does not cover the fixed frame.
    CropOutOfBoundsError { width: u32, height: u32 },
    /// The final frame could not be encoded.
    EncodeError(String),
}

impl OverlayError {
    /// A short name for the kind of failure.
    pub fn kind(&self) -> (r: &'static str) {
        match self {
            OverlayError::NetworkError(_) => "NetworkError",
            OverlayError::DecodeError(_) => "DecodeError",
            OverlayError::TemplateError(_) => "TemplateError",
            OverlayError::SceneParseError(_) => "SceneParseError",
            OverlayError::FontResolutionError(_) => "FontResolutionError",
            OverlayError::RasterError(_) => "RasterError",
            OverlayError::CropOutOfBoundsError { .. } => "CropOutOfBoundsError",
            OverlayError::EncodeError(_) => "EncodeError",
        }
    }
}

} // verus!
