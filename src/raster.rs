use crate::errors::OverlayError;
use crate::pixels::PixelBuffer;
use crate::scene::{canvas_fits, render_scene, rendered_rgba_of, FontRegistry, VectorScene};
use vstd::prelude::*;

verus! {

/// Renders the scene with the registry's fonts on a transparent canvas of
/// the scene's own size. It fails only where tiny-skia cannot allocate a
/// canvas of that size.
pub fn rasterize(scene: &VectorScene, fonts: &FontRegistry) -> (r: Result<PixelBuffer, OverlayError>)
    requires
        scene.wf(),
    ensures
        r is Ok <==> canvas_fits(scene.spec_width() as nat, scene.spec_height() as nat),
        r matches Ok(p) ==> {
            &&& p.wf()
            &&& p.width == scene.spec_width()
            &&& p.height == scene.spec_height()
            &&& p.data@ == rendered_rgba_of(scene.spec_markup(), fonts.fonts())
        },
        r matches Err(e) ==> e is RasterError,
{
    match render_scene(scene, fonts) {
        Some(data) => Ok(PixelBuffer { width: scene.width(), height: scene.height(), data }),
        None => Err(OverlayError::RasterError("cannot allocate the canvas".to_owned())),
    }
}

} // verus!
