use crate::codec::{decode_rgba, decoded_of, png_of};
use crate::compositor::{compose, frame_pixel, is_frame_of, lemma_frame_is_unique, FRAME_HEIGHT, FRAME_LEFT, FRAME_TOP, FRAME_WIDTH};
use crate::errors::OverlayError;
use crate::pixels::PixelBuffer;
use crate::raster::rasterize;
use crate::request::{AikuText, ImageOverlayReq};
use crate::scene::{build_scene, fonts_cover, rendered_rgba_of, svg_canvas_of, FontRegistry};
use crate::template::{
    caption_markup,
    render_template,
    FONT_FAMILY,
    OVERLAY_HEIGHT,
    OVERLAY_TEMPLATE,
    OVERLAY_WIDTH,
};
use vstd::prelude::*;

verus! {

/// The markup of the caption template filled with `text`.
pub open spec fn overlay_markup(text: AikuText) -> Option<Seq<char>> {
    caption_markup(OVERLAY_TEMPLATE@, text)
}

/// Every stage of the caption overlay succeeds for `text` with `fonts`: the
/// template renders, the markup parses to a canvas of the declared size, and
/// the registry holds both faces of the template's family.
pub open spec fn overlay_renders(text: AikuText, fonts: FontRegistry) -> bool {
    &&& overlay_markup(text) is Some
    &&& svg_canvas_of(overlay_markup(text)->Some_0) == Some(
        (OVERLAY_WIDTH as nat, OVERLAY_HEIGHT as nat),
    )
    &&& fonts_cover(fonts.fonts(), FONT_FAMILY@)
}

/// The overlay bitmap for `text`: the filled template drawn with `fonts`.
pub open spec fn overlay_pixels(text: AikuText, fonts: FontRegistry) -> Seq<u8> {
    rendered_rgba_of(overlay_markup(text)->Some_0, fonts.fonts())
}

/// `png` is what the pipeline returns for base image bytes `b`, caption
/// `text` and `fonts`: the PNG of the frame composed from the decoded base
/// and the rendered overlay.
pub open spec fn is_pipeline_output(png: Seq<u8>, b: Seq<u8>, text: AikuText, fonts: FontRegistry) -> bool {
    exists|base: PixelBuffer, overlay: PixelBuffer, f: PixelBuffer|
        #![trigger is_frame_of(f, base, overlay)]
        {
            &&& base.wf()
            &&& decoded_of(b) == Some((base.width as nat, base.height as nat, base.data@))
            &&& overlay.wf()
            &&& overlay.width == OVERLAY_WIDTH
            &&& overlay.height == OVERLAY_HEIGHT
            &&& overlay.data@ == overlay_pixels(text, fonts)
            &&& is_frame_of(f, base, overlay)
            &&& png == png_of(f.width as nat, f.height as nat, f.data@)
        }
}

/// The output depends on the fetched bytes, the caption and the fonts
/// alone: two successful runs on the same ones give the same PNG bytes.
pub proof fn lemma_output_is_determined(
    p: Seq<u8>,
    q: Seq<u8>,
    b: Seq<u8>,
    text: AikuText,
    fonts: FontRegistry,
)
    requires
        is_pipeline_output(p, b, text, fonts),
        is_pipeline_output(q, b, text, fonts),
    ensures
        p == q,
{
    let (base1, ov1, f1) = choose|base: PixelBuffer, overlay: PixelBuffer, f: PixelBuffer|
        #![trigger is_frame_of(f, base, overlay)]
        {
            &&& base.wf()
            &&& decoded_of(b) == Some((base.width as nat, base.height as nat, base.data@))
            &&& overlay.wf()
            &&& overlay.width == OVERLAY_WIDTH
            &&& overlay.height == OVERLAY_HEIGHT
            &&& overlay.data@ == overlay_pixels(text, fonts)
            &&& is_frame_of(f, base, overlay)
            &&& p == png_of(f.width as nat, f.height as nat, f.data@)
        };
    let (base2, ov2, f2) = choose|base: PixelBuffer, overlay: PixelBuffer, f: PixelBuffer|
        #![trigger is_frame_of(f, base, overlay)]
        {
            &&& base.wf()
            &&& decoded_of(b) == Some((base.width as nat, base.height as nat, base.data@))
            &&& overlay.wf()
            &&& overlay.width == OVERLAY_WIDTH
            &&& overlay.height == OVERLAY_HEIGHT
            &&& overlay.data@ == overlay_pixels(text, fonts)
            &&& is_frame_of(f, base, overlay)
            &&& q == png_of(f.width as nat, f.height as nat, f.data@)
        };
    assert forall|x: int, y: int| f2.in_bounds(x, y) implies #[trigger] f2.pixel(x, y)
        == frame_pixel(base1, ov1, x, y) by {
        assert(f2.pixel(x, y) == frame_pixel(base2, ov2, x, y));
    }
    assert(is_frame_of(f2, base1, ov1));
    lemma_frame_is_unique(base1, ov1, f1, f2);
}

/// An error that one of the overlay's stages reports.
pub open spec fn is_overlay_error(e: OverlayError) -> bool {
    e is TemplateError || e is SceneParseError || e is FontResolutionError || e is RasterError
}

/// Renders the caption into the overlay bitmap: the template is filled,
/// parsed, its text turned into outlines, and the scene rasterized. The
/// bitmap always has the template's declared size, whatever the caption.
pub fn create_overlay_png(text: &AikuText, fonts: &FontRegistry) -> (r: Result<
    PixelBuffer,
    OverlayError,
>)
    ensures
        r is Ok <==> overlay_renders(*text, *fonts),
        r matches Ok(p) ==> {
            &&& p.wf()
            &&& p.width == OVERLAY_WIDTH
            &&& p.height == OVERLAY_HEIGHT
            &&& p.data@ == overlay_pixels(*text, *fonts)
        },
        r matches Err(e) ==> is_overlay_error(e),
        overlay_markup(*text) is None ==> r matches Err(OverlayError::TemplateError(_)),
        overlay_markup(*text) matches Some(m) && svg_canvas_of(m) is None ==> r matches Err(
            OverlayError::SceneParseError(_),
        ),
        overlay_markup(*text) matches Some(m) && svg_canvas_of(m) is Some && !fonts_cover(
            fonts.fonts(),
            FONT_FAMILY@,
        ) ==> r matches Err(OverlayError::FontResolutionError(_)),
{
    let markup = render_template(OVERLAY_TEMPLATE, text)?;
    let scene = build_scene(markup.as_str(), FONT_FAMILY, fonts)?;
    if scene.width() != OVERLAY_WIDTH || scene.height() != OVERLAY_HEIGHT {
        return Err(
            OverlayError::SceneParseError(
                "the canvas differs from the size the template declares".to_owned(),
            ),
        );
    }
    rasterize(&scene, fonts)
}

/// Runs the pipeline on a request once the base image has been fetched:
/// `fetched` holds the image's bytes, or why they could not be had. The
/// base image is decoded and checked against the frame, the caption overlay
/// is rendered, and the two are composed and encoded as PNG. The first
/// stage that fails decides the error.
pub fn process_image_overlay(
    req: &ImageOverlayReq,
    fetched: Result<Vec<u8>, String>,
    fonts: &FontRegistry,
) -> (r: Result<Vec<u8>, OverlayError>)
    ensures
        fetched matches Err(m) ==> r == Err::<Vec<u8>, OverlayError>(OverlayError::NetworkError(m)),
        fetched matches Ok(b) ==> (decoded_of(b@) is None <==> r matches Err(
            OverlayError::DecodeError(_),
        )),
        fetched matches Ok(b) ==> ({
            let d = decoded_of(b@);
            let (w, h) = (d->Some_0.0, d->Some_0.1);
            let covers = w >= FRAME_LEFT + FRAME_WIDTH && h >= FRAME_TOP + FRAME_HEIGHT;
            d is Some ==> {
                &&& !covers ==> r == Err::<Vec<u8>, OverlayError>(
                    OverlayError::CropOutOfBoundsError { width: w as u32, height: h as u32 },
                )
                &&& covers && !overlay_renders(req.aiku_text, *fonts) ==> (r matches Err(e)
                    && is_overlay_error(e))
                &&& covers && overlay_renders(req.aiku_text, *fonts) ==> r is Ok
            }
        }),
        r matches Ok(png) ==> fetched matches Ok(b) && is_pipeline_output(
            png@,
            b@,
            req.aiku_text,
            *fonts,
        ),
{
    let bytes = match fetched {
        Ok(b) => b,
        Err(m) => {
            return Err(OverlayError::NetworkError(m));
        },
    };
    let base = match decode_rgba(bytes.as_slice()) {
        Ok(p) => p,
        Err(m) => {
            return Err(OverlayError::DecodeError(m));
        },
    };
    if base.width < FRAME_LEFT + FRAME_WIDTH || base.height < FRAME_TOP + FRAME_HEIGHT {
        return Err(OverlayError::CropOutOfBoundsError { width: base.width, height: base.height });
    }
    let overlay = create_overlay_png(&req.aiku_text, fonts)?;
    compose(&base, &overlay)
}

} // verus!
