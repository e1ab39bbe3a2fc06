use crate::codec::{encode_png, png_of};
use crate::errors::OverlayError;
use crate::pixels::PixelBuffer;
use vstd::arithmetic::div_mod::lemma_fundamental_div_mod;
use vstd::prelude::*;

verus! {

/// Left edge of the frame cut out of the base image.
pub const FRAME_LEFT: u32 = 164;

/// Top edge of the frame cut out of the base image.
pub const FRAME_TOP: u32 = 0;

/// Width of the frame, and of the final image.
pub const FRAME_WIDTH: u32 = 440;

/// Height of the frame, and of the final image.
pub const FRAME_HEIGHT: u32 = 768;

/// Where the overlay's top-left corner lands inside the frame.
pub const OVERLAY_LEFT: u32 = 10;

pub const OVERLAY_TOP: u32 = 608;

/// What `Rgba::blend` of the `image` crate makes of a partly transparent
/// foreground pixel over a background pixel.
pub uninterp spec fn blend_of(bg: Seq<u8>, fg: Seq<u8>) -> Seq<u8>;

/// Source-over compositing of one RGBA pixel: a transparent foreground
/// leaves the background, an opaque one replaces it.
pub open spec fn source_over(bg: Seq<u8>, fg: Seq<u8>) -> Seq<u8> {
    if fg[3] == 0 {
        bg
    } else if fg[3] == 255 {
        fg
    } else {
        blend_of(bg, fg)
    }
}

/// Pixel `(i, j)` of `bottom` once `top` is laid over it at `(x, y)`; the
/// part of `top` that falls outside `bottom` is clipped.
pub open spec fn overlaid_pixel(
    bottom: PixelBuffer,
    top: PixelBuffer,
    x: int,
    y: int,
    i: int,
    j: int,
) -> Seq<u8> {
    if x <= i < x + top.width && y <= j < y + top.height {
        source_over(bottom.pixel(i, j), top.pixel(i - x, j - y))
    } else {
        bottom.pixel(i, j)
    }
}

/// Relies on image::imageops::crop_imm (and SubImage::to_image): the
/// rectangle at `(x, y)` of size `w` x `h` is copied out, pixel for pixel.
#[verifier::external_body]
fn crop_region(src: &PixelBuffer, x: u32, y: u32, w: u32, h: u32) -> (r: PixelBuffer)
    requires
        src.wf(),
        x + w <= src.width,
        y + h <= src.height,
    ensures
        r.wf(),
        r.width == w,
        r.height == h,
        forall|i: int, j: int|
            r.in_bounds(i, j) ==> #[trigger] r.pixel(i, j) == src.pixel(x + i, y + j),
{
    let img = image::RgbaImage::from_raw(src.width, src.height, src.data.clone()).unwrap();
    let out = image::imageops::crop_imm(&img, x, y, w, h).to_image();
    PixelBuffer { width: out.width(), height: out.height(), data: out.into_raw() }
}

/// Relies on image::imageops::overlay: each pixel of `top` that lands inside
/// `bottom` is blended over it with `Rgba::blend`; the rest is left alone.
#[verifier::external_body]
fn overlay_at(bottom: &mut PixelBuffer, top: &PixelBuffer, x: u32, y: u32)
    requires
        old(bottom).wf(),
        top.wf(),
    ensures
        final(bottom).wf(),
        final(bottom).width == old(bottom).width,
        final(bottom).height == old(bottom).height,
        forall|i: int, j: int|
            final(bottom).in_bounds(i, j) ==> #[trigger] final(bottom).pixel(i, j) == ({
                let bg = old(bottom).pixel(i, j);
                let fg = top.pixel(i - x, j - y);
                if x <= i < x + top.width && y <= j < y + top.height {
                    if fg[3] == 0 {
                        bg
                    } else if fg[3] == 255 {
                        fg
                    } else {
                        blend_of(bg, fg)
                    }
                } else {
                    bg
                }
            }),
{
    let data = std::mem::take(&mut bottom.data);
    let mut img = image::RgbaImage::from_raw(bottom.width, bottom.height, data).unwrap();
    let top_img = image::RgbaImage::from_raw(top.width, top.height, top.data.clone()).unwrap();
    image::imageops::overlay(&mut img, &top_img, i64::from(x), i64::from(y));
    bottom.data = img.into_raw();
}

/// The base image covers the whole frame.
pub open spec fn covers_frame(base: PixelBuffer) -> bool {
    base.width >= FRAME_LEFT + FRAME_WIDTH && base.height >= FRAME_TOP + FRAME_HEIGHT
}

/// The error for a base image too small for the frame.
pub open spec fn crop_error(base: PixelBuffer) -> OverlayError {
    OverlayError::CropOutOfBoundsError { width: base.width, height: base.height }
}

/// Pixel `(x, y)` of the frame: the base image seen through the frame, with
/// the overlay composited at its fixed offset.
pub open spec fn frame_pixel(base: PixelBuffer, overlay: PixelBuffer, x: int, y: int) -> Seq<u8> {
    if OVERLAY_LEFT <= x < OVERLAY_LEFT + overlay.width && OVERLAY_TOP <= y < OVERLAY_TOP
        + overlay.height {
        source_over(
            base.pixel(x + FRAME_LEFT, y + FRAME_TOP),
            overlay.pixel(x - OVERLAY_LEFT, y - OVERLAY_TOP),
        )
    } else {
        base.pixel(x + FRAME_LEFT, y + FRAME_TOP)
    }
}

/// `f` is the composed frame of `base` and `overlay`.
pub open spec fn is_frame_of(f: PixelBuffer, base: PixelBuffer, overlay: PixelBuffer) -> bool {
    &&& f.wf()
    &&& f.width == FRAME_WIDTH
    &&& f.height == FRAME_HEIGHT
    &&& forall|x: int, y: int|
        f.in_bounds(x, y) ==> #[trigger] f.pixel(x, y) == frame_pixel(base, overlay, x, y)
}

/// Cuts the fixed frame out of the base image, or reports that the base
/// image does not cover it.
pub fn crop_to_frame(base: &PixelBuffer) -> (r: Result<PixelBuffer, OverlayError>)
    requires
        base.wf(),
    ensures
        r is Err <==> !covers_frame(*base),
        r matches Err(e) ==> e == crop_error(*base),
        r matches Ok(c) ==> {
            &&& c.wf()
            &&& c.width == FRAME_WIDTH
            &&& c.height == FRAME_HEIGHT
            &&& forall|x: int, y: int|
                c.in_bounds(x, y) ==> #[trigger] c.pixel(x, y) == base.pixel(
                    x + FRAME_LEFT,
                    y + FRAME_TOP,
                )
        },
{
    if base.width < FRAME_LEFT + FRAME_WIDTH || base.height < FRAME_TOP + FRAME_HEIGHT {
        return Err(OverlayError::CropOutOfBoundsError { width: base.width, height: base.height });
    }
    Ok(crop_region(base, FRAME_LEFT, FRAME_TOP, FRAME_WIDTH, FRAME_HEIGHT))
}

/// Composites the overlay onto a frame at the fixed offset, source-over,
/// clipping what falls outside the frame.
pub fn composite_overlay(frame: &mut PixelBuffer, overlay: &PixelBuffer)
    requires
        old(frame).wf(),
        overlay.wf(),
    ensures
        final(frame).wf(),
        final(frame).width == old(frame).width,
        final(frame).height == old(frame).height,
        forall|x: int, y: int|
            final(frame).in_bounds(x, y) ==> #[trigger] final(frame).pixel(x, y) == overlaid_pixel(
                *old(frame),
                *overlay,
                OVERLAY_LEFT as int,
                OVERLAY_TOP as int,
                x,
                y,
            ),
{
    overlay_at(frame, overlay, OVERLAY_LEFT, OVERLAY_TOP);
}

/// Crops the base image to the frame and composites the overlay onto it.
pub fn compose_frame(base: &PixelBuffer, overlay: &PixelBuffer) -> (r: Result<
    PixelBuffer,
    OverlayError,
>)
    requires
        base.wf(),
        overlay.wf(),
    ensures
        r is Err <==> !covers_frame(*base),
        r matches Err(e) ==> e == crop_error(*base),
        r matches Ok(f) ==> is_frame_of(f, *base, *overlay),
{
    let mut frame = match crop_to_frame(base) {
        Ok(c) => c,
        Err(e) => {
            return Err(e);
        },
    };
    let ghost cropped = frame;
    composite_overlay(&mut frame, overlay);
    proof {
        lemma_composited_crop_is_frame(*base, *overlay, cropped, frame);
    }
    Ok(frame)
}

/// Compositing the overlay onto the cropped frame gives the composed frame.
pub proof fn lemma_composited_crop_is_frame(
    base: PixelBuffer,
    overlay: PixelBuffer,
    cropped: PixelBuffer,
    after: PixelBuffer,
)
    requires
        cropped.width == FRAME_WIDTH,
        cropped.height == FRAME_HEIGHT,
        forall|x: int, y: int|
            cropped.in_bounds(x, y) ==> #[trigger] cropped.pixel(x, y) == base.pixel(
                x + FRAME_LEFT,
                y + FRAME_TOP,
            ),
        after.wf(),
        after.width == cropped.width,
        after.height == cropped.height,
        forall|x: int, y: int|
            after.in_bounds(x, y) ==> #[trigger] after.pixel(x, y) == overlaid_pixel(
                cropped,
                overlay,
                OVERLAY_LEFT as int,
                OVERLAY_TOP as int,
                x,
                y,
            ),
    ensures
        is_frame_of(after, base, overlay),
{
    assert forall|x: int, y: int| after.in_bounds(x, y) implies #[trigger] after.pixel(x, y)
        == frame_pixel(base, overlay, x, y) by {
        assert(cropped.pixel(x, y) == base.pixel(x + FRAME_LEFT, y + FRAME_TOP));
    }
}

/// The composed frame is determined by the base image and the overlay: two
/// frames of the same pair hold the same samples.
pub proof fn lemma_frame_is_unique(base: PixelBuffer, overlay: PixelBuffer, f: PixelBuffer, g: PixelBuffer)
    requires
        is_frame_of(f, base, overlay),
        is_frame_of(g, base, overlay),
    ensures
        f.data@ == g.data@,
{
    assert forall|k: int| 0 <= k < f.data@.len() implies f.data@[k] == g.data@[k] by {
        let p = k / 4;
        let c = k % 4;
        let x = p % (FRAME_WIDTH as int);
        let y = p / (FRAME_WIDTH as int);
        lemma_fundamental_div_mod(k, 4);
        lemma_fundamental_div_mod(p, FRAME_WIDTH as int);
        assert(0 <= c < 4);
        assert(0 <= x < FRAME_WIDTH);
        assert(0 <= p);
        assert(p < FRAME_WIDTH * FRAME_HEIGHT);
        assert(0 <= y < FRAME_HEIGHT) by (nonlinear_arith)
            requires
                p == FRAME_WIDTH as int * y + x,
                0 <= x < FRAME_WIDTH,
                0 <= p < FRAME_WIDTH * FRAME_HEIGHT,
        ;
        assert(f.in_bounds(x, y));
        assert(f.pixel(x, y) == g.pixel(x, y));
        assert(k == (y * FRAME_WIDTH + x) * 4 + c);
        assert(f.pixel(x, y)[c] == f.data@[k]);
        assert(g.pixel(x, y)[c] == g.data@[k]);
    }
    assert(f.data@ =~= g.data@);
}

/// Crops, composites and encodes the final image as PNG bytes.
pub fn compose(base: &PixelBuffer, overlay: &PixelBuffer) -> (r: Result<Vec<u8>, OverlayError>)
    requires
        base.wf(),
        overlay.wf(),
    ensures
        !covers_frame(*base) ==> r == Err::<Vec<u8>, OverlayError>(crop_error(*base)),
        covers_frame(*base) ==> r is Ok,
        r matches Ok(bytes) ==> exists|f: PixelBuffer|
            is_frame_of(f, *base, *overlay) && bytes@ == #[trigger] png_of(
                f.width as nat,
                f.height as nat,
                f.data@,
            ),
{
    let frame = compose_frame(base, overlay)?;
    match encode_png(&frame) {
        Ok(bytes) => Ok(bytes),
        Err(msg) => Err(OverlayError::EncodeError(msg)),
    }
}

/// A fully transparent overlay pixel leaves the base pixel beneath it as it
/// was.
pub proof fn lemma_transparent_overlay_keeps_base(
    base: PixelBuffer,
    overlay: PixelBuffer,
    x: int,
    y: int,
)
    requires
        overlay.wf(),
        overlay.in_bounds(x, y),
        overlay.pixel(x, y)[3] == 0,
    ensures
        frame_pixel(base, overlay, x + OVERLAY_LEFT, y + OVERLAY_TOP) == base.pixel(
            x + OVERLAY_LEFT + FRAME_LEFT,
            y + OVERLAY_TOP + FRAME_TOP,
        ),
{
}

} // verus!
