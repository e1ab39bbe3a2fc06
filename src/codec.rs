use crate::pixels::PixelBuffer;
use vstd::prelude::*;

verus! {

/// The image that the `image` crate decodes from `bytes`, as width, height
/// and RGBA8 samples; `None` where the bytes hold no image it can read.
pub uninterp spec fn decoded_of(bytes: Seq<u8>) -> Option<(nat, nat, Seq<u8>)>;

/// The PNG stream that the `image` crate writes for an RGBA8 image.
pub uninterp spec fn png_of(width: nat, height: nat, data: Seq<u8>) -> Seq<u8>;

/// Relies on image::load_from_memory: the container format is guessed from
/// the bytes and the image decoded; into_rgba8 converts it to RGBA8.
#[verifier::external_body]
pub(crate) fn decode_rgba(bytes: &[u8]) -> (r: Result<PixelBuffer, String>)
    ensures
        r is Ok <==> decoded_of(bytes@) is Some,
        r matches Ok(p) ==> p.wf() && decoded_of(bytes@) == Some(
            (p.width as nat, p.height as nat, p.data@),
        ),
{
    let img = image::load_from_memory(bytes).map_err(|e| e.to_string())?.into_rgba8();
    Ok(PixelBuffer { width: img.width(), height: img.height(), data: img.into_raw() })
}

/// Relies on image::write_buffer_with_format: writes the RGBA8 samples as one
/// PNG stream; the encoder refuses only a zero width or height.
#[verifier::external_body]
pub(crate) fn encode_png(p: &PixelBuffer) -> (r: Result<Vec<u8>, String>)
    requires
        p.wf(),
    ensures
        p.width > 0 && p.height > 0 ==> r is Ok,
        r matches Ok(v) ==> v@ == png_of(p.width as nat, p.height as nat, p.data@),
{
    let mut out: Vec<u8> = Vec::new();
    image::write_buffer_with_format(
        &mut std::io::Cursor::new(&mut out),
        &p.data,
        p.width,
        p.height,
        image::ColorType::Rgba8,
        image::ImageOutputFormat::Png,
    ).map_err(|e| e.to_string())?;
    Ok(out)
}

} // verus!
