use vstd::prelude::*;

verus! {

/// The three caption lines burned into the overlay. Any string is allowed,
/// the empty one too.
pub struct AikuText {
    pub line_one: String,
    pub line_two: String,
    pub line_three: String,
}

/// What the pipeline is asked for: a caption and where the base image lives.
pub struct ImageOverlayReq {
    pub aiku_text: AikuText,
    pub image_url: String,
}

impl AikuText {
    pub fn new(line_one: String, line_two: String, line_three: String) -> (r: AikuText)
        ensures
            r.line_one@ == line_one@,
            r.line_two@ == line_two@,
            r.line_three@ == line_three@,
    {
        AikuText { line_one, line_two, line_three }
    }
}

impl ImageOverlayReq {
    pub fn new(aiku_text: AikuText, image_url: String) -> (r: ImageOverlayReq)
        ensures
            r.aiku_text == aiku_text,
            r.image_url@ == image_url@,
    {
        ImageOverlayReq { aiku_text, image_url }
    }
}

} // verus!
