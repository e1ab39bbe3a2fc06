use aiku_overlay::{
    build_scene, compose, compose_frame, composite_overlay, crop_to_frame, escape_markup,
    process_image_overlay, render_template, AikuText, FontRegistry, ImageOverlayReq, OverlayError,
    PixelBuffer, FONT_FAMILY, FRAME_HEIGHT, FRAME_WIDTH, OVERLAY_TEMPLATE,
};

fn caption(a: &str, b: &str, c: &str) -> AikuText {
    AikuText::new(a.to_string(), b.to_string(), c.to_string())
}

fn request(a: &str, b: &str, c: &str) -> ImageOverlayReq {
    ImageOverlayReq::new(caption(a, b, c), "https://example.com/base.jpg".to_string())
}

fn empty_fonts() -> FontRegistry {
    FontRegistry::load(Vec::new(), Vec::new())
}

/// A buffer whose pixel (x, y) is (x % 256, y % 256, (x + y) % 256, alpha).
fn gradient(width: u32, height: u32, alpha: u8) -> PixelBuffer {
    let mut data = Vec::new();
    for y in 0..height {
        for x in 0..width {
            data.push((x % 256) as u8);
            data.push((y % 256) as u8);
            data.push(((x + y) % 256) as u8);
            data.push(alpha);
        }
    }
    PixelBuffer::from_raw(width, height, data).unwrap()
}

fn solid(width: u32, height: u32, px: [u8; 4]) -> PixelBuffer {
    let mut data = Vec::new();
    for _ in 0..(width * height) {
        data.extend_from_slice(&px);
    }
    PixelBuffer::from_raw(width, height, data).unwrap()
}

fn jpeg_bytes(width: u32, height: u32) -> Vec<u8> {
    let img = image::RgbImage::from_fn(width, height, |x, y| image::Rgb([(x % 256) as u8, (y % 256) as u8, 128]));
    let mut out = Vec::new();
    image::DynamicImage::ImageRgb8(img)
        .write_to(&mut std::io::Cursor::new(&mut out), image::ImageOutputFormat::Jpeg(90))
        .unwrap();
    out
}

fn png_bytes(width: u32, height: u32) -> Vec<u8> {
    let img = image::RgbaImage::from_pixel(width, height, image::Rgba([1, 2, 3, 255]));
    let mut out = Vec::new();
    image::DynamicImage::ImageRgba8(img)
        .write_to(&mut std::io::Cursor::new(&mut out), image::ImageOutputFormat::Png)
        .unwrap();
    out
}

#[test]
fn escape_replaces_every_special_character() {
    assert_eq!(escape_markup("a&b<c>d\"e'f"), "a&amp;b&lt;c&gt;d&quot;e&#39;f");
}

#[test]
fn escape_keeps_plain_text_and_empty() {
    assert_eq!(escape_markup(""), "");
    assert_eq!(escape_markup("plain text, ünïcode"), "plain text, ünïcode");
}

#[test]
fn escape_script_tag() {
    assert_eq!(escape_markup("<script>"), "&lt;script&gt;");
}

#[test]
fn template_fills_three_lines() {
    let s = render_template(OVERLAY_TEMPLATE, &caption("A", "B", "C")).unwrap();
    assert!(s.contains(">A</text>"));
    assert!(s.contains(">B</text>"));
    assert!(s.contains(">C</text>"));
    assert!(!s.contains("{{"));
}

#[test]
fn template_escapes_markup_in_captions() {
    let s = render_template(OVERLAY_TEMPLATE, &caption("<script>", "a & b", "\"q\"")).unwrap();
    assert!(s.contains(">&lt;script&gt;</text>"));
    assert!(s.contains(">a &amp; b</text>"));
    assert!(s.contains(">&quot;q&quot;</text>"));
    assert!(!s.contains("<script>"));
}

#[test]
fn template_accepts_empty_lines() {
    let s = render_template(OVERLAY_TEMPLATE, &caption("", "", "")).unwrap();
    assert!(s.contains("></text>"));
}

#[test]
fn template_without_placeholder_is_template_error() {
    let r = render_template("<svg>{{ line_one }} {{ line_two }}</svg>", &caption("A", "B", "C"));
    assert!(matches!(r, Err(OverlayError::TemplateError(_))));
}

#[test]
fn template_with_date_filter_is_template_error() {
    let t = "{{ line_one }}{{ line_two }}{{ line_three }}{{ 'now' | date: '%Y' }}";
    let r = render_template(t, &caption("A", "B", "C"));
    assert!(matches!(r, Err(OverlayError::TemplateError(_))));
}

#[test]
fn malformed_template_is_template_error() {
    let t = "{{ line_one }}{{ line_two }}{{ line_three }}{% if %}";
    let r = render_template(t, &caption("A", "B", "C"));
    assert!(matches!(r, Err(OverlayError::TemplateError(_))));
}

#[test]
fn contains_text_finds_runs() {
    assert!(aiku_overlay::text::contains_text("abcdef", "cde"));
    assert!(aiku_overlay::text::contains_text("abc", ""));
    assert!(!aiku_overlay::text::contains_text("abc", "abcd"));
    assert!(!aiku_overlay::text::contains_text("abcabd", "abe"));
}

#[test]
fn template_declares_three_placeholders() {
    assert!(OVERLAY_TEMPLATE.contains("{{ line_one }}"));
    assert!(OVERLAY_TEMPLATE.contains("{{ line_two }}"));
    assert!(OVERLAY_TEMPLATE.contains("{{ line_three }}"));
    assert!(OVERLAY_TEMPLATE.contains("width=\"420\" height=\"150\""));
}

#[test]
fn compose_of_covering_base_succeeds() {
    assert!(compose(&gradient(604, 768, 255), &solid(1, 1, [0, 0, 0, 0])).is_ok());
}

#[test]
fn escaped_caption_markup_still_parses() {
    let s = render_template(OVERLAY_TEMPLATE, &caption("<script>", "&", "'")).unwrap();
    // Parsing succeeds; only the font lookup, which comes next, fails on an
    // empty registry.
    let r = build_scene(&s, FONT_FAMILY, &empty_fonts());
    assert!(matches!(r, Err(OverlayError::FontResolutionError(_))));
}

#[test]
fn malformed_markup_is_scene_parse_error() {
    let r = build_scene("<svg", FONT_FAMILY, &empty_fonts());
    assert!(matches!(r, Err(OverlayError::SceneParseError(_))));
}

#[test]
fn from_raw_checks_length() {
    assert!(PixelBuffer::from_raw(2, 2, vec![0; 16]).is_some());
    assert!(PixelBuffer::from_raw(2, 2, vec![0; 15]).is_none());
    assert!(PixelBuffer::from_raw(0, 5, Vec::new()).is_some());
}

#[test]
fn crop_takes_fixed_rectangle() {
    let base = gradient(604, 768, 255);
    let c = crop_to_frame(&base).unwrap();
    assert_eq!((c.width(), c.height()), (440, 768));
    assert_eq!(c.get_pixel(0, 0), base.get_pixel(164, 0));
    assert_eq!(c.get_pixel(0, 0), (164, 0, 164, 255));
    assert_eq!(c.get_pixel(439, 767), base.get_pixel(603, 767));
    assert_eq!(c.get_pixel(100, 300), base.get_pixel(264, 300));
}

#[test]
fn crop_of_larger_image_is_deterministic() {
    let base = gradient(700, 900, 255);
    let a = crop_to_frame(&base).unwrap();
    let b = crop_to_frame(&base).unwrap();
    assert_eq!(a.data, b.data);
    assert_eq!(a.get_pixel(10, 20), base.get_pixel(174, 20));
}

#[test]
fn crop_of_small_image_is_error() {
    let r = crop_to_frame(&gradient(100, 100, 255));
    assert_eq!(r.err(), Some(OverlayError::CropOutOfBoundsError { width: 100, height: 100 }));
    let r = crop_to_frame(&gradient(603, 768, 255));
    assert_eq!(r.err(), Some(OverlayError::CropOutOfBoundsError { width: 603, height: 768 }));
    let r = crop_to_frame(&gradient(604, 767, 255));
    assert!(matches!(r, Err(OverlayError::CropOutOfBoundsError { .. })));
}

#[test]
fn transparent_overlay_leaves_base() {
    let base = gradient(604, 768, 255);
    let overlay = solid(420, 150, [200, 10, 10, 0]);
    let f = compose_frame(&base, &overlay).unwrap();
    assert_eq!(f.get_pixel(10, 608), base.get_pixel(174, 608));
    assert_eq!(f.get_pixel(200, 700), base.get_pixel(364, 700));
}

#[test]
fn opaque_overlay_replaces_base() {
    let base = gradient(604, 768, 255);
    let overlay = solid(420, 150, [200, 10, 20, 255]);
    let f = compose_frame(&base, &overlay).unwrap();
    assert_eq!(f.get_pixel(10, 608), (200, 10, 20, 255));
    assert_eq!(f.get_pixel(429, 757), (200, 10, 20, 255));
    // Outside the overlay's region the base shows through.
    assert_eq!(f.get_pixel(9, 608), base.get_pixel(173, 608));
    assert_eq!(f.get_pixel(430, 700), base.get_pixel(594, 700));
    assert_eq!(f.get_pixel(10, 607), base.get_pixel(174, 607));
}

#[test]
fn half_transparent_overlay_blends() {
    let mut frame = solid(440, 768, [0, 0, 0, 255]);
    let overlay = solid(4, 4, [255, 255, 255, 128]);
    composite_overlay(&mut frame, &overlay);
    let (r, g, b, a) = frame.get_pixel(11, 609);
    assert!(r > 100 && r < 160);
    assert_eq!((g, b), (r, r));
    assert!(a >= 254);
    assert_eq!(frame.get_pixel(14, 609), (0, 0, 0, 255));
}

#[test]
fn overlay_past_frame_is_clipped() {
    let mut frame = solid(440, 768, [0, 0, 0, 255]);
    let overlay = solid(500, 200, [9, 9, 9, 255]);
    composite_overlay(&mut frame, &overlay);
    assert_eq!(frame.get_pixel(439, 767), (9, 9, 9, 255));
    assert_eq!(frame.get_pixel(9, 767), (0, 0, 0, 255));
    assert_eq!(frame.data.len(), 440 * 768 * 4);
}

#[test]
fn compose_encodes_frame_as_png() {
    let base = gradient(700, 900, 255);
    let overlay = solid(420, 150, [255, 0, 0, 255]);
    let bytes = compose(&base, &overlay).unwrap();
    assert_eq!(&bytes[..8], &[0x89, b'P', b'N', b'G', 0x0d, 0x0a, 0x1a, 0x0a]);
    let img = image::load_from_memory(&bytes).unwrap().into_rgba8();
    assert_eq!(img.dimensions(), (FRAME_WIDTH, FRAME_HEIGHT));
    assert_eq!(img.get_pixel(0, 0).0, [164, 0, 164, 255]);
    assert_eq!(img.get_pixel(20, 620).0, [255, 0, 0, 255]);
}

#[test]
fn compose_small_base_is_crop_error() {
    let r = compose(&gradient(100, 100, 255), &solid(420, 150, [0, 0, 0, 0]));
    assert_eq!(r.err(), Some(OverlayError::CropOutOfBoundsError { width: 100, height: 100 }));
}

#[test]
fn pipeline_unreachable_image_is_network_error() {
    let r = process_image_overlay(&request("A", "B", "C"), Err("connection refused".to_string()), &empty_fonts());
    assert_eq!(r, Err(OverlayError::NetworkError("connection refused".to_string())));
}

#[test]
fn pipeline_garbage_bytes_is_decode_error() {
    let r = process_image_overlay(&request("A", "B", "C"), Ok(vec![1, 2, 3, 4, 5]), &empty_fonts());
    assert!(matches!(r, Err(OverlayError::DecodeError(_))));
}

#[test]
fn pipeline_small_image_is_crop_error() {
    let r = process_image_overlay(&request("A", "B", "C"), Ok(png_bytes(100, 100)), &empty_fonts());
    assert_eq!(r, Err(OverlayError::CropOutOfBoundsError { width: 100, height: 100 }));
}

#[test]
fn pipeline_large_jpeg_reaches_caption_rendering() {
    // The base image decodes and covers the frame; with no fonts loaded the
    // caption cannot be laid out.
    let r = process_image_overlay(&request("A", "B", "C"), Ok(jpeg_bytes(700, 900)), &empty_fonts());
    assert!(matches!(r, Err(OverlayError::FontResolutionError(_))));
}

#[test]
fn error_kinds_are_named() {
    assert_eq!(OverlayError::NetworkError(String::new()).kind(), "NetworkError");
    assert_eq!(OverlayError::CropOutOfBoundsError { width: 1, height: 1 }.kind(), "CropOutOfBoundsError");
    assert_eq!(OverlayError::EncodeError(String::new()).kind(), "EncodeError");
}

#[test]
fn auth_accepts_matching_key_only() {
    let key = "key-123".to_string();
    assert!(aiku_overlay::is_authed(Some(key.clone()), &key));
    assert!(!aiku_overlay::is_authed(Some("other".to_string()), &key));
    assert!(!aiku_overlay::is_authed(None, &key));
    assert!(!aiku_overlay::is_authed(Some(String::new()), &key));
}

#[test]
fn overlay_without_fonts_is_font_error() {
    let r = aiku_overlay::create_overlay_png(&caption("A", "B", "C"), &empty_fonts());
    assert!(matches!(r, Err(OverlayError::FontResolutionError(_))));
}
