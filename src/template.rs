use crate::errors::OverlayError;
use crate::markup::{escape_markup, escaped};
use crate::text::{contains_text, mentions};
use crate::request::AikuText;
use vstd::prelude::*;

verus! {

/// Width that the caption template declares for its canvas.
pub const OVERLAY_WIDTH: u32 = 420;

/// Height that the caption template declares for its canvas.
pub const OVERLAY_HEIGHT: u32 = 150;

/// The typeface family that the caption template sets its text in.
pub const FONT_FAMILY: &'static str = "Space Mono";

/// The caption template: a transparent canvas with three lines of text, the
/// first in bold.
pub const OVERLAY_TEMPLATE: &'static str = "<svg xmlns=\"http://www.w3.org/2000/svg\" width=\"420\" height=\"150\" viewBox=\"0 0 420 150\">\n  <text x=\"0\" y=\"36\" font-family=\"Space Mono\" font-weight=\"bold\" font-size=\"28\" fill=\"#ffffff\">{{ line_one }}</text>\n  <text x=\"0\" y=\"82\" font-family=\"Space Mono\" font-size=\"28\" fill=\"#ffffff\">{{ line_two }}</text>\n  <text x=\"0\" y=\"128\" font-family=\"Space Mono\" font-size=\"28\" fill=\"#ffffff\">{{ line_three }}</text>\n</svg>\n";

/// A template that the renderer takes: it has all three placeholders and
/// uses no date filter, so its output depends on the caption alone.
pub open spec fn template_accepted(template: Seq<char>) -> bool {
    &&& mentions(template, "{{ line_one }}"@)
    &&& mentions(template, "{{ line_two }}"@)
    &&& mentions(template, "{{ line_three }}"@)
    &&& !mentions(template, "date"@)
}

/// What liquid renders from `template` with `line_one`, `line_two` and
/// `line_three` bound to the given strings; `None` where it reports an
/// error. Stated only of templates without a date filter.
pub uninterp spec fn liquid_render_of(
    template: Seq<char>,
    line_one: Seq<char>,
    line_two: Seq<char>,
    line_three: Seq<char>,
) -> Option<Seq<char>>;

/// Relies on liquid's ParserBuilder::with_stdlib, Parser::parse and
/// Template::render: the template is parsed and rendered with the three
/// lines bound as string variables. Without the date filter nothing reads
/// the clock.
#[verifier::external_body]
fn render_liquid(template: &str, line_one: &str, line_two: &str, line_three: &str) -> (r: Result<
    String,
    String,
>)
    requires
        !mentions(template@, "date"@),
    ensures
        r is Ok <==> liquid_render_of(template@, line_one@, line_two@, line_three@) is Some,
        r matches Ok(s) ==> liquid_render_of(template@, line_one@, line_two@, line_three@) == Some(
            s@,
        ),
{
    let parser = liquid::ParserBuilder::with_stdlib().build().map_err(|e| e.to_string())?;
    let parsed = parser.parse(template).map_err(|e| e.to_string())?;
    let mut globals = liquid::Object::new();
    globals.insert("line_one".into(), liquid::model::Value::scalar(line_one.to_owned()));
    globals.insert("line_two".into(), liquid::model::Value::scalar(line_two.to_owned()));
    globals.insert("line_three".into(), liquid::model::Value::scalar(line_three.to_owned()));
    parsed.render(&globals).map_err(|e| e.to_string())
}

/// The markup that `template` gives for `text`, each line escaped; `None`
/// where the template is refused or liquid fails.
pub open spec fn caption_markup(template: Seq<char>, text: AikuText) -> Option<Seq<char>> {
    if template_accepted(template) {
        liquid_render_of(
            template,
            escaped(text.line_one@),
            escaped(text.line_two@),
            escaped(text.line_three@),
        )
    } else {
        None
    }
}

/// Fills the template's `line_one`, `line_two` and `line_three` with the
/// caption lines, each escaped so that no caption can change the markup. A
/// template that lacks a placeholder, or uses the date filter, is refused.
pub fn render_template(template: &str, text: &AikuText) -> (r: Result<String, OverlayError>)
    ensures
        r is Ok <==> caption_markup(template@, *text) is Some,
        r matches Ok(s) ==> caption_markup(template@, *text) == Some(s@),
        r matches Err(e) ==> e is TemplateError,
{
    if !contains_text(template, "{{ line_one }}") || !contains_text(template, "{{ line_two }}")
        || !contains_text(template, "{{ line_three }}") {
        return Err(OverlayError::TemplateError("a caption placeholder is missing".to_owned()));
    }
    if contains_text(template, "date") {
        return Err(OverlayError::TemplateError("the date filter is not supported".to_owned()));
    }
    let one = escape_markup(text.line_one.as_str());
    let two = escape_markup(text.line_two.as_str());
    let three = escape_markup(text.line_three.as_str());
    match render_liquid(template, one.as_str(), two.as_str(), three.as_str()) {
        Ok(s) => Ok(s),
        Err(msg) => Err(OverlayError::TemplateError(msg)),
    }
}

} // verus!
