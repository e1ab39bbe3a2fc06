use crate::errors::OverlayError;
use usvg_text_layout::fontdb::Database;
use usvg_text_layout::TreeTextToPath;
use vstd::prelude::*;

verus! {

/// fontdb's in-memory font database, carried through opaque.
#[verifier::external_type_specification]
#[verifier::external_body]
pub struct ExDatabase(Database);

/// The font files loaded into a fontdb database, in the order they were
/// loaded.
pub uninterp spec fn loaded_fonts(db: Database) -> Seq<Seq<u8>>;

/// Relies on fontdb's Database::new: an empty database (no system fonts).
pub assume_specification[ Database::new ]() -> (r: Database)
    ensures
        loaded_fonts(r) == Seq::<Seq<u8>>::empty(),
;

/// Relies on fontdb's Database::load_font_data: the faces found in `data`
/// are added; bytes that hold no font add none.
pub assume_specification[ Database::load_font_data ](db: &mut Database, data: Vec<u8>)
    ensures
        loaded_fonts(*final(db)) == loaded_fonts(*old(db)).push(data@),
;

/// The family names and weights of the faces that fontdb finds in `fonts`,
/// one entry for each family name of each face, in load order.
pub uninterp spec fn faces_of(fonts: Seq<Seq<u8>>) -> Seq<(Seq<char>, u16)>;

/// Relies on fontdb's Database::faces: lists each face's family names, each
/// with the face's weight.
#[verifier::external_body]
fn face_list(db: &Database) -> (r: Vec<(String, u16)>)
    ensures
        r@.map_values(|p: (String, u16)| (p.0@, p.1)) == faces_of(loaded_fonts(*db)),
{
    db.faces()
        .iter()
        .flat_map(|f| f.families.iter().map(move |(name, _)| (name.clone(), f.weight.0)))
        .collect()
}

/// The canvas size, in whole pixels, that usvg reads from `markup`; `None`
/// where the markup is not an SVG document it can parse.
pub uninterp spec fn svg_canvas_of(markup: Seq<char>) -> Option<(nat, nat)>;

/// Relies on usvg::Tree::from_str, with default options except that image
/// references to files are never resolved (data URLs still are), and on
/// Size::to_screen_size of the tree's size (each side at least one).
#[verifier::external_body]
fn parse_svg(markup: &str) -> (r: Result<(u32, u32), String>)
    ensures
        r is Ok <==> svg_canvas_of(markup@) is Some,
        r matches Ok((w, h)) ==> svg_canvas_of(markup@) == Some((w as nat, h as nat)) && w >= 1
            && h >= 1,
{
    let mut opt = usvg::Options::default();
    opt.image_href_resolver.resolve_string = Box::new(|_, _| None);
    let tree = usvg::Tree::from_str(markup, &opt).map_err(|e| e.to_string())?;
    let size = tree.size.to_screen_size();
    Ok((size.width(), size.height()))
}

/// The two typefaces that caption text is set in, loaded once and then only
/// read.
pub struct FontRegistry {
    db: Database,
}

impl FontRegistry {
    /// The font files the registry was loaded from, in order.
    pub closed spec fn fonts(&self) -> Seq<Seq<u8>> {
        loaded_fonts(self.db)
    }

    /// Loads the bold and the regular face from their font files' bytes;
    /// bytes that hold no font add no face.
    pub fn load(bold: Vec<u8>, regular: Vec<u8>) -> (r: FontRegistry)
        ensures
            r.fonts() == seq![bold@, regular@],
    {
        let ghost b = bold@;
        let ghost g = regular@;
        let mut db = Database::new();
        db.load_font_data(bold);
        db.load_font_data(regular);
        assert(loaded_fonts(db) =~= seq![b, g]);
        FontRegistry { db }
    }
}

/// Some face in `faces` has the family `family` and the weight `weight`.
pub open spec fn has_face(faces: Seq<(Seq<char>, u16)>, family: Seq<char>, weight: u16) -> bool {
    exists|i: int| 0 <= i < faces.len() && #[trigger] faces[i] == (family, weight)
}

/// Whether the registry holds a face of `family` at `weight`.
pub fn registry_has_face(fonts: &FontRegistry, family: &str, weight: u16) -> (r: bool)
    ensures
        r == has_face(faces_of(fonts.fonts()), family@, weight),
{
    let faces = face_list(&fonts.db);
    let ghost model = faces@.map_values(|p: (String, u16)| (p.0@, p.1));
    let wanted = family.to_owned();
    let mut i: usize = 0;
    while i < faces.len()
        invariant
            model == faces_of(fonts.fonts()),
            model == faces@.map_values(|p: (String, u16)| (p.0@, p.1)),
            wanted@ == family@,
            i <= faces@.len(),
            forall|j: int| 0 <= j < i ==> model[j] != (family@, weight),
        decreases faces@.len() - i,
    {
        let (name, w) = &faces[i];
        assert(model[i as int] == (name@, *w));
        if *w == weight && name.eq(&wanted) {
            assert(model[i as int] == (family@, weight));
            return true;
        }
        i = i + 1;
    }
    false
}

/// The regular (400) and bold (700) weight of the caption family.
pub const REGULAR_WEIGHT: u16 = 400;

pub const BOLD_WEIGHT: u16 = 700;

/// Both faces that caption text is set in are loaded: `family` at the
/// regular and at the bold weight.
pub open spec fn fonts_cover(fonts: Seq<Seq<u8>>, family: Seq<char>) -> bool {
    has_face(faces_of(fonts), family, REGULAR_WEIGHT) && has_face(faces_of(fonts), family, BOLD_WEIGHT)
}

/// The RGBA8 samples, straight alpha, row-major, that resvg draws for
/// `markup` on a transparent canvas of its own size once usvg has parsed it
/// and turned its text into outlines with the faces of `fonts`.
pub uninterp spec fn rendered_rgba_of(markup: Seq<char>, fonts: Seq<Seq<u8>>) -> Seq<u8>;

/// tiny-skia can allocate a pixmap of this size: both sides are positive,
/// a row's bytes fit in an `i32` and all bytes in a `usize`.
pub open spec fn canvas_fits(width: nat, height: nat) -> bool {
    &&& width > 0
    &&& height > 0
    &&& width * 4 <= i32::MAX
    &&& width * height * 4 <= usize::MAX
}

/// Relies on usvg (Tree::from_str, options as in `parse_svg`), on
/// TreeTextToPath::convert_text, on tiny_skia::Pixmap::new (transparent;
/// `None` exactly when the size does not fit), on resvg::render with
/// FitTo::Original (always fits) and on PremultipliedColorU8::demultiply.
#[verifier::external_body]
fn render_rgba(markup: &str, db: &Database) -> (r: Option<Vec<u8>>)
    ensures
        r matches Some(v) ==> v@ == rendered_rgba_of(markup@, loaded_fonts(*db)),
        r matches Some(v) ==> (svg_canvas_of(markup@) matches Some((w, h)) && v@.len() == w * h * 4),
        svg_canvas_of(markup@) matches Some((w, h)) ==> (r is Some <==> canvas_fits(w, h)),
{
    let mut opt = usvg::Options::default();
    opt.image_href_resolver.resolve_string = Box::new(|_, _| None);
    let mut tree = usvg::Tree::from_str(markup, &opt).ok()?;
    tree.convert_text(db);
    let size = tree.size.to_screen_size();
    let mut pixmap = tiny_skia::Pixmap::new(size.width(), size.height())?;
    resvg::render(&tree, usvg::FitTo::Original, tiny_skia::Transform::default(), pixmap.as_mut())?;
    let px = pixmap.pixels().iter().map(|p| p.demultiply());
    Some(px.flat_map(|c| [c.red(), c.green(), c.blue(), c.alpha()]).collect())
}

/// A parsed scene: markup that usvg reads, with the size of its canvas in
/// pixels.
pub struct VectorScene {
    markup: String,
    width: u32,
    height: u32,
}

impl VectorScene {
    pub closed spec fn spec_width(&self) -> u32 {
        self.width
    }

    pub closed spec fn spec_height(&self) -> u32 {
        self.height
    }

    pub closed spec fn spec_markup(&self) -> Seq<char> {
        self.markup@
    }

    /// The scene's markup parses to a canvas of the scene's size.
    pub closed spec fn wf(&self) -> bool {
        &&& svg_canvas_of(self.markup@) == Some((self.width as nat, self.height as nat))
        &&& self.width >= 1
        &&& self.height >= 1
    }

    pub fn width(&self) -> (r: u32)
        ensures
            r == self.spec_width(),
    {
        self.width
    }

    pub fn height(&self) -> (r: u32)
        ensures
            r == self.spec_height(),
    {
        self.height
    }
}

/// Draws the scene with the registry's fonts on a transparent canvas of the
/// scene's own size; `None` where tiny-skia cannot allocate that canvas.
pub fn render_scene(scene: &VectorScene, fonts: &FontRegistry) -> (r: Option<Vec<u8>>)
    requires
        scene.wf(),
    ensures
        r is Some <==> canvas_fits(scene.spec_width() as nat, scene.spec_height() as nat),
        r matches Some(v) ==> v@ == rendered_rgba_of(scene.spec_markup(), fonts.fonts()) && v@.len()
            == scene.spec_width() * scene.spec_height() * 4,
{
    render_rgba(scene.markup.as_str(), &fonts.db)
}

/// Parses filled-in markup and converts its text to outlines with the
/// registry's fonts. The markup sets its text in `family`, at the regular
/// and the bold weight; both faces must be in the registry.
pub fn build_scene(markup: &str, family: &str, fonts: &FontRegistry) -> (r: Result<
    VectorScene,
    OverlayError,
>)
    ensures
        svg_canvas_of(markup@) is None ==> r matches Err(OverlayError::SceneParseError(_)),
        svg_canvas_of(markup@) is Some && !fonts_cover(fonts.fonts(), family@) ==> r matches Err(
            OverlayError::FontResolutionError(_),
        ),
        svg_canvas_of(markup@) is Some && fonts_cover(fonts.fonts(), family@) ==> r is Ok,
        r matches Ok(s) ==> {
            &&& svg_canvas_of(markup@) == Some((s.spec_width() as nat, s.spec_height() as nat))
            &&& s.spec_markup() == markup@
            &&& s.wf()
        },
{
    let (width, height) = match parse_svg(markup) {
        Ok(t) => t,
        Err(msg) => {
            return Err(OverlayError::SceneParseError(msg));
        },
    };
    if !registry_has_face(fonts, family, REGULAR_WEIGHT) || !registry_has_face(
        fonts,
        family,
        BOLD_WEIGHT,
    ) {
        return Err(OverlayError::FontResolutionError(family.to_owned()));
    }
    Ok(VectorScene { markup: markup.to_owned(), width, height })
}

} // verus!
