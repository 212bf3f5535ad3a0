//! The rendering boundary: colorized template text is parsed and rasterized
//! by the resvg vector renderer and encoded as PNG bytes. The individual
//! calls into resvg are trusted; the staging around them — which stage runs,
//! when each stage succeeds, and which outcome a failed stage yields — is
//! verified.

use vstd::prelude::*;
use crate::batch::{artifact_name, artifact_name_text, FrameOutcome};
use crate::plan::FramePlan;
use crate::text::{colorize, colorized};

verus! {

#[verifier::external_type_specification]
#[verifier::external_body]
pub struct ExUsvgTree(resvg::usvg::Tree);

#[verifier::external_type_specification]
#[verifier::external_body]
pub struct ExPixmap(resvg::tiny_skia::Pixmap);

/// Whether `text` is valid UTF-8 that parses as well-formed vector graphics
/// under usvg's default options. The default options carry an empty font
/// database and no resources directory, so the verdict is a function of the
/// text alone.
pub uninterp spec fn svg_parse_ok(text: Seq<u8>) -> bool;

/// The pixel size of the render tree parsed from `text`; meaningful when
/// `svg_parse_ok(text)` holds. A function of the text alone, for the same
/// reason as `svg_parse_ok`.
pub uninterp spec fn svg_pixel_size(text: Seq<u8>) -> (u32, u32);

/// Whether tiny_skia can allocate a pixmap of the given size: it rejects a
/// zero or unaddressably large size, deterministically in the two dimensions.
pub uninterp spec fn pixmap_dims_ok(width: u32, height: u32) -> bool;

/// Relies on usvg::Tree::from_str, with usvg's default options, and on
/// usvg::Tree::size with tiny_skia's Size::to_int_size to read off the parsed
/// tree's pixel size. `None` exactly when the bytes are not valid UTF-8 or do
/// not parse as well-formed vector graphics; to_int_size rounds and clamps
/// upward, so both dimensions are at least 1.
#[verifier::external_body]
fn parse_tree(text: &Vec<u8>) -> (r: Option<(resvg::usvg::Tree, u32, u32)>)
    ensures
        r is Some <==> svg_parse_ok(text@),
        r matches Some(parsed) ==> (parsed.1, parsed.2) == svg_pixel_size(text@),
        r matches Some(parsed) ==> parsed.1 >= 1 && parsed.2 >= 1,
{
    let text = match std::str::from_utf8(text) {
        Ok(text) => text,
        Err(_) => return None,
    };
    let tree = match resvg::usvg::Tree::from_str(text, &resvg::usvg::Options::default()) {
        Ok(tree) => tree,
        Err(_) => return None,
    };
    let size = tree.size().to_int_size();
    let width = size.width();
    let height = size.height();
    Some((tree, width, height))
}

/// Relies on tiny_skia::Pixmap::new: allocates a transparent pixmap of the
/// given size; `None` exactly when the size is zero or too large to address.
#[verifier::external_body]
fn new_pixmap(width: u32, height: u32) -> (r: Option<resvg::tiny_skia::Pixmap>)
    ensures
        r is Some <==> pixmap_dims_ok(width, height),
        width == 0 || height == 0 ==> r is None,
{
    resvg::tiny_skia::Pixmap::new(width, height)
}

/// Relies on resvg::render: rasterizes the tree onto the pixmap, with the
/// identity root transform. Rendering itself is infallible.
#[verifier::external_body]
fn render_tree(tree: &resvg::usvg::Tree, pixmap: &mut resvg::tiny_skia::Pixmap) {
    resvg::render(tree, resvg::tiny_skia::Transform::default(), &mut pixmap.as_mut());
}

/// Relies on tiny_skia::Pixmap::encode_png: the pixmap encoded as PNG bytes.
/// Encoding a constructible pixmap always succeeds: its dimensions are
/// nonzero with the row bytes fitting 31 bits, its buffer length is exactly
/// width * height * 4 as the Rgba8 encoder expects, and the writer is an
/// in-memory vector, so every error path in the png encoder is unreachable.
#[verifier::external_body]
fn encode_pixmap_png(pixmap: &resvg::tiny_skia::Pixmap) -> (r: Option<Vec<u8>>)
    ensures
        r is Some,
{
    match pixmap.encode_png() {
        Ok(bytes) => Some(bytes),
        Err(_) => None,
    }
}

/// Runs one frame's rendering stages on its colorized text: parse the text
/// as vector graphics, rasterize the tree at its own pixel size, and encode
/// the pixels as PNG bytes. The frame fails with `ParseFailed` exactly when
/// its text does not parse, fails with `RenderFailed` exactly when its pixel
/// size cannot be allocated, and otherwise yields PNG bytes; a failed stage
/// writes nothing anywhere.
pub fn rasterize_frame(text: &Vec<u8>) -> (r: Result<Vec<u8>, FrameOutcome>)
    ensures
        r matches Err(outcome) ==> outcome == FrameOutcome::ParseFailed || outcome
            == FrameOutcome::RenderFailed,
        r == Err::<Vec<u8>, FrameOutcome>(FrameOutcome::ParseFailed) <==> !svg_parse_ok(text@),
        svg_parse_ok(text@) && !pixmap_dims_ok(svg_pixel_size(text@).0, svg_pixel_size(text@).1)
            ==> r == Err::<Vec<u8>, FrameOutcome>(FrameOutcome::RenderFailed),
        svg_parse_ok(text@) && pixmap_dims_ok(svg_pixel_size(text@).0, svg_pixel_size(text@).1)
            ==> r is Ok,
        r is Ok ==> pixmap_dims_ok(svg_pixel_size(text@).0, svg_pixel_size(text@).1),
{
    let parsed = match parse_tree(text) {
        Some(parsed) => parsed,
        None => {
            return Err(FrameOutcome::ParseFailed);
        },
    };
    let (tree, width, height) = parsed;
    let mut pixmap = match new_pixmap(width, height) {
        Some(pixmap) => pixmap,
        None => {
            return Err(FrameOutcome::RenderFailed);
        },
    };
    render_tree(&tree, &mut pixmap);
    match encode_pixmap_png(&pixmap) {
        Some(bytes) => Ok(bytes),
        None => Err(FrameOutcome::RenderFailed),
    }
}

/// One frame's finished computation: its artifact name and its PNG bytes, or
/// the stage it failed at.
pub struct RenderedFrame {
    /// The artifact file name for this frame.
    pub name: Vec<u8>,
    /// The PNG bytes, or the frame's failure outcome.
    pub png: Result<Vec<u8>, FrameOutcome>,
}

/// One frame's whole job short of the file write: colorize the template with
/// the frame's palette, rasterize the text, and name the artifact. Every
/// clause below speaks of the template and this one frame alone, so a frame
/// whose colorized text is malformed fails by itself — with `ParseFailed`,
/// exactly then — and changes nothing of what any other frame yields.
pub fn render_frame(template: &Vec<u8>, frame: &FramePlan) -> (r: RenderedFrame)
    ensures
        r.name@ == artifact_name_text(frame.angle as nat),
        r.png matches Err(outcome) ==> outcome == FrameOutcome::ParseFailed || outcome
            == FrameOutcome::RenderFailed,
        r.png == Err::<Vec<u8>, FrameOutcome>(FrameOutcome::ParseFailed) <==> !svg_parse_ok(
            colorized(template@, frame.colors),
        ),
        svg_parse_ok(colorized(template@, frame.colors)) && !pixmap_dims_ok(
            svg_pixel_size(colorized(template@, frame.colors)).0,
            svg_pixel_size(colorized(template@, frame.colors)).1,
        ) ==> r.png == Err::<Vec<u8>, FrameOutcome>(FrameOutcome::RenderFailed),
        svg_parse_ok(colorized(template@, frame.colors)) && pixmap_dims_ok(
            svg_pixel_size(colorized(template@, frame.colors)).0,
            svg_pixel_size(colorized(template@, frame.colors)).1,
        ) ==> r.png is Ok,
        r.png is Ok ==> pixmap_dims_ok(
            svg_pixel_size(colorized(template@, frame.colors)).0,
            svg_pixel_size(colorized(template@, frame.colors)).1,
        ),
{
    let text = colorize(template, &frame.colors);
    let name = artifact_name(frame.angle);
    let png = rasterize_frame(&text);
    RenderedFrame { name, png }
}

} // verus!
