use vstd::prelude::*;
use crate::pixels::{argb_of, rgba_to_argb};
use crate::reading::BatteryReading;
use crate::template::render_document;

verus! {

#[verifier::external_type_specification]
#[verifier::external_body]
pub struct ExOptions<'a>(resvg::usvg::Options<'a>);

#[verifier::external_type_specification]
#[verifier::external_body]
pub struct ExTree(resvg::usvg::Tree);

#[verifier::external_type_specification]
#[verifier::external_body]
pub struct ExSvgError(resvg::usvg::Error);

/// Side length in pixels of the square icon.
pub const ICON_SIZE: u32 = 512;

/// A bitmap in alpha-red-green-blue byte order, four bytes per pixel, row by row.
#[derive(Debug, PartialEq, Eq, Hash)]
pub struct RenderedIcon {
    pub data: Vec<u8>,
    pub width: u32,
    pub height: u32,
}

impl View for RenderedIcon {
    type V = (Seq<u8>, u32, u32);

    open spec fn view(&self) -> (Seq<u8>, u32, u32) {
        (self.data@, self.width, self.height)
    }
}

impl RenderedIcon {
    /// A copy with the same pixels and size.
    pub fn duplicate(&self) -> (r: RenderedIcon)
        ensures
            r@ == self@,
    {
        let mut data: Vec<u8> = Vec::with_capacity(self.data.len());
        let mut i: usize = 0;
        while i < self.data.len()
            invariant
                i <= self.data@.len(),
                data@ == self.data@.take(i as int),
            decreases self.data@.len() - i,
        {
            data.push(self.data[i]);
            i = i + 1;
            assert(data@ =~= self.data@.take(i as int));
        }
        assert(data@ =~= self.data@);
        RenderedIcon { data, width: self.width, height: self.height }
    }
}

/// Why an icon could not be drawn.
#[derive(Clone, Copy, Debug, PartialEq, Eq, Hash, Structural)]
pub enum RenderError {
    /// The filled-in template is not a drawable vector document.
    InvalidDocument,
    /// No canvas of the requested size could be made.
    CanvasUnavailable,
}

/// Relies on usvg's `Tree::from_data`: parses an SVG document under the given options.
#[verifier::external_body]
fn parse_svg(doc: &[u8], opts: &resvg::usvg::Options) -> (r: Result<resvg::usvg::Tree, resvg::usvg::Error>) {
    resvg::usvg::Tree::from_data(doc, opts)
}

/// Relies on tiny-skia's `Pixmap::new` (no canvas of zero width or height;
/// one of `4 * width * height` bytes for any width up to `i32::MAX / 4`), on `resvg::render` drawing the tree
/// onto it with the identity transform, and on `Pixmap::data` handing out its
/// red-green-blue-alpha bytes.
#[verifier::external_body]
fn rasterize(tree: &resvg::usvg::Tree, width: u32, height: u32) -> (r: Option<Vec<u8>>)
    requires
        4 * width * height <= isize::MAX,
    ensures
        width == 0 || height == 0 ==> r is None,
        0 < width && 0 < height && width <= i32::MAX / 4 ==> r is Some,
        r matches Some(px) ==> px@.len() == 4 * width * height,
{
    let mut pixmap = resvg::tiny_skia::Pixmap::new(width, height)?;
    resvg::render(tree, resvg::tiny_skia::Transform::identity(), &mut pixmap.as_mut());
    Some(pixmap.data().to_vec())
}

/// Wraps a red-green-blue-alpha bitmap of the given size as an icon in
/// alpha-red-green-blue order.
pub fn icon_from_rgba(rgba: &[u8], width: u32, height: u32) -> (icon: RenderedIcon)
    requires
        rgba@.len() == 4 * width * height,
    ensures
        icon.data@ == argb_of(rgba@),
        icon.width == width,
        icon.height == height,
{
    proof {
        vstd::arithmetic::div_mod::lemma_mod_multiples_basic(width * height, 4);
        assert(4 * width * height == (width * height) * 4) by (nonlinear_arith);
    }
    RenderedIcon { data: rgba_to_argb(rgba), width, height }
}

/// Draws the icon of a reading: fills in the template, parses it and
/// rasterizes it onto a square canvas of `ICON_SIZE` pixels.
pub fn render_icon(r: &BatteryReading, opts: &resvg::usvg::Options) -> (res: Result<RenderedIcon, RenderError>)
    ensures
        res matches Ok(icon) ==> icon.width == ICON_SIZE && icon.height == ICON_SIZE
            && icon.data@.len() == 4 * ICON_SIZE * ICON_SIZE,
        res is Err ==> res == Err::<RenderedIcon, RenderError>(RenderError::InvalidDocument),
{
    let doc = render_document(r);
    let tree = match parse_svg(doc.as_slice(), opts) {
        Ok(t) => t,
        Err(_) => {
            return Err(RenderError::InvalidDocument);
        },
    };
    match rasterize(&tree, ICON_SIZE, ICON_SIZE) {
        Some(rgba) => Ok(icon_from_rgba(rgba.as_slice(), ICON_SIZE, ICON_SIZE)),
        None => Err(RenderError::CanvasUnavailable),
    }
}

} // verus!
