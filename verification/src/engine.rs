//! The typesetting pipeline: parse, lay out, and export as PNG, bitmap or SVG.
//!
//! Parsing, layout and the exporters live in the RaTeX crates; this module drives them.
//! Their values (syntax trees, options, boxes, display lists) are opaque here.  Parsing
//! and layout are functions of their arguments, so their results are named, and the
//! contracts below say which display list each request lays out.  The rasteriser
//! also reads fonts, so of its images only what holds whatever the fonts are is tied
//! to the arguments: the pixel size, and the opacity an opaque background gives every
//! pixel.  A bitmap is the pixels read back from such a PNG.
use crate::color::{color_is_valid, RatexColor, ONE_BITS};
use crate::errors::{RatexError, RatexErrorView};
use crate::options::{LayoutStyle, RenderSettings, SvgSettings};
use vstd::prelude::*;

verus! {

#[verifier::external_type_specification]
#[verifier::external_body]
pub struct ExParseNode(ratex_parser::parse_node::ParseNode);

#[verifier::external_type_specification]
#[verifier::external_body]
pub struct ExLayoutOptions(ratex_layout::LayoutOptions);

#[verifier::external_type_specification]
#[verifier::external_body]
pub struct ExLayoutBox(ratex_layout::LayoutBox);

#[verifier::external_type_specification]
#[verifier::external_body]
pub struct ExDisplayList(ratex_types::display_item::DisplayList);

#[verifier::external_type_specification]
#[verifier::external_body]
pub struct ExColor(ratex_types::color::Color);

/// What `ratex_parser::parse` makes of a LaTeX source: the syntax nodes, or the
/// `Display` text of its `ParseError`.  The parser depends on the source alone.
pub uninterp spec fn latex_parse_outcome(latex: Seq<char>) -> Result<
    Seq<ratex_parser::parse_node::ParseNode>,
    Seq<char>,
>;

/// What `ratex_types::color::Color::new` builds from the four channel bit patterns.
pub uninterp spec fn color_of(color: RatexColor) -> ratex_types::color::Color;

/// What `ratex_layout::LayoutOptions::default()` becomes once its style and default
/// color are set (`with_style` and `with_color` only replace those two fields).
pub uninterp spec fn layout_options_of(
    style: LayoutStyle,
    color: ratex_types::color::Color,
) -> ratex_layout::LayoutOptions;

/// What `ratex_layout::layout` makes of syntax nodes under layout options.
pub uninterp spec fn laid_out(
    nodes: Seq<ratex_parser::parse_node::ParseNode>,
    options: ratex_layout::LayoutOptions,
) -> ratex_layout::LayoutBox;

/// What `ratex_layout::to_display_list` makes of a box tree.
pub uninterp spec fn display_list_of(root: ratex_layout::LayoutBox) -> ratex_types::display_item::DisplayList;

/// The pixel size `ratex_render::render_to_png` gives a display list at a font size,
/// padding and device pixel ratio (bit patterns), or the text of its size error.
/// It is computed from these arguments alone, before any font is loaded.
pub uninterp spec fn raster_size(
    list: ratex_types::display_item::DisplayList,
    font_size: u32,
    padding: u32,
    device_pixel_ratio: u32,
) -> Result<(u32, u32), Seq<char>>;

/// The opening `<svg ...>` tag `ratex_svg::render_to_svg` writes for a display list at
/// a font size and padding (double-precision bit patterns); it holds the view box and
/// the document size and depends on these arguments alone.
pub uninterp spec fn svg_opening_tag(
    list: ratex_types::display_item::DisplayList,
    font_size: u64,
    padding: u64,
) -> Seq<char>;

/// The whole document `ratex_svg::render_to_svg` writes for a display list when glyphs
/// are not embedded (KaTeX `<text>` elements): it then loads no font and depends on the
/// list, font size, padding and stroke width (double-precision bit patterns) alone.
pub uninterp spec fn svg_text_document(
    list: ratex_types::display_item::DisplayList,
    font_size: u64,
    padding: u64,
    stroke_width: u64,
) -> Seq<char>;

/// What `tiny_skia::Pixmap::decode_png` makes of PNG bytes: width, height and the
/// premultiplied RGBA8 pixels, or the `Display` text of its decoding error.
pub uninterp spec fn png_decode_outcome(png: Seq<u8>) -> Result<(u32, u32, Seq<u8>), Seq<char>>;

/// The display list a LaTeX source is laid out to in a style and default color, or
/// the parser's message.
pub open spec fn typeset(latex: Seq<char>, style: LayoutStyle, color: RatexColor) -> Result<
    ratex_types::display_item::DisplayList,
    Seq<char>,
> {
    match latex_parse_outcome(latex) {
        Err(t) => Err(t),
        Ok(nodes) => Ok(display_list_of(laid_out(nodes, layout_options_of(style, color_of(color))))),
    }
}

/// The eight bytes every PNG file starts with.
pub open spec fn png_signature() -> Seq<u8> {
    seq![137u8, 80, 78, 71, 13, 10, 26, 10]
}

/// A big-endian 32-bit number at `at`.
pub open spec fn be_u32(bytes: Seq<u8>, at: int) -> u32 {
    (bytes[at] * 0x100_0000 + bytes[at + 1] * 0x1_0000 + bytes[at + 2] * 0x100 + bytes[at
        + 3]) as u32
}

/// Width and height in the header chunk of a PNG file (it follows the signature:
/// length, `IHDR`, width, height).
pub open spec fn png_header_size(png: Seq<u8>) -> (u32, u32) {
    (be_u32(png, 16), be_u32(png, 20))
}

/// RGBA8 pixels whose color channels never exceed their alpha.
pub open spec fn is_premultiplied_rgba(data: Seq<u8>) -> bool {
    forall|i: int|
        0 <= i && i + 3 < data.len() && i % 4 == 0 ==> {
            &&& #[trigger] data[i] <= data[i + 3]
            &&& data[i + 1] <= data[i + 3]
            &&& data[i + 2] <= data[i + 3]
        }
}

/// RGBA8 pixels that are all fully opaque (every alpha byte is 255).
pub open spec fn is_opaque_rgba(data: Seq<u8>) -> bool {
    forall|i: int| 0 <= i < data.len() && i % 4 == 3 ==> #[trigger] data[i] == 255u8
}

/// A valid background color whose alpha is exactly one: the rasteriser paints the
/// whole canvas with it before drawing anything.
pub open spec fn is_opaque_background(background: RatexColor) -> bool {
    color_is_valid(background) && background.a == ONE_BITS
}

/// What is known of every PNG the rasteriser writes for an image of pixel size `size`
/// over the background color `background`: the PNG signature, the header chunk with
/// that size, and, over an opaque background, pixels that all read back fully opaque
/// (drawing over an opaque canvas never lowers its alpha).
pub open spec fn is_rasterised_png(png: Seq<u8>, size: (u32, u32), background: RatexColor) -> bool {
    &&& png.len() >= 24
    &&& png_signature().is_prefix_of(png)
    &&& png_header_size(png) == size
    &&& is_opaque_background(background) ==> (png_decode_outcome(png) matches Ok((_, _, d))
        ==> is_opaque_rgba(d))
}

/// How every SVG document of the exporter opens.
pub open spec fn svg_document_opening() -> Seq<char> {
    "<svg xmlns=\"http://www.w3.org/2000/svg\" viewBox=\"0 0 "@
}

/// How every SVG document of the exporter closes.
pub open spec fn svg_document_closing() -> Seq<char> {
    "</svg>"@
}

/// `ratex_parser::parse`: parses LaTeX into syntax nodes; the outcome is named by
/// [`latex_parse_outcome`].
#[verifier::external_body]
fn parse_latex(latex: &str) -> (res: Result<Vec<ratex_parser::parse_node::ParseNode>, String>)
    ensures
        match latex_parse_outcome(latex@) {
            Ok(nodes) => res matches Ok(n) && n@ == nodes,
            Err(t) => res matches Err(e) && e@ == t,
        },
{
    match ratex_parser::parse(latex) {
        Ok(nodes) => Ok(nodes),
        Err(e) => Err(e.to_string()),
    }
}

/// `ratex_layout::LayoutOptions::default()` with its style and default color set,
/// named by [`layout_options_of`].
#[verifier::external_body]
fn layout_options(
    style: LayoutStyle,
    color: &ratex_types::color::Color,
) -> (options: ratex_layout::LayoutOptions)
    ensures
        options == layout_options_of(style, *color),
{
    ratex_layout::LayoutOptions {
        style: match style {
            LayoutStyle::Display => ratex_types::math_style::MathStyle::Display,
            LayoutStyle::Text => ratex_types::math_style::MathStyle::Text,
        },
        color: *color,
        ..ratex_layout::LayoutOptions::default()
    }
}

/// `ratex_types::color::Color::new`, each channel reinterpreted from its bit pattern;
/// named by [`color_of`].
#[verifier::external_body]
fn color_new(color: RatexColor) -> (c: ratex_types::color::Color)
    ensures
        c == color_of(color),
{
    ratex_types::color::Color::new(
        bytemuck::cast(color.r),
        bytemuck::cast(color.g),
        bytemuck::cast(color.b),
        bytemuck::cast(color.a),
    )
}

/// `ratex_layout::layout`: lays the nodes out into a box tree; named by [`laid_out`].
#[verifier::external_body]
fn layout_nodes(
    nodes: &Vec<ratex_parser::parse_node::ParseNode>,
    options: &ratex_layout::LayoutOptions,
) -> (root: ratex_layout::LayoutBox)
    ensures
        root == laid_out(nodes@, *options),
{
    ratex_layout::layout(nodes, options)
}

/// `ratex_layout::to_display_list`: flattens a box tree into drawing commands; named
/// by [`display_list_of`].
#[verifier::external_body]
fn to_display_list(root: &ratex_layout::LayoutBox) -> (list: ratex_types::display_item::DisplayList)
    ensures
        list == display_list_of(*root),
{
    ratex_layout::to_display_list(root)
}

/// `ratex_render::render_to_png` with options built field by field from the settings
/// (bit patterns reinterpreted as floats).  Its source first computes the pixel size
/// ([`raster_size`]) and fails with that error if there is one; otherwise whether it
/// succeeds depends on the fonts it loads.  A successful result starts with the PNG
/// signature and the header chunk, which holds that pixel size.  The canvas is first
/// filled with the settings' background color; every later drawing step composites
/// source-over (the glyph-mask blit reproduces that arithmetic), which keeps an opaque
/// pixel opaque, and the PNG is written demultiplied and read back premultiplied with
/// alpha untouched.  So over an opaque background every pixel reads back opaque.  The
/// drawn pixels themselves (they depend on the fonts found) are not stated.
#[verifier::external_body]
fn render_to_png(list: &ratex_types::display_item::DisplayList, settings: &RenderSettings) -> (res:
    Result<Vec<u8>, String>)
    ensures
        match raster_size(*list, settings.font_size, settings.padding, settings.device_pixel_ratio) {
            Err(t) => res matches Err(e) && e@ == t,
            Ok(size) => res matches Ok(png) ==> is_rasterised_png(
                png@,
                size,
                settings.background_color,
            ),
        },
{
    let options = ratex_render::RenderOptions {
        font_size: bytemuck::cast(settings.font_size),
        padding: bytemuck::cast(settings.padding),
        background_color: ratex_types::color::Color {
            r: bytemuck::cast(settings.background_color.r),
            g: bytemuck::cast(settings.background_color.g),
            b: bytemuck::cast(settings.background_color.b),
            a: bytemuck::cast(settings.background_color.a),
        },
        font_dir: settings.font_dir.clone(),
        device_pixel_ratio: bytemuck::cast(settings.device_pixel_ratio),
    };
    ratex_render::render_to_png(list, &options)
}

/// `ratex_svg::render_to_svg` with options built field by field from the settings
/// (bit patterns reinterpreted as floats).  Its source writes the opening tag named
/// [`svg_opening_tag`] (which starts with [`svg_document_opening`]), then the drawing,
/// then `</svg>`.  Without embedded glyphs it loads no font and the whole document is
/// named by [`svg_text_document`]; with embedded glyphs the outlines come from fonts
/// (system fallbacks included) and the drawing is not stated.
#[verifier::external_body]
fn render_to_svg(list: &ratex_types::display_item::DisplayList, settings: &SvgSettings) -> (svg:
    String)
    ensures
        !settings.embed_glyphs ==> svg@ == svg_text_document(
            *list,
            settings.font_size,
            settings.padding,
            settings.stroke_width,
        ),
        svg_opening_tag(*list, settings.font_size, settings.padding).is_prefix_of(svg@),
        svg_document_opening().is_prefix_of(svg@),
        svg_document_closing().is_suffix_of(svg@),
{
    let options = ratex_svg::SvgOptions {
        font_size: bytemuck::cast(settings.font_size),
        padding: bytemuck::cast(settings.padding),
        stroke_width: bytemuck::cast(settings.stroke_width),
        embed_glyphs: settings.embed_glyphs,
        font_dir: settings.font_dir.clone(),
    };
    ratex_svg::render_to_svg(list, &options)
}

/// `tiny_skia::Pixmap::decode_png`, the pixmap taken apart into width, height and data.
/// Its source (with the `png` decoder it calls) shows that the size is the one in the
/// header chunk, that a pixmap is at least one pixel wide and high and at most
/// `i32::MAX / 4` pixels wide, that it holds four bytes per pixel with rows without
/// gaps, and that every color channel is premultiplied by (so at most) its alpha.
#[verifier::external_body]
fn decode_png(png: &[u8]) -> (res: Result<(u32, u32, Vec<u8>), String>)
    ensures
        match png_decode_outcome(png@) {
            Ok((w, h, d)) => res matches Ok((rw, rh, rd)) && rw == w && rh == h && rd@ == d,
            Err(t) => res matches Err(e) && e@ == t,
        },
        res matches Ok((w, h, d)) ==> {
            &&& 1 <= w
            &&& 1 <= h
            &&& w * 4 <= i32::MAX
            &&& d@.len() == w * h * 4
            &&& png@.len() >= 24
            &&& png_header_size(png@) == (w, h)
            &&& is_premultiplied_rgba(d@)
        },
{
    match tiny_skia::Pixmap::decode_png(png) {
        Ok(pixmap) => Ok((pixmap.width(), pixmap.height(), pixmap.take())),
        Err(e) => Err(e.to_string()),
    }
}

/// A premultiplied RGBA8 raster: `stride` bytes per row, `height` rows.
#[derive(Debug)]
pub struct RenderedBitmap {
    pub data: Vec<u8>,
    pub width: u32,
    pub height: u32,
    pub stride: u32,
}

/// Parses LaTeX and lays it out in the given style and default color: the display
/// list is [`typeset`]'s; it fails exactly when the parser rejects the source.
pub fn do_layout_display_list(latex: &str, style: LayoutStyle, color: RatexColor) -> (res: Result<
    ratex_types::display_item::DisplayList,
    RatexError,
>)
    ensures
        match typeset(latex@, style, color) {
            Ok(list) => res matches Ok(l) && l == list,
            Err(t) => res matches Err(e) && e@ == RatexErrorView::Parse(t),
        },
{
    let nodes = match parse_latex(latex) {
        Ok(nodes) => nodes,
        Err(message) => {
            return Err(RatexError::Parse(message));
        },
    };
    let options = layout_options(style, &color_new(color));
    let root = layout_nodes(&nodes, &options);
    Ok(to_display_list(&root))
}

/// What [`do_render_png`] and [`do_render_bitmap`] answer up to the rasteriser: the
/// parse error, the raster size error, or the pixel size of the image.
pub open spec fn raster_outcome(
    latex: Seq<char>,
    style: LayoutStyle,
    color: RatexColor,
    font_size: u32,
    padding: u32,
    device_pixel_ratio: u32,
) -> Result<(u32, u32), RatexErrorView> {
    match typeset(latex, style, color) {
        Err(t) => Err(RatexErrorView::Parse(t)),
        Ok(list) => match raster_size(list, font_size, padding, device_pixel_ratio) {
            Err(t) => Err(RatexErrorView::Render(t)),
            Ok(size) => Ok(size),
        },
    }
}

/// Lays LaTeX out and rasterises it to PNG bytes.  The image has the pixel size the
/// rasteriser gives the display list at the requested font size, padding and device
/// pixel ratio; apart from the parse and size errors, only the rasteriser fails.
pub fn do_render_png(
    latex: &str,
    style: LayoutStyle,
    color: RatexColor,
    render: &RenderSettings,
) -> (res: Result<Vec<u8>, RatexError>)
    ensures
        match raster_outcome(
            latex@,
            style,
            color,
            render.font_size,
            render.padding,
            render.device_pixel_ratio,
        ) {
            Err(e) => res matches Err(x) && x@ == e,
            Ok(size) => {
                &&& res matches Err(x) ==> x is Render
                &&& res matches Ok(png) ==> {
                    &&& png@.len() >= 24
                    &&& png_signature().is_prefix_of(png@)
                    &&& png_header_size(png@) == size
                    &&& is_rasterised_png(png@, size, render.background_color)
                }
            },
        },
{
    let list = do_layout_display_list(latex, style, color)?;
    match render_to_png(&list, render) {
        Ok(png) => Ok(png),
        Err(message) => Err(RatexError::Render(message)),
    }
}

/// Reads rasterised PNG bytes back as a premultiplied RGBA8 bitmap of the size in the
/// PNG header, whose rows are exactly four bytes per pixel.
pub fn bitmap_from_png(png: &[u8]) -> (res: Result<RenderedBitmap, RatexError>)
    ensures
        match png_decode_outcome(png@) {
            Ok((w, h, d)) => res matches Ok(bitmap) && {
                &&& bitmap.width == w
                &&& bitmap.height == h
                &&& bitmap.stride == w * 4
                &&& bitmap.data@ == d
            },
            Err(t) => res matches Err(e) && e@ == RatexErrorView::BitmapDecode(t),
        },
        res matches Ok(bitmap) ==> {
            &&& bitmap.width >= 1
            &&& bitmap.height >= 1
            &&& bitmap.data@.len() == bitmap.stride * bitmap.height
            &&& png@.len() >= 24
            &&& png_header_size(png@) == (bitmap.width, bitmap.height)
            &&& is_premultiplied_rgba(bitmap.data@)
        },
{
    match decode_png(png) {
        Ok((width, height, data)) => {
            proof {
                assert((width * 4) * height == width * height * 4) by (nonlinear_arith);
            }
            Ok(RenderedBitmap { data, width, height, stride: width * 4 })
        },
        Err(message) => Err(RatexError::BitmapDecode(message)),
    }
}

/// Lays LaTeX out and rasterises it to a premultiplied RGBA8 bitmap, four bytes per
/// pixel and rows without gaps, of the pixel size the rasteriser gives the display list.
pub fn do_render_bitmap(
    latex: &str,
    style: LayoutStyle,
    color: RatexColor,
    render: &RenderSettings,
) -> (res: Result<RenderedBitmap, RatexError>)
    ensures
        match raster_outcome(
            latex@,
            style,
            color,
            render.font_size,
            render.padding,
            render.device_pixel_ratio,
        ) {
            Err(e) => res matches Err(x) && x@ == e,
            Ok((w, h)) => {
                &&& res matches Err(x) ==> (x is Render || x is BitmapDecode)
                &&& res matches Ok(bitmap) ==> bitmap.width == w && bitmap.height == h
            },
        },
        res matches Ok(bitmap) ==> {
            &&& bitmap.width >= 1
            &&& bitmap.height >= 1
            &&& bitmap.stride == bitmap.width * 4
            &&& bitmap.data@.len() == bitmap.stride * bitmap.height
            &&& is_premultiplied_rgba(bitmap.data@)
        },
        res matches Ok(bitmap) ==> exists|png: Seq<u8>|
            {
                &&& is_rasterised_png(png, (bitmap.width, bitmap.height), render.background_color)
                &&& #[trigger] png_decode_outcome(png) == Ok::<(u32, u32, Seq<u8>), Seq<char>>(
                    (bitmap.width, bitmap.height, bitmap.data@),
                )
            },
        res matches Ok(bitmap) ==> (is_opaque_background(render.background_color)
            ==> is_opaque_rgba(bitmap.data@)),
{
    let png = do_render_png(latex, style, color, render)?;
    let bitmap = bitmap_from_png(png.as_slice())?;
    assert(png_decode_outcome(png@) == Ok::<(u32, u32, Seq<u8>), Seq<char>>(
        (bitmap.width, bitmap.height, bitmap.data@),
    ));
    Ok(bitmap)
}

/// Lays LaTeX out and exports it as a standalone SVG document whose opening tag (view
/// box and size) is the exporter's for that display list at the given font size and
/// padding; without embedded glyphs the whole document is the exporter's text-mode
/// document for the list and the settings.  Fails exactly when the parser rejects the
/// source.
pub fn do_render_svg(
    latex: &str,
    style: LayoutStyle,
    color: RatexColor,
    svg: &SvgSettings,
) -> (res: Result<String, RatexError>)
    ensures
        match typeset(latex@, style, color) {
            Err(t) => res matches Err(e) && e@ == RatexErrorView::Parse(t),
            Ok(list) => res matches Ok(document) && {
                &&& !svg.embed_glyphs ==> document@ == svg_text_document(
                    list,
                    svg.font_size,
                    svg.padding,
                    svg.stroke_width,
                )
                &&& svg_opening_tag(list, svg.font_size, svg.padding).is_prefix_of(document@)
                &&& svg_document_opening().is_prefix_of(document@)
                &&& svg_document_closing().is_suffix_of(document@)
            },
        },
{
    let list = do_layout_display_list(latex, style, color)?;
    Ok(render_to_svg(&list, svg))
}

} // verus!
