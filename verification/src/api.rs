//! The requests of the C interface, from raw input to outcome.
//!
//! Each C entry point reads its LaTeX string and options struct, and then asks the
//! functions here; this module decides what is done and which error is reported:
//! a NULL LaTeX pointer first, then invalid UTF-8, then invalid options, then a parse
//! error, and last the exporter's own failures.
use crate::color::RatexColor;
use crate::engine::{
    do_layout_display_list, do_render_bitmap, do_render_png, do_render_svg, is_opaque_background, is_opaque_rgba,
    is_premultiplied_rgba, is_rasterised_png, png_decode_outcome, png_header_size, png_signature, raster_outcome, svg_document_closing,
    svg_document_opening, svg_opening_tag, svg_text_document, typeset,
};
use crate::float_bits::widened_bits;
use crate::errors::{result_is, EntryPoint, RatexError, RatexErrorView};
use crate::export::{bitmap_into_raw, bytes_into_raw, RatexBitmap, RatexBytes};
use crate::options::{
    deref_options, parse_layout_from_render_opts, parse_svg_options, layout_style_and_color,
    spec_embed_glyphs, spec_layout_from_render_opts, spec_layout_style_color, spec_stroke_width,
    LayoutStyle, OptionsLayout,
    ParsedRenderRequest, ParsedRenderRequestView, RatexOptions, RatexRenderOptions,
    RenderOptionsLayout, SvgSettings, slice_bytes,
};
use crate::text::{decode_utf8_bytes, utf8_error_text};
use vstd::prelude::*;
use vstd::utf8::{decode_utf8, valid_utf8};

verus! {

/// What the LaTeX input of a request denotes: NULL is an error naming the entry
/// point, bytes must be UTF-8.
pub open spec fn spec_decode_latex(entry: EntryPoint, latex: Option<Seq<u8>>) -> Result<
    Seq<char>,
    RatexErrorView,
> {
    match latex {
        None => Err(RatexErrorView::NullLatex(entry)),
        Some(b) => if valid_utf8(b) {
            Ok(decode_utf8(b))
        } else {
            Err(RatexErrorView::InvalidLatexUtf8(utf8_error_text(b)))
        },
    }
}

/// Decodes the LaTeX input of a request (the bytes of its C string, `None` for NULL).
pub fn decode_latex(entry: EntryPoint, latex: Option<&[u8]>) -> (res: Result<String, RatexError>)
    ensures
        result_is(res, spec_decode_latex(entry, slice_bytes(latex))),
{
    match latex {
        None => Err(RatexError::NullLatex(entry)),
        Some(bytes) => match decode_utf8_bytes(bytes) {
            Ok(text) => Ok(text),
            Err(e) => Err(RatexError::InvalidLatexUtf8(e)),
        },
    }
}

/// A decoded layout request.
#[derive(Debug)]
pub struct LayoutRequest {
    pub latex: String,
    pub style: LayoutStyle,
    pub color: RatexColor,
}

/// [`LayoutRequest`] with the source as characters.
pub struct LayoutRequestView {
    pub latex: Seq<char>,
    pub style: LayoutStyle,
    pub color: RatexColor,
}

impl View for LayoutRequest {
    type V = LayoutRequestView;

    open spec fn view(&self) -> LayoutRequestView {
        LayoutRequestView { latex: self.latex@, style: self.style, color: self.color }
    }
}

/// What a layout request decodes to.
pub open spec fn spec_prepare_layout(
    latex: Option<Seq<u8>>,
    opts: Option<RatexOptions>,
    layout: OptionsLayout,
) -> Result<LayoutRequestView, RatexErrorView> {
    match spec_decode_latex(EntryPoint::ParseAndLayout, latex) {
        Err(e) => Err(e),
        Ok(text) => match spec_layout_style_color(opts, layout) {
            Err(e) => Err(e),
            Ok((style, color)) => Ok(LayoutRequestView { latex: text, style, color }),
        },
    }
}

/// Decodes a `ratex_parse_and_layout` request: its LaTeX, then its style and color.
pub fn prepare_layout_request(
    latex: Option<&[u8]>,
    opts: Option<&RatexOptions>,
    layout: &OptionsLayout,
) -> (res: Result<LayoutRequest, RatexError>)
    ensures
        result_is(res, spec_prepare_layout(slice_bytes(latex), deref_options(opts), *layout)),
{
    let text = decode_latex(EntryPoint::ParseAndLayout, latex)?;
    let (style, color) = layout_style_and_color(opts, layout)?;
    Ok(LayoutRequest { latex: text, style, color })
}

/// What a layout request ends with: the display list of the decoded LaTeX in the
/// decoded style and color, or the first error.
pub open spec fn layout_request_outcome(
    latex: Option<Seq<u8>>,
    opts: Option<RatexOptions>,
    layout: OptionsLayout,
) -> Result<ratex_types::display_item::DisplayList, RatexErrorView> {
    match spec_prepare_layout(latex, opts, layout) {
        Err(e) => Err(e),
        Ok(req) => match typeset(req.latex, req.style, req.color) {
            Ok(list) => Ok(list),
            Err(t) => Err(RatexErrorView::Parse(t)),
        },
    }
}

/// Serves `ratex_parse_and_layout` up to the display list: decode, then lay out.
pub fn layout_request(
    latex: Option<&[u8]>,
    opts: Option<&RatexOptions>,
    layout: &OptionsLayout,
) -> (res: Result<ratex_types::display_item::DisplayList, RatexError>)
    ensures
        match layout_request_outcome(slice_bytes(latex), deref_options(opts), *layout) {
            Ok(list) => res matches Ok(l) && l == list,
            Err(e) => res matches Err(x) && x@ == e,
        },
{
    let request = prepare_layout_request(latex, opts, layout)?;
    do_layout_display_list(request.latex.as_str(), request.style, request.color)
}

/// A decoded rendering request.
#[derive(Debug)]
pub struct RenderRequest {
    pub latex: String,
    pub parsed: ParsedRenderRequest,
}

/// [`RenderRequest`] with its texts as characters.
pub struct RenderRequestView {
    pub latex: Seq<char>,
    pub parsed: ParsedRenderRequestView,
}

impl View for RenderRequest {
    type V = RenderRequestView;

    open spec fn view(&self) -> RenderRequestView {
        RenderRequestView { latex: self.latex@, parsed: self.parsed@ }
    }
}

/// What a rendering request decodes to.
pub open spec fn spec_prepare_render(
    entry: EntryPoint,
    latex: Option<Seq<u8>>,
    opts: Option<RatexRenderOptions>,
    layout: RenderOptionsLayout,
) -> Result<RenderRequestView, RatexErrorView> {
    match spec_decode_latex(entry, latex) {
        Err(e) => Err(e),
        Ok(text) => match spec_layout_from_render_opts(opts, layout) {
            Err(e) => Err(e),
            Ok(parsed) => Ok(RenderRequestView { latex: text, parsed }),
        },
    }
}

/// Decodes a rendering request: its LaTeX, then its options.
pub fn prepare_render_request(
    entry: EntryPoint,
    latex: Option<&[u8]>,
    opts: Option<&RatexRenderOptions>,
    layout: &RenderOptionsLayout,
) -> (res: Result<RenderRequest, RatexError>)
    ensures
        result_is(res, spec_prepare_render(entry, slice_bytes(latex), deref_options(opts), *layout)),
{
    let text = decode_latex(entry, latex)?;
    let parsed = parse_layout_from_render_opts(opts, layout)?;
    Ok(RenderRequest { latex: text, parsed })
}

/// What a rasterising request ends with before the rasteriser draws: the first
/// decoding, parse or size error, or the pixel size of the image for the display
/// list of the decoded request at its font size, padding and device pixel ratio.
pub open spec fn render_request_raster(
    entry: EntryPoint,
    latex: Option<Seq<u8>>,
    opts: Option<RatexRenderOptions>,
    layout: RenderOptionsLayout,
) -> Result<(u32, u32), RatexErrorView> {
    match spec_prepare_render(entry, latex, opts, layout) {
        Err(e) => Err(e),
        Ok(req) => raster_outcome(
            req.latex,
            req.parsed.style,
            req.parsed.layout_color,
            req.parsed.render.font_size,
            req.parsed.render.padding,
            req.parsed.render.device_pixel_ratio,
        ),
    }
}

/// The background color a rasterising request paints its canvas with: the decoded
/// `background_color` (transparent when absent), once the request decodes.
pub open spec fn render_request_background(
    entry: EntryPoint,
    latex: Option<Seq<u8>>,
    opts: Option<RatexRenderOptions>,
    layout: RenderOptionsLayout,
) -> Option<RatexColor> {
    match spec_prepare_render(entry, latex, opts, layout) {
        Err(_) => None,
        Ok(req) => Some(req.parsed.render.background_color),
    }
}

/// Serves `ratex_render_bitmap`: a premultiplied RGBA8 bitmap, four bytes per pixel,
/// rows without gaps.
pub fn render_bitmap_request(
    latex: Option<&[u8]>,
    opts: Option<&RatexRenderOptions>,
    layout: &RenderOptionsLayout,
) -> (res: Result<RatexBitmap, RatexError>)
    ensures
        match render_request_raster(
            EntryPoint::RenderBitmap,
            slice_bytes(latex),
            deref_options(opts),
            *layout,
        ) {
            Err(e) => res matches Err(x) && x@ == e,
            Ok((w, h)) => {
                &&& res matches Err(x) ==> (x is Render || x is BitmapDecode)
                &&& res matches Ok(bitmap) ==> bitmap.width == w && bitmap.height == h
            },
        },
        res matches Ok(bitmap) ==> {
            &&& bitmap.width >= 1
            &&& bitmap.height >= 1
            &&& bitmap.stride == bitmap.width * 4
            &&& bitmap.data@.len() == bitmap.stride * bitmap.height
            &&& is_premultiplied_rgba(bitmap.data@)
        },
        res matches Ok(bitmap) ==> render_request_background(
            EntryPoint::RenderBitmap,
            slice_bytes(latex),
            deref_options(opts),
            *layout,
        ) matches Some(background) && exists|png: Seq<u8>|
            {
                &&& is_rasterised_png(png, (bitmap.width, bitmap.height), background)
                &&& #[trigger] png_decode_outcome(png) == Ok::<(u32, u32, Seq<u8>), Seq<char>>(
                    (bitmap.width, bitmap.height, bitmap.data@),
                )
            },
        res matches Ok(bitmap) ==> match render_request_background(
            EntryPoint::RenderBitmap,
            slice_bytes(latex),
            deref_options(opts),
            *layout,
        ) {
            Some(background) => is_opaque_background(background) ==> is_opaque_rgba(bitmap.data@),
            None => false,
        },
{
    let request = prepare_render_request(EntryPoint::RenderBitmap, latex, opts, layout)?;
    let rendered = do_render_bitmap(
        request.latex.as_str(),
        request.parsed.style,
        request.parsed.layout_color,
        &request.parsed.render,
    )?;
    Ok(bitmap_into_raw(rendered))
}

/// Serves `ratex_render_png`: the PNG bytes, their length announced.
pub fn render_png_request(
    latex: Option<&[u8]>,
    opts: Option<&RatexRenderOptions>,
    layout: &RenderOptionsLayout,
) -> (res: Result<RatexBytes, RatexError>)
    ensures
        match render_request_raster(
            EntryPoint::RenderPng,
            slice_bytes(latex),
            deref_options(opts),
            *layout,
        ) {
            Err(e) => res matches Err(x) && x@ == e,
            Ok(size) => {
                &&& res matches Err(x) ==> x is Render
                &&& res matches Ok(bytes) ==> png_header_size(bytes.data@) == size
                &&& res matches Ok(bytes) ==> render_request_background(
                    EntryPoint::RenderPng,
                    slice_bytes(latex),
                    deref_options(opts),
                    *layout,
                ) matches Some(background) && is_rasterised_png(bytes.data@, size, background)
            },
        },
        res matches Ok(bytes) ==> {
            &&& bytes.len == bytes.data@.len() as u32
            &&& bytes.data@.len() >= 24
            &&& png_signature().is_prefix_of(bytes.data@)
        },
{
    let request = prepare_render_request(EntryPoint::RenderPng, latex, opts, layout)?;
    let png = do_render_png(
        request.latex.as_str(),
        request.parsed.style,
        request.parsed.layout_color,
        &request.parsed.render,
    )?;
    Ok(bytes_into_raw(png))
}

/// Decodes a `ratex_render_svg` request: the rendering request and its SVG options.
pub fn prepare_svg_request(
    latex: Option<&[u8]>,
    opts: Option<&RatexRenderOptions>,
    layout: &RenderOptionsLayout,
) -> (res: Result<(RenderRequest, SvgSettings), RatexError>)
    ensures
        match spec_prepare_render(
            EntryPoint::RenderSvg,
            slice_bytes(latex),
            deref_options(opts),
            *layout,
        ) {
            Err(e) => res matches Err(x) && x@ == e,
            Ok(req) => res matches Ok((r, s)) && {
                &&& r@ == req
                &&& s.font_size == widened_bits(req.parsed.render.font_size)
                &&& s.padding == widened_bits(req.parsed.render.padding)
                &&& s.stroke_width == widened_bits(
                    spec_stroke_width(deref_options(opts), *layout),
                )
                &&& s.embed_glyphs == spec_embed_glyphs(deref_options(opts), *layout)
                &&& s.font_dir@ == req.parsed.render.font_dir
            },
        },
{
    let request = prepare_render_request(EntryPoint::RenderSvg, latex, opts, layout)?;
    let svg = parse_svg_options(opts, layout, &request.parsed.render);
    Ok((request, svg))
}

/// What a `ratex_render_svg` request ends with: the first error, or the opening tag
/// (view box and size) of the document for the display list of the decoded request
/// at its font size and padding, widened to double precision.
pub open spec fn svg_request_outcome(
    latex: Option<Seq<u8>>,
    opts: Option<RatexRenderOptions>,
    layout: RenderOptionsLayout,
) -> Result<Seq<char>, RatexErrorView> {
    match spec_prepare_render(EntryPoint::RenderSvg, latex, opts, layout) {
        Err(e) => Err(e),
        Ok(req) => match typeset(req.latex, req.parsed.style, req.parsed.layout_color) {
            Err(t) => Err(RatexErrorView::Parse(t)),
            Ok(list) => Ok(
                svg_opening_tag(
                    list,
                    widened_bits(req.parsed.render.font_size),
                    widened_bits(req.parsed.render.padding),
                ),
            ),
        },
    }
}

/// The whole document a `ratex_render_svg` request yields when it asks for KaTeX
/// `<text>` glyphs (`embed_glyphs` present and zero): the exporter's text-mode
/// document for the display list of the decoded request at its widened font size,
/// padding and stroke width.  `None` when glyphs are embedded or the request fails.
pub open spec fn svg_text_request_document(
    latex: Option<Seq<u8>>,
    opts: Option<RatexRenderOptions>,
    layout: RenderOptionsLayout,
) -> Option<Seq<char>> {
    match spec_prepare_render(EntryPoint::RenderSvg, latex, opts, layout) {
        Err(_) => None,
        Ok(req) => match typeset(req.latex, req.parsed.style, req.parsed.layout_color) {
            Err(_) => None,
            Ok(list) => if spec_embed_glyphs(opts, layout) {
                None
            } else {
                Some(
                    svg_text_document(
                        list,
                        widened_bits(req.parsed.render.font_size),
                        widened_bits(req.parsed.render.padding),
                        widened_bits(spec_stroke_width(opts, layout)),
                    ),
                )
            },
        },
    }
}

/// Serves `ratex_render_svg`: a standalone SVG document.
pub fn render_svg_request(
    latex: Option<&[u8]>,
    opts: Option<&RatexRenderOptions>,
    layout: &RenderOptionsLayout,
) -> (res: Result<String, RatexError>)
    ensures
        match svg_request_outcome(slice_bytes(latex), deref_options(opts), *layout) {
            Err(e) => res matches Err(x) && x@ == e,
            Ok(opening) => res matches Ok(document) && {
                &&& opening.is_prefix_of(document@)
                &&& svg_document_opening().is_prefix_of(document@)
                &&& svg_document_closing().is_suffix_of(document@)
            },
        },
        svg_text_request_document(slice_bytes(latex), deref_options(opts), *layout) matches Some(
            d,
        ) ==> res matches Ok(document) && document@ == d,
{
    let (request, svg) = prepare_svg_request(latex, opts, layout)?;
    do_render_svg(
        request.latex.as_str(),
        request.parsed.style,
        request.parsed.layout_color,
        &svg,
    )
}

} // verus!
