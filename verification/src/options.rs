//! Decoding of the versioned option structs of the C interface.
//!
//! Both option structs start with `struct_size`, which the caller sets to the size of
//! the struct it was compiled against.  A field is read only when it lies entirely
//! within `struct_size` bytes; a field beyond it takes its default.  This is what lets
//! old callers (shorter structs) and new callers (longer structs) share one library.
//!
//! Field positions come from the C layout of the structs, as [`OptionsLayout`] and
//! [`RenderOptionsLayout`]: for every field, the offset just past its last byte.
use crate::color::{color_error, spec_validate_color, validate_color, RatexColor};
use crate::errors::{result_is, PositiveOption, RatexError, RatexErrorView};
use crate::float_bits::{
    f32_bits_greater_than_zero, f32_bits_is_finite, f32_bits_less_than_zero,
    f32_is_positive_finite, f32_value, f64_value, is_finite, is_greater_than_zero,
    is_less_than_zero, widen_f32_bits, widened_bits, widened_value,
};
use crate::text::{decode_utf8_bytes, utf8_error_text};
use vstd::prelude::*;
use vstd::utf8::{decode_utf8, valid_utf8};

verus! {

/// Default font size in logical pixels (twenty), as a bit pattern.
pub const DEFAULT_FONT_SIZE_BITS: u32 = 0x41a0_0000;

/// Default padding in logical pixels (four), as a bit pattern.
pub const DEFAULT_PADDING_BITS: u32 = 0x4080_0000;

/// Default device pixel ratio (one), as a bit pattern.
pub const DEFAULT_DEVICE_PIXEL_RATIO_BITS: u32 = 0x3f80_0000;

/// Default SVG stroke width (three halves), as a bit pattern.
pub const DEFAULT_STROKE_WIDTH_BITS: u32 = 0x3fc0_0000;

/// Default for `embed_glyphs`: standalone outlined glyphs.
pub const DEFAULT_EMBED_GLYPHS: i32 = 1;

/// The math style a formula is laid out in.
#[derive(Clone, Copy, Debug, PartialEq, Eq, Structural)]
pub enum LayoutStyle {
    /// Display block (`$$...$$`).
    Display,
    /// Inline text (`$...$`).
    Text,
}

impl View for LayoutStyle {
    type V = LayoutStyle;

    open spec fn view(&self) -> LayoutStyle {
        *self
    }
}

/// Where the fields of `RatexOptions` end, in bytes from the start of the struct.
#[derive(Clone, Copy, Debug)]
pub struct OptionsLayout {
    pub display_mode_end: usize,
    pub color_end: usize,
}

/// Where the fields of `RatexRenderOptions` end, in bytes from the start of the struct.
#[derive(Clone, Copy, Debug)]
pub struct RenderOptionsLayout {
    pub struct_size_end: usize,
    pub display_mode_end: usize,
    pub color_end: usize,
    pub font_size_end: usize,
    pub padding_end: usize,
    pub device_pixel_ratio_end: usize,
    pub background_color_end: usize,
    pub font_dir_end: usize,
    pub stroke_width_end: usize,
    pub embed_glyphs_end: usize,
}

/// Options of `ratex_parse_and_layout` as read from the caller's struct.
///
/// `color` is the color the `color` pointer designates (`None` for a NULL pointer).
/// Fields that lie beyond `struct_size` are never looked at.
#[derive(Debug)]
pub struct RatexOptions {
    pub struct_size: usize,
    /// `0` for inline (text style), anything else for display style.
    pub display_mode: i32,
    pub color: Option<RatexColor>,
}

/// Options of the rendering entry points as read from the caller's struct.
///
/// Floats are bit patterns; `color` is the color the `color` pointer designates and
/// `font_dir` the bytes of the C string it designates (`None` for NULL pointers).
/// Fields that lie beyond `struct_size` are never looked at.
#[derive(Debug)]
pub struct RatexRenderOptions {
    pub struct_size: usize,
    pub display_mode: i32,
    pub color: Option<RatexColor>,
    pub font_size: u32,
    pub padding: u32,
    pub device_pixel_ratio: u32,
    pub background_color: RatexColor,
    pub font_dir: Option<Vec<u8>>,
    pub stroke_width: u32,
    pub embed_glyphs: i32,
}

/// Raster options: what the rasteriser is given.
#[derive(Debug)]
pub struct RenderSettings {
    pub font_size: u32,
    pub padding: u32,
    pub background_color: RatexColor,
    pub font_dir: String,
    pub device_pixel_ratio: u32,
}

/// [`RenderSettings`] with the font directory as characters.
pub struct RenderSettingsView {
    pub font_size: u32,
    pub padding: u32,
    pub background_color: RatexColor,
    pub font_dir: Seq<char>,
    pub device_pixel_ratio: u32,
}

impl View for RenderSettings {
    type V = RenderSettingsView;

    open spec fn view(&self) -> RenderSettingsView {
        RenderSettingsView {
            font_size: self.font_size,
            padding: self.padding,
            background_color: self.background_color,
            font_dir: self.font_dir@,
            device_pixel_ratio: self.device_pixel_ratio,
        }
    }
}

/// Everything a rendering request decodes from its options.
#[derive(Debug)]
pub struct ParsedRenderRequest {
    pub style: LayoutStyle,
    pub layout_color: RatexColor,
    pub render: RenderSettings,
}

/// [`ParsedRenderRequest`] with its texts as characters.
pub struct ParsedRenderRequestView {
    pub style: LayoutStyle,
    pub layout_color: RatexColor,
    pub render: RenderSettingsView,
}

impl View for ParsedRenderRequest {
    type V = ParsedRenderRequestView;

    open spec fn view(&self) -> ParsedRenderRequestView {
        ParsedRenderRequestView {
            style: self.style,
            layout_color: self.layout_color,
            render: self.render@,
        }
    }
}

/// SVG export options; sizes are double-precision bit patterns.
#[derive(Debug)]
pub struct SvgSettings {
    pub font_size: u64,
    pub padding: u64,
    pub stroke_width: u64,
    pub embed_glyphs: bool,
    pub font_dir: String,
}

/// A field ending `end` bytes into the struct is present in a struct of `struct_size` bytes.
pub open spec fn has_field(struct_size: usize, end: usize) -> bool {
    struct_size >= end
}

/// Whether a field ending `end` bytes into the struct lies within `struct_size` bytes.
pub fn field_present(struct_size: usize, end: usize) -> (r: bool)
    ensures
        r == has_field(struct_size, end),
{
    struct_size >= end
}

/// The style a `display_mode` selects: `0` is inline, everything else display.
pub open spec fn style_of_display_mode(display_mode: i32) -> LayoutStyle {
    if display_mode == 0 {
        LayoutStyle::Text
    } else {
        LayoutStyle::Display
    }
}

/// The style a `display_mode` selects: `0` is inline, everything else display.
pub fn parse_style_from_opts(display_mode: i32) -> (style: LayoutStyle)
    ensures
        style == style_of_display_mode(display_mode),
{
    if display_mode == 0 {
        LayoutStyle::Text
    } else {
        LayoutStyle::Display
    }
}

/// Accepts a float (bit pattern) that is finite and greater than zero.
pub fn validate_positive_finite(option: PositiveOption, bits: u32) -> (res: Result<u32, RatexError>)
    ensures
        result_is(
            res,
            if f32_is_positive_finite(bits) {
                Ok(bits)
            } else {
                Err(RatexErrorView::NotPositiveFinite(option, bits))
            },
        ),
{
    if !f32_bits_is_finite(bits) || !f32_bits_greater_than_zero(bits) {
        return Err(RatexError::NotPositiveFinite(option, bits));
    }
    Ok(bits)
}

/// A padding is accepted when it is finite and not less than zero.
pub open spec fn padding_is_valid(bits: u32) -> bool {
    is_finite(f32_value(bits)) && !is_less_than_zero(f32_value(bits))
}

/// The font directory a C string denotes: empty for NULL, the decoded text for UTF-8.
pub open spec fn spec_font_dir(bytes: Option<Seq<u8>>) -> Result<Seq<char>, RatexErrorView> {
    match bytes {
        None => Ok(Seq::empty()),
        Some(b) => if valid_utf8(b) {
            Ok(decode_utf8(b))
        } else {
            Err(RatexErrorView::InvalidFontDirUtf8(utf8_error_text(b)))
        },
    }
}

/// The bytes of an optional byte slice.
pub open spec fn slice_bytes(bytes: Option<&[u8]>) -> Option<Seq<u8>> {
    match bytes {
        Some(b) => Some(b@),
        None => None,
    }
}

/// Reads the font directory: empty for a NULL pointer, the text for UTF-8 bytes.
pub fn parse_font_dir(bytes: Option<&[u8]>) -> (res: Result<String, RatexError>)
    ensures
        result_is(res, spec_font_dir(slice_bytes(bytes))),
{
    match bytes {
        None => Ok(String::new()),
        Some(b) => match decode_utf8_bytes(b) {
            Ok(s) => Ok(s),
            Err(e) => Err(RatexError::InvalidFontDirUtf8(e)),
        },
    }
}

/// The options a reference designates.
pub open spec fn deref_options<T>(opts: Option<&T>) -> Option<T> {
    match opts {
        Some(o) => Some(*o),
        None => None,
    }
}

/// The bytes of the font directory of a render options struct.
pub open spec fn font_dir_bytes(o: RatexRenderOptions) -> Option<Seq<u8>> {
    match o.font_dir {
        Some(v) => Some(v@),
        None => None,
    }
}

/// The raster options used when no options struct is given.
pub open spec fn default_render_settings() -> RenderSettingsView {
    RenderSettingsView {
        font_size: DEFAULT_FONT_SIZE_BITS,
        padding: DEFAULT_PADDING_BITS,
        background_color: RatexColor::spec_transparent(),
        font_dir: Seq::empty(),
        device_pixel_ratio: DEFAULT_DEVICE_PIXEL_RATIO_BITS,
    }
}

/// What [`parse_render_options`] answers: the raster options, or the first error in
/// the order struct size, font size, padding, device pixel ratio, background color,
/// font directory.  Absent fields take their defaults.
pub open spec fn spec_render_options(
    opts: Option<RatexRenderOptions>,
    layout: RenderOptionsLayout,
) -> Result<RenderSettingsView, RatexErrorView> {
    match opts {
        None => Ok(default_render_settings()),
        Some(o) => {
            let size = o.struct_size;
            if size < layout.struct_size_end {
                Err(RatexErrorView::StructSizeTooSmall)
            } else if has_field(size, layout.font_size_end) && !f32_is_positive_finite(
                o.font_size,
            ) {
                Err(RatexErrorView::NotPositiveFinite(PositiveOption::FontSize, o.font_size))
            } else if has_field(size, layout.padding_end) && !padding_is_valid(o.padding) {
                Err(RatexErrorView::InvalidPadding(o.padding))
            } else if has_field(size, layout.device_pixel_ratio_end) && !f32_is_positive_finite(
                o.device_pixel_ratio,
            ) {
                Err(
                    RatexErrorView::NotPositiveFinite(
                        PositiveOption::DevicePixelRatio,
                        o.device_pixel_ratio,
                    ),
                )
            } else if has_field(size, layout.background_color_end) && color_error(
                o.background_color,
            ) is Some {
                Err(color_error(o.background_color).unwrap())
            } else if has_field(size, layout.font_dir_end) && spec_font_dir(
                font_dir_bytes(o),
            ) is Err {
                Err(spec_font_dir(font_dir_bytes(o))->Err_0)
            } else {
                Ok(
                    RenderSettingsView {
                        font_size: if has_field(size, layout.font_size_end) {
                            o.font_size
                        } else {
                            DEFAULT_FONT_SIZE_BITS
                        },
                        padding: if has_field(size, layout.padding_end) {
                            o.padding
                        } else {
                            DEFAULT_PADDING_BITS
                        },
                        background_color: if has_field(size, layout.background_color_end) {
                            o.background_color
                        } else {
                            RatexColor::spec_transparent()
                        },
                        font_dir: if has_field(size, layout.font_dir_end) {
                            spec_font_dir(font_dir_bytes(o))->Ok_0
                        } else {
                            Seq::empty()
                        },
                        device_pixel_ratio: if has_field(size, layout.device_pixel_ratio_end) {
                            o.device_pixel_ratio
                        } else {
                            DEFAULT_DEVICE_PIXEL_RATIO_BITS
                        },
                    },
                )
            }
        },
    }
}

/// Decodes the raster options of a rendering request.  Without an options struct
/// the defaults apply: font size twenty, padding four, device pixel ratio one,
/// transparent background, no font directory.
pub fn parse_render_options(
    opts: Option<&RatexRenderOptions>,
    layout: &RenderOptionsLayout,
) -> (res: Result<RenderSettings, RatexError>)
    ensures
        result_is(res, spec_render_options(deref_options(opts), *layout)),
{
    let o = match opts {
        None => {
            return Ok(
                RenderSettings {
                    font_size: DEFAULT_FONT_SIZE_BITS,
                    padding: DEFAULT_PADDING_BITS,
                    background_color: RatexColor::transparent(),
                    font_dir: String::new(),
                    device_pixel_ratio: DEFAULT_DEVICE_PIXEL_RATIO_BITS,
                },
            );
        },
        Some(o) => o,
    };
    if o.struct_size < layout.struct_size_end {
        return Err(RatexError::StructSizeTooSmall);
    }
    let display_mode = if field_present(o.struct_size, layout.display_mode_end) {
        o.display_mode
    } else {
        1
    };
    // The style is decided again, with the color, by `parse_layout_from_render_opts`.
    let _ = parse_style_from_opts(display_mode);

    let font_size = if field_present(o.struct_size, layout.font_size_end) {
        validate_positive_finite(PositiveOption::FontSize, o.font_size)?
    } else {
        DEFAULT_FONT_SIZE_BITS
    };
    let padding = if field_present(o.struct_size, layout.padding_end) {
        if !f32_bits_is_finite(o.padding) || f32_bits_less_than_zero(o.padding) {
            return Err(RatexError::InvalidPadding(o.padding));
        }
        o.padding
    } else {
        DEFAULT_PADDING_BITS
    };
    let device_pixel_ratio = if field_present(o.struct_size, layout.device_pixel_ratio_end) {
        validate_positive_finite(PositiveOption::DevicePixelRatio, o.device_pixel_ratio)?
    } else {
        DEFAULT_DEVICE_PIXEL_RATIO_BITS
    };
    let background_color = if field_present(o.struct_size, layout.background_color_end) {
        validate_color(o.background_color)?
    } else {
        RatexColor::transparent()
    };
    let font_dir = if field_present(o.struct_size, layout.font_dir_end) {
        match &o.font_dir {
            None => parse_font_dir(None)?,
            Some(v) => parse_font_dir(Some(v.as_slice()))?,
        }
    } else {
        String::new()
    };
    Ok(RenderSettings { font_size, padding, background_color, font_dir, device_pixel_ratio })
}

/// The layout color of a rendering request: the designated color if present and
/// valid, black when absent or NULL.
pub open spec fn spec_render_layout_color(
    opts: Option<RatexRenderOptions>,
    layout: RenderOptionsLayout,
) -> Result<RatexColor, RatexErrorView> {
    match opts {
        Some(o) => if has_field(o.struct_size, layout.color_end) && o.color is Some {
            spec_validate_color(o.color->Some_0)
        } else {
            Ok(RatexColor::spec_black())
        },
        None => Ok(RatexColor::spec_black()),
    }
}

/// The layout style of a rendering request: from `display_mode` if present, display otherwise.
pub open spec fn spec_render_style(
    opts: Option<RatexRenderOptions>,
    layout: RenderOptionsLayout,
) -> LayoutStyle {
    match opts {
        Some(o) => if has_field(o.struct_size, layout.display_mode_end) {
            style_of_display_mode(o.display_mode)
        } else {
            LayoutStyle::Display
        },
        None => LayoutStyle::Display,
    }
}

/// What [`parse_layout_from_render_opts`] answers: raster options first, then the
/// layout color.
pub open spec fn spec_layout_from_render_opts(
    opts: Option<RatexRenderOptions>,
    layout: RenderOptionsLayout,
) -> Result<ParsedRenderRequestView, RatexErrorView> {
    match spec_render_options(opts, layout) {
        Err(e) => Err(e),
        Ok(render) => match spec_render_layout_color(opts, layout) {
            Err(e) => Err(e),
            Ok(color) => Ok(
                ParsedRenderRequestView {
                    style: spec_render_style(opts, layout),
                    layout_color: color,
                    render,
                },
            ),
        },
    }
}

/// Decodes everything a rendering request needs from its options: raster options,
/// math style and layout color.
pub fn parse_layout_from_render_opts(
    opts: Option<&RatexRenderOptions>,
    layout: &RenderOptionsLayout,
) -> (res: Result<ParsedRenderRequest, RatexError>)
    ensures
        result_is(res, spec_layout_from_render_opts(deref_options(opts), *layout)),
{
    let render = parse_render_options(opts, layout)?;
    let style = match opts {
        None => LayoutStyle::Display,
        Some(o) => if field_present(o.struct_size, layout.display_mode_end) {
            parse_style_from_opts(o.display_mode)
        } else {
            LayoutStyle::Display
        },
    };
    let layout_color = match opts {
        None => RatexColor::black(),
        Some(o) => match o.color {
            Some(c) => if field_present(o.struct_size, layout.color_end) {
                validate_color(c)?
            } else {
                RatexColor::black()
            },
            None => RatexColor::black(),
        },
    };
    Ok(ParsedRenderRequest { style, layout_color, render })
}

/// The stroke width (single-precision pattern) SVG export uses: the given one when
/// present and greater than zero, three halves otherwise.
pub open spec fn spec_stroke_width(opts: Option<RatexRenderOptions>, layout: RenderOptionsLayout) -> u32 {
    match opts {
        Some(o) => if has_field(o.struct_size, layout.stroke_width_end) && is_greater_than_zero(
            f32_value(o.stroke_width),
        ) {
            o.stroke_width
        } else {
            DEFAULT_STROKE_WIDTH_BITS
        },
        None => DEFAULT_STROKE_WIDTH_BITS,
    }
}

/// Whether SVG export embeds outlined glyphs: `embed_glyphs != 0` when present, yes otherwise.
pub open spec fn spec_embed_glyphs(opts: Option<RatexRenderOptions>, layout: RenderOptionsLayout) -> bool {
    match opts {
        Some(o) => if has_field(o.struct_size, layout.embed_glyphs_end) {
            o.embed_glyphs != 0
        } else {
            true
        },
        None => true,
    }
}

/// Derives the SVG export options from the raster options and the SVG fields of the
/// options struct.  Sizes are widened to double precision without changing them.
pub fn parse_svg_options(
    opts: Option<&RatexRenderOptions>,
    layout: &RenderOptionsLayout,
    render: &RenderSettings,
) -> (svg: SvgSettings)
    ensures
        f64_value(svg.font_size) == widened_value(f32_value(render.font_size)),
        f64_value(svg.padding) == widened_value(f32_value(render.padding)),
        f64_value(svg.stroke_width) == widened_value(
            f32_value(spec_stroke_width(deref_options(opts), *layout)),
        ),
        svg.font_size == widened_bits(render.font_size),
        svg.padding == widened_bits(render.padding),
        svg.stroke_width == widened_bits(spec_stroke_width(deref_options(opts), *layout)),
        svg.embed_glyphs == spec_embed_glyphs(deref_options(opts), *layout),
        svg.font_dir@ == render.font_dir@,
{
    let (stroke_width, embed_glyphs) = match opts {
        None => (DEFAULT_STROKE_WIDTH_BITS, DEFAULT_EMBED_GLYPHS),
        Some(o) => {
            let stroke_width = if field_present(o.struct_size, layout.stroke_width_end)
                && f32_bits_greater_than_zero(o.stroke_width) {
                o.stroke_width
            } else {
                DEFAULT_STROKE_WIDTH_BITS
            };
            let embed_glyphs = if field_present(o.struct_size, layout.embed_glyphs_end) {
                o.embed_glyphs
            } else {
                DEFAULT_EMBED_GLYPHS
            };
            (stroke_width, embed_glyphs)
        },
    };
    SvgSettings {
        font_size: widen_f32_bits(render.font_size),
        padding: widen_f32_bits(render.padding),
        stroke_width: widen_f32_bits(stroke_width),
        embed_glyphs: embed_glyphs != 0,
        font_dir: render.font_dir.clone(),
    }
}

/// The style and color `ratex_parse_and_layout` lays out with.
pub open spec fn spec_layout_style_color(
    opts: Option<RatexOptions>,
    layout: OptionsLayout,
) -> Result<(LayoutStyle, RatexColor), RatexErrorView> {
    match opts {
        None => Ok((LayoutStyle::Display, RatexColor::spec_black())),
        Some(o) => {
            let style = if has_field(o.struct_size, layout.display_mode_end) {
                style_of_display_mode(o.display_mode)
            } else {
                LayoutStyle::Display
            };
            if has_field(o.struct_size, layout.color_end) && o.color is Some {
                match spec_validate_color(o.color->Some_0) {
                    Ok(c) => Ok((style, c)),
                    Err(e) => Err(e),
                }
            } else {
                Ok((style, RatexColor::spec_black()))
            }
        },
    }
}

/// Decodes the options of `ratex_parse_and_layout`: display style and black without
/// options; otherwise the style from `display_mode` and the color the `color`
/// pointer designates, each only when its field lies within `struct_size`.
pub fn layout_style_and_color(opts: Option<&RatexOptions>, layout: &OptionsLayout) -> (res: Result<
    (LayoutStyle, RatexColor),
    RatexError,
>)
    ensures
        result_is(res, spec_layout_style_color(deref_options(opts), *layout)),
{
    match opts {
        None => Ok((LayoutStyle::Display, RatexColor::black())),
        Some(o) => {
            let style = if field_present(o.struct_size, layout.display_mode_end)
                && o.display_mode == 0 {
                LayoutStyle::Text
            } else {
                LayoutStyle::Display
            };
            let color = match o.color {
                Some(c) => if field_present(o.struct_size, layout.color_end) {
                    validate_color(c)?
                } else {
                    RatexColor::black()
                },
                None => RatexColor::black(),
            };
            Ok((style, color))
        },
    }
}

} // verus!
