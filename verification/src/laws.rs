//! Properties of the option decoding that span several fields or several calls.
use crate::api::{layout_request_outcome, render_request_raster, svg_request_outcome};
use crate::color::{color_is_valid, RatexColor};
use crate::errors::EntryPoint;
use crate::float_bits::{f32_is_positive_finite, lemma_f32_constants};
use vstd::utf8::{decode_utf8, valid_utf8};
use crate::options::{
    default_render_settings, font_dir_bytes, has_field, spec_embed_glyphs,
    spec_layout_from_render_opts, spec_layout_style_color, spec_render_options, spec_stroke_width,
    padding_is_valid, style_of_display_mode, LayoutStyle, OptionsLayout, ParsedRenderRequestView, RatexOptions,
    RatexRenderOptions, RenderOptionsLayout,
};
use vstd::prelude::*;

verus! {

/// Two render option structs of the same size that agree on every field lying within
/// that size (they may differ anywhere beyond it).
pub open spec fn render_options_agree_within_size(
    o1: RatexRenderOptions,
    o2: RatexRenderOptions,
    layout: RenderOptionsLayout,
) -> bool {
    let size = o1.struct_size;
    &&& o2.struct_size == size
    &&& has_field(size, layout.display_mode_end) ==> o1.display_mode == o2.display_mode
    &&& has_field(size, layout.color_end) ==> o1.color == o2.color
    &&& has_field(size, layout.font_size_end) ==> o1.font_size == o2.font_size
    &&& has_field(size, layout.padding_end) ==> o1.padding == o2.padding
    &&& has_field(size, layout.device_pixel_ratio_end) ==> o1.device_pixel_ratio
        == o2.device_pixel_ratio
    &&& has_field(size, layout.background_color_end) ==> o1.background_color
        == o2.background_color
    &&& has_field(size, layout.font_dir_end) ==> font_dir_bytes(o1) == font_dir_bytes(o2)
    &&& has_field(size, layout.stroke_width_end) ==> o1.stroke_width == o2.stroke_width
    &&& has_field(size, layout.embed_glyphs_end) ==> o1.embed_glyphs == o2.embed_glyphs
}

/// Fields beyond `struct_size` are ignored: two render option structs that agree on
/// the fields within their common size decode to the same request and the same SVG
/// options, whatever lies beyond.
pub proof fn law_render_options_ignore_fields_beyond_struct_size(
    o1: RatexRenderOptions,
    o2: RatexRenderOptions,
    layout: RenderOptionsLayout,
)
    requires
        render_options_agree_within_size(o1, o2, layout),
    ensures
        spec_layout_from_render_opts(Some(o1), layout) == spec_layout_from_render_opts(
            Some(o2),
            layout,
        ),
        spec_stroke_width(Some(o1), layout) == spec_stroke_width(Some(o2), layout),
        spec_embed_glyphs(Some(o1), layout) == spec_embed_glyphs(Some(o2), layout),
{
}

/// Two `RatexOptions` of the same size that agree on every field lying within it.
pub open spec fn options_agree_within_size(
    o1: RatexOptions,
    o2: RatexOptions,
    layout: OptionsLayout,
) -> bool {
    &&& o2.struct_size == o1.struct_size
    &&& has_field(o1.struct_size, layout.display_mode_end) ==> o1.display_mode == o2.display_mode
    &&& has_field(o1.struct_size, layout.color_end) ==> o1.color == o2.color
}

/// Fields beyond `struct_size` are ignored by `ratex_parse_and_layout` too.
pub proof fn law_options_ignore_fields_beyond_struct_size(
    o1: RatexOptions,
    o2: RatexOptions,
    layout: OptionsLayout,
)
    requires
        options_agree_within_size(o1, o2, layout),
    ensures
        spec_layout_style_color(Some(o1), layout) == spec_layout_style_color(Some(o2), layout),
{
}

/// Without an options struct a rendering request uses the defaults: display style,
/// black, font size twenty, padding four, device pixel ratio one, transparent
/// background, no font directory; SVG export strokes three halves wide and embeds glyphs.
pub proof fn law_null_render_options_use_defaults(layout: RenderOptionsLayout)
    ensures
        spec_layout_from_render_opts(None, layout) == Ok::<
            ParsedRenderRequestView,
            crate::errors::RatexErrorView,
        >(
            ParsedRenderRequestView {
                style: LayoutStyle::Display,
                layout_color: RatexColor::spec_black(),
                render: default_render_settings(),
            },
        ),
        spec_stroke_width(None, layout) == crate::options::DEFAULT_STROKE_WIDTH_BITS,
        spec_embed_glyphs(None, layout),
{
}

/// Without an options struct `ratex_parse_and_layout` lays out in display style and black.
pub proof fn law_null_options_use_defaults(layout: OptionsLayout)
    ensures
        spec_layout_style_color(None, layout) == Ok::<
            (LayoutStyle, RatexColor),
            crate::errors::RatexErrorView,
        >((LayoutStyle::Display, RatexColor::spec_black())),
{
}

/// A caller compiled against the older, shorter `RatexOptions` (no `color` field) keeps
/// working: its `display_mode` is honoured and the formula is black, whatever
/// lies where the `color` field would be.
pub proof fn law_legacy_options_fall_back_to_black(o: RatexOptions, layout: OptionsLayout)
    requires
        has_field(o.struct_size, layout.display_mode_end),
        !has_field(o.struct_size, layout.color_end),
    ensures
        spec_layout_style_color(Some(o), layout) == Ok::<
            (LayoutStyle, RatexColor),
            crate::errors::RatexErrorView,
        >((style_of_display_mode(o.display_mode), RatexColor::spec_black())),
{
}

/// Every request that decodes successfully carries sound values: a finite font size
/// and device pixel ratio greater than zero, a finite padding not below zero, and
/// colors whose channels are finite and within `[0, 1]`, defaults included.
pub proof fn law_accepted_render_request_is_valid(
    opts: Option<RatexRenderOptions>,
    layout: RenderOptionsLayout,
)
    ensures
        spec_layout_from_render_opts(opts, layout) matches Ok(p) ==> {
            &&& f32_is_positive_finite(p.render.font_size)
            &&& padding_is_valid(p.render.padding)
            &&& f32_is_positive_finite(p.render.device_pixel_ratio)
            &&& color_is_valid(p.render.background_color)
            &&& color_is_valid(p.layout_color)
        },
{
    lemma_f32_constants();
    vstd::arithmetic::power2::lemma_pow2_pos(149);
}

/// Every accepted `ratex_parse_and_layout` request lays out with a color whose
/// channels are finite and within `[0, 1]`.
pub proof fn law_accepted_layout_color_is_valid(opts: Option<RatexOptions>, layout: OptionsLayout)
    ensures
        spec_layout_style_color(opts, layout) matches Ok((_, c)) ==> color_is_valid(c),
{
    lemma_f32_constants();
    vstd::arithmetic::power2::lemma_pow2_pos(149);
}

/// An options struct that holds nothing beyond `struct_size` (every other field lies
/// past its end) is treated exactly like a NULL options pointer.
pub proof fn law_bare_render_options_act_like_null(o: RatexRenderOptions, layout: RenderOptionsLayout)
    requires
        has_field(o.struct_size, layout.struct_size_end),
        !has_field(o.struct_size, layout.display_mode_end),
        !has_field(o.struct_size, layout.color_end),
        !has_field(o.struct_size, layout.font_size_end),
        !has_field(o.struct_size, layout.padding_end),
        !has_field(o.struct_size, layout.device_pixel_ratio_end),
        !has_field(o.struct_size, layout.background_color_end),
        !has_field(o.struct_size, layout.font_dir_end),
        !has_field(o.struct_size, layout.stroke_width_end),
        !has_field(o.struct_size, layout.embed_glyphs_end),
    ensures
        spec_layout_from_render_opts(Some(o), layout) == spec_layout_from_render_opts(None, layout),
        spec_stroke_width(Some(o), layout) == spec_stroke_width(None, layout),
        spec_embed_glyphs(Some(o), layout) == spec_embed_glyphs(None, layout),
{
}

/// A NULL options pointer lays out exactly like an explicit `RatexOptions` that asks
/// for display style (any nonzero `display_mode`) and black: the same display list,
/// or the same error.
pub proof fn law_null_options_lay_out_like_display_black(
    latex: Option<Seq<u8>>,
    o: RatexOptions,
    layout: OptionsLayout,
)
    requires
        has_field(o.struct_size, layout.display_mode_end),
        has_field(o.struct_size, layout.color_end),
        o.display_mode != 0,
        o.color == Some(RatexColor::spec_black()),
    ensures
        layout_request_outcome(latex, None, layout) == layout_request_outcome(
            latex,
            Some(o),
            layout,
        ),
{
    lemma_f32_constants();
    vstd::arithmetic::power2::lemma_pow2_pos(149);
}

/// An explicit `RatexRenderOptions` holding every field, set to the documented
/// defaults (display style, black, font size twenty, padding four, device pixel
/// ratio one, transparent background, no font directory, stroke width three halves,
/// embedded glyphs).
pub open spec fn explicit_default_render_options(
    o: RatexRenderOptions,
    layout: RenderOptionsLayout,
) -> bool {
    &&& has_field(o.struct_size, layout.struct_size_end)
    &&& has_field(o.struct_size, layout.display_mode_end)
    &&& has_field(o.struct_size, layout.color_end)
    &&& has_field(o.struct_size, layout.font_size_end)
    &&& has_field(o.struct_size, layout.padding_end)
    &&& has_field(o.struct_size, layout.device_pixel_ratio_end)
    &&& has_field(o.struct_size, layout.background_color_end)
    &&& has_field(o.struct_size, layout.font_dir_end)
    &&& has_field(o.struct_size, layout.stroke_width_end)
    &&& has_field(o.struct_size, layout.embed_glyphs_end)
    &&& o.display_mode != 0
    &&& o.color == Some(RatexColor::spec_black())
    &&& o.font_size == crate::options::DEFAULT_FONT_SIZE_BITS
    &&& o.padding == crate::options::DEFAULT_PADDING_BITS
    &&& o.device_pixel_ratio == crate::options::DEFAULT_DEVICE_PIXEL_RATIO_BITS
    &&& o.background_color == RatexColor::spec_transparent()
    &&& o.font_dir is None
    &&& o.stroke_width == crate::options::DEFAULT_STROKE_WIDTH_BITS
    &&& o.embed_glyphs != 0
}

/// A NULL options pointer renders like the explicit defaults: every rendering entry
/// point decodes the same request, so the bitmap and PNG paths meet the same
/// decoding, parse and size errors and produce images of the same pixel size, and the
/// SVG path writes the same opening tag with the same stroke width and glyph mode.
/// (The drawn pixels and glyph outlines come from fonts and are not stated.)
pub proof fn law_null_render_options_render_like_explicit_defaults(
    entry: EntryPoint,
    latex: Option<Seq<u8>>,
    o: RatexRenderOptions,
    layout: RenderOptionsLayout,
)
    requires
        explicit_default_render_options(o, layout),
    ensures
        spec_layout_from_render_opts(None, layout) == spec_layout_from_render_opts(Some(o), layout),
        render_request_raster(entry, latex, None, layout) == render_request_raster(
            entry,
            latex,
            Some(o),
            layout,
        ),
        svg_request_outcome(latex, None, layout) == svg_request_outcome(latex, Some(o), layout),
        spec_stroke_width(None, layout) == spec_stroke_width(Some(o), layout),
        spec_embed_glyphs(None, layout) == spec_embed_glyphs(Some(o), layout),
{
    lemma_f32_constants();
    vstd::arithmetic::power2::lemma_pow2_pos(148);
    vstd::arithmetic::power2::lemma_pow2_pos(149);
    assert(spec_layout_from_render_opts(None, layout) =~~= spec_layout_from_render_opts(
        Some(o),
        layout,
    ));
}

/// A rendering request keeps the caller's values: once its options are accepted,
/// every raster option whose field lies within `struct_size` is exactly the caller's
/// (font size, padding, device pixel ratio, and the background color channel for
/// channel, r to r, g to g, b to b, a to a), the font directory is the decoded C
/// string, and the layout color is the color the `color` pointer designates.
pub proof fn law_accepted_render_options_keep_the_callers_values(
    o: RatexRenderOptions,
    layout: RenderOptionsLayout,
)
    ensures
        spec_layout_from_render_opts(Some(o), layout) matches Ok(p) ==> {
            &&& has_field(o.struct_size, layout.font_size_end) ==> p.render.font_size
                == o.font_size
            &&& has_field(o.struct_size, layout.padding_end) ==> p.render.padding == o.padding
            &&& has_field(o.struct_size, layout.device_pixel_ratio_end)
                ==> p.render.device_pixel_ratio == o.device_pixel_ratio
            &&& has_field(o.struct_size, layout.background_color_end) ==> {
                &&& p.render.background_color.r == o.background_color.r
                &&& p.render.background_color.g == o.background_color.g
                &&& p.render.background_color.b == o.background_color.b
                &&& p.render.background_color.a == o.background_color.a
            }
            &&& has_field(o.struct_size, layout.font_dir_end) ==> match o.font_dir {
                Some(b) => p.render.font_dir == decode_utf8(b@),
                None => p.render.font_dir.len() == 0,
            }
            &&& has_field(o.struct_size, layout.color_end) ==> match o.color {
                Some(c) => p.layout_color == c,
                None => p.layout_color == RatexColor::spec_black(),
            }
        },
{
}

/// The options a caller writes correctly are accepted and used as written: when every
/// field within `struct_size` holds a sound value (font size and device pixel ratio
/// finite and greater than zero, padding finite and not below zero, colors with every
/// channel finite and in `[0, 1]`, a UTF-8 font directory), the raster options decode
/// without error and the background color is the caller's, channel for channel, as is
/// the layout color.
pub proof fn law_sound_render_options_are_used_as_written(
    o: RatexRenderOptions,
    layout: RenderOptionsLayout,
)
    requires
        has_field(o.struct_size, layout.struct_size_end),
        has_field(o.struct_size, layout.font_size_end) ==> f32_is_positive_finite(o.font_size),
        has_field(o.struct_size, layout.padding_end) ==> padding_is_valid(o.padding),
        has_field(o.struct_size, layout.device_pixel_ratio_end) ==> f32_is_positive_finite(
            o.device_pixel_ratio,
        ),
        has_field(o.struct_size, layout.background_color_end) ==> color_is_valid(
            o.background_color,
        ),
        has_field(o.struct_size, layout.font_dir_end) ==> (o.font_dir matches Some(b) ==> valid_utf8(
            b@,
        )),
        has_field(o.struct_size, layout.color_end) ==> (o.color matches Some(c) ==> color_is_valid(
            c,
        )),
    ensures
        spec_render_options(Some(o), layout) is Ok,
        spec_layout_from_render_opts(Some(o), layout) matches Ok(p) && {
            &&& has_field(o.struct_size, layout.background_color_end) ==> p.render.background_color
                == o.background_color
            &&& !has_field(o.struct_size, layout.background_color_end)
                ==> p.render.background_color == RatexColor::spec_transparent()
            &&& has_field(o.struct_size, layout.color_end) && o.color is Some ==> p.layout_color
                == o.color->Some_0
        },
{
    lemma_f32_constants();
    vstd::arithmetic::power2::lemma_pow2_pos(149);
}

/// `ratex_parse_and_layout` lays the formula out in the color the caller designates:
/// when the `color` field lies within `struct_size` and points to a color whose
/// channels are all finite and in `[0, 1]`, the request is accepted and its layout
/// color is that color, all four channels (alpha included) as given.
pub proof fn law_layout_color_is_the_designated_color(
    o: RatexOptions,
    c: RatexColor,
    layout: OptionsLayout,
)
    requires
        has_field(o.struct_size, layout.color_end),
        o.color == Some(c),
        color_is_valid(c),
    ensures
        spec_layout_style_color(Some(o), layout) matches Ok((_, d)) && d == c,
        spec_layout_style_color(Some(o), layout) matches Ok((_, d)) && d.r == c.r && d.g == c.g
            && d.b == c.b && d.a == c.a,
{
    lemma_f32_constants();
    vstd::arithmetic::power2::lemma_pow2_pos(149);
}

/// The layout color of an accepted `ratex_parse_and_layout` request is the designated
/// color whenever the `color` field lies within `struct_size` and is not NULL.
pub proof fn law_accepted_layout_color_is_the_designated_color(o: RatexOptions, layout: OptionsLayout)
    ensures
        spec_layout_style_color(Some(o), layout) matches Ok((_, d)) ==> (has_field(
            o.struct_size,
            layout.color_end,
        ) && o.color is Some ==> d == o.color->Some_0),
{
}

} // verus!
