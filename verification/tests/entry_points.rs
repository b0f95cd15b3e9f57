use ratex_ffi::api::{layout_request, render_bitmap_request, render_png_request, render_svg_request};
use ratex_ffi::color::RatexColor;
use ratex_ffi::errors::RatexError;
use ratex_ffi::export::{bitmap_release_len, bitmap_result};
use ratex_ffi::last_error::{clear_last_error, set_last_error, LastError};
use ratex_ffi::options::{OptionsLayout, RatexOptions, RatexRenderOptions, RenderOptionsLayout};
use serde_json::Value;

fn align_up(x: usize, a: usize) -> usize {
    (x + a - 1) / a * a
}

/// Field ends of the C `RatexOptions` struct on this target.
fn options_layout() -> OptionsLayout {
    let p = std::mem::size_of::<usize>();
    let display_mode_end = p + 4;
    let color_end = align_up(display_mode_end, p) + p;
    OptionsLayout { display_mode_end, color_end }
}

/// Field ends of the C `RatexRenderOptions` struct on this target.
fn render_layout() -> RenderOptionsLayout {
    let p = std::mem::size_of::<usize>();
    let display_mode_end = p + 4;
    let color_end = align_up(display_mode_end, p) + p;
    let font_size_end = color_end + 4;
    let padding_end = font_size_end + 4;
    let device_pixel_ratio_end = padding_end + 4;
    let background_color_end = device_pixel_ratio_end + 16;
    let font_dir_end = align_up(background_color_end, p) + p;
    let stroke_width_end = font_dir_end + 4;
    let embed_glyphs_end = stroke_width_end + 4;
    RenderOptionsLayout {
        struct_size_end: p,
        display_mode_end,
        color_end,
        font_size_end,
        padding_end,
        device_pixel_ratio_end,
        background_color_end,
        font_dir_end,
        stroke_width_end,
        embed_glyphs_end,
    }
}

fn options_size() -> usize {
    align_up(options_layout().color_end, std::mem::size_of::<usize>())
}

fn render_options_size() -> usize {
    align_up(render_layout().embed_glyphs_end, std::mem::size_of::<usize>())
}

fn rgba(r: f32, g: f32, b: f32, a: f32) -> RatexColor {
    RatexColor { r: r.to_bits(), g: g.to_bits(), b: b.to_bits(), a: a.to_bits() }
}

fn black() -> RatexColor {
    rgba(0.0, 0.0, 0.0, 1.0)
}

/// How a failure is reported through the last-error slot.
fn report(slot: &mut LastError, e: &RatexError) -> String {
    let value = match e.quoted_float() {
        Some(bits) => format!("{}", f32::from_bits(bits)),
        None => String::new(),
    };
    let message = e.message(&value);
    set_last_error(slot, &message);
    let stored = slot.c_str_bytes().unwrap();
    String::from_utf8(stored[..stored.len() - 1].to_vec()).unwrap()
}

fn call_with(latex: &str, opts: &RatexOptions) -> Option<String> {
    match layout_request(Some(latex.as_bytes()), Some(opts), &options_layout()) {
        Ok(list) => Some(serde_json::to_string(&list).unwrap()),
        Err(_) => None,
    }
}

fn call(latex: &str, display_mode: i32) -> Option<String> {
    let opts = RatexOptions { struct_size: options_size(), display_mode, color: Some(black()) };
    call_with(latex, &opts)
}

/// The default formula color on the first `GlyphPath` of a display list is black.
fn assert_default_glyph_path_color_is_black(json: &str) {
    let v: Value = serde_json::from_str(json).expect("valid display list JSON");
    let items = v.get("items").and_then(|i| i.as_array()).expect("display list must have items array");
    let glyph = items
        .iter()
        .find(|item| item.get("type").and_then(|t| t.as_str()).is_some_and(|ty| ty == "GlyphPath"))
        .expect("expected at least one GlyphPath item");
    let color = glyph.get("color").expect("GlyphPath must include color");
    let r = color.get("r").and_then(|x| x.as_f64());
    let g = color.get("g").and_then(|x| x.as_f64());
    let b = color.get("b").and_then(|x| x.as_f64());
    let a = color.get("a").and_then(|x| x.as_f64());
    assert_eq!((r, g, b, a), (Some(0.0), Some(0.0), Some(0.0), Some(1.0)));
}

fn make_render_opts(display_mode: i32) -> RatexRenderOptions {
    RatexRenderOptions {
        struct_size: render_options_size(),
        display_mode,
        color: Some(black()),
        font_size: 20.0f32.to_bits(),
        padding: 4.0f32.to_bits(),
        device_pixel_ratio: 1.0f32.to_bits(),
        background_color: rgba(0.0, 0.0, 0.0, 0.0),
        font_dir: None,
        stroke_width: 1.5f32.to_bits(),
        embed_glyphs: 1,
    }
}

#[test]
fn display_fraction() {
    let json = call(r"\frac{1}{2}", 1).expect("should not fail");
    assert!(json.starts_with('{'));
    assert!(json.contains("items"));
}

#[test]
fn inline_fraction() {
    let json = call(r"\frac{1}{2}", 0).expect("should not fail");
    assert!(json.contains("items"));
}

#[test]
fn display_expression() {
    let json = call("x^2 + y^2 = z^2", 1).expect("should not fail");
    assert!(json.contains("items"));
}

#[test]
fn null_latex_returns_error() {
    let opts = RatexOptions { struct_size: options_size(), display_mode: 1, color: Some(black()) };
    let mut slot = LastError::new();
    clear_last_error(&mut slot);
    let result = layout_request(None, Some(&opts), &options_layout());
    let err = result.expect_err("a NULL latex pointer is an error");
    let msg = report(&mut slot, &err);
    assert!(slot.c_str_bytes().is_some());
    assert!(msg.contains("null"));
}

#[test]
fn null_opts_defaults_to_display() {
    let result = layout_request(Some(r"x^2".as_bytes()), None, &options_layout());
    assert!(result.is_ok());
}

#[test]
fn error_on_bad_latex() {
    let mut slot = LastError::new();
    let opts = RatexOptions { struct_size: options_size(), display_mode: 1, color: Some(black()) };
    let result = layout_request(Some(r"\undefined{x}".as_bytes()), Some(&opts), &options_layout());
    if let Err(e) = result {
        report(&mut slot, &e);
        assert!(slot.c_str_bytes().is_some());
    }
}

#[test]
fn custom_color_applies_without_overriding_explicit_latex_color() {
    let blue = rgba(0.0, 0.0, 1.0, 1.0);
    let opts = RatexOptions { struct_size: options_size(), display_mode: 1, color: Some(blue) };
    let json = call_with(r"x + \color{red}{y}", &opts).expect("should not fail");
    assert!(json.contains("\"b\":1.0"));
    assert!(json.contains("\"r\":1.0"));
}

#[test]
fn short_legacy_options_remain_binary_compatible() {
    // An old caller's struct ends after `display_mode`; whatever lies beyond is not read.
    let legacy_size = align_up(options_layout().display_mode_end, std::mem::size_of::<usize>());
    let opts = RatexOptions {
        struct_size: legacy_size,
        display_mode: 1,
        color: Some(rgba(1.0, 0.0, 0.0, 1.0)),
    };
    let json = call_with("x", &opts).expect("should not fail");
    assert_default_glyph_path_color_is_black(&json);
}

#[test]
fn invalid_color_returns_error() {
    let invalid = rgba(f32::NAN, 0.0, 0.0, 1.0);
    let opts = RatexOptions { struct_size: options_size(), display_mode: 1, color: Some(invalid) };
    let mut slot = LastError::new();
    let result = layout_request(Some("x".as_bytes()), Some(&opts), &options_layout());
    let err = result.expect_err("a NaN channel is an error");
    let msg = report(&mut slot, &err);
    assert!(slot.c_str_bytes().is_some());
    assert!(msg.contains("invalid color.r"));
}

#[test]
fn null_color_pointer_defaults_to_black() {
    let opts = RatexOptions { struct_size: options_size(), display_mode: 1, color: None };
    let json = call_with("x", &opts).expect("should not fail");
    assert_default_glyph_path_color_is_black(&json);
}

#[test]
fn render_bitmap_fraction() {
    let opts = make_render_opts(1);
    let bitmap = render_bitmap_request(Some(r"\frac{1}{2}".as_bytes()), Some(&opts), &render_layout())
        .expect("should not fail");
    assert!(bitmap.width > 0);
    assert!(bitmap.height > 0);
    assert_eq!(bitmap.stride, bitmap.width * 4);
    assert_eq!(bitmap.data.len(), (bitmap.stride * bitmap.height) as usize);
}

#[test]
fn render_bitmap_null_latex_returns_error() {
    let mut opts = make_render_opts(1);
    opts.background_color = black();
    let outcome = render_bitmap_request(None, Some(&opts), &render_layout());
    let (result, err) = bitmap_result(outcome);
    assert_ne!(result.error_code, 0);
    assert!(result.bitmap.data.is_empty());
    assert!(err.is_some());
}

#[test]
fn free_bitmap_null_is_noop() {
    assert_eq!(bitmap_release_len(true, 0, 0), None);
}

#[test]
fn render_png_fraction() {
    let opts = make_render_opts(1);
    let bytes = render_png_request(Some(r"\frac{1}{2}".as_bytes()), Some(&opts), &render_layout())
        .expect("should not fail");
    assert!(bytes.len > 8);
    assert_eq!(&bytes.data[0..8], b"\x89PNG\r\n\x1a\n");
}

#[test]
fn render_svg_fraction() {
    let opts = make_render_opts(1);
    let svg = render_svg_request(Some(r"\frac{1}{2}".as_bytes()), Some(&opts), &render_layout())
        .expect("should not fail");
    assert!(svg.contains("<svg"));
    assert!(svg.contains("</svg>"));
}

#[test]
fn null_options_render_like_explicit_defaults() {
    let latex = Some(r"\frac{1}{2}".as_bytes());
    let explicit = RatexOptions { struct_size: options_size(), display_mode: 7, color: Some(black()) };
    let a = layout_request(latex, None, &options_layout()).unwrap();
    let b = layout_request(latex, Some(&explicit), &options_layout()).unwrap();
    assert_eq!(serde_json::to_string(&a).unwrap(), serde_json::to_string(&b).unwrap());

    let defaults = make_render_opts(1);
    let a = render_bitmap_request(latex, None, &render_layout()).unwrap();
    let b = render_bitmap_request(latex, Some(&defaults), &render_layout()).unwrap();
    assert_eq!((a.width, a.height, a.stride), (b.width, b.height, b.stride));
    assert_eq!(a.data, b.data);

    let a = render_svg_request(latex, None, &render_layout()).unwrap();
    let b = render_svg_request(latex, Some(&defaults), &render_layout()).unwrap();
    assert_eq!(a, b);
}

#[test]
fn style_and_font_size_reach_the_output() {
    let latex = Some(r"\sum_{i=1}^n i".as_bytes());
    let inline = RatexOptions { struct_size: options_size(), display_mode: 0, color: None };
    let display = RatexOptions { struct_size: options_size(), display_mode: 1, color: None };
    let a = layout_request(latex, Some(&inline), &options_layout()).unwrap();
    let b = layout_request(latex, Some(&display), &options_layout()).unwrap();
    assert_ne!(serde_json::to_string(&a).unwrap(), serde_json::to_string(&b).unwrap());

    let small = make_render_opts(1);
    let mut large = make_render_opts(1);
    large.font_size = 40.0f32.to_bits();
    let a = render_png_request(latex, Some(&small), &render_layout()).unwrap();
    let b = render_png_request(latex, Some(&large), &render_layout()).unwrap();
    let width = |png: &[u8]| u32::from_be_bytes([png[16], png[17], png[18], png[19]]);
    assert!(width(&b.data) > width(&a.data));
    let bm = render_bitmap_request(latex, Some(&small), &render_layout()).unwrap();
    assert_eq!(bm.width, width(&a.data));
}

#[test]
fn svg_without_embedded_glyphs_is_katex_text() {
    let latex = Some(r"\frac{1}{2}".as_bytes());
    let mut opts = make_render_opts(1);
    opts.embed_glyphs = 0;
    let a = render_svg_request(latex, Some(&opts), &render_layout()).unwrap();
    let b = render_svg_request(latex, Some(&opts), &render_layout()).unwrap();
    assert!(a.contains("<text"));
    assert!(a.starts_with("<svg"));
    assert!(a.ends_with("</svg>"));
    assert_eq!(a, b);
}
