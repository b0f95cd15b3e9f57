use ratex_ffi::api::{decode_latex, prepare_layout_request, prepare_render_request, render_png_request};
use ratex_ffi::color::{validate_color, RatexColor};
use ratex_ffi::engine::bitmap_from_png;
use ratex_ffi::errors::{ColorChannel, EntryPoint, PositiveOption, RatexError};
use ratex_ffi::export::{
    bitmap_release_len, bytes_into_raw, bytes_release_len, bytes_result, text_result, RatexBytes,
};
use ratex_ffi::float_bits::{
    f32_bits_greater_than_zero, f32_bits_in_unit_interval, f32_bits_is_finite,
    f32_bits_less_than_zero, widen_f32_bits,
};
use ratex_ffi::last_error::{clear_last_error, set_last_error, LastError};
use ratex_ffi::options::{
    field_present, layout_style_and_color, parse_font_dir, parse_layout_from_render_opts,
    parse_render_options, parse_style_from_opts, parse_svg_options, validate_positive_finite,
    LayoutStyle, OptionsLayout, RatexOptions, RatexRenderOptions, RenderOptionsLayout,
    DEFAULT_DEVICE_PIXEL_RATIO_BITS, DEFAULT_FONT_SIZE_BITS, DEFAULT_PADDING_BITS,
    DEFAULT_STROKE_WIDTH_BITS,
};

fn rgba(r: f32, g: f32, b: f32, a: f32) -> RatexColor {
    RatexColor { r: r.to_bits(), g: g.to_bits(), b: b.to_bits(), a: a.to_bits() }
}

/// The layout of `RatexRenderOptions` on a 64-bit target.
fn layout64() -> RenderOptionsLayout {
    RenderOptionsLayout {
        struct_size_end: 8,
        display_mode_end: 12,
        color_end: 24,
        font_size_end: 28,
        padding_end: 32,
        device_pixel_ratio_end: 36,
        background_color_end: 52,
        font_dir_end: 64,
        stroke_width_end: 68,
        embed_glyphs_end: 72,
    }
}

fn options_layout64() -> OptionsLayout {
    OptionsLayout { display_mode_end: 12, color_end: 24 }
}

fn full_opts() -> RatexRenderOptions {
    RatexRenderOptions {
        struct_size: 72,
        display_mode: 1,
        color: Some(rgba(0.0, 0.0, 1.0, 1.0)),
        font_size: 30.0f32.to_bits(),
        padding: 2.0f32.to_bits(),
        device_pixel_ratio: 2.0f32.to_bits(),
        background_color: rgba(1.0, 1.0, 1.0, 1.0),
        font_dir: Some(b"/fonts".to_vec()),
        stroke_width: 2.5f32.to_bits(),
        embed_glyphs: 0,
    }
}

#[test]
fn float_predicates_follow_ieee_comparisons() {
    let samples: [f32; 14] = [
        0.0, -0.0, 1.0, -1.0, 0.5, 1.0000001, 2.0, f32::MIN_POSITIVE, 1.0e-45, -1.0e-45,
        f32::INFINITY, f32::NEG_INFINITY, f32::NAN, f32::MAX,
    ];
    for v in samples {
        let b = v.to_bits();
        assert_eq!(f32_bits_is_finite(b), v.is_finite(), "finite {v}");
        assert_eq!(f32_bits_greater_than_zero(b), v > 0.0, "gt {v}");
        assert_eq!(f32_bits_less_than_zero(b), v < 0.0, "lt {v}");
        assert_eq!(f32_bits_in_unit_interval(b), v.is_finite() && (0.0..=1.0).contains(&v), "unit {v}");
    }
}

#[test]
fn widening_matches_the_language_cast() {
    let samples: [f32; 12] = [
        0.0, -0.0, 1.5, -20.0, 1.0e-45, 3.0e-40, -7.5e-39, f32::MIN_POSITIVE, f32::MAX,
        f32::INFINITY, f32::NEG_INFINITY, 0.1,
    ];
    for v in samples {
        assert_eq!(f64::from_bits(widen_f32_bits(v.to_bits())), v as f64, "{v}");
        assert_eq!(widen_f32_bits(v.to_bits()), (v as f64).to_bits(), "{v}");
    }
    assert!(f64::from_bits(widen_f32_bits(f32::NAN.to_bits())).is_nan());
}

#[test]
fn default_bit_patterns_denote_the_documented_values() {
    assert_eq!(f32::from_bits(DEFAULT_FONT_SIZE_BITS), 20.0);
    assert_eq!(f32::from_bits(DEFAULT_PADDING_BITS), 4.0);
    assert_eq!(f32::from_bits(DEFAULT_DEVICE_PIXEL_RATIO_BITS), 1.0);
    assert_eq!(f32::from_bits(DEFAULT_STROKE_WIDTH_BITS), 1.5);
    assert_eq!(RatexColor::black(), rgba(0.0, 0.0, 0.0, 1.0));
    assert_eq!(RatexColor::transparent(), rgba(0.0, 0.0, 0.0, 0.0));
}

#[test]
fn validate_color_reports_first_bad_channel() {
    assert_eq!(validate_color(rgba(0.0, 0.5, 1.0, 1.0)).unwrap(), rgba(0.0, 0.5, 1.0, 1.0));
    assert_eq!(validate_color(rgba(-0.0, 0.0, 0.0, 0.0)).unwrap(), rgba(-0.0, 0.0, 0.0, 0.0));
    match validate_color(rgba(0.0, f32::INFINITY, 2.0, 1.0)) {
        Err(RatexError::ColorNotFinite(ColorChannel::G, b)) => assert_eq!(b, f32::INFINITY.to_bits()),
        other => panic!("unexpected {other:?}"),
    }
    match validate_color(rgba(0.0, 0.5, 2.0, f32::NAN)) {
        Err(RatexError::ColorOutOfRange(ColorChannel::B, b)) => assert_eq!(b, 2.0f32.to_bits()),
        other => panic!("unexpected {other:?}"),
    }
    match validate_color(rgba(0.0, 0.0, 0.0, -0.25)) {
        Err(RatexError::ColorOutOfRange(ColorChannel::A, _)) => {},
        other => panic!("unexpected {other:?}"),
    }
}

#[test]
fn positive_finite_validation() {
    assert_eq!(validate_positive_finite(PositiveOption::FontSize, 3.0f32.to_bits()).unwrap(), 3.0f32.to_bits());
    for v in [0.0f32, -0.0, -1.0, f32::INFINITY, f32::NAN] {
        match validate_positive_finite(PositiveOption::DevicePixelRatio, v.to_bits()) {
            Err(RatexError::NotPositiveFinite(PositiveOption::DevicePixelRatio, b)) => assert_eq!(b, v.to_bits()),
            other => panic!("unexpected {other:?}"),
        }
    }
}

#[test]
fn display_mode_selects_style() {
    assert_eq!(parse_style_from_opts(0), LayoutStyle::Text);
    assert_eq!(parse_style_from_opts(1), LayoutStyle::Display);
    assert_eq!(parse_style_from_opts(-7), LayoutStyle::Display);
}

#[test]
fn field_presence_is_decided_by_struct_size() {
    assert!(field_present(72, 72));
    assert!(!field_present(71, 72));
    assert!(field_present(100, 12));
}

#[test]
fn null_render_options_use_defaults() {
    let s = parse_render_options(None, &layout64()).unwrap();
    assert_eq!(s.font_size, DEFAULT_FONT_SIZE_BITS);
    assert_eq!(s.padding, DEFAULT_PADDING_BITS);
    assert_eq!(s.device_pixel_ratio, DEFAULT_DEVICE_PIXEL_RATIO_BITS);
    assert_eq!(s.background_color, RatexColor::transparent());
    assert_eq!(s.font_dir, "");
    let p = parse_layout_from_render_opts(None, &layout64()).unwrap();
    assert_eq!(p.style, LayoutStyle::Display);
    assert_eq!(p.layout_color, RatexColor::black());
    let svg = parse_svg_options(None, &layout64(), &s);
    assert_eq!(f64::from_bits(svg.font_size), 20.0);
    assert_eq!(f64::from_bits(svg.padding), 4.0);
    assert_eq!(f64::from_bits(svg.stroke_width), 1.5);
    assert!(svg.embed_glyphs);
}

#[test]
fn full_render_options_are_read() {
    let o = full_opts();
    let p = parse_layout_from_render_opts(Some(&o), &layout64()).unwrap();
    assert_eq!(p.style, LayoutStyle::Display);
    assert_eq!(p.layout_color, rgba(0.0, 0.0, 1.0, 1.0));
    assert_eq!(p.render.font_size, 30.0f32.to_bits());
    assert_eq!(p.render.padding, 2.0f32.to_bits());
    assert_eq!(p.render.device_pixel_ratio, 2.0f32.to_bits());
    assert_eq!(p.render.background_color, rgba(1.0, 1.0, 1.0, 1.0));
    assert_eq!(p.render.font_dir, "/fonts");
    let svg = parse_svg_options(Some(&o), &layout64(), &p.render);
    assert_eq!(f64::from_bits(svg.font_size), 30.0);
    assert_eq!(f64::from_bits(svg.stroke_width), 2.5);
    assert!(!svg.embed_glyphs);
    assert_eq!(svg.font_dir, "/fonts");
}

#[test]
fn render_options_errors_come_in_field_order() {
    let mut o = full_opts();
    o.struct_size = 4;
    assert!(matches!(parse_render_options(Some(&o), &layout64()), Err(RatexError::StructSizeTooSmall)));

    let mut o = full_opts();
    o.font_size = 0.0f32.to_bits();
    o.padding = (-1.0f32).to_bits();
    assert!(matches!(
        parse_render_options(Some(&o), &layout64()),
        Err(RatexError::NotPositiveFinite(PositiveOption::FontSize, _))
    ));

    let mut o = full_opts();
    o.padding = (-1.0f32).to_bits();
    assert!(matches!(parse_render_options(Some(&o), &layout64()), Err(RatexError::InvalidPadding(_))));

    let mut o = full_opts();
    o.padding = f32::NAN.to_bits();
    assert!(matches!(parse_render_options(Some(&o), &layout64()), Err(RatexError::InvalidPadding(_))));

    let mut o = full_opts();
    o.padding = 0.0f32.to_bits();
    o.device_pixel_ratio = f32::INFINITY.to_bits();
    assert!(matches!(
        parse_render_options(Some(&o), &layout64()),
        Err(RatexError::NotPositiveFinite(PositiveOption::DevicePixelRatio, _))
    ));

    let mut o = full_opts();
    o.background_color = rgba(0.0, 0.0, 0.0, 1.5);
    assert!(matches!(
        parse_render_options(Some(&o), &layout64()),
        Err(RatexError::ColorOutOfRange(ColorChannel::A, _))
    ));

    let mut o = full_opts();
    o.font_dir = Some(vec![0x66, 0xff]);
    assert!(matches!(parse_render_options(Some(&o), &layout64()), Err(RatexError::InvalidFontDirUtf8(_))));

    // the layout color is checked after the raster options
    let mut o = full_opts();
    o.color = Some(rgba(f32::NAN, 0.0, 0.0, 1.0));
    o.padding = (-1.0f32).to_bits();
    assert!(matches!(parse_layout_from_render_opts(Some(&o), &layout64()), Err(RatexError::InvalidPadding(_))));
    o.padding = 0.0f32.to_bits();
    assert!(matches!(
        parse_layout_from_render_opts(Some(&o), &layout64()),
        Err(RatexError::ColorNotFinite(ColorChannel::R, _))
    ));
}

#[test]
fn fields_beyond_struct_size_are_ignored() {
    // a struct that ends right after `font_size`: everything beyond is garbage
    let mut o = full_opts();
    o.struct_size = 28;
    o.display_mode = 0;
    o.padding = f32::NAN.to_bits();
    o.device_pixel_ratio = (-3.0f32).to_bits();
    o.background_color = rgba(9.0, 9.0, 9.0, 9.0);
    o.font_dir = Some(vec![0xff]);
    o.stroke_width = 7.0f32.to_bits();
    o.embed_glyphs = 0;
    let p = parse_layout_from_render_opts(Some(&o), &layout64()).unwrap();
    assert_eq!(p.style, LayoutStyle::Text);
    assert_eq!(p.layout_color, rgba(0.0, 0.0, 1.0, 1.0));
    assert_eq!(p.render.font_size, 30.0f32.to_bits());
    assert_eq!(p.render.padding, DEFAULT_PADDING_BITS);
    assert_eq!(p.render.device_pixel_ratio, DEFAULT_DEVICE_PIXEL_RATIO_BITS);
    assert_eq!(p.render.background_color, RatexColor::transparent());
    assert_eq!(p.render.font_dir, "");
    let svg = parse_svg_options(Some(&o), &layout64(), &p.render);
    assert_eq!(f64::from_bits(svg.stroke_width), 1.5);
    assert!(svg.embed_glyphs);

    // a struct that ends right after `display_mode`: the color is not read
    let mut o = full_opts();
    o.struct_size = 16;
    o.color = Some(rgba(f32::NAN, 0.0, 0.0, 1.0));
    let p = parse_layout_from_render_opts(Some(&o), &layout64()).unwrap();
    assert_eq!(p.layout_color, RatexColor::black());
}

#[test]
fn svg_stroke_width_must_be_greater_than_zero() {
    let mut o = full_opts();
    let render = parse_render_options(Some(&o), &layout64()).unwrap();
    for (v, expected) in [(0.0f32, 1.5f64), (-2.0, 1.5), (f32::NAN, 1.5), (f32::INFINITY, f64::INFINITY), (0.25, 0.25)] {
        o.stroke_width = v.to_bits();
        let svg = parse_svg_options(Some(&o), &layout64(), &render);
        assert_eq!(f64::from_bits(svg.stroke_width), expected, "{v}");
    }
}

#[test]
fn layout_options_style_and_color() {
    let l = options_layout64();
    assert_eq!(layout_style_and_color(None, &l).unwrap(), (LayoutStyle::Display, RatexColor::black()));
    let o = RatexOptions { struct_size: 24, display_mode: 0, color: Some(rgba(1.0, 0.0, 0.0, 1.0)) };
    assert_eq!(layout_style_and_color(Some(&o), &l).unwrap(), (LayoutStyle::Text, rgba(1.0, 0.0, 0.0, 1.0)));
    let o = RatexOptions { struct_size: 16, display_mode: 0, color: Some(rgba(1.0, 0.0, 0.0, 1.0)) };
    assert_eq!(layout_style_and_color(Some(&o), &l).unwrap(), (LayoutStyle::Text, RatexColor::black()));
    let o = RatexOptions { struct_size: 8, display_mode: 0, color: None };
    assert_eq!(layout_style_and_color(Some(&o), &l).unwrap(), (LayoutStyle::Display, RatexColor::black()));
    let o = RatexOptions { struct_size: 24, display_mode: 1, color: Some(rgba(1.0, 0.0, 0.0, 2.0)) };
    assert!(matches!(layout_style_and_color(Some(&o), &l), Err(RatexError::ColorOutOfRange(ColorChannel::A, _))));
}

#[test]
fn font_dir_is_decoded_as_utf8() {
    assert_eq!(parse_font_dir(None).unwrap(), "");
    assert_eq!(parse_font_dir(Some("/usr/share/ф".as_bytes())).unwrap(), "/usr/share/ф");
    match parse_font_dir(Some(&[0x61, 0xc3])) {
        Err(RatexError::InvalidFontDirUtf8(t)) => assert_eq!(t, "incomplete utf-8 byte sequence from index 1"),
        other => panic!("unexpected {other:?}"),
    }
}

#[test]
fn latex_input_is_checked_before_options() {
    match decode_latex(EntryPoint::RenderPng, None) {
        Err(e) => assert_eq!(e.message(""), "ratex_render_png: latex pointer is null"),
        other => panic!("unexpected {other:?}"),
    }
    match decode_latex(EntryPoint::ParseAndLayout, Some(&[0x78, 0xff])) {
        Err(e) => assert_eq!(e.message(""), "invalid UTF-8 in latex string: invalid utf-8 sequence of 1 bytes from index 1"),
        other => panic!("unexpected {other:?}"),
    }
    // an invalid options struct does not hide a NULL latex pointer
    let bad = RatexOptions { struct_size: 24, display_mode: 1, color: Some(rgba(f32::NAN, 0.0, 0.0, 1.0)) };
    assert!(matches!(
        prepare_layout_request(None, Some(&bad), &options_layout64()),
        Err(RatexError::NullLatex(EntryPoint::ParseAndLayout))
    ));
    let mut o = full_opts();
    o.struct_size = 0;
    assert!(matches!(
        prepare_render_request(EntryPoint::RenderSvg, Some(b"x"), Some(&o), &layout64()),
        Err(RatexError::StructSizeTooSmall)
    ));
}

#[test]
fn parse_errors_are_reported_with_prefix() {
    match render_png_request(Some(br"\frac{1}"), None, &layout64()) {
        Err(e @ RatexError::Parse(_)) => assert!(e.message("").starts_with("parse error: ")),
        other => panic!("unexpected {other:?}"),
    }
}

#[test]
fn error_messages_match_the_c_interface() {
    let v = "NaN";
    assert_eq!(RatexError::StructSizeTooSmall.message(v), "RatexRenderOptions.struct_size is too small");
    assert_eq!(
        RatexError::NotPositiveFinite(PositiveOption::FontSize, 0).message("0"),
        "invalid font_size: expected a finite float > 0, got 0"
    );
    assert_eq!(
        RatexError::NotPositiveFinite(PositiveOption::DevicePixelRatio, 0).message("-1"),
        "invalid device_pixel_ratio: expected a finite float > 0, got -1"
    );
    assert_eq!(
        RatexError::InvalidPadding(0).message("-2"),
        "invalid padding: expected a finite float >= 0, got -2"
    );
    assert_eq!(
        RatexError::ColorNotFinite(ColorChannel::R, 0).message(v),
        "invalid color.r: expected a finite float in [0, 1], got NaN"
    );
    assert_eq!(
        RatexError::ColorOutOfRange(ColorChannel::B, 0).message("2"),
        "invalid color.b: expected a float in [0, 1], got 2"
    );
    assert_eq!(RatexError::Parse("x".to_string()).message(v), "parse error: x");
    assert_eq!(RatexError::Render("boom".to_string()).message(v), "boom");
    assert_eq!(RatexError::Export("serialization error: e".to_string()).message(v), "serialization error: e");
    assert_eq!(RatexError::InvalidFontDirUtf8("e".to_string()).message(v), "invalid UTF-8 in font_dir: e");
    assert_eq!(RatexError::NullLatex(EntryPoint::RenderBitmap).message(v), "ratex_render_bitmap: latex pointer is null");
    assert_eq!(RatexError::NullLatex(EntryPoint::RenderSvg).message(v), "ratex_render_svg: latex pointer is null");
    assert_eq!(RatexError::InvalidPadding(7).quoted_float(), Some(7));
    assert_eq!(RatexError::StructSizeTooSmall.quoted_float(), None);
}

#[test]
fn last_error_is_a_c_string_without_interior_nul() {
    let mut slot = LastError::new();
    assert!(slot.c_str_bytes().is_none());
    set_last_error(&mut slot, "a\0b\0\0c");
    assert_eq!(slot.c_str_bytes().unwrap(), b"abc\0");
    set_last_error(&mut slot, "");
    assert_eq!(slot.c_str_bytes().unwrap(), b"\0");
    set_last_error(&mut slot, "ü");
    assert_eq!(slot.c_str_bytes().unwrap(), "ü\0".as_bytes());
    clear_last_error(&mut slot);
    assert!(slot.c_str_bytes().is_none());
}

#[test]
fn buffers_and_release_lengths() {
    let b = bytes_into_raw(vec![1, 2, 3]);
    assert_eq!(b.len, 3);
    assert_eq!(b.data, vec![1, 2, 3]);
    assert_eq!(bytes_release_len(false, 3), Some(3));
    assert_eq!(bytes_release_len(true, 3), None);
    assert_eq!(bytes_release_len(false, 0), None);
    assert_eq!(bitmap_release_len(false, 40, 10), Some(400));
    assert_eq!(bitmap_release_len(false, 0, 10), None);
    assert_eq!(bitmap_release_len(false, 40, 0), None);
    assert_eq!(bitmap_release_len(false, u32::MAX, u32::MAX), Some((u32::MAX as u64 * u32::MAX as u64) as usize));
}

#[test]
fn result_records_carry_the_error_code() {
    let (ok, err) = bytes_result(Ok(bytes_into_raw(vec![9])));
    assert_eq!(ok.error_code, 0);
    assert_eq!(ok.bytes.len, 1);
    assert!(err.is_none());
    let (failed, err) = bytes_result(Err(RatexError::StructSizeTooSmall));
    assert_eq!(failed.error_code, 1);
    assert_eq!(failed.bytes.len, 0);
    assert!(failed.bytes.data.is_empty());
    assert!(matches!(err, Some(RatexError::StructSizeTooSmall)));
    let (t, _) = text_result(Ok("svg".to_string()));
    assert_eq!((t.data.as_deref(), t.error_code), (Some("svg"), 0));
    let (t, _) = text_result(Err(RatexError::Render("r".to_string())));
    assert_eq!((t.data, t.error_code), (None, 1));
    let empty = RatexBytes::empty();
    assert_eq!(empty.len, 0);
}

#[test]
fn png_bytes_are_read_back_as_premultiplied_pixels() {
    let mut pixmap = tiny_skia::Pixmap::new(3, 2).unwrap();
    pixmap.fill(tiny_skia::Color::from_rgba8(200, 100, 50, 128));
    let png = pixmap.encode_png().unwrap();
    let bitmap = bitmap_from_png(&png).unwrap();
    assert_eq!((bitmap.width, bitmap.height, bitmap.stride), (3, 2, 12));
    assert_eq!(bitmap.data.len(), 24);
    assert_eq!(bitmap.data, tiny_skia::Pixmap::decode_png(&png).unwrap().data().to_vec());
    assert!(bitmap.data[0] < 200 && bitmap.data[3] == 128);
    assert!(matches!(bitmap_from_png(b"not a png"), Err(RatexError::BitmapDecode(_))));
}

#[test]
fn bare_options_struct_acts_like_null() {
    let mut o = full_opts();
    o.struct_size = 8;
    let bare = parse_layout_from_render_opts(Some(&o), &layout64()).unwrap();
    let null = parse_layout_from_render_opts(None, &layout64()).unwrap();
    assert_eq!(bare.style, null.style);
    assert_eq!(bare.layout_color, null.layout_color);
    assert_eq!(bare.render.font_size, null.render.font_size);
    assert_eq!(bare.render.padding, null.render.padding);
    assert_eq!(bare.render.device_pixel_ratio, null.render.device_pixel_ratio);
    assert_eq!(bare.render.background_color, null.render.background_color);
    assert_eq!(bare.render.font_dir, null.render.font_dir);
    let a = parse_svg_options(Some(&o), &layout64(), &bare.render);
    let b = parse_svg_options(None, &layout64(), &null.render);
    assert_eq!((a.stroke_width, a.embed_glyphs), (b.stroke_width, b.embed_glyphs));
}

#[test]
fn exported_documents_have_their_format_markers() {
    let png = render_png_request(Some(b"x"), None, &layout64()).unwrap();
    assert_eq!(&png.data[..8], &[137, 80, 78, 71, 13, 10, 26, 10]);
    let svg = ratex_ffi::api::render_svg_request(Some(b"x"), None, &layout64()).unwrap();
    assert!(svg.starts_with("<svg xmlns=\"http://www.w3.org/2000/svg\" viewBox=\"0 0 "));
    assert!(svg.ends_with("</svg>"));
}
