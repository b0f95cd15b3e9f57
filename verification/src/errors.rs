//! The ways a request to the C interface can fail.
//!
//! Each variant records the decision that was taken and the plain data needed to
//! describe it; turning an error into the text that `ratex_get_last_error` hands out
//! is left to the caller (several messages print a float in Rust's own notation).
use vstd::prelude::*;

verus! {

/// The C entry point a request came through (it names itself in some messages).
#[derive(Clone, Copy, Debug, PartialEq, Eq, Structural)]
pub enum EntryPoint {
    ParseAndLayout,
    RenderBitmap,
    RenderPng,
    RenderSvg,
}

/// The float options that must be finite and strictly positive.
#[derive(Clone, Copy, Debug, PartialEq, Eq, Structural)]
pub enum PositiveOption {
    FontSize,
    DevicePixelRatio,
}

/// A channel of a [`crate::color::RatexColor`].
#[derive(Clone, Copy, Debug, PartialEq, Eq, Structural)]
pub enum ColorChannel {
    R,
    G,
    B,
    A,
}

/// Why a request failed.
#[derive(Debug)]
pub enum RatexError {
    /// The LaTeX pointer was NULL.
    NullLatex(EntryPoint),
    /// The LaTeX bytes are not UTF-8; the text is the decoder's own description.
    InvalidLatexUtf8(String),
    /// `RatexRenderOptions.struct_size` does not even cover the `struct_size` field.
    StructSizeTooSmall,
    /// A size option (bit pattern attached) is not a finite float greater than zero.
    NotPositiveFinite(PositiveOption, u32),
    /// The padding (bit pattern attached) is not a finite float at least zero.
    InvalidPadding(u32),
    /// A color channel (bit pattern attached) is not finite.
    ColorNotFinite(ColorChannel, u32),
    /// A color channel (bit pattern attached) is finite but outside `[0, 1]`.
    ColorOutOfRange(ColorChannel, u32),
    /// The font directory bytes are not UTF-8; the text is the decoder's description.
    InvalidFontDirUtf8(String),
    /// The LaTeX source was rejected by the parser; the text is the parser's message.
    Parse(String),
    /// The rasteriser failed; the text is its message.
    Render(String),
    /// The rasterised PNG could not be read back as pixels.
    BitmapDecode(String),
    /// The finished text could not be handed over (its serialisation failed, or it
    /// holds a NUL byte); the text is the whole message.
    Export(String),
}

/// [`RatexError`] with its texts as character sequences.
pub enum RatexErrorView {
    NullLatex(EntryPoint),
    InvalidLatexUtf8(Seq<char>),
    StructSizeTooSmall,
    NotPositiveFinite(PositiveOption, u32),
    InvalidPadding(u32),
    ColorNotFinite(ColorChannel, u32),
    ColorOutOfRange(ColorChannel, u32),
    InvalidFontDirUtf8(Seq<char>),
    Parse(Seq<char>),
    Render(Seq<char>),
    BitmapDecode(Seq<char>),
    Export(Seq<char>),
}

impl View for RatexError {
    type V = RatexErrorView;

    open spec fn view(&self) -> RatexErrorView {
        match self {
            RatexError::NullLatex(e) => RatexErrorView::NullLatex(*e),
            RatexError::InvalidLatexUtf8(t) => RatexErrorView::InvalidLatexUtf8(t@),
            RatexError::StructSizeTooSmall => RatexErrorView::StructSizeTooSmall,
            RatexError::NotPositiveFinite(o, b) => RatexErrorView::NotPositiveFinite(*o, *b),
            RatexError::InvalidPadding(b) => RatexErrorView::InvalidPadding(*b),
            RatexError::ColorNotFinite(c, b) => RatexErrorView::ColorNotFinite(*c, *b),
            RatexError::ColorOutOfRange(c, b) => RatexErrorView::ColorOutOfRange(*c, *b),
            RatexError::InvalidFontDirUtf8(t) => RatexErrorView::InvalidFontDirUtf8(t@),
            RatexError::Parse(t) => RatexErrorView::Parse(t@),
            RatexError::Render(t) => RatexErrorView::Render(t@),
            RatexError::BitmapDecode(t) => RatexErrorView::BitmapDecode(t@),
            RatexError::Export(t) => RatexErrorView::Export(t@),
        }
    }
}

impl EntryPoint {
    /// The C name of the entry point.
    pub open spec fn spec_name(self) -> Seq<char> {
        match self {
            EntryPoint::ParseAndLayout => "ratex_parse_and_layout"@,
            EntryPoint::RenderBitmap => "ratex_render_bitmap"@,
            EntryPoint::RenderPng => "ratex_render_png"@,
            EntryPoint::RenderSvg => "ratex_render_svg"@,
        }
    }

    /// The C name of the entry point.
    pub fn name(&self) -> (s: &'static str)
        ensures
            s@ == self.spec_name(),
    {
        match self {
            EntryPoint::ParseAndLayout => "ratex_parse_and_layout",
            EntryPoint::RenderBitmap => "ratex_render_bitmap",
            EntryPoint::RenderPng => "ratex_render_png",
            EntryPoint::RenderSvg => "ratex_render_svg",
        }
    }
}

impl PositiveOption {
    /// The field name of the option.
    pub open spec fn spec_name(self) -> Seq<char> {
        match self {
            PositiveOption::FontSize => "font_size"@,
            PositiveOption::DevicePixelRatio => "device_pixel_ratio"@,
        }
    }

    /// The field name of the option.
    pub fn name(&self) -> (s: &'static str)
        ensures
            s@ == self.spec_name(),
    {
        match self {
            PositiveOption::FontSize => "font_size",
            PositiveOption::DevicePixelRatio => "device_pixel_ratio",
        }
    }
}

impl ColorChannel {
    /// The field name of the channel.
    pub open spec fn spec_name(self) -> Seq<char> {
        match self {
            ColorChannel::R => "r"@,
            ColorChannel::G => "g"@,
            ColorChannel::B => "b"@,
            ColorChannel::A => "a"@,
        }
    }

    /// The field name of the channel.
    pub fn name(&self) -> (s: &'static str)
        ensures
            s@ == self.spec_name(),
    {
        match self {
            ColorChannel::R => "r",
            ColorChannel::G => "g",
            ColorChannel::B => "b",
            ColorChannel::A => "a",
        }
    }
}

/// The bit pattern of the float an error message quotes, if it quotes one.
pub open spec fn spec_quoted_float(e: RatexErrorView) -> Option<u32> {
    match e {
        RatexErrorView::NotPositiveFinite(_, b) => Some(b),
        RatexErrorView::InvalidPadding(b) => Some(b),
        RatexErrorView::ColorNotFinite(_, b) => Some(b),
        RatexErrorView::ColorOutOfRange(_, b) => Some(b),
        _ => None,
    }
}

/// The message an error is reported with; `value` is how the quoted float is
/// written (it does not occur in messages that quote no float).
pub open spec fn spec_message(e: RatexErrorView, value: Seq<char>) -> Seq<char> {
    match e {
        RatexErrorView::NullLatex(entry) => entry.spec_name() + ": latex pointer is null"@,
        RatexErrorView::InvalidLatexUtf8(t) => "invalid UTF-8 in latex string: "@ + t,
        RatexErrorView::StructSizeTooSmall => "RatexRenderOptions.struct_size is too small"@,
        RatexErrorView::NotPositiveFinite(o, _) => "invalid "@ + o.spec_name()
            + ": expected a finite float > 0, got "@ + value,
        RatexErrorView::InvalidPadding(_) => "invalid padding: expected a finite float >= 0, got "@
            + value,
        RatexErrorView::ColorNotFinite(c, _) => "invalid color."@ + c.spec_name()
            + ": expected a finite float in [0, 1], got "@ + value,
        RatexErrorView::ColorOutOfRange(c, _) => "invalid color."@ + c.spec_name()
            + ": expected a float in [0, 1], got "@ + value,
        RatexErrorView::InvalidFontDirUtf8(t) => "invalid UTF-8 in font_dir: "@ + t,
        RatexErrorView::Parse(t) => "parse error: "@ + t,
        RatexErrorView::Render(t) => t,
        RatexErrorView::BitmapDecode(t) => "PNG decode error: "@ + t,
        RatexErrorView::Export(t) => t,
    }
}

impl RatexError {
    /// The bit pattern of the float the message quotes, if it quotes one.
    pub fn quoted_float(&self) -> (b: Option<u32>)
        ensures
            b == spec_quoted_float(self@),
    {
        match self {
            RatexError::NotPositiveFinite(_, b) => Some(*b),
            RatexError::InvalidPadding(b) => Some(*b),
            RatexError::ColorNotFinite(_, b) => Some(*b),
            RatexError::ColorOutOfRange(_, b) => Some(*b),
            _ => None,
        }
    }

    /// The message the error is reported with; `value` is how the quoted float is
    /// written (see [`RatexError::quoted_float`]).
    pub fn message(&self, value: &str) -> (m: String)
        ensures
            m@ == spec_message(self@, value@),
    {
        match self {
            RatexError::NullLatex(entry) => {
                let mut m = String::from_str(entry.name());
                m.append(": latex pointer is null");
                m
            },
            RatexError::InvalidLatexUtf8(t) => {
                let mut m = String::from_str("invalid UTF-8 in latex string: ");
                m.append(t.as_str());
                m
            },
            RatexError::StructSizeTooSmall => String::from_str(
                "RatexRenderOptions.struct_size is too small",
            ),
            RatexError::NotPositiveFinite(o, _) => {
                let mut m = String::from_str("invalid ");
                m.append(o.name());
                m.append(": expected a finite float > 0, got ");
                m.append(value);
                m
            },
            RatexError::InvalidPadding(_) => {
                let mut m = String::from_str("invalid padding: expected a finite float >= 0, got ");
                m.append(value);
                m
            },
            RatexError::ColorNotFinite(c, _) => {
                let mut m = String::from_str("invalid color.");
                m.append(c.name());
                m.append(": expected a finite float in [0, 1], got ");
                m.append(value);
                m
            },
            RatexError::ColorOutOfRange(c, _) => {
                let mut m = String::from_str("invalid color.");
                m.append(c.name());
                m.append(": expected a float in [0, 1], got ");
                m.append(value);
                m
            },
            RatexError::InvalidFontDirUtf8(t) => {
                let mut m = String::from_str("invalid UTF-8 in font_dir: ");
                m.append(t.as_str());
                m
            },
            RatexError::Parse(t) => {
                let mut m = String::from_str("parse error: ");
                m.append(t.as_str());
                m
            },
            RatexError::Render(t) => t.clone(),
            RatexError::Export(t) => t.clone(),
            RatexError::BitmapDecode(t) => {
                let mut m = String::from_str("PNG decode error: ");
                m.append(t.as_str());
                m
            },
        }
    }
}

/// An executable result agrees with a result stated over views.
pub open spec fn result_is<T: View, E: View>(r: Result<T, E>, s: Result<T::V, E::V>) -> bool {
    match s {
        Ok(v) => r matches Ok(x) && x@ == v,
        Err(e) => r matches Err(x) && x@ == e,
    }
}

} // verus!
