//! Styles: solid colors, solid grays and gradients.
use vstd::prelude::*;

use crate::error::{DecodeError, ParseResult};
use crate::flags::{flag_set, HVIFFlag, HVIF_GRADIENT_FLAG_GRAYS, HVIF_GRADIENT_FLAG_NO_ALPHA};
use crate::reader::{
    within, at, available, fits, lemma_repeat_err, read_u8, repeat, seq_at, spec_byte, viewed,
};

verus! {

/// The type of a gradient: how the gradient renders spatially.
#[derive(Debug, Clone, Copy, PartialEq, Eq, Structural)]
pub enum HVIFGradientType {
    /// A linear gradient; follows a line from one point to another
    Linear,
    /// A circular gradient; changes radially from the center to the edge of a circular region
    Circular,
    /// A diamond gradient; changes linearly from the center to the edge of a diagonal region
    Diamond,
    /// A conic gradient; changes angularly across a circular region
    Conic,
    /// An XY gradient; changes linearly in both the X and Y directions
    XY,
    /// A square root XY gradient: changes quadratically in both the X and Y directions
    SqrtXY,
}

/// The gradient type of each kind byte: `0..=5` in declaration order.
pub open spec fn spec_gradient_type(num: u8) -> Option<HVIFGradientType> {
    if num == 0 {
        Some(HVIFGradientType::Linear)
    } else if num == 1 {
        Some(HVIFGradientType::Circular)
    } else if num == 2 {
        Some(HVIFGradientType::Diamond)
    } else if num == 3 {
        Some(HVIFGradientType::Conic)
    } else if num == 4 {
        Some(HVIFGradientType::XY)
    } else if num == 5 {
        Some(HVIFGradientType::SqrtXY)
    } else {
        None
    }
}

/// Converts a kind byte into a gradient type; `None` outside `0..=5`.
pub fn gradient_type_from_u8(num: u8) -> (r: Option<HVIFGradientType>)
    ensures
        r == spec_gradient_type(num),
{
    match num {
        0 => Some(HVIFGradientType::Linear),
        1 => Some(HVIFGradientType::Circular),
        2 => Some(HVIFGradientType::Diamond),
        3 => Some(HVIFGradientType::Conic),
        4 => Some(HVIFGradientType::XY),
        5 => Some(HVIFGradientType::SqrtXY),
        _ => None,
    }
}

/// A color stop of a gradient.
#[derive(Debug, Clone, Copy, PartialEq, Eq, Structural)]
pub struct HVIFGradientColor {
    /// The stop offset: the position this color holds relative to the others in the gradient
    pub stop_offset: u8,
    /// The alpha channel
    pub alpha: u8,
    /// The red channel
    pub red: u8,
    /// The green channel
    pub green: u8,
    /// The blue channel
    pub blue: u8,
}

/// A gradient between multiple colors.
#[derive(Debug)]
pub struct HVIFGradient {
    /// The type of the gradient
    pub gradient_type: HVIFGradientType,
    /// The gradient's flag byte as read (`TRANSFORM`, `NO_ALPHA`, `COLORS_16BIT`, `GRAYS`)
    pub flags: u8,
    /// The color stops of the gradient, in order
    pub colors: Vec<HVIFGradientColor>,
}

/// What a gradient holds.
pub struct GradientModel {
    /// The type of the gradient
    pub gradient_type: HVIFGradientType,
    /// The gradient's flag byte
    pub flags: u8,
    /// The stops, in order
    pub colors: Seq<HVIFGradientColor>,
}

impl View for HVIFGradient {
    type V = GradientModel;

    open spec fn view(&self) -> GradientModel {
        GradientModel { gradient_type: self.gradient_type, flags: self.flags, colors: self.colors@ }
    }
}

/// A single HVIF style.
#[derive(Debug)]
pub enum HVIFStyle {
    /// A solid aRGB color
    SolidColor {
        /// red channel
        red: u8,
        /// green channel
        green: u8,
        /// blue channel
        blue: u8,
        /// alpha channel
        alpha: u8,
    },
    /// A gradient between multiple aRGB colors
    Gradient(HVIFGradient),
    /// A solid opaque RGB color
    SolidColorNoAlpha {
        /// red channel
        red: u8,
        /// green channel
        green: u8,
        /// blue channel
        blue: u8,
    },
    /// A solid grayscale color with an alpha channel
    SolidGray {
        /// value on red, green, and blue channels
        value: u8,
        /// alpha channel
        alpha: u8,
    },
    /// A solid grayscale color without an alpha channel
    SolidGrayNoAlpha {
        /// value on red, green, and blue channels
        value: u8,
    },
}

/// What a style holds.
pub enum StyleModel {
    /// A solid aRGB color
    SolidColor { red: u8, green: u8, blue: u8, alpha: u8 },
    /// A gradient
    Gradient(GradientModel),
    /// A solid opaque RGB color
    SolidColorNoAlpha { red: u8, green: u8, blue: u8 },
    /// A solid gray with alpha
    SolidGray { value: u8, alpha: u8 },
    /// A solid opaque gray
    SolidGrayNoAlpha { value: u8 },
}

impl View for HVIFStyle {
    type V = StyleModel;

    open spec fn view(&self) -> StyleModel {
        match self {
            HVIFStyle::SolidColor { red, green, blue, alpha } => StyleModel::SolidColor {
                red: *red,
                green: *green,
                blue: *blue,
                alpha: *alpha,
            },
            HVIFStyle::Gradient(g) => StyleModel::Gradient(g@),
            HVIFStyle::SolidColorNoAlpha { red, green, blue } => StyleModel::SolidColorNoAlpha {
                red: *red,
                green: *green,
                blue: *blue,
            },
            HVIFStyle::SolidGray { value, alpha } => StyleModel::SolidGray { value: *value, alpha: *alpha },
            HVIFStyle::SolidGrayNoAlpha { value } => StyleModel::SolidGrayNoAlpha { value: *value },
        }
    }
}

/// Reads the color of a stop: one gray byte for all three channels where `GRAYS` is set,
/// else red, green and blue.
pub open spec fn spec_stop_rgb(d: Seq<u8>, pos: int, flags: u8) -> ParseResult<(u8, u8, u8)> {
    if flag_set(flags, HVIF_GRADIENT_FLAG_GRAYS) {
        match spec_byte(d, pos) {
            Err(e) => Err(e),
            Ok((v, p)) => Ok(((v, v, v), p)),
        }
    } else if fits(d, pos, 3) {
        Ok(((d[pos], d[pos + 1], d[pos + 2]), pos + 3))
    } else {
        Err(DecodeError::UnexpectedEof)
    }
}

/// Reads the alpha of a stop: none and opaque where `NO_ALPHA` is set, else one byte.
pub open spec fn spec_stop_alpha(d: Seq<u8>, pos: int, flags: u8) -> ParseResult<u8> {
    if flag_set(flags, HVIF_GRADIENT_FLAG_NO_ALPHA) {
        Ok((255, pos))
    } else {
        spec_byte(d, pos)
    }
}

/// Reads a stop: its offset, its color, then its alpha.
pub open spec fn spec_stop(d: Seq<u8>, pos: int, flags: u8) -> ParseResult<HVIFGradientColor> {
    match spec_byte(d, pos) {
        Err(e) => Err(e),
        Ok((so, p1)) => match spec_stop_rgb(d, p1, flags) {
            Err(e) => Err(e),
            Ok(((r, g, b), p2)) => match spec_stop_alpha(d, p2, flags) {
                Err(e) => Err(e),
                Ok((a, p3)) => Ok(
                    (HVIFGradientColor { stop_offset: so, alpha: a, red: r, green: g, blue: b }, p3),
                ),
            },
        },
    }
}

/// The element reader of the stops of a gradient with the given flags.
pub open spec fn stop_item(d: Seq<u8>, flags: u8) -> spec_fn(int, int) -> ParseResult<HVIFGradientColor> {
    |i: int, p: int| spec_stop(d, p, flags)
}

/// Reads a gradient body: its kind, its flags, its stop count, then its stops.
pub open spec fn spec_gradient(d: Seq<u8>, pos: int) -> ParseResult<GradientModel> {
    match spec_byte(d, pos) {
        Err(e) => Err(e),
        Ok((kind, p1)) => match spec_gradient_type(kind) {
            None => Err(DecodeError::UnknownGradientKind(kind)),
            Some(gradient_type) => match spec_byte(d, p1) {
                Err(e) => Err(e),
                Ok((flags, p2)) => match spec_byte(d, p2) {
                    Err(e) => Err(e),
                    Ok((n, p3)) => match repeat(stop_item(d, flags), n as nat, p3) {
                        Err(e) => Err(e),
                        Ok((colors, p4)) => Ok((GradientModel { gradient_type, flags, colors }, p4)),
                    },
                },
            },
        },
    }
}

/// Reads a style: its type byte, then its body.
pub open spec fn spec_style(d: Seq<u8>, pos: int) -> ParseResult<StyleModel> {
    match spec_byte(d, pos) {
        Err(e) => Err(e),
        Ok((t, p)) => spec_style_body(d, p, t),
    }
}

/// Reads the body of a style of type `t`.
pub open spec fn spec_style_body(d: Seq<u8>, p: int, t: u8) -> ParseResult<StyleModel> {
    if t == 1 {
        if fits(d, p, 4) {
            Ok(
                (
                    StyleModel::SolidColor {
                        alpha: d[p],
                        red: d[p + 1],
                        green: d[p + 2],
                        blue: d[p + 3],
                    },
                    p + 4,
                ),
            )
        } else {
            Err(DecodeError::UnexpectedEof)
        }
    } else if t == 2 {
        match spec_gradient(d, p) {
            Err(e) => Err(e),
            Ok((g, q)) => Ok((StyleModel::Gradient(g), q)),
        }
    } else if t == 3 {
        if fits(d, p, 3) {
            Ok((StyleModel::SolidColorNoAlpha { red: d[p], green: d[p + 1], blue: d[p + 2] }, p + 3))
        } else {
            Err(DecodeError::UnexpectedEof)
        }
    } else if t == 4 {
        if fits(d, p, 2) {
            Ok((StyleModel::SolidGray { alpha: d[p], value: d[p + 1] }, p + 2))
        } else {
            Err(DecodeError::UnexpectedEof)
        }
    } else if t == 5 {
        match spec_byte(d, p) {
            Err(e) => Err(e),
            Ok((v, q)) => Ok((StyleModel::SolidGrayNoAlpha { value: v }, q)),
        }
    } else {
        Err(DecodeError::UnknownStyleTag(t))
    }
}

/// Reads the color of a gradient stop.
pub fn hvif_style_gradient_color_rgb_parser(input: &[u8], pos: usize, flags: u8) -> (r: Result<((u8, u8, u8), usize), DecodeError>)
    requires
        pos <= input@.len(),
    ensures
        within(r, input@),
        at(r) == spec_stop_rgb(input@, pos as int, flags),
        flag_set(flags, HVIF_GRADIENT_FLAG_GRAYS) ==> (r matches Ok(((red, green, blue), end)) ==> red == green
            && green == blue && end == pos + 1),
{
    if HVIFFlag(HVIF_GRADIENT_FLAG_GRAYS).is_set_on(flags) {
        match read_u8(input, pos) {
            Ok((v, p)) => Ok(((v, v, v), p)),
            Err(e) => Err(e),
        }
    } else if available(input, pos, 3) {
        Ok(((input[pos], input[pos + 1], input[pos + 2]), pos + 3))
    } else {
        Err(DecodeError::UnexpectedEof)
    }
}

/// Reads the alpha of a gradient stop.
pub fn hvif_style_gradient_color_alpha_parser(input: &[u8], pos: usize, flags: u8) -> (r: Result<(u8, usize), DecodeError>)
    requires
        pos <= input@.len(),
    ensures
        within(r, input@),
        at(r) == spec_stop_alpha(input@, pos as int, flags),
        flag_set(flags, HVIF_GRADIENT_FLAG_NO_ALPHA) ==> r == Ok::<(u8, usize), DecodeError>((255, pos)),
{
    if HVIFFlag(HVIF_GRADIENT_FLAG_NO_ALPHA).is_set_on(flags) {
        Ok((0b1111_1111, pos))
    } else {
        read_u8(input, pos)
    }
}

/// Reads a gradient stop laid out as the gradient flags `flags` say.
pub fn hvif_style_gradient_color_parser(input: &[u8], pos: usize, flags: u8) -> (r: Result<(HVIFGradientColor, usize), DecodeError>)
    requires
        pos <= input@.len(),
    ensures
        within(r, input@),
        at(r) == spec_stop(input@, pos as int, flags),
{
    let (so, p) = match read_u8(input, pos) {
        Ok(v) => v,
        Err(e) => return Err(e),
    };
    let ((r, g, b), p) = match hvif_style_gradient_color_rgb_parser(input, p, flags) {
        Ok(v) => v,
        Err(e) => return Err(e),
    };
    let (a, p) = match hvif_style_gradient_color_alpha_parser(input, p, flags) {
        Ok(v) => v,
        Err(e) => return Err(e),
    };
    Ok((HVIFGradientColor { stop_offset: so, alpha: a, red: r, green: g, blue: b }, p))
}

/// Reads `count` stops.
pub fn hvif_style_gradient_colors(input: &[u8], pos: usize, flags: u8, count: u8) -> (r: Result<(Vec<HVIFGradientColor>, usize), DecodeError>)
    requires
        pos <= input@.len(),
    ensures
        within(r, input@),
        seq_at(r) == repeat(stop_item(input@, flags), count as nat, pos as int),
{
    let ghost item = stop_item(input@, flags);
    let mut colors: Vec<HVIFGradientColor> = Vec::new();
    let mut p: usize = pos;
    let mut i: u8 = 0;
    while i < count
        invariant
            p <= input@.len(),
            i <= count,
            item == stop_item(input@, flags),
            repeat(item, i as nat, pos as int) == Ok::<(Seq<HVIFGradientColor>, int), DecodeError>((colors@, p as int)),
        decreases count - i,
    {
        match hvif_style_gradient_color_parser(input, p, flags) {
            Ok((c, q)) => {
                colors.push(c);
                p = q;
            },
            Err(e) => {
                proof {
                    lemma_repeat_err(item, (i + 1) as nat, count as nat, pos as int);
                }
                return Err(e);
            },
        }
        i = i + 1;
    }
    Ok((colors, p))
}

/// Reads a gradient body: its kind, its flags, its stop count, then its stops.
pub fn hvif_style_gradient(input: &[u8], pos: usize) -> (r: Result<(HVIFGradient, usize), DecodeError>)
    requires
        pos <= input@.len(),
    ensures
        within(r, input@),
        viewed(r) == spec_gradient(input@, pos as int),
{
    let (kind, p) = match read_u8(input, pos) {
        Ok(v) => v,
        Err(e) => return Err(e),
    };
    let gradient_type = match gradient_type_from_u8(kind) {
        Some(t) => t,
        None => return Err(DecodeError::UnknownGradientKind(kind)),
    };
    let (flags, p) = match read_u8(input, p) {
        Ok(v) => v,
        Err(e) => return Err(e),
    };
    let (count, p) = match read_u8(input, p) {
        Ok(v) => v,
        Err(e) => return Err(e),
    };
    match hvif_style_gradient_colors(input, p, flags, count) {
        Ok((colors, q)) => Ok((HVIFGradient { gradient_type, flags, colors }, q)),
        Err(e) => Err(e),
    }
}

/// Reads the body of a style of type `t`.
pub fn style_type_to_parser(input: &[u8], pos: usize, t: u8) -> (r: Result<(HVIFStyle, usize), DecodeError>)
    requires
        pos <= input@.len(),
    ensures
        within(r, input@),
        viewed(r) == spec_style_body(input@, pos as int, t),
{
    match t {
        1 => {
            if !available(input, pos, 4) {
                return Err(DecodeError::UnexpectedEof);
            }
            let style = HVIFStyle::SolidColor {
                alpha: input[pos],
                red: input[pos + 1],
                green: input[pos + 2],
                blue: input[pos + 3],
            };
            Ok((style, pos + 4))
        },
        2 => match hvif_style_gradient(input, pos) {
            Ok((g, q)) => Ok((HVIFStyle::Gradient(g), q)),
            Err(e) => Err(e),
        },
        3 => {
            if !available(input, pos, 3) {
                return Err(DecodeError::UnexpectedEof);
            }
            let style = HVIFStyle::SolidColorNoAlpha {
                red: input[pos],
                green: input[pos + 1],
                blue: input[pos + 2],
            };
            Ok((style, pos + 3))
        },
        4 => {
            if !available(input, pos, 2) {
                return Err(DecodeError::UnexpectedEof);
            }
            Ok((HVIFStyle::SolidGray { alpha: input[pos], value: input[pos + 1] }, pos + 2))
        },
        5 => match read_u8(input, pos) {
            Ok((v, q)) => Ok((HVIFStyle::SolidGrayNoAlpha { value: v }, q)),
            Err(e) => Err(e),
        },
        _ => Err(DecodeError::UnknownStyleTag(t)),
    }
}

/// Reads a style: its type byte, then its body.
pub fn hvif_style(input: &[u8], pos: usize) -> (r: Result<(HVIFStyle, usize), DecodeError>)
    requires
        pos <= input@.len(),
    ensures
        within(r, input@),
        viewed(r) == spec_style(input@, pos as int),
{
    let (t, p) = match read_u8(input, pos) {
        Ok(v) => v,
        Err(e) => return Err(e),
    };
    style_type_to_parser(input, p, t)
}

} // verus!
