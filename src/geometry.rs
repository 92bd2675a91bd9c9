//! Coordinates, points, 24-bit floats and affine matrices, with their readers.
//!
//! Values are kept in their exact wire encodings; the spec functions on each type say
//! what number an encoding stands for.
use vstd::prelude::*;

use crate::error::{DecodeError, ParseResult};
use crate::reader::{within, at, available, fits, read_u8, spec_byte};

verus! {

/// A path coordinate in its variable-width encoding.
#[derive(Debug, Clone, Copy, PartialEq, Eq, Structural)]
pub enum Coord {
    /// One byte `b` with the high bit clear: the value `b - 32`.
    Short(u8),
    /// Two bytes `b0, b1` with the high bit of `b0` set, kept as the word `w = b0 * 256 + b1`
    /// (high bit included): the value `w / 102 - 128`.
    Long(u16),
}

impl Coord {
    /// The coordinate's value multiplied by 102, which makes it an exact integer.
    pub open spec fn spec_units(self) -> int {
        match self {
            Coord::Short(b) => (b - 32) * 102,
            Coord::Long(w) => w - 128 * 102,
        }
    }

    /// The coordinate's value multiplied by 102.
    pub fn units(&self) -> (r: i32)
        ensures
            r == self.spec_units(),
    {
        match *self {
            Coord::Short(b) => (b as i32 - 32) * 102,
            Coord::Long(w) => w as i32 - 13056,
        }
    }
}

/// Reads a coordinate: one byte when its high bit is clear, else that byte and the next.
pub open spec fn spec_coord(d: Seq<u8>, pos: int) -> ParseResult<Coord> {
    match spec_byte(d, pos) {
        Err(e) => Err(e),
        Ok((b0, p)) => if b0 < 0x80 {
            Ok((Coord::Short(b0), p))
        } else {
            match spec_byte(d, p) {
                Err(e) => Err(e),
                Ok((b1, q)) => Ok((Coord::Long((b0 * 256 + b1) as u16), q)),
            }
        },
    }
}

/// Reads the rest of a coordinate whose first byte, `first`, was read just before `pos`.
pub fn hvif_coord_parser(input: &[u8], pos: usize, first: u8) -> (r: Result<(Coord, usize), DecodeError>)
    requires
        pos <= input@.len(),
    ensures
        within(r, input@),
        at(r) == (if first < 0x80 {
            Ok((Coord::Short(first), pos as int))
        } else {
            match spec_byte(input@, pos as int) {
                Err(e) => Err(e),
                Ok((b1, q)) => Ok((Coord::Long((first * 256 + b1) as u16), q)),
            }
        }),
{
    let is_big = first & 0x80 != 0;
    assert(is_big == (first >= 0x80)) by (bit_vector)
        requires
            is_big == (first & 0x80 != 0),
    ;
    if is_big {
        let (second, next) = match read_u8(input, pos) {
            Ok(x) => x,
            Err(e) => return Err(e),
        };
        let word: u16 = ((first as u16) << 8) | (second as u16);
        assert(word == first * 256 + second) by (bit_vector)
            requires
                word == ((first as u16) << 8) | (second as u16),
        ;
        Ok((Coord::Long(word), next))
    } else {
        Ok((Coord::Short(first), pos))
    }
}

/// Reads a coordinate.
pub fn hvif_path_coord(input: &[u8], pos: usize) -> (r: Result<(Coord, usize), DecodeError>)
    requires
        pos <= input@.len(),
    ensures
        within(r, input@),
        at(r) == spec_coord(input@, pos as int),
{
    let (first, next) = match read_u8(input, pos) {
        Ok(x) => x,
        Err(e) => return Err(e),
    };
    hvif_coord_parser(input, next, first)
}

/// A point in the plane, each coordinate in its wire encoding.
#[derive(Debug, Clone, Copy, PartialEq, Eq, Structural)]
pub struct HVIFPoint {
    /// The x-coordinate
    pub x: Coord,
    /// The y-coordinate
    pub y: Coord,
}

/// Reads a point: x, then y.
pub open spec fn spec_point(d: Seq<u8>, pos: int) -> ParseResult<HVIFPoint> {
    match spec_coord(d, pos) {
        Err(e) => Err(e),
        Ok((x, p)) => match spec_coord(d, p) {
            Err(e) => Err(e),
            Ok((y, q)) => Ok((HVIFPoint { x, y }, q)),
        },
    }
}

/// Reads a point: x, then y.
pub fn hvif_point(input: &[u8], pos: usize) -> (r: Result<(HVIFPoint, usize), DecodeError>)
    requires
        pos <= input@.len(),
    ensures
        within(r, input@),
        at(r) == spec_point(input@, pos as int),
{
    let (x, p) = match hvif_path_coord(input, pos) {
        Ok(v) => v,
        Err(e) => return Err(e),
    };
    let (y, q) = match hvif_path_coord(input, p) {
        Ok(v) => v,
        Err(e) => return Err(e),
    };
    Ok((HVIFPoint { x, y }, q))
}

/// Every coordinate takes one or two bytes.
pub proof fn lemma_coord_span(d: Seq<u8>, pos: int)
    ensures
        spec_coord(d, pos) is Ok ==> pos + 1 <= spec_coord(d, pos)->Ok_0.1 <= pos + 2,
{
}

/// Every point takes two to four bytes.
pub proof fn lemma_point_span(d: Seq<u8>, pos: int)
    ensures
        spec_point(d, pos) is Ok ==> pos + 2 <= spec_point(d, pos)->Ok_0.1 <= pos + 4,
{
    lemma_coord_span(d, pos);
    if spec_coord(d, pos) is Ok {
        lemma_coord_span(d, spec_coord(d, pos)->Ok_0.1);
    }
}

/// A 24-bit float as its three bytes, most significant first: sign in bit 23, exponent in
/// bits 22..17 (biased by 31), mantissa in bits 16..0 with an implicit leading one.
#[derive(Debug, Clone, Copy, PartialEq, Eq, Structural)]
pub struct HVIFf24 {
    /// First (most significant) bits
    pub fst: u8,
    /// Middle bits
    pub snd: u8,
    /// Last (least significant) bits
    pub thr: u8,
}

impl HVIFf24 {
    /// The 24-bit big-endian word.
    pub open spec fn spec_word(self) -> int {
        self.fst * 65536 + self.snd * 256 + self.thr
    }

    /// Whether the sign bit is set.
    pub open spec fn spec_negative(self) -> bool {
        self.fst >= 0x80
    }

    /// The exponent with its bias removed, in `-31..=32`.
    pub open spec fn spec_exponent(self) -> int {
        (self.spec_word() / 0x20000) % 64 - 31
    }

    /// The 17 mantissa bits.
    pub open spec fn spec_mantissa(self) -> int {
        self.spec_word() % 0x20000
    }

    /// The 24-bit big-endian word.
    pub fn word(&self) -> (r: u32)
        ensures
            r == self.spec_word(),
    {
        let (a, b, c) = (self.fst, self.snd, self.thr);
        let w: u32 = ((a as u32) << 16) | ((b as u32) << 8) | (c as u32);
        assert(w == a * 65536 + b * 256 + c) by (bit_vector)
            requires
                w == ((a as u32) << 16) | ((b as u32) << 8) | (c as u32),
        ;
        w
    }

    /// Whether the sign bit is set.
    pub fn is_negative(&self) -> (r: bool)
        ensures
            r == self.spec_negative(),
    {
        let a = self.fst;
        let set = a & 0x80 != 0;
        assert(set == (a >= 0x80)) by (bit_vector)
            requires
                set == (a & 0x80 != 0),
        ;
        set
    }

    /// The exponent with its bias removed. The value is
    /// `(-1)^sign * (2^17 + mantissa) * 2^(exponent - 17)`.
    pub fn exponent(&self) -> (r: i32)
        ensures
            r == self.spec_exponent(),
    {
        let w = self.word();
        let bits: u32 = (w & 0x7E_0000) >> 17;
        assert(bits == (w / 0x20000) % 64) by (bit_vector)
            requires
                bits == (w & 0x7E_0000) >> 17,
        ;
        bits as i32 - 31
    }

    /// The 17 mantissa bits.
    pub fn mantissa(&self) -> (r: u32)
        ensures
            r == self.spec_mantissa(),
    {
        let w = self.word();
        let bits: u32 = w & 0x1_FFFF;
        assert(bits == w % 0x20000) by (bit_vector)
            requires
                bits == w & 0x1_FFFF,
        ;
        bits
    }
}

/// The three bytes at `p` as a 24-bit float.
pub open spec fn f24_at(d: Seq<u8>, p: int) -> HVIFf24 {
    HVIFf24 { fst: d[p], snd: d[p + 1], thr: d[p + 2] }
}

/// Reads a 24-bit float.
pub open spec fn spec_f24(d: Seq<u8>, pos: int) -> ParseResult<HVIFf24> {
    if fits(d, pos, 3) {
        Ok((f24_at(d, pos), pos + 3))
    } else {
        Err(DecodeError::UnexpectedEof)
    }
}

/// Reads a 24-bit float.
pub fn hvif_shape_f24(input: &[u8], pos: usize) -> (r: Result<(HVIFf24, usize), DecodeError>)
    requires
        pos <= input@.len(),
    ensures
        within(r, input@),
        at(r) == spec_f24(input@, pos as int),
{
    if available(input, pos, 3) {
        Ok((HVIFf24 { fst: input[pos], snd: input[pos + 1], thr: input[pos + 2] }, pos + 3))
    } else {
        Err(DecodeError::UnexpectedEof)
    }
}

/// A 2D affine transformation matrix of six 24-bit floats.
#[derive(Debug, Clone, Copy, PartialEq, Eq, Structural)]
pub struct HVIFMatrix {
    /// x1
    pub x1: HVIFf24,
    /// y1
    pub y1: HVIFf24,
    /// z1
    pub z1: HVIFf24,
    /// x2
    pub x2: HVIFf24,
    /// y2
    pub y2: HVIFf24,
    /// z2
    pub z2: HVIFf24,
}

/// Reads a matrix: six 24-bit floats in field order, 18 bytes.
pub open spec fn spec_matrix(d: Seq<u8>, pos: int) -> ParseResult<HVIFMatrix> {
    if fits(d, pos, 18) {
        Ok(
            (
                HVIFMatrix {
                    x1: f24_at(d, pos),
                    y1: f24_at(d, pos + 3),
                    z1: f24_at(d, pos + 6),
                    x2: f24_at(d, pos + 9),
                    y2: f24_at(d, pos + 12),
                    z2: f24_at(d, pos + 15),
                },
                pos + 18,
            ),
        )
    } else {
        Err(DecodeError::UnexpectedEof)
    }
}

/// Reads a matrix.
pub fn hvif_shape_matrix(input: &[u8], pos: usize) -> (r: Result<(HVIFMatrix, usize), DecodeError>)
    requires
        pos <= input@.len(),
    ensures
        within(r, input@),
        at(r) == spec_matrix(input@, pos as int),
{
    if !available(input, pos, 18) {
        return Err(DecodeError::UnexpectedEof);
    }
    let (x1, p) = match hvif_shape_f24(input, pos) {
        Ok(v) => v,
        Err(e) => return Err(e),
    };
    let (y1, p) = match hvif_shape_f24(input, p) {
        Ok(v) => v,
        Err(e) => return Err(e),
    };
    let (z1, p) = match hvif_shape_f24(input, p) {
        Ok(v) => v,
        Err(e) => return Err(e),
    };
    let (x2, p) = match hvif_shape_f24(input, p) {
        Ok(v) => v,
        Err(e) => return Err(e),
    };
    let (y2, p) = match hvif_shape_f24(input, p) {
        Ok(v) => v,
        Err(e) => return Err(e),
    };
    let (z2, p) = match hvif_shape_f24(input, p) {
        Ok(v) => v,
        Err(e) => return Err(e),
    };
    Ok((HVIFMatrix { x1, y1, z1, x2, y2, z2 }, p))
}

} // verus!
