//! Shapes: a style, a list of paths and the modifiers that the shape's flags call for.
use vstd::prelude::*;

use crate::error::{DecodeError, ParseResult};
use crate::flags::{
    flag_set, HVIFFlag, HVIF_SHAPE_FLAG_HAS_TRANSFORMERS, HVIF_SHAPE_FLAG_HINTING,
    HVIF_SHAPE_FLAG_LOD_SCALE, HVIF_SHAPE_FLAG_TRANSFORM, HVIF_SHAPE_FLAG_TRANSLATION,
};
use crate::geometry::{hvif_point, hvif_shape_matrix, spec_matrix, spec_point, HVIFMatrix, HVIFPoint};
use crate::reader::{
    within, at, available, fits, lemma_repeat_err, lemma_views_push, read_u8, repeat, seq_at, spec_byte,
    viewed, views, views_at,
};

verus! {

/// The tag of the one shape kind, a path source.
pub const HVIF_SHAPE_TAG_PATH_SOURCE: u8 = 0x0A;

/// Some transformation on a basic HVIF shape.
#[derive(Debug, Clone, Copy, PartialEq, Eq, Structural)]
pub enum HVIFTransformer {
    /// An affine transformation using a single matrix
    Affine(HVIFMatrix),
    /// A contour (outline offset)
    Contour {
        /// offset width, the wire byte minus 128
        width: i16,
        /// line join
        line_join: u8,
        /// miter limit
        miter_limit: u8,
    },
    /// A perspective transformation
    Perspective,
    /// A stroke
    Stroke {
        /// stroke width, the wire byte minus 128
        width: i16,
        /// line join: the low nibble of the options byte
        line_join: u8,
        /// line cap: the options byte shifted left by four bits within the byte
        line_cap: u8,
        /// miter limit
        miter_limit: u8,
    },
}

/// A level-of-detail range, each bound kept as its wire byte `b` for the scale `b / 63.75`.
#[derive(Debug, Clone, Copy, PartialEq, Eq, Structural)]
pub struct HVIFLODScale {
    /// Minimum scale, times 63.75
    pub min: u8,
    /// Maximum scale, times 63.75
    pub max: u8,
}

/// A modifier to an HVIF shape.
#[derive(Debug)]
pub enum HVIFShapeModifier {
    /// A single affine transformation matrix
    HVIFTransformMatrix(HVIFMatrix),
    /// The shape uses hinting
    HVIFHinting,
    /// The scales at which this shape should be drawn
    HVIFLODScale(HVIFLODScale),
    /// A linear translation of the shape (offset)
    HVIFTranslation(HVIFPoint),
    /// A list of transformers
    HVIFTransformerList(Vec<HVIFTransformer>),
}

/// What a shape modifier holds.
pub enum ModifierModel {
    /// A transformation matrix
    TransformMatrix(HVIFMatrix),
    /// Hinting
    Hinting,
    /// A level-of-detail range
    LODScale(HVIFLODScale),
    /// A translation
    Translation(HVIFPoint),
    /// Transformers, in order
    TransformerList(Seq<HVIFTransformer>),
}

impl View for HVIFShapeModifier {
    type V = ModifierModel;

    open spec fn view(&self) -> ModifierModel {
        match self {
            HVIFShapeModifier::HVIFTransformMatrix(m) => ModifierModel::TransformMatrix(*m),
            HVIFShapeModifier::HVIFHinting => ModifierModel::Hinting,
            HVIFShapeModifier::HVIFLODScale(s) => ModifierModel::LODScale(*s),
            HVIFShapeModifier::HVIFTranslation(p) => ModifierModel::Translation(*p),
            HVIFShapeModifier::HVIFTransformerList(ts) => ModifierModel::TransformerList(ts@),
        }
    }
}

/// An HVIF shape: one style, the paths drawn with it, and optional modifiers.
#[derive(Debug)]
pub struct HVIFShape {
    /// The index of the style used in the shape
    pub style_index: u8,
    /// The indices of the paths drawn with this shape's style
    pub path_indices: Vec<u8>,
    /// The modifiers of this shape, in wire order
    pub modifiers: Vec<HVIFShapeModifier>,
}

/// What a shape holds.
pub struct ShapeModel {
    /// The index of the shape's style
    pub style_index: u8,
    /// The indices of the shape's paths
    pub path_indices: Seq<u8>,
    /// The shape's modifiers, in order
    pub modifiers: Seq<ModifierModel>,
}

impl View for HVIFShape {
    type V = ShapeModel;

    open spec fn view(&self) -> ShapeModel {
        ShapeModel {
            style_index: self.style_index,
            path_indices: self.path_indices@,
            modifiers: views(self.modifiers@),
        }
    }
}

/// Reads a transformer: a tag byte, then its body.
pub open spec fn spec_transformer(d: Seq<u8>, pos: int) -> ParseResult<HVIFTransformer> {
    match spec_byte(d, pos) {
        Err(e) => Err(e),
        Ok((tag, p)) => spec_transformer_body(d, p, tag),
    }
}

/// Reads the body of a transformer of type `tag`.
pub open spec fn spec_transformer_body(d: Seq<u8>, p: int, tag: u8) -> ParseResult<HVIFTransformer> {
    if tag == 20 {
        match spec_matrix(d, p) {
            Err(e) => Err(e),
            Ok((m, q)) => Ok((HVIFTransformer::Affine(m), q)),
        }
    } else if tag == 21 {
        if fits(d, p, 3) {
            Ok(
                (
                    HVIFTransformer::Contour {
                        width: (d[p] - 128) as i16,
                        line_join: d[p + 1],
                        miter_limit: d[p + 2],
                    },
                    p + 3,
                ),
            )
        } else {
            Err(DecodeError::UnexpectedEof)
        }
    } else if tag == 22 {
        Ok((HVIFTransformer::Perspective, p))
    } else if tag == 23 {
        if fits(d, p, 3) {
            Ok(
                (
                    HVIFTransformer::Stroke {
                        width: (d[p] - 128) as i16,
                        line_join: d[p + 1] % 16,
                        line_cap: ((d[p + 1] % 16) * 16) as u8,
                        miter_limit: d[p + 2],
                    },
                    p + 3,
                ),
            )
        } else {
            Err(DecodeError::UnexpectedEof)
        }
    } else {
        Err(DecodeError::UnknownTransformerTag(tag))
    }
}

/// The element reader of a transformer list.
pub open spec fn transformer_item(d: Seq<u8>) -> spec_fn(int, int) -> ParseResult<HVIFTransformer> {
    |i: int, p: int| spec_transformer(d, p)
}

/// The flag bit of each modifier, in the order in which modifiers are read: hinting (which
/// reads nothing), transform, translation, level of detail, transformers.
pub open spec fn modifier_mask(step: int) -> u8 {
    if step == 0 {
        HVIF_SHAPE_FLAG_HINTING
    } else if step == 1 {
        HVIF_SHAPE_FLAG_TRANSFORM
    } else if step == 2 {
        HVIF_SHAPE_FLAG_TRANSLATION
    } else if step == 3 {
        HVIF_SHAPE_FLAG_LOD_SCALE
    } else {
        HVIF_SHAPE_FLAG_HAS_TRANSFORMERS
    }
}

/// The number of kinds of modifier.
pub const MODIFIER_KINDS: usize = 5;

/// Reads the body of the modifier of the given step.
pub open spec fn spec_modifier_body(d: Seq<u8>, pos: int, step: int) -> ParseResult<ModifierModel> {
    if step == 0 {
        Ok((ModifierModel::Hinting, pos))
    } else if step == 1 {
        match spec_matrix(d, pos) {
            Err(e) => Err(e),
            Ok((m, p)) => Ok((ModifierModel::TransformMatrix(m), p)),
        }
    } else if step == 2 {
        match spec_point(d, pos) {
            Err(e) => Err(e),
            Ok((pt, p)) => Ok((ModifierModel::Translation(pt), p)),
        }
    } else if step == 3 {
        if fits(d, pos, 2) {
            Ok((ModifierModel::LODScale(HVIFLODScale { min: d[pos], max: d[pos + 1] }), pos + 2))
        } else {
            Err(DecodeError::UnexpectedEof)
        }
    } else {
        match spec_byte(d, pos) {
            Err(e) => Err(e),
            Ok((k, p)) => match repeat(transformer_item(d), k as nat, p) {
                Err(e) => Err(e),
                Ok((ts, q)) => Ok((ModifierModel::TransformerList(ts), q)),
            },
        }
    }
}

/// Reads the modifiers of the first `k` steps whose flag bit is set, in step order.
pub open spec fn spec_modifiers(d: Seq<u8>, pos: int, flags: u8, k: nat) -> ParseResult<Seq<ModifierModel>>
    decreases k,
{
    if k == 0 {
        Ok((Seq::empty(), pos))
    } else {
        match spec_modifiers(d, pos, flags, (k - 1) as nat) {
            Err(e) => Err(e),
            Ok((ms, p)) => if flag_set(flags, modifier_mask(k - 1)) {
                match spec_modifier_body(d, p, k - 1) {
                    Err(e) => Err(e),
                    Ok((m, q)) => Ok((ms.push(m), q)),
                }
            } else {
                Ok((ms, p))
            },
        }
    }
}

/// Reads a shape: its tag, its style index, its path indices, its flags, then its modifiers.
pub open spec fn spec_shape(d: Seq<u8>, pos: int) -> ParseResult<ShapeModel> {
    match spec_byte(d, pos) {
        Err(e) => Err(e),
        Ok((tag, p1)) => if tag != HVIF_SHAPE_TAG_PATH_SOURCE {
            Err(DecodeError::UnknownShapeTag(tag))
        } else {
            match spec_byte(d, p1) {
                Err(e) => Err(e),
                Ok((style_index, p2)) => match spec_byte(d, p2) {
                    Err(e) => Err(e),
                    Ok((m, p3)) => if !fits(d, p3, m as int) {
                        Err(DecodeError::UnexpectedEof)
                    } else {
                        match spec_byte(d, p3 + m) {
                            Err(e) => Err(e),
                            Ok((flags, p4)) => match spec_modifiers(d, p4, flags, 5) {
                                Err(e) => Err(e),
                                Ok((modifiers, p5)) => Ok(
                                    (
                                        ShapeModel {
                                            style_index,
                                            path_indices: d.subrange(p3, p3 + m),
                                            modifiers,
                                        },
                                        p5,
                                    ),
                                ),
                            },
                        }
                    },
                },
            }
        }
    }
}

/// Once the first `k` steps fail, all of them fail the same way.
pub proof fn lemma_modifiers_err(d: Seq<u8>, pos: int, flags: u8, k: nat, n: nat)
    requires
        k <= n,
        spec_modifiers(d, pos, flags, k) is Err,
    ensures
        spec_modifiers(d, pos, flags, n) == spec_modifiers(d, pos, flags, k),
    decreases n,
{
    if n > k {
        lemma_modifiers_err(d, pos, flags, k, (n - 1) as nat);
    }
}

/// The position of each kind of modifier in the order in which a shape lists them.
pub open spec fn modifier_rank(m: ModifierModel) -> int {
    match m {
        ModifierModel::Hinting => 0,
        ModifierModel::TransformMatrix(_) => 1,
        ModifierModel::Translation(_) => 2,
        ModifierModel::LODScale(_) => 3,
        ModifierModel::TransformerList(_) => 4,
    }
}

/// The modifiers come in the order hinting, transform, translation, level of detail,
/// transformers, each kind at most once.
pub open spec fn modifiers_in_order(ms: Seq<ModifierModel>) -> bool {
    forall|i: int, j: int| 0 <= i < j < ms.len() ==> modifier_rank(#[trigger] ms[i]) < modifier_rank(#[trigger] ms[j])
}

/// The first `k` steps of a shape's modifiers yield them in order, each of a rank below `k`.
pub proof fn lemma_modifiers_order(d: Seq<u8>, pos: int, flags: u8, k: nat)
    requires
        k <= 5,
    ensures
        spec_modifiers(d, pos, flags, k) is Ok ==> {
            let ms = spec_modifiers(d, pos, flags, k)->Ok_0.0;
            &&& modifiers_in_order(ms)
            &&& forall|i: int| 0 <= i < ms.len() ==> modifier_rank(#[trigger] ms[i]) < k
        },
    decreases k,
{
    if k > 0 {
        lemma_modifiers_order(d, pos, flags, (k - 1) as nat);
        let prev = spec_modifiers(d, pos, flags, (k - 1) as nat);
        if prev is Ok {
            let (ms, p) = prev->Ok_0;
            let step = k - 1;
            let body = spec_modifier_body(d, p, step);
            if body is Ok && flag_set(flags, modifier_mask(step)) {
                let m = body->Ok_0.0;
                assert(modifier_rank(m) == step);
                let ms2 = ms.push(m);
                assert forall|i: int, j: int| 0 <= i < j < ms2.len() implies modifier_rank(#[trigger] ms2[i])
                    < modifier_rank(#[trigger] ms2[j]) by {
                    if j < ms.len() {
                        assert(ms2[i] == ms[i] && ms2[j] == ms[j]);
                    } else {
                        assert(ms2[i] == ms[i]);
                    }
                }
                assert forall|i: int| 0 <= i < ms2.len() implies modifier_rank(#[trigger] ms2[i]) < k by {
                    if i < ms.len() {
                        assert(ms2[i] == ms[i]);
                    }
                }
            }
        }
    }
}

/// Reads the body of a transformer of type `transformer_type`.
pub fn hvif_shape_modifier_transformer_parser_from_flags(input: &[u8], pos: usize, transformer_type: u8) -> (r: Result<(HVIFTransformer, usize), DecodeError>)
    requires
        pos <= input@.len(),
    ensures
        within(r, input@),
        at(r) == spec_transformer_body(input@, pos as int, transformer_type),
{
    match transformer_type {
        20 => match hvif_shape_matrix(input, pos) {
            Ok((m, p)) => Ok((HVIFTransformer::Affine(m), p)),
            Err(e) => Err(e),
        },
        21 => {
            if !available(input, pos, 3) {
                return Err(DecodeError::UnexpectedEof);
            }
            let width_int = input[pos];
            let lj = input[pos + 1];
            let ml = input[pos + 2];
            Ok((HVIFTransformer::Contour { width: width_int as i16 - 128, line_join: lj, miter_limit: ml }, pos + 3))
        },
        22 => Ok((HVIFTransformer::Perspective, pos)),
        23 => {
            if !available(input, pos, 3) {
                return Err(DecodeError::UnexpectedEof);
            }
            let width_int = input[pos];
            let line_opts = input[pos + 1];
            let ml = input[pos + 2];
            let line_join: u8 = line_opts & 15;
            let line_cap: u8 = line_opts << 4;
            assert(line_join == line_opts % 16 && line_cap == ((line_opts % 16) * 16) as u8) by (bit_vector)
                requires
                    line_join == line_opts & 15,
                    line_cap == line_opts << 4,
            ;
            Ok(
                (
                    HVIFTransformer::Stroke { width: width_int as i16 - 128, line_join, line_cap, miter_limit: ml },
                    pos + 3,
                ),
            )
        },
        _ => Err(DecodeError::UnknownTransformerTag(transformer_type)),
    }
}

/// Reads a transformer: a tag byte, then its body.
pub fn hvif_shape_modifier_transformer(input: &[u8], pos: usize) -> (r: Result<(HVIFTransformer, usize), DecodeError>)
    requires
        pos <= input@.len(),
    ensures
        within(r, input@),
        at(r) == spec_transformer(input@, pos as int),
{
    let (transformer_type, p) = match read_u8(input, pos) {
        Ok(v) => v,
        Err(e) => return Err(e),
    };
    hvif_shape_modifier_transformer_parser_from_flags(input, p, transformer_type)
}

/// Reads `count` transformers.
pub fn hvif_shape_modifier_transformers(input: &[u8], pos: usize, count: u8) -> (r: Result<(Vec<HVIFTransformer>, usize), DecodeError>)
    requires
        pos <= input@.len(),
    ensures
        within(r, input@),
        seq_at(r) == repeat(transformer_item(input@), count as nat, pos as int),
{
    let ghost item = transformer_item(input@);
    let mut ts: Vec<HVIFTransformer> = Vec::new();
    let mut p: usize = pos;
    let mut i: u8 = 0;
    while i < count
        invariant
            p <= input@.len(),
            i <= count,
            item == transformer_item(input@),
            repeat(item, i as nat, pos as int) == Ok::<(Seq<HVIFTransformer>, int), DecodeError>((ts@, p as int)),
        decreases count - i,
    {
        match hvif_shape_modifier_transformer(input, p) {
            Ok((t, q)) => {
                ts.push(t);
                p = q;
            },
            Err(e) => {
                proof {
                    lemma_repeat_err(item, (i + 1) as nat, count as nat, pos as int);
                }
                return Err(e);
            },
        }
        i = i + 1;
    }
    Ok((ts, p))
}

/// The flag bit of the modifier of the given step.
fn modifier_flag(step: usize) -> (r: HVIFFlag)
    ensures
        r.0 == modifier_mask(step as int),
{
    match step {
        0 => HVIFFlag(HVIF_SHAPE_FLAG_HINTING),
        1 => HVIFFlag(HVIF_SHAPE_FLAG_TRANSFORM),
        2 => HVIFFlag(HVIF_SHAPE_FLAG_TRANSLATION),
        3 => HVIFFlag(HVIF_SHAPE_FLAG_LOD_SCALE),
        _ => HVIFFlag(HVIF_SHAPE_FLAG_HAS_TRANSFORMERS),
    }
}

/// Reads the body of the modifier of the given step.
pub fn hvif_shape_modifier_body(input: &[u8], pos: usize, step: usize) -> (r: Result<(HVIFShapeModifier, usize), DecodeError>)
    requires
        pos <= input@.len(),
    ensures
        within(r, input@),
        viewed(r) == spec_modifier_body(input@, pos as int, step as int),
{
    match step {
        0 => Ok((HVIFShapeModifier::HVIFHinting, pos)),
        1 => match hvif_shape_matrix(input, pos) {
            Ok((m, p)) => Ok((HVIFShapeModifier::HVIFTransformMatrix(m), p)),
            Err(e) => Err(e),
        },
        2 => match hvif_point(input, pos) {
            Ok((pt, p)) => Ok((HVIFShapeModifier::HVIFTranslation(pt), p)),
            Err(e) => Err(e),
        },
        3 => {
            if !available(input, pos, 2) {
                return Err(DecodeError::UnexpectedEof);
            }
            Ok((HVIFShapeModifier::HVIFLODScale(HVIFLODScale { min: input[pos], max: input[pos + 1] }), pos + 2))
        },
        _ => {
            let (count, p) = match read_u8(input, pos) {
                Ok(v) => v,
                Err(e) => return Err(e),
            };
            match hvif_shape_modifier_transformers(input, p, count) {
                Ok((ts, q)) => Ok((HVIFShapeModifier::HVIFTransformerList(ts), q)),
                Err(e) => Err(e),
            }
        },
    }
}

/// Reads, in step order, the modifier of each step whose flag bit is set in `flags`.
pub fn hvif_shape_modifier_parser_from_flags(input: &[u8], pos: usize, flags: u8) -> (r: Result<(Vec<HVIFShapeModifier>, usize), DecodeError>)
    requires
        pos <= input@.len(),
    ensures
        within(r, input@),
        views_at(r) == spec_modifiers(input@, pos as int, flags, 5),
        r matches Ok((modifiers, _)) ==> modifiers_in_order(views(modifiers@)),
{
    proof {
        lemma_modifiers_order(input@, pos as int, flags, 5);
    }
    let mut modifiers: Vec<HVIFShapeModifier> = Vec::new();
    let mut p: usize = pos;
    let mut step: usize = 0;
    assert(views(modifiers@) =~= Seq::<ModifierModel>::empty());
    while step < MODIFIER_KINDS
        invariant
            p <= input@.len(),
            step <= 5,
            spec_modifiers(input@, pos as int, flags, step as nat) == Ok::<(Seq<ModifierModel>, int), DecodeError>((views(modifiers@), p as int)),
        decreases 5 - step,
    {
        if modifier_flag(step).is_set_on(flags) {
            match hvif_shape_modifier_body(input, p, step) {
                Ok((m, q)) => {
                    proof {
                        lemma_views_push(modifiers@, m);
                    }
                    modifiers.push(m);
                    p = q;
                },
                Err(e) => {
                    proof {
                        lemma_modifiers_err(input@, pos as int, flags, (step + 1) as nat, 5);
                    }
                    return Err(e);
                },
            }
        }
        step = step + 1;
    }
    Ok((modifiers, p))
}

/// Reads a shape: its tag, its style index, its path indices, its flags, then its modifiers.
pub fn hvif_shape(input: &[u8], pos: usize) -> (r: Result<(HVIFShape, usize), DecodeError>)
    requires
        pos <= input@.len(),
    ensures
        within(r, input@),
        viewed(r) == spec_shape(input@, pos as int),
{
    let (tag, p) = match read_u8(input, pos) {
        Ok(v) => v,
        Err(e) => return Err(e),
    };
    if tag != HVIF_SHAPE_TAG_PATH_SOURCE {
        return Err(DecodeError::UnknownShapeTag(tag));
    }
    let (style_index, p) = match read_u8(input, p) {
        Ok(v) => v,
        Err(e) => return Err(e),
    };
    let (m, p) = match read_u8(input, p) {
        Ok(v) => v,
        Err(e) => return Err(e),
    };
    if !available(input, p, m as usize) {
        return Err(DecodeError::UnexpectedEof);
    }
    let len = input.len();
    let mut path_indices: Vec<u8> = Vec::new();
    let mut i: usize = 0;
    while i < m as usize
        invariant
            i <= m,
            len == input@.len(),
            fits(input@, p as int, m as int),
            path_indices@ == input@.subrange(p as int, p + i),
        decreases m - i,
    {
        path_indices.push(input[p + i]);
        i = i + 1;
        assert(path_indices@ =~= input@.subrange(p as int, p + i));
    }
    let p = p + m as usize;
    let (flags, p) = match read_u8(input, p) {
        Ok(v) => v,
        Err(e) => return Err(e),
    };
    match hvif_shape_modifier_parser_from_flags(input, p, flags) {
        Ok((modifiers, q)) => Ok((HVIFShape { style_index, path_indices, modifiers }, q)),
        Err(e) => Err(e),
    }
}

} // verus!
