//! Properties that hold of every decoded value.
use vstd::prelude::*;

use crate::error::{DecodeError, ParseResult};
use crate::flags::{
    flag_set, HVIF_GRADIENT_FLAG_GRAYS, HVIF_GRADIENT_FLAG_NO_ALPHA, HVIF_PATH_FLAG_NO_CURVES,
    HVIF_PATH_FLAG_USES_COMMANDS,
};
use crate::image::{path_item, shape_item, spec_image, spec_list, style_item, ImageModel};
use crate::path::{commands_len, lemma_path_points_props, plain_points_follow_flags, spec_path, PathModel};
use crate::reader::{lemma_repeat_all, spec_byte};
use crate::shape::{lemma_modifiers_order, modifiers_in_order, spec_shape, ShapeModel};
use crate::style::{
    spec_gradient, spec_style, stop_item, GradientModel, HVIFGradientColor, StyleModel,
};

verus! {

/// Every stop of the gradient has equal red, green and blue channels.
pub open spec fn stops_gray(g: GradientModel) -> bool {
    forall|j: int|
        0 <= j < g.colors.len() ==> (#[trigger] g.colors[j]).red == g.colors[j].green
            && g.colors[j].green == g.colors[j].blue
}

/// Every stop of the gradient is opaque.
pub open spec fn stops_opaque(g: GradientModel) -> bool {
    forall|j: int| 0 <= j < g.colors.len() ==> (#[trigger] g.colors[j]).alpha == 255
}

/// A path without a command section is all lines where `NO_CURVES` is set, else all curves.
pub open spec fn points_follow_flags(path: PathModel) -> bool {
    plain_points_follow_flags(path.flags, path.points)
}

/// What a gradient's flags say of its stops.
pub open spec fn stops_follow_flags(s: StyleModel) -> bool {
    s is Gradient ==> {
        &&& flag_set(s->Gradient_0.flags, HVIF_GRADIENT_FLAG_GRAYS) ==> stops_gray(s->Gradient_0)
        &&& flag_set(s->Gradient_0.flags, HVIF_GRADIENT_FLAG_NO_ALPHA) ==> stops_opaque(s->Gradient_0)
    }
}

/// Where every successful read of `item` satisfies `pred`, so does every element of a
/// successful counted list.
proof fn lemma_list_all<T>(d: Seq<u8>, pos: int, item: spec_fn(int, int) -> ParseResult<T>, pred: spec_fn(T) -> bool)
    requires
        forall|i: int, p: int| #[trigger] item(i, p) is Ok ==> pred(item(i, p)->Ok_0.0),
    ensures
        spec_list(d, pos, item) is Ok ==> forall|j: int|
            0 <= j < spec_list(d, pos, item)->Ok_0.0.len() ==> pred(#[trigger] spec_list(d, pos, item)->Ok_0.0[j]),
{
    if spec_byte(d, pos) is Ok {
        let (n, p) = spec_byte(d, pos)->Ok_0;
        lemma_repeat_all(item, pred, n as nat, p);
    }
}

proof fn lemma_gradient_stops(d: Seq<u8>, pos: int)
    ensures
        spec_gradient(d, pos) is Ok ==> stops_follow_flags(StyleModel::Gradient(spec_gradient(d, pos)->Ok_0.0)),
{
    if spec_gradient(d, pos) is Ok {
        let (kind, p1) = spec_byte(d, pos)->Ok_0;
        let (flags, p2) = spec_byte(d, p1)->Ok_0;
        let (n, p3) = spec_byte(d, p2)->Ok_0;
        let pred = |c: HVIFGradientColor|
            (flag_set(flags, HVIF_GRADIENT_FLAG_GRAYS) ==> c.red == c.green && c.green == c.blue)
                && (flag_set(flags, HVIF_GRADIENT_FLAG_NO_ALPHA) ==> c.alpha == 255);
        lemma_repeat_all(stop_item(d, flags), pred, n as nat, p3);
    }
}

proof fn lemma_style_stops(d: Seq<u8>, pos: int)
    ensures
        spec_style(d, pos) is Ok ==> stops_follow_flags(spec_style(d, pos)->Ok_0.0),
{
    if spec_byte(d, pos) is Ok {
        lemma_gradient_stops(d, spec_byte(d, pos)->Ok_0.1);
    }
}

proof fn lemma_image_stops(d: Seq<u8>, image: ImageModel, end: int)
    requires
        spec_image(d) == Ok::<(ImageModel, int), DecodeError>((image, end)),
    ensures
        forall|i: int| 0 <= i < image.styles.len() ==> stops_follow_flags(#[trigger] image.styles[i]),
{
    assert forall|i: int, p: int| #[trigger] style_item(d)(i, p) is Ok implies stops_follow_flags(style_item(d)(i, p)->Ok_0.0) by {
        lemma_style_stops(d, p);
    }
    lemma_list_all(d, 4, style_item(d), |s: StyleModel| stops_follow_flags(s));
}

/// In a decoded image, every stop of a gradient whose flags set `GRAYS` has equal red,
/// green and blue channels.
pub proof fn lemma_gray_gradient_stops(d: Seq<u8>, image: ImageModel, end: int)
    requires
        spec_image(d) == Ok::<(ImageModel, int), DecodeError>((image, end)),
    ensures
        forall|i: int|
            0 <= i < image.styles.len() && (#[trigger] image.styles[i]) is Gradient && flag_set(
                image.styles[i]->Gradient_0.flags,
                HVIF_GRADIENT_FLAG_GRAYS,
            ) ==> stops_gray(image.styles[i]->Gradient_0),
{
    lemma_image_stops(d, image, end);
}

/// In a decoded image, every stop of a gradient whose flags set `NO_ALPHA` is opaque.
pub proof fn lemma_opaque_gradient_stops(d: Seq<u8>, image: ImageModel, end: int)
    requires
        spec_image(d) == Ok::<(ImageModel, int), DecodeError>((image, end)),
    ensures
        forall|i: int|
            0 <= i < image.styles.len() && (#[trigger] image.styles[i]) is Gradient && flag_set(
                image.styles[i]->Gradient_0.flags,
                HVIF_GRADIENT_FLAG_NO_ALPHA,
            ) ==> stops_opaque(image.styles[i]->Gradient_0),
{
    lemma_image_stops(d, image, end);
}

/// A decoded path without a command section is all lines where `NO_CURVES` is set, else all
/// curves.
pub proof fn lemma_path_points_follow_flags(d: Seq<u8>, pos: int)
    ensures
        spec_path(d, pos) is Ok ==> points_follow_flags(spec_path(d, pos)->Ok_0.0),
{
    if spec_path(d, pos) is Ok {
        let (flags, p1) = spec_byte(d, pos)->Ok_0;
        let (n, p2) = spec_byte(d, p1)->Ok_0;
        lemma_path_points_props(d, p2, flags, n as nat);
    }
}

/// In a decoded image, every path without a command section is all lines where
/// `NO_CURVES` is set, else all curves.
pub proof fn lemma_image_paths_follow_flags(d: Seq<u8>, image: ImageModel, end: int)
    requires
        spec_image(d) == Ok::<(ImageModel, int), DecodeError>((image, end)),
    ensures
        forall|i: int| 0 <= i < image.paths.len() ==> points_follow_flags(#[trigger] image.paths[i]),
{
    let p1 = spec_list(d, 4, style_item(d))->Ok_0.1;
    assert forall|i: int, p: int| #[trigger] path_item(d)(i, p) is Ok implies points_follow_flags(path_item(d)(i, p)->Ok_0.0) by {
        lemma_path_points_follow_flags(d, p);
    }
    lemma_list_all(d, p1, path_item(d), |s: PathModel| points_follow_flags(s));
}

/// The modifiers of a decoded shape come in the order hinting, transform, translation,
/// level of detail, transformers, each kind at most once.
pub proof fn lemma_shape_modifiers_in_order(d: Seq<u8>, pos: int)
    ensures
        spec_shape(d, pos) is Ok ==> modifiers_in_order(spec_shape(d, pos)->Ok_0.0.modifiers),
{
    if spec_shape(d, pos) is Ok {
        let (tag, p1) = spec_byte(d, pos)->Ok_0;
        let (style_index, p2) = spec_byte(d, p1)->Ok_0;
        let (m, p3) = spec_byte(d, p2)->Ok_0;
        let (flags, p4) = spec_byte(d, p3 + m)->Ok_0;
        lemma_modifiers_order(d, p4, flags, 5);
    }
}

/// In a decoded image, the modifiers of every shape come in the order hinting, transform,
/// translation, level of detail, transformers, each kind at most once.
pub proof fn lemma_image_modifiers_in_order(d: Seq<u8>, image: ImageModel, end: int)
    requires
        spec_image(d) == Ok::<(ImageModel, int), DecodeError>((image, end)),
    ensures
        forall|i: int| 0 <= i < image.shapes.len() ==> modifiers_in_order((#[trigger] image.shapes[i]).modifiers),
{
    let p1 = spec_list(d, 4, style_item(d))->Ok_0.1;
    let p2 = spec_list(d, p1, path_item(d))->Ok_0.1;
    assert forall|i: int, p: int| #[trigger] shape_item(d)(i, p) is Ok implies modifiers_in_order(shape_item(d)(i, p)->Ok_0.0.modifiers) by {
        lemma_shape_modifiers_in_order(d, p);
    }
    lemma_list_all(d, p2, shape_item(d), |s: ShapeModel| modifiers_in_order(s.modifiers));
}

/// A decoded path without a command section takes its two header bytes and then exactly the
/// bytes of its coordinates, one or two each: for `n` points, between `6n` and `12n` bytes
/// when they are curves (six coordinates each), between `2n` and `4n` when they are lines.
pub proof fn lemma_path_byte_count(d: Seq<u8>, pos: int, path: PathModel, end: int)
    requires
        spec_path(d, pos) == Ok::<(PathModel, int), DecodeError>((path, end)),
        !flag_set(path.flags, HVIF_PATH_FLAG_USES_COMMANDS),
    ensures
        end == pos + 2 + commands_len(path.points),
        flag_set(path.flags, HVIF_PATH_FLAG_NO_CURVES) ==> pos + 2 + 2 * path.points.len() <= end <= pos + 2 + 4
            * path.points.len(),
        !flag_set(path.flags, HVIF_PATH_FLAG_NO_CURVES) ==> pos + 2 + 6 * path.points.len() <= end <= pos + 2
            + 12 * path.points.len(),
{
    let (flags, p1) = spec_byte(d, pos)->Ok_0;
    let (n, p2) = spec_byte(d, p1)->Ok_0;
    lemma_path_points_props(d, p2, flags, n as nat);
}

} // verus!
