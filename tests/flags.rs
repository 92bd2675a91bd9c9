use hvif_rs::flags::{
    HVIF_GRADIENT_FLAG_GRAYS, HVIF_GRADIENT_FLAG_NO_ALPHA, HVIF_PATH_FLAG_CLOSED, HVIF_PATH_FLAG_NO_CURVES,
    HVIF_PATH_FLAG_USES_COMMANDS, HVIF_SHAPE_FLAG_HAS_TRANSFORMERS, HVIF_SHAPE_FLAG_HINTING,
    HVIF_SHAPE_FLAG_LOD_SCALE, HVIF_SHAPE_FLAG_TRANSFORM, HVIF_SHAPE_FLAG_TRANSLATION,
};
use hvif_rs::{GradientFlags, HVIFFlag, HVIFPathFlags, HVIFShapeFlags};

#[test]
fn flag_is_set_on() {
    assert!(HVIFFlag(0x02).is_set_on(0x0A));
    assert!(!HVIFFlag(0x04).is_set_on(0x0A));
    assert!(!HVIFFlag(0x01).is_set_on(0x00));
    assert!(HVIFFlag(0x10).is_set_on(0xFF));
}

#[test]
fn flag_into_byte() {
    assert_eq!(u8::from(HVIFFlag(0x08)), 0x08);
}

#[test]
fn flag_masks() {
    assert_eq!(GradientFlags::Transform.flag().0, 0x01);
    assert_eq!(GradientFlags::NoAlpha.flag().0, HVIF_GRADIENT_FLAG_NO_ALPHA);
    assert_eq!(GradientFlags::Colors16Bit.flag().0, 0x04);
    assert_eq!(GradientFlags::Grays.flag().0, HVIF_GRADIENT_FLAG_GRAYS);
    assert_eq!(HVIFPathFlags::Closed.flag().0, HVIF_PATH_FLAG_CLOSED);
    assert_eq!(HVIFPathFlags::UsesCommands.flag().0, HVIF_PATH_FLAG_USES_COMMANDS);
    assert_eq!(HVIFPathFlags::NoCurves.flag().0, HVIF_PATH_FLAG_NO_CURVES);
    assert_eq!(HVIFShapeFlags::Transform.flag().0, HVIF_SHAPE_FLAG_TRANSFORM);
    assert_eq!(HVIFShapeFlags::Hinting.flag().0, HVIF_SHAPE_FLAG_HINTING);
    assert_eq!(HVIFShapeFlags::LODScale.flag().0, HVIF_SHAPE_FLAG_LOD_SCALE);
    assert_eq!(HVIFShapeFlags::HasTransformers.flag().0, HVIF_SHAPE_FLAG_HAS_TRANSFORMERS);
    assert_eq!(HVIFShapeFlags::Translation.flag().0, 0x10);
}
