use hvif_rs::path::{hvif_path_parser_from_flags, hvif_path_with_commands};
use hvif_rs::shape::{hvif_shape_modifier_parser_from_flags, hvif_shape_modifier_transformer_parser_from_flags};
use hvif_rs::style::{
    hvif_style_gradient_color_alpha_parser, hvif_style_gradient_color_rgb_parser, style_type_to_parser,
};
use hvif_rs::{Coord, DecodeError, HVIFPointCommand, HVIFShapeModifier, HVIFStyle, HVIFTransformer};

#[test]
fn unknown_code_is_reported_before_any_body() {
    assert_eq!(hvif_path_with_commands(&[], 0, &vec![0, 4]).err(), Some(DecodeError::UnknownCommandCode(4)));
    assert_eq!(hvif_path_with_commands(&[0x20, 0x21], 0, &vec![0, 7, 9]).err(), Some(DecodeError::UnknownCommandCode(7)));
}

#[test]
fn known_codes_read_bodies_in_order() {
    let (points, end) = hvif_path_with_commands(&[0x20, 0x80, 0x01, 0x22, 0x23], 0, &vec![1, 0, 2]).unwrap();
    assert_eq!(end, 5);
    assert!(matches!(points[0], HVIFPointCommand::VLine { y: Coord::Short(0x20) }));
    assert!(matches!(points[1], HVIFPointCommand::HLine { x: Coord::Long(0x8001) }));
    assert!(matches!(points[2], HVIFPointCommand::Line { .. }));
    assert_eq!(hvif_path_with_commands(&[0x20], 0, &vec![2]).err(), Some(DecodeError::UnexpectedEof));
}

#[test]
fn gray_rgb_reads_one_byte() {
    assert_eq!(hvif_style_gradient_color_rgb_parser(&[0x5A, 0x01], 0, 0x08), Ok(((0x5A, 0x5A, 0x5A), 1)));
    assert_eq!(hvif_style_gradient_color_rgb_parser(&[1, 2, 3], 0, 0x00), Ok(((1, 2, 3), 3)));
    assert_eq!(hvif_style_gradient_color_rgb_parser(&[1, 2], 0, 0x00), Err(DecodeError::UnexpectedEof));
}

#[test]
fn no_alpha_reads_nothing() {
    assert_eq!(hvif_style_gradient_color_alpha_parser(&[], 0, 0x02), Ok((255, 0)));
    assert_eq!(hvif_style_gradient_color_alpha_parser(&[0x40], 0, 0x00), Ok((0x40, 1)));
    assert_eq!(hvif_style_gradient_color_alpha_parser(&[], 0, 0x00), Err(DecodeError::UnexpectedEof));
}

#[test]
fn point_stream_by_flags() {
    // lines: 2 short + 1 long + 1 short coordinate
    let (points, end) = hvif_path_parser_from_flags(&[0x20, 0x21, 0x80, 0x00, 0x22], 0, 0x04, 2).unwrap();
    assert_eq!(points.len(), 2);
    assert_eq!(end, 5);
    assert!(points.iter().all(|p| matches!(p, HVIFPointCommand::Line { .. })));
    // curves: six short coordinates
    let (points, end) = hvif_path_parser_from_flags(&[0x20; 6], 0, 0x01, 1).unwrap();
    assert_eq!(end, 6);
    assert!(matches!(points[0], HVIFPointCommand::Curve { .. }));
    // commands: header byte then one HLine
    let (points, end) = hvif_path_parser_from_flags(&[0x00, 0x30], 0, 0x02, 1).unwrap();
    assert_eq!(end, 2);
    assert!(matches!(points[0], HVIFPointCommand::HLine { x: Coord::Short(0x30) }));
}

#[test]
fn modifiers_by_flags() {
    let (mods, end) = hvif_shape_modifier_parser_from_flags(&[0x20, 0x20, 0x01, 0x02], 0, 0x16).unwrap();
    assert_eq!(end, 4);
    assert_eq!(mods.len(), 3);
    assert!(matches!(mods[0], HVIFShapeModifier::HVIFHinting));
    assert!(matches!(mods[1], HVIFShapeModifier::HVIFTranslation(_)));
    assert!(matches!(mods[2], HVIFShapeModifier::HVIFLODScale(_)));
    let (mods, end) = hvif_shape_modifier_parser_from_flags(&[0x99], 0, 0x00).unwrap();
    assert_eq!(end, 0);
    assert!(mods.is_empty());
}

#[test]
fn bodies_by_tag() {
    match style_type_to_parser(&[0x10, 0x20, 0x30], 0, 3).unwrap() {
        (HVIFStyle::SolidColorNoAlpha { red, green, blue }, 3) => assert_eq!((red, green, blue), (0x10, 0x20, 0x30)),
        other => panic!("unexpected result {:?}", other),
    }
    assert_eq!(style_type_to_parser(&[], 0, 7).err(), Some(DecodeError::UnknownStyleTag(7)));
    assert_eq!(
        hvif_shape_modifier_transformer_parser_from_flags(&[0x81, 0x03, 0x04], 0, 21),
        Ok((HVIFTransformer::Contour { width: 1, line_join: 3, miter_limit: 4 }, 3))
    );
    assert_eq!(hvif_shape_modifier_transformer_parser_from_flags(&[], 0, 30), Err(DecodeError::UnknownTransformerTag(30)));
}
