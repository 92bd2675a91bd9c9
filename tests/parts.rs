use hvif_rs::path::hvif_path;
use hvif_rs::shape::{hvif_shape, hvif_shape_modifier_transformer};
use hvif_rs::style::{hvif_style, hvif_style_gradient_color_parser};
use hvif_rs::{decode, Coord, DecodeError, HVIFPointCommand, HVIFShapeModifier, HVIFStyle, HVIFTransformer};

#[test]
fn solid_gray_styles() {
    let (s, p) = hvif_style(&[0x04, 0x80, 0x33], 0).unwrap();
    assert_eq!(p, 3);
    match s {
        HVIFStyle::SolidGray { value, alpha } => assert_eq!((value, alpha), (0x33, 0x80)),
        other => panic!("unexpected style {:?}", other),
    }
    let (s, p) = hvif_style(&[0x05, 0x44], 0).unwrap();
    assert_eq!(p, 2);
    match s {
        HVIFStyle::SolidGrayNoAlpha { value } => assert_eq!(value, 0x44),
        other => panic!("unexpected style {:?}", other),
    }
}

#[test]
fn gradient_stop_layouts() {
    // full aRGB stop: offset, r, g, b, a
    let (c, p) = hvif_style_gradient_color_parser(&[1, 2, 3, 4, 5], 0, 0x00).unwrap();
    assert_eq!(p, 5);
    assert_eq!((c.stop_offset, c.red, c.green, c.blue, c.alpha), (1, 2, 3, 4, 5));
    // no alpha
    let (c, p) = hvif_style_gradient_color_parser(&[1, 2, 3, 4], 0, 0x02).unwrap();
    assert_eq!(p, 4);
    assert_eq!((c.red, c.green, c.blue, c.alpha), (2, 3, 4, 255));
    // grays with alpha
    let (c, p) = hvif_style_gradient_color_parser(&[1, 9, 7], 0, 0x08).unwrap();
    assert_eq!(p, 3);
    assert_eq!((c.red, c.green, c.blue, c.alpha), (9, 9, 9, 7));
    // transform and 16-bit bits read nothing more
    let (c, p) = hvif_style_gradient_color_parser(&[1, 2, 3, 4, 5], 0, 0x05).unwrap();
    assert_eq!(p, 5);
    assert_eq!(c.alpha, 5);
}

#[test]
fn gradient_without_stops() {
    let (s, p) = hvif_style(&[0x02, 0x03, 0x00, 0x00], 0).unwrap();
    assert_eq!(p, 4);
    match s {
        HVIFStyle::Gradient(g) => assert!(g.colors.is_empty()),
        other => panic!("unexpected style {:?}", other),
    }
}

#[test]
fn command_stream_codes_low_bits_first() {
    // codes 1, 2, 0, 3 packed as 0b11_00_10_01, then 3, packed alone
    let header = [0b1100_1001u8, 0b0000_0011];
    let mut bytes = vec![0x02, 0x05];
    bytes.extend_from_slice(&header);
    bytes.extend_from_slice(&[0x21]); // VLine
    bytes.extend_from_slice(&[0x22, 0x23]); // Line
    bytes.extend_from_slice(&[0x24]); // HLine
    bytes.extend_from_slice(&[0x25, 0x26, 0x27, 0x28, 0x29, 0x2A]); // Curve
    bytes.extend_from_slice(&[0x2B, 0x2C, 0x2D, 0x2E, 0x2F, 0x30]); // Curve
    let (path, p) = hvif_path(&bytes, 0).unwrap();
    assert_eq!(p, bytes.len());
    assert_eq!(path.points.len(), 5);
    assert!(matches!(path.points[0], HVIFPointCommand::VLine { y: Coord::Short(0x21) }));
    assert!(matches!(path.points[1], HVIFPointCommand::Line { .. }));
    assert!(matches!(path.points[2], HVIFPointCommand::HLine { x: Coord::Short(0x24) }));
    match path.points[3] {
        HVIFPointCommand::Curve { point_in, point, point_out } => {
            assert_eq!((point.x, point.y), (Coord::Short(0x25), Coord::Short(0x26)));
            assert_eq!((point_in.x, point_in.y), (Coord::Short(0x27), Coord::Short(0x28)));
            assert_eq!((point_out.x, point_out.y), (Coord::Short(0x29), Coord::Short(0x2A)));
        }
        other => panic!("unexpected command {:?}", other),
    }
    assert!(matches!(path.points[4], HVIFPointCommand::Curve { .. }));
}

#[test]
fn empty_paths_read_no_point_bytes() {
    assert_eq!(hvif_path(&[0x00, 0x00], 0).unwrap().1, 2);
    assert_eq!(hvif_path(&[0x04, 0x00], 0).unwrap().1, 2);
    assert_eq!(hvif_path(&[0x02, 0x00], 0).unwrap().1, 2);
    assert_eq!(hvif_path(&[0x07, 0x00, 0xEE], 0).unwrap().1, 2);
}

#[test]
fn closed_bit_is_kept() {
    let (path, _) = hvif_path(&[0x05, 0x01, 0x20, 0x20], 0).unwrap();
    assert_eq!(path.flags, 0x05);
    assert_eq!(path.points.len(), 1);
}

#[test]
fn shape_without_paths_or_modifiers() {
    let (shape, p) = hvif_shape(&[0x0A, 0x03, 0x00, 0x00], 0).unwrap();
    assert_eq!(p, 4);
    assert_eq!(shape.style_index, 3);
    assert!(shape.path_indices.is_empty());
    assert!(shape.modifiers.is_empty());
}

#[test]
fn shape_modifier_subset_keeps_order() {
    // LOD scale and hinting only
    let (shape, p) = hvif_shape(&[0x0A, 0x00, 0x02, 0x01, 0x02, 0x06, 0x10, 0x20], 0).unwrap();
    assert_eq!(p, 8);
    assert_eq!(shape.path_indices, vec![1u8, 2]);
    assert_eq!(shape.modifiers.len(), 2);
    assert!(matches!(shape.modifiers[0], HVIFShapeModifier::HVIFHinting));
    match &shape.modifiers[1] {
        HVIFShapeModifier::HVIFLODScale(s) => assert_eq!((s.min, s.max), (0x10, 0x20)),
        other => panic!("unexpected modifier {:?}", other),
    }
}

#[test]
fn transformers() {
    let (t, p) = hvif_shape_modifier_transformer(&[21, 0x80, 0x02, 0x04], 0).unwrap();
    assert_eq!(p, 4);
    assert_eq!(t, HVIFTransformer::Contour { width: 0, line_join: 2, miter_limit: 4 });
    let (t, p) = hvif_shape_modifier_transformer(&[23, 0x00, 0x35, 0x09], 0).unwrap();
    assert_eq!(p, 4);
    assert_eq!(t, HVIFTransformer::Stroke { width: -128, line_join: 5, line_cap: 0x50, miter_limit: 9 });
    let (t, _) = hvif_shape_modifier_transformer(&[23, 0xFF, 0xFF, 0x00], 0).unwrap();
    assert_eq!(t, HVIFTransformer::Stroke { width: 127, line_join: 0x0F, line_cap: 0xF0, miter_limit: 0 });
    let (t, p) = hvif_shape_modifier_transformer(&[22], 0).unwrap();
    assert_eq!(p, 1);
    assert_eq!(t, HVIFTransformer::Perspective);
    let mut affine = vec![20u8];
    affine.extend_from_slice(&[0x3E, 0x00, 0x00].repeat(6));
    let (t, p) = hvif_shape_modifier_transformer(&affine, 0).unwrap();
    assert_eq!(p, 19);
    assert!(matches!(t, HVIFTransformer::Affine(m) if m.x1.exponent() == 0));
    assert_eq!(hvif_shape_modifier_transformer(&[21, 0x80], 0), Err(DecodeError::UnexpectedEof));
}

#[test]
fn reference_query() {
    // one style, one path, shapes naming style 0 with path 0, then style 1
    let ok = [
        0x6E, 0x63, 0x69, 0x66, 0x01, 0x05, 0x10, 0x01, 0x00, 0x00, 0x01, 0x0A, 0x00, 0x01, 0x00, 0x00,
    ];
    assert!(decode(&ok).unwrap().references_valid());
    let bad_style = [
        0x6E, 0x63, 0x69, 0x66, 0x01, 0x05, 0x10, 0x01, 0x00, 0x00, 0x01, 0x0A, 0x01, 0x01, 0x00, 0x00,
    ];
    assert!(!decode(&bad_style).unwrap().references_valid());
    let bad_path = [
        0x6E, 0x63, 0x69, 0x66, 0x01, 0x05, 0x10, 0x01, 0x00, 0x00, 0x01, 0x0A, 0x00, 0x01, 0x01, 0x00,
    ];
    assert!(!decode(&bad_path).unwrap().references_valid());
}
