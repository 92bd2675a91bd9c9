use hvif_rs::{decode, hvif_image, Coord, HVIFGradientType, HVIFPointCommand, HVIFShapeModifier, HVIFStyle, HVIFTransformer};

#[test]
fn minimal_icon() {
    let image = decode(&[0x6E, 0x63, 0x69, 0x66, 0x00, 0x00, 0x00]).unwrap();
    assert!(image.styles.is_empty());
    assert!(image.paths.is_empty());
    assert!(image.shapes.is_empty());
}

#[test]
fn single_opaque_red_solid() {
    let image = decode(&[0x6E, 0x63, 0x69, 0x66, 0x01, 0x03, 0xFF, 0x00, 0x00, 0x00, 0x00]).unwrap();
    assert_eq!(image.styles.len(), 1);
    match &image.styles[0] {
        HVIFStyle::SolidColorNoAlpha { red, green, blue } => {
            assert_eq!((*red, *green, *blue), (255, 0, 0));
        }
        other => panic!("unexpected style {:?}", other),
    }
    assert!(image.paths.is_empty());
    assert!(image.shapes.is_empty());
}

#[test]
fn solid_argb_style() {
    let image = decode(&[0x6E, 0x63, 0x69, 0x66, 0x01, 0x01, 0x80, 0x10, 0x20, 0x30, 0x00, 0x00]).unwrap();
    match &image.styles[0] {
        HVIFStyle::SolidColor { red, green, blue, alpha } => {
            assert_eq!((*red, *green, *blue, *alpha), (0x10, 0x20, 0x30, 0x80));
        }
        other => panic!("unexpected style {:?}", other),
    }
}

#[test]
fn gradient_linear_two_gray_stops() {
    let bytes = [
        0x6E, 0x63, 0x69, 0x66, 0x01, 0x02, 0x00, 0x0A, 0x02, 0x00, 0x40, 0xFF, 0x80, 0x00, 0x00,
    ];
    let image = decode(&bytes).unwrap();
    match &image.styles[0] {
        HVIFStyle::Gradient(g) => {
            assert_eq!(g.gradient_type, HVIFGradientType::Linear);
            assert_eq!(g.flags, 0x0A);
            assert_eq!(g.colors.len(), 2);
            let first = g.colors[0];
            assert_eq!((first.stop_offset, first.red, first.green, first.blue, first.alpha), (0, 0x40, 0x40, 0x40, 255));
            let second = g.colors[1];
            assert_eq!((second.stop_offset, second.red, second.green, second.blue, second.alpha), (255, 0x80, 0x80, 0x80, 255));
        }
        other => panic!("unexpected style {:?}", other),
    }
}

#[test]
fn path_hline_via_commands() {
    let bytes = [0x6E, 0x63, 0x69, 0x66, 0x00, 0x01, 0x02, 0x01, 0x00, 0x40, 0x00];
    let image = decode(&bytes).unwrap();
    assert_eq!(image.paths.len(), 1);
    let path = &image.paths[0];
    assert_eq!(path.flags, 0x02);
    assert_eq!(path.points.len(), 1);
    match path.points[0] {
        HVIFPointCommand::HLine { x } => {
            assert_eq!(x, Coord::Short(0x40));
            assert_eq!(x.units(), 32 * 102);
            assert_eq!(x.units() as f32 / 102.0, 32.0);
        }
        other => panic!("unexpected command {:?}", other),
    }
}

fn all_modifiers_shape() -> Vec<u8> {
    let mut bytes = vec![0x6E, 0x63, 0x69, 0x66, 0x00, 0x00, 0x01];
    bytes.extend_from_slice(&[0x0A, 0x00, 0x01, 0x00, 0x1F]);
    // matrix: six f24 values
    for k in 0..6u8 {
        bytes.extend_from_slice(&[0x3E, k, 0x00]);
    }
    // translation: two short coordinates
    bytes.extend_from_slice(&[0x20, 0x30]);
    // level of detail
    bytes.extend_from_slice(&[0x00, 0xFF]);
    // one transformer: perspective
    bytes.extend_from_slice(&[0x01, 22]);
    bytes
}

#[test]
fn shape_with_all_modifiers() {
    let bytes = all_modifiers_shape();
    let (image, unread) = hvif_image(&bytes).unwrap();
    assert_eq!(unread, 0);
    // 5 header bytes, 18 + 2 + 2 + 1 + 1 body bytes after the three list counts and magic
    assert_eq!(bytes.len(), 7 + 5 + 18 + 2 + 2 + 1 + 1);
    let shape = &image.shapes[0];
    assert_eq!(shape.style_index, 0);
    assert_eq!(shape.path_indices, vec![0u8]);
    assert_eq!(shape.modifiers.len(), 5);
    assert!(matches!(shape.modifiers[0], HVIFShapeModifier::HVIFHinting));
    match &shape.modifiers[1] {
        HVIFShapeModifier::HVIFTransformMatrix(m) => {
            assert_eq!((m.x1.snd, m.y1.snd, m.z1.snd, m.x2.snd, m.y2.snd, m.z2.snd), (0, 1, 2, 3, 4, 5));
        }
        other => panic!("unexpected modifier {:?}", other),
    }
    match &shape.modifiers[2] {
        HVIFShapeModifier::HVIFTranslation(p) => {
            assert_eq!(p.x.units(), 0);
            assert_eq!(p.y.units(), 16 * 102);
        }
        other => panic!("unexpected modifier {:?}", other),
    }
    match &shape.modifiers[3] {
        HVIFShapeModifier::HVIFLODScale(s) => assert_eq!((s.min, s.max), (0, 0xFF)),
        other => panic!("unexpected modifier {:?}", other),
    }
    match &shape.modifiers[4] {
        HVIFShapeModifier::HVIFTransformerList(ts) => assert_eq!(ts, &vec![HVIFTransformer::Perspective]),
        other => panic!("unexpected modifier {:?}", other),
    }
}

#[test]
fn trailing_bytes_are_left_unread() {
    let bytes = [0x6E, 0x63, 0x69, 0x66, 0x00, 0x00, 0x00, 0xAA, 0xBB];
    let (image, unread) = hvif_image(&bytes).unwrap();
    assert_eq!(unread, 2);
    assert!(image.shapes.is_empty());
}

#[test]
fn body_bytes_of_all_modifiers_are_exact() {
    let mut bytes = all_modifiers_shape();
    // one byte short: the perspective tag is missing
    bytes.pop();
    assert!(hvif_image(&bytes).is_err());
}
