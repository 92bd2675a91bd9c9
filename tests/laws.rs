use hvif_rs::path::hvif_path;
use hvif_rs::{decode, HVIFPointCommand, HVIFShapeModifier, HVIFStyle};

#[test]
fn gray_flag_gives_equal_channels() {
    // grays with alpha: offset, gray, alpha
    let bytes = [0x6E, 0x63, 0x69, 0x66, 0x01, 0x02, 0x01, 0x08, 0x02, 0x00, 0x11, 0x80, 0xFF, 0x22, 0x40, 0x00, 0x00];
    let image = decode(&bytes).unwrap();
    match &image.styles[0] {
        HVIFStyle::Gradient(g) => {
            assert_eq!(g.colors.len(), 2);
            for c in &g.colors {
                assert_eq!(c.red, c.green);
                assert_eq!(c.green, c.blue);
            }
            assert_eq!((g.colors[0].red, g.colors[0].alpha), (0x11, 0x80));
            assert_eq!((g.colors[1].red, g.colors[1].alpha), (0x22, 0x40));
        }
        other => panic!("unexpected style {:?}", other),
    }
}

#[test]
fn no_alpha_flag_gives_opaque_stops() {
    let bytes = [0x6E, 0x63, 0x69, 0x66, 0x01, 0x02, 0x02, 0x02, 0x01, 0x7F, 0x01, 0x02, 0x03, 0x00, 0x00];
    let image = decode(&bytes).unwrap();
    match &image.styles[0] {
        HVIFStyle::Gradient(g) => {
            assert_eq!(g.colors.len(), 1);
            assert_eq!(g.colors[0].alpha, 255);
            assert_eq!((g.colors[0].red, g.colors[0].green, g.colors[0].blue), (1, 2, 3));
        }
        other => panic!("unexpected style {:?}", other),
    }
}

#[test]
fn plain_paths_are_all_lines_or_all_curves() {
    let (lines, _) = hvif_path(&[0x04, 0x02, 0x20, 0x21, 0x80, 0x01, 0x22], 0).unwrap();
    assert!(lines.points.iter().all(|c| matches!(c, HVIFPointCommand::Line { .. })));
    let (curves, _) = hvif_path(&[0x00, 0x01, 1, 2, 3, 4, 5, 6], 0).unwrap();
    assert!(curves.points.iter().all(|c| matches!(c, HVIFPointCommand::Curve { .. })));
}

#[test]
fn modifiers_follow_the_fixed_order() {
    // translation, transformers and hinting set: read in order hinting, translation, transformers
    let bytes = [0x6E, 0x63, 0x69, 0x66, 0x00, 0x00, 0x01, 0x0A, 0x00, 0x00, 0x1A, 0x20, 0x20, 0x01, 22];
    let image = decode(&bytes).unwrap();
    let ms = &image.shapes[0].modifiers;
    assert_eq!(ms.len(), 3);
    assert!(matches!(ms[0], HVIFShapeModifier::HVIFHinting));
    assert!(matches!(ms[1], HVIFShapeModifier::HVIFTranslation(_)));
    assert!(matches!(ms[2], HVIFShapeModifier::HVIFTransformerList(_)));
}

#[test]
fn curve_path_byte_count() {
    // two curves, all short coordinates: 2 + 6 * 2 bytes
    let mut bytes = vec![0x00, 0x02];
    bytes.extend_from_slice(&[0x20; 12]);
    bytes.push(0xEE);
    assert_eq!(hvif_path(&bytes, 0).unwrap().1, 2 + 12);
    // one coordinate in the two-byte form adds one byte
    let mut bytes = vec![0x00, 0x02, 0x80, 0x00];
    bytes.extend_from_slice(&[0x20; 11]);
    assert_eq!(hvif_path(&bytes, 0).unwrap().1, 2 + 13);
    // all coordinates long: 2 + 12 * 2 bytes
    let bytes: Vec<u8> = [0x00, 0x02].iter().copied().chain([0x90u8, 0x00].repeat(12)).collect();
    assert_eq!(hvif_path(&bytes, 0).unwrap().1, 2 + 24);
}
