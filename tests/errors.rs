use hvif_rs::{decode, DecodeError};

fn icon(body: &[u8]) -> Vec<u8> {
    let mut bytes = vec![0x6E, 0x63, 0x69, 0x66];
    bytes.extend_from_slice(body);
    bytes
}

#[test]
fn bad_magic() {
    assert_eq!(decode(&[0x68, 0x76, 0x69, 0x66, 0, 0, 0]).err(), Some(DecodeError::BadMagic));
    assert_eq!(decode(&[0x6E, 0x63, 0x69, 0x67]).err(), Some(DecodeError::BadMagic));
}

#[test]
fn short_input_is_eof() {
    assert_eq!(decode(&[]).err(), Some(DecodeError::UnexpectedEof));
    assert_eq!(decode(&[0x6E, 0x63, 0x69]).err(), Some(DecodeError::UnexpectedEof));
    // magic only: the style count is missing
    assert_eq!(decode(&icon(&[])).err(), Some(DecodeError::UnexpectedEof));
    // one style announced, its body cut short
    assert_eq!(decode(&icon(&[0x01, 0x01, 0x80, 0x10])).err(), Some(DecodeError::UnexpectedEof));
}

#[test]
fn unknown_style_tag() {
    assert_eq!(decode(&icon(&[0x01, 0x06, 0, 0, 0])).err(), Some(DecodeError::UnknownStyleTag(6)));
    assert_eq!(decode(&icon(&[0x01, 0x00])).err(), Some(DecodeError::UnknownStyleTag(0)));
}

#[test]
fn unknown_gradient_kind() {
    assert_eq!(decode(&icon(&[0x01, 0x02, 0x06, 0x00, 0x00, 0, 0, 0])).err(), Some(DecodeError::UnknownGradientKind(6)));
}

#[test]
fn unknown_shape_tag() {
    assert_eq!(decode(&icon(&[0x00, 0x00, 0x01, 0x0B, 0, 0, 0])).err(), Some(DecodeError::UnknownShapeTag(0x0B)));
}

#[test]
fn unknown_transformer_tag() {
    let body = [0x00, 0x00, 0x01, 0x0A, 0x00, 0x00, 0x08, 0x01, 24];
    assert_eq!(decode(&icon(&body)).err(), Some(DecodeError::UnknownTransformerTag(24)));
    let body = [0x00, 0x00, 0x01, 0x0A, 0x00, 0x00, 0x08, 0x01, 19];
    assert_eq!(decode(&icon(&body)).err(), Some(DecodeError::UnknownTransformerTag(19)));
}

#[test]
fn first_error_wins() {
    // the style tag is wrong and the shape tag would be too: decoding stops at the style
    assert_eq!(decode(&icon(&[0x01, 0x09, 0x00, 0x01, 0x0B])).err(), Some(DecodeError::UnknownStyleTag(9)));
}

#[test]
fn truncated_command_header() {
    // five commands need two header bytes; only one is there
    assert_eq!(decode(&icon(&[0x00, 0x01, 0x02, 0x05, 0x00])).err(), Some(DecodeError::UnexpectedEof));
}
