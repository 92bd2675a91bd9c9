//! Decoder for the Haiku Vector Icon Format (HVIF): a byte sequence in, an icon of styles,
//! paths and shapes out. Every reader is proved to follow the grammar that its spec
//! function states; numeric fields are kept in their exact wire encodings.
pub mod error;
pub mod flags;
pub mod geometry;
pub mod image;
pub mod laws;
pub mod path;
pub mod reader;
pub mod shape;
pub mod style;

pub use error::DecodeError;
pub use flags::{GradientFlags, HVIFFlag, HVIFPathFlags, HVIFShapeFlags};
pub use geometry::{Coord, HVIFMatrix, HVIFPoint, HVIFf24};
pub use image::{decode, hvif_image, HVIFImage};
pub use path::{HVIFPath, HVIFPointCommand};
pub use shape::{HVIFLODScale, HVIFShape, HVIFShapeModifier, HVIFTransformer};
pub use style::{gradient_type_from_u8, HVIFGradient, HVIFGradientColor, HVIFGradientType, HVIFStyle};
