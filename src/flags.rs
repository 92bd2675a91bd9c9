//! Flag bytes and the masks of their meaningful bits.
use vstd::prelude::*;

verus! {

/// Whether any bit of `mask` is set in `flags`.
pub open spec fn flag_set(flags: u8, mask: u8) -> bool {
    flags & mask != 0
}

/// A flag bit, tested against a flag byte.
#[derive(Debug, Clone, Copy, PartialEq, Eq, Structural)]
pub struct HVIFFlag(pub u8);

impl From<HVIFFlag> for u8 {
    fn from(flag: HVIFFlag) -> (r: u8) {
        flag.0
    }
}

impl vstd::std_specs::convert::FromSpecImpl<HVIFFlag> for u8 {
    open spec fn obeys_from_spec() -> bool {
        true
    }

    open spec fn from_spec(flag: HVIFFlag) -> u8 {
        flag.0
    }
}

impl HVIFFlag {
    /// Checks whether the flag is set on a byte.
    pub fn is_set_on(&self, flags: u8) -> (r: bool)
        ensures
            r == flag_set(flags, self.0),
    {
        let mask: u8 = u8::from(*self);
        flags & mask != 0
    }
}

/// Gradient flag: the gradient carries a transform.
pub const HVIF_GRADIENT_FLAG_TRANSFORM: u8 = 0b0000_0001;

/// Gradient flag: stops carry no alpha byte and are opaque.
pub const HVIF_GRADIENT_FLAG_NO_ALPHA: u8 = 0b0000_0010;

/// Gradient flag: colors are 16-bit.
pub const HVIF_GRADIENT_FLAG_COLORS_16_BIT: u8 = 0b0000_0100;

/// Gradient flag: stops carry one gray byte in place of red, green and blue.
pub const HVIF_GRADIENT_FLAG_GRAYS: u8 = 0b0000_1000;

/// Path flag: the path's last point is connected to its first point.
pub const HVIF_PATH_FLAG_CLOSED: u8 = 0b0000_0001;

/// Path flag: the path has a command section, and can use HLine and VLine commands.
pub const HVIF_PATH_FLAG_USES_COMMANDS: u8 = 0b0000_0010;

/// Path flag: the path is made up entirely of straight lines.
pub const HVIF_PATH_FLAG_NO_CURVES: u8 = 0b0000_0100;

/// Shape flag: a transformation matrix follows.
pub const HVIF_SHAPE_FLAG_TRANSFORM: u8 = 0b0000_0001;

/// Shape flag: the shape uses hinting.
pub const HVIF_SHAPE_FLAG_HINTING: u8 = 0b0000_0010;

/// Shape flag: a level-of-detail scale range follows.
pub const HVIF_SHAPE_FLAG_LOD_SCALE: u8 = 0b0000_0100;

/// Shape flag: a list of transformers follows.
pub const HVIF_SHAPE_FLAG_HAS_TRANSFORMERS: u8 = 0b0000_1000;

/// Shape flag: a translation follows.
pub const HVIF_SHAPE_FLAG_TRANSLATION: u8 = 0b0001_0000;

/// Flags that modify the nature of a gradient.
#[derive(Debug, Clone, Copy, PartialEq, Eq, Structural)]
pub enum GradientFlags {
    /// The gradient carries a transform.
    Transform,
    /// Stops carry no alpha byte.
    NoAlpha,
    /// Colors are 16-bit.
    Colors16Bit,
    /// Stops carry one gray byte.
    Grays,
}

impl GradientFlags {
    /// The bit of this flag.
    pub open spec fn spec_mask(self) -> u8 {
        match self {
            GradientFlags::Transform => HVIF_GRADIENT_FLAG_TRANSFORM,
            GradientFlags::NoAlpha => HVIF_GRADIENT_FLAG_NO_ALPHA,
            GradientFlags::Colors16Bit => HVIF_GRADIENT_FLAG_COLORS_16_BIT,
            GradientFlags::Grays => HVIF_GRADIENT_FLAG_GRAYS,
        }
    }

    /// The bit of this flag.
    pub fn flag(&self) -> (r: HVIFFlag)
        ensures
            r.0 == self.spec_mask(),
    {
        match self {
            GradientFlags::Transform => HVIFFlag(HVIF_GRADIENT_FLAG_TRANSFORM),
            GradientFlags::NoAlpha => HVIFFlag(HVIF_GRADIENT_FLAG_NO_ALPHA),
            GradientFlags::Colors16Bit => HVIFFlag(HVIF_GRADIENT_FLAG_COLORS_16_BIT),
            GradientFlags::Grays => HVIFFlag(HVIF_GRADIENT_FLAG_GRAYS),
        }
    }
}

/// Flags that modify the nature of a path.
#[derive(Debug, Clone, Copy, PartialEq, Eq, Structural)]
pub enum HVIFPathFlags {
    /// The path's last point is connected to its first point.
    Closed,
    /// The path has a command section, and can use HLine and VLine commands.
    UsesCommands,
    /// The path is made up entirely of straight lines.
    NoCurves,
}

impl HVIFPathFlags {
    /// The bit of this flag.
    pub open spec fn spec_mask(self) -> u8 {
        match self {
            HVIFPathFlags::Closed => HVIF_PATH_FLAG_CLOSED,
            HVIFPathFlags::UsesCommands => HVIF_PATH_FLAG_USES_COMMANDS,
            HVIFPathFlags::NoCurves => HVIF_PATH_FLAG_NO_CURVES,
        }
    }

    /// The bit of this flag.
    pub fn flag(&self) -> (r: HVIFFlag)
        ensures
            r.0 == self.spec_mask(),
    {
        match self {
            HVIFPathFlags::Closed => HVIFFlag(HVIF_PATH_FLAG_CLOSED),
            HVIFPathFlags::UsesCommands => HVIFFlag(HVIF_PATH_FLAG_USES_COMMANDS),
            HVIFPathFlags::NoCurves => HVIFFlag(HVIF_PATH_FLAG_NO_CURVES),
        }
    }
}

/// Flags that modify the nature of a shape.
#[derive(Debug, Clone, Copy, PartialEq, Eq, Structural)]
pub enum HVIFShapeFlags {
    /// A transformation matrix follows.
    Transform,
    /// The shape uses hinting.
    Hinting,
    /// A level-of-detail scale range follows.
    LODScale,
    /// A list of transformers follows.
    HasTransformers,
    /// A translation follows.
    Translation,
}

impl HVIFShapeFlags {
    /// The bit of this flag.
    pub open spec fn spec_mask(self) -> u8 {
        match self {
            HVIFShapeFlags::Transform => HVIF_SHAPE_FLAG_TRANSFORM,
            HVIFShapeFlags::Hinting => HVIF_SHAPE_FLAG_HINTING,
            HVIFShapeFlags::LODScale => HVIF_SHAPE_FLAG_LOD_SCALE,
            HVIFShapeFlags::HasTransformers => HVIF_SHAPE_FLAG_HAS_TRANSFORMERS,
            HVIFShapeFlags::Translation => HVIF_SHAPE_FLAG_TRANSLATION,
        }
    }

    /// The bit of this flag.
    pub fn flag(&self) -> (r: HVIFFlag)
        ensures
            r.0 == self.spec_mask(),
    {
        match self {
            HVIFShapeFlags::Transform => HVIFFlag(HVIF_SHAPE_FLAG_TRANSFORM),
            HVIFShapeFlags::Hinting => HVIFFlag(HVIF_SHAPE_FLAG_HINTING),
            HVIFShapeFlags::LODScale => HVIFFlag(HVIF_SHAPE_FLAG_LOD_SCALE),
            HVIFShapeFlags::HasTransformers => HVIFFlag(HVIF_SHAPE_FLAG_HAS_TRANSFORMERS),
            HVIFShapeFlags::Translation => HVIFFlag(HVIF_SHAPE_FLAG_TRANSLATION),
        }
    }
}

} // verus!
