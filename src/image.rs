//! Whole icons: the magic, then counted lists of styles, paths and shapes.
use vstd::prelude::*;

use crate::error::{DecodeError, ParseResult};
use crate::path::{hvif_path, spec_path, HVIFPath, PathModel};
use crate::reader::{
    at, within, lemma_repeat_err, lemma_views_push, read_u8, repeat, spec_byte, views, views_at,
};
use crate::shape::{hvif_shape, spec_shape, HVIFShape, ShapeModel};
use crate::style::{hvif_style, spec_style, HVIFStyle, StyleModel};

verus! {

/// A decoded HVIF image.
#[derive(Debug)]
pub struct HVIFImage {
    /// All styles belonging to this image
    pub styles: Vec<HVIFStyle>,
    /// All paths belonging to this image
    pub paths: Vec<HVIFPath>,
    /// All shapes belonging to this image
    pub shapes: Vec<HVIFShape>,
}

/// What an image holds.
pub struct ImageModel {
    /// The styles, in order
    pub styles: Seq<StyleModel>,
    /// The paths, in order
    pub paths: Seq<PathModel>,
    /// The shapes, in order
    pub shapes: Seq<ShapeModel>,
}

impl View for HVIFImage {
    type V = ImageModel;

    open spec fn view(&self) -> ImageModel {
        ImageModel {
            styles: views(self.styles@),
            paths: views(self.paths@),
            shapes: views(self.shapes@),
        }
    }
}

impl ImageModel {
    /// Whether a shape names a style and paths that the image holds.
    pub open spec fn shape_references_valid(self, shape: ShapeModel) -> bool {
        &&& shape.style_index < self.styles.len()
        &&& forall|j: int| 0 <= j < shape.path_indices.len() ==> #[trigger] shape.path_indices[j] < self.paths.len()
    }

    /// Whether every shape names a style and paths that the image holds.
    pub open spec fn references_valid(self) -> bool {
        forall|i: int| 0 <= i < self.shapes.len() ==> self.shape_references_valid(#[trigger] self.shapes[i])
    }
}

impl HVIFImage {
    /// Whether every shape names a style and paths that the image holds. The decoder does
    /// not require this.
    pub fn references_valid(&self) -> (r: bool)
        ensures
            r == self@.references_valid(),
    {
        let n_styles = self.styles.len();
        let n_paths = self.paths.len();
        let mut i: usize = 0;
        while i < self.shapes.len()
            invariant
                i <= self.shapes@.len(),
                n_styles == self@.styles.len(),
                n_paths == self@.paths.len(),
                forall|k: int| 0 <= k < i ==> self@.shape_references_valid(#[trigger] self@.shapes[k]),
            decreases self.shapes@.len() - i,
        {
            let shape = &self.shapes[i];
            assert(self@.shapes[i as int] == shape@);
            if shape.style_index as usize >= n_styles {
                assert(!self@.shape_references_valid(self@.shapes[i as int]));
                return false;
            }
            let mut j: usize = 0;
            while j < shape.path_indices.len()
                invariant
                    j <= shape.path_indices@.len(),
                    n_paths == self@.paths.len(),
                    i < self@.shapes.len(),
                    self@.shapes[i as int] == shape@,
                    forall|k: int| 0 <= k < j ==> #[trigger] shape.path_indices@[k] < self@.paths.len(),
                decreases shape.path_indices@.len() - j,
            {
                if shape.path_indices[j] as usize >= n_paths {
                    assert(!self@.shape_references_valid(self@.shapes[i as int])) by {
                        assert(shape@.path_indices[j as int] >= self@.paths.len());
                    }
                    return false;
                }
                j = j + 1;
            }
            i = i + 1;
        }
        true
    }
}

/// The four bytes that open every image: `ncif`.
pub open spec fn magic() -> Seq<u8> {
    seq![0x6E, 0x63, 0x69, 0x66]
}

/// The element reader of the style list.
pub open spec fn style_item(d: Seq<u8>) -> spec_fn(int, int) -> ParseResult<StyleModel> {
    |i: int, p: int| spec_style(d, p)
}

/// The element reader of the path list.
pub open spec fn path_item(d: Seq<u8>) -> spec_fn(int, int) -> ParseResult<PathModel> {
    |i: int, p: int| spec_path(d, p)
}

/// The element reader of the shape list.
pub open spec fn shape_item(d: Seq<u8>) -> spec_fn(int, int) -> ParseResult<ShapeModel> {
    |i: int, p: int| spec_shape(d, p)
}

/// Reads a count byte, then that many elements.
pub open spec fn spec_list<T>(d: Seq<u8>, pos: int, item: spec_fn(int, int) -> ParseResult<T>) -> ParseResult<Seq<T>> {
    match spec_byte(d, pos) {
        Err(e) => Err(e),
        Ok((n, p)) => repeat(item, n as nat, p),
    }
}

/// Reads the magic.
pub open spec fn spec_magic(d: Seq<u8>) -> ParseResult<()> {
    if d.len() < 4 {
        Err(DecodeError::UnexpectedEof)
    } else if d.subrange(0, 4) != magic() {
        Err(DecodeError::BadMagic)
    } else {
        Ok(((), 4))
    }
}

/// Reads an image: the magic, then the styles, the paths and the shapes. Bytes after the
/// shapes are left unread.
pub open spec fn spec_image(d: Seq<u8>) -> ParseResult<ImageModel> {
    match spec_magic(d) {
        Err(e) => Err(e),
        Ok((_, p0)) => match spec_list(d, p0, style_item(d)) {
            Err(e) => Err(e),
            Ok((styles, p1)) => match spec_list(d, p1, path_item(d)) {
                Err(e) => Err(e),
                Ok((paths, p2)) => match spec_list(d, p2, shape_item(d)) {
                    Err(e) => Err(e),
                    Ok((shapes, p3)) => Ok((ImageModel { styles, paths, shapes }, p3)),
                },
            },
        },
    }
}

/// Reads a count byte, then that many styles.
pub fn hvif_styles(input: &[u8], pos: usize) -> (r: Result<(Vec<HVIFStyle>, usize), DecodeError>)
    requires
        pos <= input@.len(),
    ensures
        within(r, input@),
        views_at(r) == spec_list(input@, pos as int, style_item(input@)),
{
    let (count, p0) = match read_u8(input, pos) {
        Ok(v) => v,
        Err(e) => return Err(e),
    };
    let ghost item = style_item(input@);
    let mut styles: Vec<HVIFStyle> = Vec::new();
    let mut p: usize = p0;
    let mut i: u8 = 0;
    assert(views(styles@) =~= Seq::<StyleModel>::empty());
    while i < count
        invariant
            p <= input@.len(),
            i <= count,
            item == style_item(input@),
            spec_byte(input@, pos as int) == Ok::<(u8, int), DecodeError>((count, p0 as int)),
            repeat(item, i as nat, p0 as int) == Ok::<(Seq<StyleModel>, int), DecodeError>((views(styles@), p as int)),
        decreases count - i,
    {
        match hvif_style(input, p) {
            Ok((s, q)) => {
                proof {
                    lemma_views_push(styles@, s);
                }
                styles.push(s);
                p = q;
            },
            Err(e) => {
                proof {
                    lemma_repeat_err(item, (i + 1) as nat, count as nat, p0 as int);
                }
                return Err(e);
            },
        }
        i = i + 1;
    }
    Ok((styles, p))
}

/// Reads a count byte, then that many paths.
pub fn hvif_paths(input: &[u8], pos: usize) -> (r: Result<(Vec<HVIFPath>, usize), DecodeError>)
    requires
        pos <= input@.len(),
    ensures
        within(r, input@),
        views_at(r) == spec_list(input@, pos as int, path_item(input@)),
{
    let (count, p0) = match read_u8(input, pos) {
        Ok(v) => v,
        Err(e) => return Err(e),
    };
    let ghost item = path_item(input@);
    let mut paths: Vec<HVIFPath> = Vec::new();
    let mut p: usize = p0;
    let mut i: u8 = 0;
    assert(views(paths@) =~= Seq::<PathModel>::empty());
    while i < count
        invariant
            p <= input@.len(),
            i <= count,
            item == path_item(input@),
            spec_byte(input@, pos as int) == Ok::<(u8, int), DecodeError>((count, p0 as int)),
            repeat(item, i as nat, p0 as int) == Ok::<(Seq<PathModel>, int), DecodeError>((views(paths@), p as int)),
        decreases count - i,
    {
        match hvif_path(input, p) {
            Ok((s, q)) => {
                proof {
                    lemma_views_push(paths@, s);
                }
                paths.push(s);
                p = q;
            },
            Err(e) => {
                proof {
                    lemma_repeat_err(item, (i + 1) as nat, count as nat, p0 as int);
                }
                return Err(e);
            },
        }
        i = i + 1;
    }
    Ok((paths, p))
}

/// Reads a count byte, then that many shapes.
pub fn hvif_shapes(input: &[u8], pos: usize) -> (r: Result<(Vec<HVIFShape>, usize), DecodeError>)
    requires
        pos <= input@.len(),
    ensures
        within(r, input@),
        views_at(r) == spec_list(input@, pos as int, shape_item(input@)),
{
    let (count, p0) = match read_u8(input, pos) {
        Ok(v) => v,
        Err(e) => return Err(e),
    };
    let ghost item = shape_item(input@);
    let mut shapes: Vec<HVIFShape> = Vec::new();
    let mut p: usize = p0;
    let mut i: u8 = 0;
    assert(views(shapes@) =~= Seq::<ShapeModel>::empty());
    while i < count
        invariant
            p <= input@.len(),
            i <= count,
            item == shape_item(input@),
            spec_byte(input@, pos as int) == Ok::<(u8, int), DecodeError>((count, p0 as int)),
            repeat(item, i as nat, p0 as int) == Ok::<(Seq<ShapeModel>, int), DecodeError>((views(shapes@), p as int)),
        decreases count - i,
    {
        match hvif_shape(input, p) {
            Ok((s, q)) => {
                proof {
                    lemma_views_push(shapes@, s);
                }
                shapes.push(s);
                p = q;
            },
            Err(e) => {
                proof {
                    lemma_repeat_err(item, (i + 1) as nat, count as nat, p0 as int);
                }
                return Err(e);
            },
        }
        i = i + 1;
    }
    Ok((shapes, p))
}

/// Reads the magic `ncif` at the start of the input.
pub fn hvif_magic_number(input: &[u8]) -> (r: Result<((), usize), DecodeError>)
    ensures
        within(r, input@),
        at(r) == spec_magic(input@),
{
    if input.len() < 4 {
        return Err(DecodeError::UnexpectedEof);
    }
    if input[0] == 0x6E && input[1] == 0x63 && input[2] == 0x69 && input[3] == 0x66 {
        assert(input@.subrange(0, 4) =~= magic());
        Ok(((), 4))
    } else {
        assert(input@.subrange(0, 4) != magic()) by {
            if input@.subrange(0, 4) == magic() {
                assert(input@.subrange(0, 4)[0] == input@[0]);
                assert(input@.subrange(0, 4)[1] == input@[1]);
                assert(input@.subrange(0, 4)[2] == input@[2]);
                assert(input@.subrange(0, 4)[3] == input@[3]);
            }
        }
        Err(DecodeError::BadMagic)
    }
}

/// Decodes an image and returns it with the number of bytes left unread after it.
pub fn hvif_image(input: &[u8]) -> (r: Result<(HVIFImage, usize), DecodeError>)
    ensures
        match r {
            Ok((image, unread)) => spec_image(input@) == Ok::<(ImageModel, int), DecodeError>(
                (image@, input@.len() - unread),
            ),
            Err(e) => spec_image(input@) == Err::<(ImageModel, int), DecodeError>(e),
        },
{
    let p = match hvif_magic_number(input) {
        Ok((_, p)) => p,
        Err(e) => return Err(e),
    };
    let (styles, p) = match hvif_styles(input, p) {
        Ok(v) => v,
        Err(e) => return Err(e),
    };
    let (paths, p) = match hvif_paths(input, p) {
        Ok(v) => v,
        Err(e) => return Err(e),
    };
    let (shapes, p) = match hvif_shapes(input, p) {
        Ok(v) => v,
        Err(e) => return Err(e),
    };
    Ok((HVIFImage { styles, paths, shapes }, input.len() - p))
}

/// Decodes an image; bytes after it are ignored.
pub fn decode(bytes: &[u8]) -> (r: Result<HVIFImage, DecodeError>)
    ensures
        match r {
            Ok(image) => spec_image(bytes@) is Ok && image@ == spec_image(bytes@)->Ok_0.0,
            Err(e) => spec_image(bytes@) == Err::<(ImageModel, int), DecodeError>(e),
        },
{
    match hvif_image(bytes) {
        Ok((image, _)) => Ok(image),
        Err(e) => Err(e),
    }
}

} // verus!
