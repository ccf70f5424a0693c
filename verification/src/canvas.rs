//! The picture that a scene is rendered into.
//!
//! A [`Canvas`] holds an RGB image of the `image` crate with eight bits for
//! each channel. Verus does not look into it: what the contracts say of a
//! canvas goes through two names, [`dimensions`] and [`pixels`], and rests on
//! the contracts of the four private functions below, which are taken on trust
//! from the `image` crate.
use vstd::prelude::*;

verus! {

/// An RGB picture.
#[verifier::external_body]
pub struct Canvas {
    image: image::ImageBuffer<image::Rgb<u8>, Vec<u8>>,
}

/// Width and height of the picture in pixels.
pub uninterp spec fn dimensions(canvas: Canvas) -> (u32, u32);

/// The pixels of the picture: red, green and blue of the pixel in column `x`
/// and row `y` stand at `(x, y)`. Row 0 is the top row.
pub uninterp spec fn pixels(canvas: Canvas) -> Map<(int, int), Seq<u8>>;

/// The places of a picture that is `width` pixels wide and `height` high.
pub open spec fn grid(width: int, height: int) -> Set<(int, int)> {
    Set::new(|p: (int, int)| 0 <= p.0 < width && 0 <= p.1 < height)
}

/// `ImageBuffer::new` of the `image` crate: a new picture of the given width
/// and height in which every channel of every pixel is zero. It panics where
/// the three bytes of each pixel do not all fit into one vector, so that is
/// asked of the caller.
#[verifier::external_body]
pub(crate) fn new_canvas(width: u32, height: u32) -> (canvas: Canvas)
    requires
        3 * width * height <= isize::MAX,
    ensures
        dimensions(canvas) == (width, height),
        pixels(canvas).dom() == grid(width as int, height as int),
        forall|p: (int, int)|
            grid(width as int, height as int).contains(p) ==> #[trigger] pixels(canvas)[p]
                == seq![0u8, 0u8, 0u8],
{
    Canvas { image: image::ImageBuffer::new(width, height) }
}

/// `ImageBuffer::put_pixel` of the `image` crate: the pixel in column `x` and
/// row `y` becomes `color`, and nothing else changes. It panics where `(x, y)`
/// lies outside the picture, so that is asked of the caller.
#[verifier::external_body]
pub(crate) fn put_pixel(canvas: &mut Canvas, x: u32, y: u32, color: [u8; 3])
    requires
        x < dimensions(*old(canvas)).0,
        y < dimensions(*old(canvas)).1,
    ensures
        dimensions(*final(canvas)) == dimensions(*old(canvas)),
        pixels(*final(canvas)) == pixels(*old(canvas)).insert((x as int, y as int), color@),
{
    canvas.image.put_pixel(x, y, image::Rgb(color))
}

/// `ImageBuffer::dimensions` of the `image` crate: width and height.
#[verifier::external_body]
fn stored_dimensions(canvas: &Canvas) -> (d: (u32, u32))
    ensures
        d == dimensions(*canvas),
{
    canvas.image.dimensions()
}

/// `ImageBuffer::get_pixel` of the `image` crate: the pixel in column `x` and
/// row `y`. It panics where `(x, y)` lies outside the picture, so that is asked
/// of the caller.
#[verifier::external_body]
fn stored_pixel(canvas: &Canvas, x: u32, y: u32) -> (color: [u8; 3])
    requires
        x < dimensions(*canvas).0,
        y < dimensions(*canvas).1,
    ensures
        color@ == pixels(*canvas)[(x as int, y as int)],
{
    canvas.image.get_pixel(x, y).0
}

impl Canvas {
    /// Red, green and blue of the pixel in column `x` and row `y`, or `None`
    /// where the picture has no such pixel.
    pub fn get(&self, x: u32, y: u32) -> (r: Option<[u8; 3]>)
        ensures
            r is Some <==> x < dimensions(*self).0 && y < dimensions(*self).1,
            r matches Some(color) ==> color@ == pixels(*self)[(x as int, y as int)],
    {
        let (width, height) = stored_dimensions(self);
        if x < width && y < height {
            Some(stored_pixel(self, x, y))
        } else {
            None
        }
    }
}

} // verus!
