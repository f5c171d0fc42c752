//! Output image assembly.
//!
//! A finished view is a grid of 24-bit colours; turning it into a BMP
//! bitmap is done by the `bmp` crate behind the two trusted wrappers
//! below, and the assembly loop is verified against them: the produced
//! image holds exactly the grid's pixels.  Writing the bitmap to disk
//! stays outside this crate.
use vstd::prelude::*;

verus! {

/// One pixel colour: red, green, blue.
pub type Color = (u8, u8, u8);

/// Dimensions (width, height) that a bitmap was created with.
pub uninterp spec fn image_dims(img: &bmp::Image) -> (u32, u32);

/// The pixel contents of a bitmap, keyed by (x, y).
pub uninterp spec fn image_pixels(img: &bmp::Image) -> Map<(u32, u32), Color>;

#[verifier::external_type_specification]
#[verifier::external_body]
pub struct ExImage(bmp::Image);

/// A width-by-height rectangle of black pixels.
pub open spec fn black_rect(width: u32, height: u32) -> Map<(u32, u32), Color> {
    Map::<(u32, u32), Color>::new(
        |xy: (u32, u32)| xy.0 < width && xy.1 < height,
        |xy: (u32, u32)| (0u8, 0u8, 0u8),
    )
}

/// Relies on bmp::Image::new: creates a width-by-height image whose
/// every pixel is black.  The dimension bounds keep the crate's
/// internal 32-bit size arithmetic (pixel count, padded row size times
/// height) in range.
#[verifier::external_body]
fn image_new(width: u32, height: u32) -> (img: bmp::Image)
    requires
        width <= 0x7FFF,
        height <= 0x7FFF,
    ensures
        image_dims(&img) == (width, height),
        image_pixels(&img) == black_rect(width, height),
{
    bmp::Image::new(width, height)
}

/// Relies on bmp::Image::set_pixel: overwrites the pixel at (x, y).
/// The coordinates must lie inside the image, or the call panics.
#[verifier::external_body]
fn image_set_pixel(img: &mut bmp::Image, x: u32, y: u32, color: Color)
    requires
        x < image_dims(&*old(img)).0,
        y < image_dims(&*old(img)).1,
        image_dims(&*old(img)).0 * image_dims(&*old(img)).1 <= u32::MAX,
    ensures
        image_dims(&*final(img)) == image_dims(&*old(img)),
        image_pixels(&*final(img)) == image_pixels(&*old(img)).insert((x, y), color),
{
    img.set_pixel(x, y, bmp::Pixel::new(color.0, color.1, color.2))
}

/// The rendered pixel grid of a view: `pixels[x][y]` is the colour of
/// column `x`, row `y`.
pub struct ColorArray {
    pub pixels: Vec<Vec<Color>>,
    pub width: u32,
    pub height: u32,
}

impl ColorArray {
    pub open spec fn wf(self) -> bool {
        &&& self.pixels@.len() == self.width
        &&& forall|x: int|
            0 <= x < self.pixels@.len() ==> (#[trigger] self.pixels@[x])@.len() == self.height
    }

    pub fn new(pixels: Vec<Vec<Color>>, width: u32, height: u32) -> (c: ColorArray)
        requires
            pixels@.len() == width,
            forall|x: int|
                0 <= x < pixels@.len() ==> (#[trigger] pixels@[x])@.len() == height,
        ensures
            c.pixels == pixels,
            c.width == width,
            c.height == height,
            c.wf(),
    {
        ColorArray { pixels, width, height }
    }

    /// The colour of column `x`, row `y`.
    pub fn get(&self, x: u32, y: u32) -> (c: Color)
        requires
            self.wf(),
            x < self.width,
            y < self.height,
        ensures
            c == self.pixels@[x as int]@[y as int],
    {
        self.pixels[x as usize][y as usize]
    }

    /// Assemble the bitmap: the image has this grid's dimensions and
    /// every pixel inside them equals the grid's colour there.
    pub fn to_image(&self) -> (img: bmp::Image)
        requires
            self.wf(),
            self.width <= 0x7FFF,
            self.height <= 0x7FFF,
        ensures
            image_dims(&img) == (self.width, self.height),
            forall|a: u32, b: u32|
                a < self.width && b < self.height ==> image_pixels(&img).contains_key((a, b))
                    && image_pixels(&img)[(a, b)] == self.pixels@[a as int]@[b as int],
    {
        proof {
            assert(self.width * self.height <= u32::MAX) by (nonlinear_arith)
                requires
                    self.width <= 0x7FFF,
                    self.height <= 0x7FFF,
            ;
        }
        let mut img = image_new(self.width, self.height);
        let mut x: u32 = 0;
        while x < self.width
            invariant
                self.wf(),
                self.width * self.height <= u32::MAX,
                x <= self.width,
                image_dims(&img) == (self.width, self.height),
                forall|p: (u32, u32)|
                    image_pixels(&img).contains_key(p) <==> p.0 < self.width && p.1
                        < self.height,
                forall|a: u32, b: u32|
                    a < x && b < self.height ==> image_pixels(&img)[(a, b)]
                        == self.pixels@[a as int]@[b as int],
            decreases self.width - x,
        {
            let column: &Vec<Color> = &self.pixels[x as usize];
            let mut y: u32 = 0;
            while y < self.height
                invariant
                    self.wf(),
                    self.width * self.height <= u32::MAX,
                    x < self.width,
                    y <= self.height,
                    column@ == self.pixels@[x as int]@,
                    image_dims(&img) == (self.width, self.height),
                    forall|p: (u32, u32)|
                        image_pixels(&img).contains_key(p) <==> p.0 < self.width && p.1
                            < self.height,
                    forall|a: u32, b: u32|
                        a < x && b < self.height ==> image_pixels(&img)[(a, b)]
                            == self.pixels@[a as int]@[b as int],
                    forall|b: u32|
                        b < y ==> image_pixels(&img)[(x, b)] == self.pixels@[x as int]@[
                        b as int],
                decreases self.height - y,
            {
                let color: Color = column[y as usize];
                image_set_pixel(&mut img, x, y, color);
                y = y + 1;
            }
            x = x + 1;
        }
        img
    }
}

} // verus!
