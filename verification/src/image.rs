//! The two images by which a cell is drawn: a black square for an empty
//! cell and a red square for an occupied one.

use vstd::prelude::*;

verus! {

/// The bitmap type of the `bmp` crate. Nothing inside it is visible here;
/// what it holds is spoken of through `image_pixels`.
#[verifier::external_type_specification]
#[verifier::external_body]
pub struct ExImage(bmp::Image);

/// What an image holds: for each column `x` and row `y` of the image, under
/// the key `(x, y)`, the red, green and blue parts of the pixel that
/// `bmp::Image::get_pixel(x, y)` returns. Positions outside the image are
/// not keys.
pub uninterp spec fn image_pixels(image: bmp::Image) -> Map<(u32, u32), (u8, u8, u8)>;

/// A colour by its red, green and blue parts.
#[derive(Clone, Copy, Debug, PartialEq, Eq, Structural)]
pub struct Color {
    pub r: u8,
    pub g: u8,
    pub b: u8,
}

impl Color {
    /// The three parts as a triple.
    pub open spec fn rgb(self) -> (u8, u8, u8) {
        (self.r, self.g, self.b)
    }
}

/// The side of a cell's image, in pixels.
pub const PIXEL_SIZE: u32 = 256;

/// The largest side for which an image is made here.
pub const MAX_SIDE: u32 = 16384;

/// The colour of an empty cell.
pub open spec fn spec_black() -> Color {
    Color { r: 0, g: 0, b: 0 }
}

/// The colour of an occupied cell.
pub open spec fn spec_red() -> Color {
    Color { r: 255, g: 0, b: 0 }
}

/// Whether `pixels` has exactly the positions of an image of `width`
/// columns and `height` rows.
pub open spec fn has_size(pixels: Map<(u32, u32), (u8, u8, u8)>, width: u32, height: u32) -> bool {
    forall|x: u32, y: u32| #[trigger] pixels.contains_key((x, y)) <==> x < width && y < height
}

/// Whether every pixel of the first `rows` rows of `pixels` has the colour
/// `color`.
pub open spec fn rows_have_color(
    pixels: Map<(u32, u32), (u8, u8, u8)>,
    rows: u32,
    color: Color,
) -> bool {
    forall|x: u32, y: u32|
        #![trigger pixels.contains_key((x, y))]
        #![trigger pixels[(x, y)]]
        pixels.contains_key((x, y)) && y < rows ==> pixels[(x, y)] == color.rgb()
}

/// Whether `pixels` is a square of side `side` with every pixel of the
/// colour `color`.
pub open spec fn is_solid_square(
    pixels: Map<(u32, u32), (u8, u8, u8)>,
    side: u32,
    color: Color,
) -> bool {
    has_size(pixels, side, side) && rows_have_color(pixels, side, color)
}

/// Makes an image with `bmp::Image::new`: it has `width` columns and
/// `height` rows, and every pixel of it is black. Sides above `MAX_SIDE`
/// are left out, since the crate computes the size of the file in 32 bits.
#[verifier::external_body]
fn new_image(width: u32, height: u32) -> (image: bmp::Image)
    requires
        width <= MAX_SIDE,
        height <= MAX_SIDE,
    ensures
        has_size(image_pixels(image), width, height),
        rows_have_color(image_pixels(image), height, spec_black()),
{
    bmp::Image::new(width, height)
}

/// Sets one pixel with `bmp::Image::set_pixel`: the pixel at column `x` and
/// row `y` gets the colour `color`, and every other pixel stays as it was.
/// The position has to lie inside the image.
#[verifier::external_body]
fn set_pixel(image: &mut bmp::Image, x: u32, y: u32, color: Color)
    requires
        image_pixels(*old(image)).contains_key((x, y)),
    ensures
        image_pixels(*final(image)) == image_pixels(*old(image)).insert((x, y), color.rgb()),
{
    image.set_pixel(x, y, bmp::Pixel::new(color.r, color.g, color.b));
}

/// The colour of an empty cell: black.
pub fn black() -> (color: Color)
    ensures
        color == spec_black(),
{
    Color { r: 0, g: 0, b: 0 }
}

/// The colour of an occupied cell: red.
pub fn red() -> (color: Color)
    ensures
        color == spec_red(),
{
    Color { r: 255, g: 0, b: 0 }
}

/// A square image of side `side` with every pixel of the colour `color`.
pub fn solid_image(side: u32, color: Color) -> (image: bmp::Image)
    requires
        side <= MAX_SIDE,
    ensures
        is_solid_square(image_pixels(image), side, color),
{
    let mut image = new_image(side, side);
    let mut y: u32 = 0;
    while y < side
        invariant
            y <= side,
            has_size(image_pixels(image), side, side),
            rows_have_color(image_pixels(image), y, color),
        decreases side - y,
    {
        let mut x: u32 = 0;
        while x < side
            invariant
                x <= side,
                y < side,
                has_size(image_pixels(image), side, side),
                rows_have_color(image_pixels(image), y, color),
                forall|i: u32|
                    i < x ==> #[trigger] image_pixels(image)[(i, y)] == color.rgb(),
            decreases side - x,
        {
            assert(image_pixels(image).contains_key((x, y)));
            set_pixel(&mut image, x, y, color);
            x = x + 1;
        }
        y = y + 1;
    }
    image
}

/// The image of an empty cell: a black square of side `PIXEL_SIZE`.
pub fn blank_image() -> (image: bmp::Image)
    ensures
        is_solid_square(image_pixels(image), PIXEL_SIZE, spec_black()),
{
    solid_image(PIXEL_SIZE, black())
}

/// The image of an occupied cell: a red square of side `PIXEL_SIZE`.
pub fn occupied_image() -> (image: bmp::Image)
    ensures
        is_solid_square(image_pixels(image), PIXEL_SIZE, spec_red()),
{
    solid_image(PIXEL_SIZE, red())
}

/// The two images, made once and used for every cell that is drawn.
pub struct CellImages {
    pub blank: bmp::Image,
    pub occupied: bmp::Image,
}

impl CellImages {
    /// Whether the two images are what they should be: a black square and
    /// a red square, both of side `PIXEL_SIZE`.
    pub open spec fn wf(&self) -> bool {
        &&& is_solid_square(image_pixels(self.blank), PIXEL_SIZE, spec_black())
        &&& is_solid_square(image_pixels(self.occupied), PIXEL_SIZE, spec_red())
    }

    /// Makes the two images.
    pub fn new() -> (images: CellImages)
        ensures
            images.wf(),
    {
        CellImages { blank: blank_image(), occupied: occupied_image() }
    }

    /// The image by which a cell is drawn: the red one if it is occupied,
    /// the black one if it is not.
    pub fn image_for(&self, occupied: bool) -> (image: &bmp::Image)
        ensures
            *image == if occupied {
                self.occupied
            } else {
                self.blank
            },
    {
        if occupied {
            &self.occupied
        } else {
            &self.blank
        }
    }
}

} // verus!
