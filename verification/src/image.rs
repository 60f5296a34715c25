//! The synthetic RGBA test image.
//!
//! Every frame the demo regenerates a procedural texture whose pixels are a
//! pure function of their coordinates: red rises with the column, green with
//! the row, blue falls with the column, and the alpha channel is a constant
//! half-opacity. The generator below is verified to produce exactly those
//! bytes for every pixel.

use vstd::prelude::*;

verus! {

/// The red byte of the synthetic image at column `x`.
pub open spec fn image_red(x: int) -> u8 {
    (x % 256) as u8
}

/// The green byte of the synthetic image at row `y`.
pub open spec fn image_green(y: int) -> u8 {
    (y % 256) as u8
}

/// The blue byte of the synthetic image at column `x`: the bitwise inverse of
/// the red byte.
pub open spec fn image_blue(x: int) -> u8 {
    (255 - x % 256) as u8
}

/// The constant alpha byte of the synthetic image.
pub open spec fn image_alpha() -> u8 {
    127
}

/// The four bytes stored for the pixel at `(x, y)` all have their specified
/// values in `s`, an RGBA buffer of row width `width`.
pub open spec fn pixel_ok(s: Seq<u8>, width: int, x: int, y: int) -> bool {
    let ix = (y * width + x) * 4;
    &&& s[ix] == image_red(x)
    &&& s[ix + 1] == image_green(y)
    &&& s[ix + 2] == image_blue(x)
    &&& s[ix + 3] == image_alpha()
}

/// Generate the synthetic RGBA image, row by row.
///
/// The result holds `width * height` pixels of four bytes each, and the bytes
/// of every pixel are exactly the pure function of its coordinates given by
/// `pixel_ok`.
pub fn make_image_data(width: usize, height: usize) -> (result: Vec<u8>)
    requires
        width * height * 4 <= usize::MAX,
    ensures
        result@.len() == width * height * 4,
        forall|x: int, y: int|
            0 <= x < width && 0 <= y < height ==> pixel_ok(result@, width as int, x, y),
{
    let mut result: Vec<u8> = Vec::new();
    let mut y: usize = 0;
    while y < height
        invariant
            y <= height,
            width * height * 4 <= usize::MAX,
            result@.len() == y * width * 4,
            forall|px: int, py: int|
                0 <= px < width && 0 <= py < y ==> pixel_ok(result@, width as int, px, py),
        decreases height - y,
    {
        proof {
            assert(y * width + width <= height * width) by (nonlinear_arith)
                requires y < height, 0 <= width;
            assert(height * width * 4 == width * height * 4) by (nonlinear_arith);
        }
        let mut x: usize = 0;
        while x < width
            invariant
                x <= width,
                y < height,
                width * height * 4 <= usize::MAX,
                result@.len() == (y * width + x) * 4,
                y * width + width <= height * width,
                height * width * 4 == width * height * 4,
                forall|px: int, py: int|
                    0 <= px < width && 0 <= py < y ==> pixel_ok(result@, width as int, px, py),
                forall|px: int|
                    0 <= px < x ==> pixel_ok(result@, width as int, px, y as int),
            decreases width - x,
        {
            let ghost pre = result@;
            let red: u8 = (x % 256) as u8;
            let green: u8 = (y % 256) as u8;
            result.push(red);
            result.push(green);
            result.push(255 - red);
            result.push(image_alpha_byte());
            proof {
                assert(red == image_red(x as int));
                assert(green == image_green(y as int));
                assert(255 - red == image_blue(x as int));
                assert(pixel_ok(result@, width as int, x as int, y as int));
                assert forall|px: int, py: int|
                    0 <= px < width && 0 <= py < y implies pixel_ok(result@, width as int, px, py) by {
                    assert(pixel_ok(pre, width as int, px, py));
                    assert((py * width + px) * 4 + 4 <= pre.len()) by (nonlinear_arith)
                        requires
                            pre.len() == (y * width + x) * 4,
                            0 <= px < width,
                            0 <= py < y,
                            0 <= x;
                }
                assert forall|px: int|
                    0 <= px < x implies pixel_ok(result@, width as int, px, y as int) by {
                    assert(pixel_ok(pre, width as int, px, y as int));
                }
            }
            x = x + 1;
        }
        y = y + 1;
        proof {
            assert((y - 1) * width + width == y * width) by (nonlinear_arith);
        }
    }
    proof {
        assert(y * width * 4 == width * height * 4) by (nonlinear_arith)
            requires y == height;
    }
    result
}

/// The constant alpha byte as an executable value.
fn image_alpha_byte() -> (a: u8)
    ensures
        a == image_alpha(),
{
    127
}

} // verus!
