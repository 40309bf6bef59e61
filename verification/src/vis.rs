//! The aim-direction sweep visualization.
//!
//! Sweeps every target coordinate of a fixed 256 by 240 canvas through the
//! classifier, with the origin fixed at (127, 119), and paints each pixel
//! with the palette color of the resulting direction code. The pixel
//! buffer itself comes from the `image` crate, held behind trusted
//! declarations.

use vstd::prelude::*;
use crate::aim::aim;
use crate::aim::spec_aim;

verus! {

/// An RGBA pixel buffer of the `image` crate. The buffer type itself
/// cannot be declared to the verifier (its generics carry the crate's
/// `Pixel` trait bound), so it is held opaquely in this struct; the `buf`
/// field is for the unverified rendering shell, which writes it out.
#[verifier::external_body]
pub struct AimImage {
    pub buf: image::RgbaImage,
}

/// The width and height a pixel buffer was made with.
pub uninterp spec fn rgba_dims(img: AimImage) -> (u32, u32);

/// What a pixel buffer holds: each coordinate pair inside the dimensions
/// maps to the four channel bytes of its pixel.
pub uninterp spec fn rgba_pixels(img: AimImage) -> Map<(u32, u32), (u8, u8, u8, u8)>;

/// Relies on `image::ImageBuffer::new`: makes a `width` by `height` buffer
/// with every pixel zeroed. It panics when the byte length overflows
/// `usize`, so such dimensions are excluded.
#[verifier::external_body]
fn new_rgba_image(width: u32, height: u32) -> (img: AimImage)
    requires
        width as int * height as int * 4 <= usize::MAX as int,
    ensures
        rgba_dims(img) == (width, height),
        rgba_pixels(img).dom() == Set::new(|c: (u32, u32)| c.0 < width && c.1 < height),
        forall|c: (u32, u32)|
            c.0 < width && c.1 < height ==> rgba_pixels(img)[c] == (0u8, 0u8, 0u8, 0u8),
{
    AimImage { buf: image::RgbaImage::new(width, height) }
}

/// Relies on `image::ImageBuffer::put_pixel`: overwrites the pixel at
/// `(x, y)` with the given channel bytes. It panics outside the
/// dimensions, so those coordinates are excluded.
#[verifier::external_body]
fn put_pixel_rgba(img: &mut AimImage, x: u32, y: u32, px: (u8, u8, u8, u8))
    requires
        x < rgba_dims(*old(img)).0,
        y < rgba_dims(*old(img)).1,
    ensures
        rgba_dims(*final(img)) == rgba_dims(*old(img)),
        rgba_pixels(*final(img)) == rgba_pixels(*old(img)).insert((x, y), px),
{
    img.buf.put_pixel(x, y, image::Rgba([px.0, px.1, px.2, px.3]));
}

/// The fixed 16-color palette: one display color per direction code, as
/// opaque RGBA channel bytes.
pub const AIM_COLORS: [(u8, u8, u8, u8); 16] = [
    (0xFF, 0x9D, 0x00, 0xFF),
    (0x00, 0x00, 0xFF, 0xFF),
    (0x20, 0xE2, 0xFF, 0xFF),
    (0x00, 0xFF, 0x04, 0xFF),
    (0xBC, 0x04, 0x6C, 0xFF),
    (0x3C, 0x73, 0x00, 0xFF),
    (0x05, 0x88, 0xFF, 0xFF),
    (0x67, 0x2A, 0x00, 0xFF),
    (0xFF, 0xC6, 0xF5, 0xFF),
    (0xF3, 0xFF, 0x00, 0xFF),
    (0xFF, 0xF7, 0xB3, 0xFF),
    (0x00, 0xFF, 0xAF, 0xFF),
    (0x00, 0x46, 0x4A, 0xFF),
    (0xFF, 0x00, 0x29, 0xFF),
    (0x15, 0x00, 0x47, 0xFF),
    (0xFF, 0x00, 0xF5, 0xFF),
];

/// The palette color of direction code `code`.
pub open spec fn spec_palette(code: u8) -> (u8, u8, u8, u8) {
    AIM_COLORS@[code as int]
}

/// Look the palette color of a direction code up.
pub fn palette_color(code: u8) -> (c: (u8, u8, u8, u8))
    requires
        code < 16,
    ensures
        c == spec_palette(code),
{
    AIM_COLORS[code as usize]
}

/// The color the sweep assigns to canvas coordinate `(x, y)`: the palette
/// color of the direction code from the fixed origin (127, 119) to it.
pub open spec fn spec_sweep_pixel(x: int, y: int) -> (u8, u8, u8, u8) {
    spec_palette(spec_aim(127, 119, x, y))
}

/// Render the direction map: a 256 by 240 image whose every pixel is the
/// palette color of the direction code from the fixed origin (127, 119)
/// to that coordinate.
pub fn visualize() -> (img: AimImage)
    ensures
        rgba_dims(img) == (256u32, 240u32),
        forall|c: (u32, u32)|
            c.0 < 256 && c.1 < 240 ==> rgba_pixels(img)[c] == spec_sweep_pixel(
                c.0 as int,
                c.1 as int,
            ),
{
    let mut img = new_rgba_image(256, 240);
    let mut x: u32 = 0;
    while x < 256
        invariant
            x <= 256,
            rgba_dims(img) == (256u32, 240u32),
            forall|c: (u32, u32)|
                c.0 < x && c.1 < 240 ==> rgba_pixels(img)[c] == spec_sweep_pixel(
                    c.0 as int,
                    c.1 as int,
                ),
        decreases 256 - x,
    {
        let mut y: u32 = 0;
        while y < 240
            invariant
                x < 256,
                y <= 240,
                rgba_dims(img) == (256u32, 240u32),
                forall|c: (u32, u32)|
                    ((c.0 < x && c.1 < 240) || (c.0 == x && c.1 < y)) ==> rgba_pixels(img)[c]
                        == spec_sweep_pixel(c.0 as int, c.1 as int),
            decreases 240 - y,
        {
            let code = aim((127, 119), (x as i32, y as i32));
            let col = palette_color(code);
            put_pixel_rgba(&mut img, x, y, col);
            y += 1;
        }
        x += 1;
    }
    img
}

} // verus!
