use vstd::prelude::*;

verus! {

/// The channel of an RGBA pixel that lands in channel `c` of a GDI pixel,
/// whose bytes are ordered blue, green, red, alpha.
pub open spec fn source_channel(c: int) -> int {
    if c == 0 {
        2
    } else if c == 1 {
        1
    } else if c == 2 {
        0
    } else {
        3
    }
}

/// Where channel `c` of pixel (`x`, `y`) sits in a top-down RGBA buffer.
pub open spec fn rgba_index(w: int, x: int, y: int, c: int) -> int {
    4 * (y * w + x) + c
}

/// Where channel `c` of pixel (`x`, `y`) sits in a bottom-up bitmap of
/// height `h`: its rows run from the bottom of the image to the top.
pub open spec fn dib_index(w: int, h: int, x: int, y: int, c: int) -> int {
    4 * ((h - 1 - y) * w + x) + c
}

/// `dib` holds the pixels of the `w` by `h` RGBA image `rgba` as a 32-bit
/// bottom-up GDI bitmap: rows in reverse order, red and blue swapped.
pub open spec fn is_dib_of(w: int, h: int, rgba: Seq<u8>, dib: Seq<u8>) -> bool {
    &&& dib.len() == 4 * w * h
    &&& forall|x: int, y: int, c: int|
        0 <= x < w && 0 <= y < h && 0 <= c < 4 ==> #[trigger] dib[dib_index(w, h, x, y, c)]
            == rgba[rgba_index(w, x, y, source_channel(c))]
}

proof fn lemma_pixel_in_bounds(w: int, h: int, x: int, y: int, c: int)
    requires
        0 <= x < w,
        0 <= y < h,
        0 <= c < 4,
    ensures
        0 <= rgba_index(w, x, y, c) < 4 * w * h,
        0 <= dib_index(w, h, x, y, c) < 4 * w * h,
{
    assert(0 <= y * w + x < w * h) by (nonlinear_arith)
        requires
            0 <= x < w,
            0 <= y < h,
    ;
    assert(0 <= (h - 1 - y) * w + x < w * h) by (nonlinear_arith)
        requires
            0 <= x < w,
            0 <= y < h,
    ;
    assert(4 * (w * h) == 4 * w * h) by (nonlinear_arith);
}

/// Converts a top-down RGBA buffer of `width` by `height` pixels into the
/// bytes of a 32-bit bottom-up GDI bitmap. `None` when the buffer does not
/// hold exactly that many pixels.
pub fn dib_bits(width: u32, height: u32, rgba: &Vec<u8>) -> (r: Option<Vec<u8>>)
    ensures
        r is Some <==> rgba@.len() == 4 * width * height,
        r matches Some(bits) ==> is_dib_of(width as int, height as int, rgba@, bits@),
{
    proof {
        assert((width as int) * (height as int) <= 0xFFFF_FFFF * 0xFFFF_FFFF) by (nonlinear_arith)
            requires
                width <= 0xFFFF_FFFF,
                height <= 0xFFFF_FFFF,
        ;
        assert(4 * width * height == (width as int) * (height as int) * 4) by (nonlinear_arith);
    }
    let total = (width as u128) * (height as u128) * 4;
    if total != rgba.len() as u128 {
        return None;
    }
    let w = width as usize;
    let h = height as usize;
    let mut bits: Vec<u8> = Vec::new();
    let mut row: usize = 0;
    while row < h
        invariant
            w == width,
            h == height,
            rgba@.len() == 4 * w * h,
            row <= h,
            bits@.len() == 4 * (row * w),
            forall|x: int, y: int, c: int|
                0 <= x < w && h - row <= y < h && 0 <= c < 4 ==> #[trigger] bits@[dib_index(
                    w as int,
                    h as int,
                    x,
                    y,
                    c,
                )] == rgba@[rgba_index(w as int, x, y, source_channel(c))],
        decreases h - row,
    {
        let y = h - 1 - row;
        let mut x: usize = 0;
        while x < w
            invariant
                w == width,
                h == height,
                rgba@.len() == 4 * w * h,
                row < h,
                y == h - 1 - row,
                x <= w,
                bits@.len() == 4 * (row * w + x),
                forall|x1: int, y1: int, c: int|
                    0 <= x1 < w && h - row <= y1 < h && 0 <= c < 4 ==> #[trigger] bits@[dib_index(
                        w as int,
                        h as int,
                        x1,
                        y1,
                        c,
                    )] == rgba@[rgba_index(w as int, x1, y1, source_channel(c))],
                forall|x1: int, c: int|
                    0 <= x1 < x && 0 <= c < 4 ==> #[trigger] bits@[dib_index(
                        w as int,
                        h as int,
                        x1,
                        y as int,
                        c,
                    )] == rgba@[rgba_index(w as int, x1, y as int, source_channel(c))],
            decreases w - x,
        {
            proof {
                lemma_pixel_in_bounds(w as int, h as int, x as int, y as int, 3);
                assert(dib_index(w as int, h as int, x as int, y as int, 0) == 4 * (row * w + x));
                assert(rgba_index(w as int, x as int, y as int, 3) == 4 * (y * w + x) + 3);
                assert(4 * (y * w + x) + 3 < rgba@.len());
                assert(rgba@.len() == rgba.len());
            }
            let s = 4 * (y * w + x);
            bits.push(rgba[s + 2]);
            bits.push(rgba[s + 1]);
            bits.push(rgba[s]);
            bits.push(rgba[s + 3]);
            proof {
                assert forall|x1: int, y1: int, c: int|
                    0 <= x1 < w && h - row <= y1 < h && 0 <= c < 4 implies #[trigger] bits@[dib_index(
                        w as int,
                        h as int,
                        x1,
                        y1,
                        c,
                    )] == rgba@[rgba_index(w as int, x1, y1, source_channel(c))] by {
                    assert(h - 1 - y1 < row);
                    assert((h - 1 - y1) * w + x1 < row * w) by (nonlinear_arith)
                        requires
                            h - 1 - y1 < row,
                            0 <= x1 < w,
                    ;
                    lemma_pixel_in_bounds(w as int, h as int, x1, y1, c);
                }
                assert forall|x1: int, c: int|
                    0 <= x1 < x + 1 && 0 <= c < 4 implies #[trigger] bits@[dib_index(
                        w as int,
                        h as int,
                        x1,
                        y as int,
                        c,
                    )] == rgba@[rgba_index(w as int, x1, y as int, source_channel(c))] by {
                    assert(dib_index(w as int, h as int, x1, y as int, c) == 4 * (row * w + x1) + c);
                }
            }
            x = x + 1;
        }
        proof {
            assert(row * w + w == (row + 1) * w) by (nonlinear_arith);
        }
        row = row + 1;
    }
    proof {
        assert(4 * (h * w) == 4 * w * h) by (nonlinear_arith);
    }
    Some(bits)
}

/// The 8-bit RGBA copy of an image: its width, its height, and its pixels
/// row by row from the top, four bytes each.
pub uninterp spec fn rgba8_of(img: image::DynamicImage) -> (u32, u32, Seq<u8>);

#[verifier::external_type_specification]
#[verifier::external_body]
pub struct ExDynamicImage(image::DynamicImage);

/// Relies on image's `DynamicImage::to_rgba8`, taken apart with
/// `ImageBuffer::dimensions` and `ImageBuffer::into_raw`: an 8-bit RGBA copy
/// of the image, whose buffer `ImageBuffer::new` allocates with exactly
/// `4 * width * height` bytes, row by row from the top. (`ImageBuffer::new`
/// panics when that size overflows `usize`, which no image held in memory
/// reaches: the image already holds `width * height` pixels of at least one
/// byte, at most `isize::MAX` bytes in all.)
#[verifier::external_body]
fn rgba_pixels(img: &image::DynamicImage) -> (r: (u32, u32, Vec<u8>))
    ensures
        (r.0, r.1, r.2@) == rgba8_of(*img),
        r.2@.len() == 4 * r.0 * r.1,
{
    let buf = img.to_rgba8();
    let (w, h) = buf.dimensions();
    (w, h, buf.into_raw())
}

/// An image laid out as a 32-bit bottom-up GDI bitmap.
#[derive(Clone, Debug, PartialEq, Eq)]
pub struct DibImage {
    pub width: u32,
    pub height: u32,
    /// Blue, green, red and alpha of each pixel, bottom row first.
    pub bits: Vec<u8>,
}

/// Lays out an image as a GDI bitmap: its 8-bit RGBA copy, rows reversed
/// and red and blue swapped.
pub fn image_dib(img: &image::DynamicImage) -> (r: DibImage)
    ensures
        r.width == rgba8_of(*img).0,
        r.height == rgba8_of(*img).1,
        is_dib_of(r.width as int, r.height as int, rgba8_of(*img).2, r.bits@),
{
    let (width, height, rgba) = rgba_pixels(img);
    match dib_bits(width, height, &rgba) {
        Some(bits) => DibImage { width, height, bits },
        None => {
            proof {
                assert(false);
            }
            DibImage { width, height, bits: Vec::new() }
        },
    }
}

} // verus!
