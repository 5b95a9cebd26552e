use vstd::prelude::*;
use crate::osd::{byte_of, lemma_distinct_pixels, on_screen, pixel_base};

verus! {

/// Libretro pixel format: 16-bit 0RRRRRGG GGGBBBBB.
pub const RETRO_PIXEL_FORMAT_0RGB1555: u32 = 0;
/// Libretro pixel format: 32-bit XRGB, blue in the lowest byte.
pub const RETRO_PIXEL_FORMAT_XRGB8888: u32 = 1;
/// Libretro pixel format: 16-bit RRRRRGGG GGGBBBBB.
pub const RETRO_PIXEL_FORMAT_RGB565: u32 = 2;

/// A decoded video frame: `width` by `height` pixels as linear RGBA bytes.
#[derive(Debug, Clone, PartialEq, Eq)]
pub struct VideoFrame {
    pub width: u32,
    pub height: u32,
    pub pixels: Vec<u8>,
    pub frame_index: u64,
}

impl VideoFrame {
    /// A black 320 by 240 frame, frame number 0.
    pub fn new_blank() -> (r: Self)
        ensures
            r.width == 320,
            r.height == 240,
            r.frame_index == 0,
            r.pixels@.len() == 320 * 240 * 4,
            forall|i: int| 0 <= i < r.pixels@.len() ==> r.pixels@[i] == 0u8,
    {
        let mut pixels: Vec<u8> = Vec::new();
        let n: usize = 320 * 240 * 4;
        while pixels.len() < n
            invariant
                pixels@.len() <= n,
                forall|i: int| 0 <= i < pixels@.len() ==> pixels@[i] == 0u8,
            decreases n - pixels@.len(),
        {
            pixels.push(0);
        }
        VideoFrame { width: 320, height: 240, pixels, frame_index: 0 }
    }
}

impl Default for VideoFrame {
    fn default() -> (r: Self)
        ensures
            r.width == 320,
            r.height == 240,
            r.frame_index == 0,
            r.pixels@.len() == 320 * 240 * 4,
            forall|i: int| 0 <= i < r.pixels@.len() ==> r.pixels@[i] == 0u8,
    {
        Self::new_blank()
    }
}

/// Bytes that one pixel of the format takes in the source buffer; 0 for unknown formats.
pub open spec fn bytes_per_pixel(fmt: u32) -> int {
    if fmt == RETRO_PIXEL_FORMAT_XRGB8888 {
        4
    } else if fmt == RETRO_PIXEL_FORMAT_RGB565 || fmt == RETRO_PIXEL_FORMAT_0RGB1555 {
        2
    } else {
        0
    }
}

/// A little-endian 16-bit word.
pub open spec fn le16(lo: u8, hi: u8) -> u16 {
    (lo as u16) | ((hi as u16) << 8u16)
}

/// A 5-bit channel scaled to 8 bits.
pub open spec fn scale5(v: u16) -> u8 {
    ((v & 0x1Fu16) * 255 / 31) as u8
}

/// A 6-bit channel scaled to 8 bits.
pub open spec fn scale6(v: u16) -> u8 {
    ((v & 0x3Fu16) * 255 / 63) as u8
}

/// Channel `c` (red, green, blue, alpha) of the source pixel whose first byte is
/// at `off`, read in little-endian byte order. Alpha is always opaque.
pub open spec fn source_channel(fmt: u32, raw: Seq<u8>, off: int, c: int) -> u8 {
    if c == 3 {
        255u8
    } else if fmt == RETRO_PIXEL_FORMAT_XRGB8888 {
        if c == 0 {
            raw[off + 2]
        } else if c == 1 {
            raw[off + 1]
        } else {
            raw[off]
        }
    } else if fmt == RETRO_PIXEL_FORMAT_RGB565 {
        let p = le16(raw[off], raw[off + 1]);
        if c == 0 {
            scale5(p >> 11u16)
        } else if c == 1 {
            scale6(p >> 5u16)
        } else {
            scale5(p)
        }
    } else {
        let p = le16(raw[off], raw[off + 1]);
        if c == 0 {
            scale5(p >> 10u16)
        } else if c == 1 {
            scale5(p >> 5u16)
        } else {
            scale5(p)
        }
    }
}

/// Bytes of the source buffer that a `width` by `height` frame with the given
/// row pitch occupies: full rows except the last, which ends after its last pixel.
/// Nothing is read for an empty frame or an unknown format.
pub open spec fn source_extent(w: int, h: int, pitch: int, fmt: u32) -> int {
    if w == 0 || h == 0 || bytes_per_pixel(fmt) == 0 {
        0
    } else {
        (h - 1) * pitch + w * bytes_per_pixel(fmt)
    }
}

/// A byte buffer cut to `n` bytes or extended to `n` bytes with zeros.
pub open spec fn resized(v: Seq<u8>, n: int) -> Seq<u8> {
    if v.len() >= n {
        v.take(n)
    } else {
        v + Seq::new((n - v.len()) as nat, |i: int| 0u8)
    }
}

fn resize_pixels(v: &mut Vec<u8>, n: usize)
    ensures
        final(v)@ == resized(old(v)@, n as int),
{
    if v.len() >= n {
        v.truncate(n);
        proof {
            assert(final(v)@ =~= old(v)@.take(n as int));
        }
    } else {
        let ghost start = v@;
        while v.len() < n
            invariant
                start.len() <= v@.len() <= n,
                v@.take(start.len() as int) == start,
                forall|i: int| start.len() <= i < v@.len() ==> v@[i] == 0u8,
            decreases n - v@.len(),
        {
            v.push(0);
            proof {
                assert(v@.take(start.len() as int) =~= start);
            }
        }
        proof {
            assert(v@ =~= start + Seq::new((n - start.len()) as nat, |i: int| 0u8));
        }
    }
}

proof fn lemma_channel_bounds(p: u16)
    by (bit_vector)
    ensures
        (p >> 11u16) & 0x1Fu16 <= 31u16,
        (p >> 10u16) & 0x1Fu16 <= 31u16,
        (p >> 5u16) & 0x1Fu16 <= 31u16,
        (p >> 5u16) & 0x3Fu16 <= 63u16,
        p & 0x1Fu16 <= 31u16,
{
}

/// Writes one converted pixel at byte offset `d` of the frame.
fn put_pixel(pixels: &mut Vec<u8>, d: usize, raw: &[u8], off: usize, fmt: u32)
    requires
        d + 4 <= old(pixels)@.len(),
        off + bytes_per_pixel(fmt) <= raw@.len(),
        bytes_per_pixel(fmt) > 0,
    ensures
        final(pixels)@.len() == old(pixels)@.len(),
        forall|c: int| 0 <= c < 4 ==> #[trigger] final(pixels)@[d + c] == source_channel(fmt, raw@, off as int, c),
        forall|k: int| 0 <= k < old(pixels)@.len() && !(d <= k < d + 4) ==> #[trigger] final(pixels)@[k] == old(pixels)@[k],
{
    let raw_len: usize = raw.len();
    let out_len: usize = pixels.len();
    assert(off + bytes_per_pixel(fmt) <= raw_len);
    assert(d + 4 <= out_len);
    let (r, g, b) = if fmt == RETRO_PIXEL_FORMAT_XRGB8888 {
        (raw[off + 2], raw[off + 1], raw[off])
    } else {
        let p: u16 = (raw[off] as u16) | ((raw[off + 1] as u16) << 8u16);
        proof {
            lemma_channel_bounds(p);
        }
        if fmt == RETRO_PIXEL_FORMAT_RGB565 {
            (
                (((p >> 11u16) & 0x1Fu16) * 255 / 31) as u8,
                (((p >> 5u16) & 0x3Fu16) * 255 / 63) as u8,
                ((p & 0x1Fu16) * 255 / 31) as u8,
            )
        } else {
            (
                (((p >> 10u16) & 0x1Fu16) * 255 / 31) as u8,
                (((p >> 5u16) & 0x1Fu16) * 255 / 31) as u8,
                ((p & 0x1Fu16) * 255 / 31) as u8,
            )
        }
    };
    pixels.set(d, r);
    pixels.set(d + 1, g);
    pixels.set(d + 2, b);
    pixels.set(d + 3, 255);
    proof {
        assert forall|c: int| 0 <= c < 4 implies #[trigger] pixels@[d + c] == source_channel(fmt, raw@, off as int, c) by {
            if c == 0 {
            } else if c == 1 {
            } else if c == 2 {
            } else {
            }
        }
    }
}


/// Source byte offset of pixel (`x`, `y`).
pub open spec fn source_offset(x: int, y: int, pitch: int, fmt: u32) -> int {
    y * pitch + x * bytes_per_pixel(fmt)
}

/// Every pixel in the rows above `y`, and in row `y` left of `x`, holds the
/// converted source pixel.
pub open spec fn converted_upto(
    pixels: Seq<u8>,
    w: int,
    raw: Seq<u8>,
    pitch: int,
    fmt: u32,
    x: int,
    y: int,
) -> bool {
    forall|px: int, py: int, c: int|
        0 <= px < w && 0 <= py && (py < y || (py == y && px < x)) && 0 <= c < 4 ==> #[trigger] byte_of(
            pixels,
            w,
            px,
            py,
            c,
        ) == source_channel(fmt, raw, source_offset(px, py, pitch, fmt), c)
}

/// The whole `w` by `h` frame holds the converted source image.
pub open spec fn shows_source(pixels: Seq<u8>, w: int, h: int, raw: Seq<u8>, pitch: int, fmt: u32) -> bool {
    forall|px: int, py: int, c: int|
        on_screen(w, h, px, py) && 0 <= c < 4 ==> #[trigger] byte_of(pixels, w, px, py, c) == source_channel(
            fmt,
            raw,
            source_offset(px, py, pitch, fmt),
            c,
        )
}

proof fn lemma_frame_offsets(w: int, h: int, pitch: int, bpp: int, x: int, y: int)
    requires
        0 <= x < w,
        0 <= y < h,
        0 <= bpp,
        0 <= pitch,
    ensures
        (y * w + x) * 4 + 4 <= w * h * 4,
        0 <= y * w + x,
        y * pitch <= (h - 1) * pitch,
        0 <= y * pitch,
        0 <= x * bpp,
        y * pitch + x * bpp + bpp <= (h - 1) * pitch + w * bpp,
{
    assert(y * w + x < (y + 1) * w) by (nonlinear_arith)
        requires
            0 <= x < w,
    ;
    assert((y + 1) * w <= h * w) by (nonlinear_arith)
        requires
            y + 1 <= h,
            0 < w,
    ;
    assert(w * h == h * w) by (nonlinear_arith);
    assert(0 <= y * w) by (nonlinear_arith)
        requires
            0 <= y,
            0 <= w,
    ;
    assert(y * pitch <= (h - 1) * pitch) by (nonlinear_arith)
        requires
            y <= h - 1,
            0 <= pitch,
    ;
    assert(0 <= y * pitch) by (nonlinear_arith)
        requires
            0 <= y,
            0 <= pitch,
    ;
    assert(0 <= x * bpp) by (nonlinear_arith)
        requires
            0 <= x,
            0 <= bpp,
    ;
    assert(x * bpp + bpp <= w * bpp) by (nonlinear_arith)
        requires
            x + 1 <= w,
            0 <= bpp,
    ;
}

impl VideoFrame {
    /// Takes a frame from a core's video callback. `raw` holds the source rows,
    /// `pitch` bytes apart, in the given pixel format; an empty frame leaves
    /// everything as it was. Otherwise the size and frame number are taken
    /// over and the pixel buffer resized to `width * height * 4` bytes; for a
    /// known format every pixel is converted to RGBA, for an unknown one the
    /// bytes stay as they were.
    pub fn update_from_raw(
        &mut self,
        raw: &[u8],
        width: u32,
        height: u32,
        pitch: usize,
        pixel_format: u32,
        frame_index: u64,
    )
        requires
            width * height * 4 <= u32::MAX,
            source_extent(width as int, height as int, pitch as int, pixel_format) <= raw@.len(),
        ensures
            width == 0 || height == 0 ==> *final(self) == *old(self),
            width != 0 && height != 0 ==> {
                &&& final(self).width == width
                &&& final(self).height == height
                &&& final(self).frame_index == frame_index
                &&& final(self).pixels@.len() == width * height * 4
                &&& bytes_per_pixel(pixel_format) > 0 ==> shows_source(
                    final(self).pixels@,
                    width as int,
                    height as int,
                    raw@,
                    pitch as int,
                    pixel_format,
                )
                &&& bytes_per_pixel(pixel_format) == 0 ==> final(self).pixels@ == resized(
                    old(self).pixels@,
                    width * height * 4,
                )
            },
    {
        if width == 0 || height == 0 {
            return ;
        }
        let n: usize = (width * height * 4) as usize;
        self.width = width;
        self.height = height;
        self.frame_index = frame_index;
        resize_pixels(&mut self.pixels, n);
        let bpp: usize = if pixel_format == RETRO_PIXEL_FORMAT_XRGB8888 {
            4
        } else if pixel_format == RETRO_PIXEL_FORMAT_RGB565 || pixel_format
            == RETRO_PIXEL_FORMAT_0RGB1555 {
            2
        } else {
            0
        };
        if bpp == 0 {
            return ;
        }
        let ghost w = width as int;
        let ghost h = height as int;
        let ghost extent = (h - 1) * pitch + w * bpp;
        assert(extent <= raw@.len());
        let raw_len: usize = raw.len();
        let mut y: u32 = 0;
        while y < height
            invariant
                w == width,
                h == height,
                0 < w,
                0 < h,
                width * height * 4 <= u32::MAX,
                n == w * h * 4,
                bpp == bytes_per_pixel(pixel_format),
                bpp > 0,
                extent == (h - 1) * pitch + w * bpp,
                extent <= raw_len,
                raw_len == raw@.len(),
                y <= height,
                self.pixels@.len() == n,
                self.width == width,
                self.height == height,
                self.frame_index == frame_index,
                converted_upto(self.pixels@, w, raw@, pitch as int, pixel_format, 0, y as int),
            decreases height - y,
        {
            proof {
                lemma_frame_offsets(w, h, pitch as int, bpp as int, 0, y as int);
            }
            let row_off: usize = y as usize * pitch;
            let mut x: u32 = 0;
            while x < width
                invariant
                    w == width,
                    h == height,
                    0 < w,
                    0 < h,
                    width * height * 4 <= u32::MAX,
                    n == w * h * 4,
                    bpp == bytes_per_pixel(pixel_format),
                    bpp > 0,
                    extent == (h - 1) * pitch + w * bpp,
                    extent <= raw_len,
                    raw_len == raw@.len(),
                    y < height,
                    x <= width,
                    row_off == y * pitch,
                    self.pixels@.len() == n,
                    self.width == width,
                    self.height == height,
                    self.frame_index == frame_index,
                    converted_upto(self.pixels@, w, raw@, pitch as int, pixel_format, x as int, y as int),
                decreases width - x,
            {
                proof {
                    lemma_frame_offsets(w, h, pitch as int, bpp as int, x as int, y as int);
                }
                let d: usize = ((y * width + x) * 4) as usize;
                let off: usize = row_off + x as usize * bpp;
                let ghost before = self.pixels@;
                put_pixel(&mut self.pixels, d, raw, off, pixel_format);
                proof {
                    let now = self.pixels@;
                    assert(d == pixel_base(w, x as int, y as int));
                    assert forall|px: int, py: int, c: int|
                        0 <= px < w && 0 <= py && (py < y || (py == y && px < x + 1)) && 0 <= c
                            < 4 implies #[trigger] byte_of(now, w, px, py, c) == source_channel(
                        pixel_format,
                        raw@,
                        source_offset(px, py, pitch as int, pixel_format),
                        c,
                    ) by {
                        if py == y && px == x {
                            assert(now[d + c] == source_channel(pixel_format, raw@, off as int, c));
                        } else {
                            lemma_distinct_pixels(w, h, px, py, x as int, y as int);
                            lemma_frame_offsets(w, h, pitch as int, bpp as int, px, py);
                            let k = pixel_base(w, px, py) + c;
                            assert(now[k] == before[k]);
                            assert(byte_of(before, w, px, py, c) == source_channel(
                                pixel_format,
                                raw@,
                                source_offset(px, py, pitch as int, pixel_format),
                                c,
                            ));
                        }
                    }
                }
                x = x + 1;
            }
            y = y + 1;
        }
    }
}

/// Every format keeps full black and full white: all-zero source bits give
/// 0 in each colour channel, all-one bits give 255; alpha is always opaque.
pub proof fn lemma_black_and_white(fmt: u32, raw: Seq<u8>, off: int, c: int)
    requires
        bytes_per_pixel(fmt) > 0,
        0 <= off,
        off + bytes_per_pixel(fmt) <= raw.len(),
        0 <= c < 4,
    ensures
        (forall|i: int| off <= i < off + bytes_per_pixel(fmt) ==> raw[i] == 0u8) ==> source_channel(fmt, raw, off, c)
            == if c == 3 {
            255u8
        } else {
            0u8
        },
        (forall|i: int| off <= i < off + bytes_per_pixel(fmt) ==> raw[i] == 0xFFu8) ==> source_channel(
            fmt,
            raw,
            off,
            c,
        ) == 255u8,
{
    assert(le16(0u8, 0u8) == 0u16) by (bit_vector);
    assert(le16(0xFFu8, 0xFFu8) == 0xFFFFu16) by (bit_vector);
    let z: u16 = 0u16;
    let f: u16 = 0xFFFFu16;
    assert((z >> 11u16) & 0x1Fu16 == 0u16 && (z >> 10u16) & 0x1Fu16 == 0u16 && (z >> 5u16) & 0x1Fu16 == 0u16
        && (z >> 5u16) & 0x3Fu16 == 0u16 && z & 0x1Fu16 == 0u16) by (bit_vector)
        requires
            z == 0u16,
    ;
    assert((f >> 11u16) & 0x1Fu16 == 31u16 && (f >> 10u16) & 0x1Fu16 == 31u16 && (f >> 5u16) & 0x1Fu16
        == 31u16 && (f >> 5u16) & 0x3Fu16 == 63u16 && f & 0x1Fu16 == 31u16) by (bit_vector)
        requires
            f == 0xFFFFu16,
    ;
    if forall|i: int| off <= i < off + bytes_per_pixel(fmt) ==> raw[i] == 0u8 {
        assert(raw[off] == 0u8);
        if fmt != RETRO_PIXEL_FORMAT_XRGB8888 {
            assert(raw[off + 1] == 0u8);
        } else {
            assert(raw[off + 1] == 0u8);
            assert(raw[off + 2] == 0u8);
        }
    }
    if forall|i: int| off <= i < off + bytes_per_pixel(fmt) ==> raw[i] == 0xFFu8 {
        assert(raw[off] == 0xFFu8);
        if fmt != RETRO_PIXEL_FORMAT_XRGB8888 {
            assert(raw[off + 1] == 0xFFu8);
        } else {
            assert(raw[off + 1] == 0xFFu8);
            assert(raw[off + 2] == 0xFFu8);
        }
    }
}

} // verus!
