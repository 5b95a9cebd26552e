use vstd::prelude::*;

verus! {

/// 5x7 bitmap font for the printable ASCII characters, space (32) to tilde (126).
/// Each character is five column bytes; bit 0 is the top pixel and bit 6 the bottom one.
pub const FONT_5X7: [[u8; 5]; 95] = [
    [0x00, 0x00, 0x00, 0x00, 0x00], // 32
    [0x00, 0x00, 0x5f, 0x00, 0x00], // 33
    [0x00, 0x07, 0x00, 0x07, 0x00], // 34
    [0x14, 0x7f, 0x14, 0x7f, 0x14], // 35
    [0x24, 0x2a, 0x7f, 0x2a, 0x12], // 36
    [0x23, 0x13, 0x08, 0x64, 0x62], // 37
    [0x36, 0x49, 0x55, 0x22, 0x50], // 38
    [0x00, 0x05, 0x03, 0x00, 0x00], // 39
    [0x00, 0x1c, 0x22, 0x41, 0x00], // 40
    [0x00, 0x41, 0x22, 0x1c, 0x00], // 41
    [0x14, 0x08, 0x3e, 0x08, 0x14], // 42
    [0x08, 0x08, 0x3e, 0x08, 0x08], // 43
    [0x00, 0x50, 0x30, 0x00, 0x00], // 44
    [0x08, 0x08, 0x08, 0x08, 0x08], // 45
    [0x00, 0x60, 0x60, 0x00, 0x00], // 46
    [0x20, 0x10, 0x08, 0x04, 0x02], // 47
    [0x3e, 0x51, 0x49, 0x45, 0x3e], // 48
    [0x00, 0x42, 0x7f, 0x40, 0x00], // 49
    [0x42, 0x61, 0x51, 0x49, 0x46], // 50
    [0x21, 0x41, 0x45, 0x4b, 0x31], // 51
    [0x18, 0x14, 0x12, 0x7f, 0x10], // 52
    [0x27, 0x45, 0x45, 0x45, 0x39], // 53
    [0x3c, 0x4a, 0x49, 0x49, 0x30], // 54
    [0x01, 0x71, 0x09, 0x05, 0x03], // 55
    [0x36, 0x49, 0x49, 0x49, 0x36], // 56
    [0x06, 0x49, 0x49, 0x29, 0x1e], // 57
    [0x00, 0x36, 0x36, 0x00, 0x00], // 58
    [0x00, 0x56, 0x36, 0x00, 0x00], // 59
    [0x08, 0x14, 0x22, 0x41, 0x00], // 60
    [0x14, 0x14, 0x14, 0x14, 0x14], // 61
    [0x00, 0x41, 0x22, 0x14, 0x08], // 62
    [0x02, 0x01, 0x51, 0x09, 0x06], // 63
    [0x32, 0x49, 0x79, 0x41, 0x3e], // 64
    [0x7e, 0x11, 0x11, 0x11, 0x7e], // 65
    [0x7f, 0x49, 0x49, 0x49, 0x36], // 66
    [0x3e, 0x41, 0x41, 0x41, 0x22], // 67
    [0x7f, 0x41, 0x41, 0x22, 0x1c], // 68
    [0x7f, 0x49, 0x49, 0x49, 0x41], // 69
    [0x7f, 0x09, 0x09, 0x09, 0x01], // 70
    [0x3e, 0x41, 0x49, 0x49, 0x7a], // 71
    [0x7f, 0x08, 0x08, 0x08, 0x7f], // 72
    [0x00, 0x41, 0x7f, 0x41, 0x00], // 73
    [0x20, 0x40, 0x41, 0x3f, 0x01], // 74
    [0x7f, 0x08, 0x14, 0x22, 0x41], // 75
    [0x7f, 0x40, 0x40, 0x40, 0x40], // 76
    [0x7f, 0x02, 0x0c, 0x02, 0x7f], // 77
    [0x7f, 0x04, 0x08, 0x10, 0x7f], // 78
    [0x3e, 0x41, 0x41, 0x41, 0x3e], // 79
    [0x7f, 0x09, 0x09, 0x09, 0x06], // 80
    [0x3e, 0x41, 0x51, 0x21, 0x5e], // 81
    [0x7f, 0x09, 0x19, 0x29, 0x46], // 82
    [0x46, 0x49, 0x49, 0x49, 0x31], // 83
    [0x01, 0x01, 0x7f, 0x01, 0x01], // 84
    [0x3f, 0x40, 0x40, 0x40, 0x3f], // 85
    [0x1f, 0x20, 0x40, 0x20, 0x1f], // 86
    [0x7f, 0x20, 0x18, 0x20, 0x7f], // 87
    [0x63, 0x14, 0x08, 0x14, 0x63], // 88
    [0x07, 0x08, 0x70, 0x08, 0x07], // 89
    [0x61, 0x51, 0x49, 0x45, 0x43], // 90
    [0x00, 0x7f, 0x41, 0x41, 0x00], // 91
    [0x02, 0x04, 0x08, 0x10, 0x20], // 92
    [0x00, 0x41, 0x41, 0x7f, 0x00], // 93
    [0x04, 0x02, 0x01, 0x02, 0x04], // 94
    [0x40, 0x40, 0x40, 0x40, 0x40], // 95
    [0x00, 0x01, 0x02, 0x04, 0x00], // 96
    [0x20, 0x54, 0x54, 0x54, 0x78], // 97
    [0x7f, 0x48, 0x44, 0x44, 0x38], // 98
    [0x38, 0x44, 0x44, 0x44, 0x20], // 99
    [0x38, 0x44, 0x44, 0x48, 0x7f], // 100
    [0x38, 0x54, 0x54, 0x54, 0x18], // 101
    [0x08, 0x7e, 0x09, 0x01, 0x02], // 102
    [0x0c, 0x52, 0x52, 0x52, 0x3e], // 103
    [0x7f, 0x08, 0x04, 0x04, 0x78], // 104
    [0x00, 0x44, 0x7d, 0x40, 0x00], // 105
    [0x20, 0x40, 0x44, 0x3d, 0x00], // 106
    [0x7f, 0x10, 0x28, 0x44, 0x00], // 107
    [0x00, 0x41, 0x7f, 0x40, 0x00], // 108
    [0x7c, 0x04, 0x18, 0x04, 0x78], // 109
    [0x7c, 0x08, 0x04, 0x04, 0x78], // 110
    [0x38, 0x44, 0x44, 0x44, 0x38], // 111
    [0x7c, 0x14, 0x14, 0x14, 0x08], // 112
    [0x08, 0x14, 0x14, 0x18, 0x7c], // 113
    [0x7c, 0x08, 0x04, 0x04, 0x08], // 114
    [0x48, 0x54, 0x54, 0x54, 0x20], // 115
    [0x04, 0x3f, 0x44, 0x40, 0x20], // 116
    [0x3c, 0x40, 0x40, 0x20, 0x7c], // 117
    [0x1c, 0x20, 0x40, 0x20, 0x1c], // 118
    [0x3c, 0x40, 0x30, 0x40, 0x3c], // 119
    [0x44, 0x28, 0x10, 0x28, 0x44], // 120
    [0x0c, 0x50, 0x50, 0x50, 0x3c], // 121
    [0x44, 0x64, 0x54, 0x4c, 0x44], // 122
    [0x00, 0x08, 0x36, 0x41, 0x00], // 123
    [0x00, 0x00, 0x7f, 0x00, 0x00], // 124
    [0x00, 0x41, 0x36, 0x08, 0x00], // 125
    [0x08, 0x08, 0x2a, 0x1c, 0x08], // 126
];

/// Number of glyphs in the font.
pub const GLYPHS: usize = 95;

/// The glyph slot of a character: its code minus 32, or 0 below 32.
pub open spec fn glyph_index(c: char) -> int {
    if (c as u32) < 32 {
        0
    } else {
        (c as u32) - 32
    }
}

/// Whether pixel `row` of column `col` of glyph `gi` is set.
pub open spec fn glyph_on(gi: int, col: int, row: int) -> bool {
    0 <= gi < 95 && 0 <= col < 5 && 0 <= row < 7 && (FONT_5X7@[gi]@[col] & (1u8 << (row as u8)))
        != 0u8
}

/// Pixel (`px`, `py`) lies in the `scale` by `scale` square that glyph cell
/// (`col`, `row`) covers when the glyph's top left corner is at (`x`, `y`).
pub open spec fn in_cell(x: int, y: int, s: int, col: int, row: int, px: int, py: int) -> bool {
    x + col * s <= px < x + col * s + s && y + row * s <= py < y + row * s + s
}

/// Drawing character `c` at (`x`, `y`) with the given scale paints pixel
/// (`px`, `py`): the character has a glyph and the pixel lies in the square of
/// one of its set cells. Characters without a glyph paint nothing.
pub open spec fn char_paints(x: int, y: int, s: int, c: char, px: int, py: int) -> bool {
    exists|col: int, row: int|
        glyph_on(glyph_index(c), col, row) && #[trigger] in_cell(x, y, s, col, row, px, py)
}

/// Offset of the first byte of pixel (`px`, `py`) in an RGBA buffer `w` pixels wide.
pub open spec fn pixel_base(w: int, px: int, py: int) -> int {
    (py * w + px) * 4
}

/// The pixel lies on a `w` by `h` screen.
pub open spec fn on_screen(w: int, h: int, px: int, py: int) -> bool {
    0 <= px < w && 0 <= py < h
}

/// Channel `c` of pixel (`px`, `py`) in an RGBA buffer `w` pixels wide.
pub open spec fn byte_of(v: Seq<u8>, w: int, px: int, py: int, c: int) -> u8 {
    v[pixel_base(w, px, py) + c]
}

/// The screen bounds that pixel coordinates are compared with: the dimension
/// read as a signed 32-bit value.
pub open spec fn bound(d: u32) -> int {
    (d as i32) as int
}

/// Every on-screen pixel that the character paints lies within the buffer and
/// its offset fits in 32 bits.
pub open spec fn char_fits(len: int, w: u32, h: u32, x: int, y: int, s: int, c: char) -> bool {
    forall|px: int, py: int|
        on_screen(bound(w), bound(h), px, py) && #[trigger] char_paints(x, y, s, c, px, py)
            ==> pixel_base(w as int, px, py) + 3 <= u32::MAX && pixel_base(w as int, px, py) + 4 <= len
}

/// The pixel coordinates of the square of cell (`col`, `row`), and the cell's
/// offsets `col * s` and `row * s`, fit in 32 bits.
pub open spec fn cell_in_range(x: int, y: int, s: int, col: int, row: int) -> bool {
    &&& col * s <= i32::MAX
    &&& row * s <= i32::MAX
    &&& x + col * s + s - 1 <= i32::MAX
    &&& y + row * s + s - 1 <= i32::MAX
}

/// The position and scale keep the coordinates of every pixel that the
/// character's glyph paints within 32 bits; cells that are not set, and
/// characters without a glyph, compute no coordinates.
pub open spec fn glyph_in_range(x: int, y: int, s: int, c: char) -> bool {
    s <= 0 || forall|col: int, row: int|
        #[trigger] glyph_on(glyph_index(c), col, row) ==> cell_in_range(x, y, s, col, row)
}

/// Byte `k` belongs to an on-screen pixel painted by the character.
pub open spec fn char_byte(w: u32, h: u32, k: int, x: int, y: int, s: int, c: char) -> bool {
    exists|px: int, py: int|
        on_screen(bound(w), bound(h), px, py) && #[trigger] char_paints(x, y, s, c, px, py)
            && pixel_base(w as int, px, py) <= k < pixel_base(w as int, px, py) + 4
}

/// The buffer after drawing the character: every byte of a painted
/// on-screen pixel takes its channel of `color`, every other byte stays.
pub open spec fn char_image(
    buf: Seq<u8>,
    w: u32,
    h: u32,
    x: int,
    y: int,
    s: int,
    c: char,
    color: [u8; 4],
) -> Seq<u8> {
    Seq::new(buf.len(), |k: int| if char_byte(w, h, k, x, y, s, c) { color@[k % 4] } else { buf[k] })
}

/// The pixels painted by the glyph loop before it reaches column `col`, row
/// `row`, horizontal step `sx` and vertical step `sy`.
spec fn painted_before(
    x: int,
    y: int,
    s: int,
    gi: int,
    col: int,
    row: int,
    sx: int,
    sy: int,
    px: int,
    py: int,
) -> bool {
    ||| exists|c: int, r: int|
        (c < col || (c == col && r < row)) && glyph_on(gi, c, r) && #[trigger] in_cell(x, y, s, c, r, px, py)
    ||| glyph_on(gi, col, row) && ((x + col * s <= px < x + col * s + sx && y + row * s <= py < y
        + row * s + s) || (px == x + col * s + sx && y + row * s <= py < y + row * s + sy))
}

spec fn painted_byte(w: u32, h: u32, k: int, x: int, y: int, s: int, gi: int, col: int, row: int, sx: int, sy: int) -> bool {
    exists|px: int, py: int|
        on_screen(bound(w), bound(h), px, py) && #[trigger] painted_before(x, y, s, gi, col, row, sx, sy, px, py)
            && pixel_base(w as int, px, py) <= k < pixel_base(w as int, px, py) + 4
}

/// The buffer holds the bytes it started with, with every pixel painted so far set to `color`.
spec fn progress_ok(
    before: Seq<u8>,
    now: Seq<u8>,
    w: u32,
    h: u32,
    color: [u8; 4],
    x: int,
    y: int,
    s: int,
    gi: int,
    col: int,
    row: int,
    sx: int,
    sy: int,
) -> bool {
    &&& now.len() == before.len()
    &&& forall|px: int, py: int, c: int|
        on_screen(bound(w), bound(h), px, py) && painted_before(x, y, s, gi, col, row, sx, sy, px, py)
            && 0 <= c < 4 ==> #[trigger] byte_of(now, w as int, px, py, c) == color@[c]
    &&& forall|k: int|
        0 <= k < now.len() && !painted_byte(w, h, k, x, y, s, gi, col, row, sx, sy) ==> #[trigger] now[k]
            == before[k]
}

pub proof fn lemma_distinct_pixels(w: int, h: int, px: int, py: int, qx: int, qy: int)
    requires
        on_screen(w, h, px, py),
        on_screen(w, h, qx, qy),
        px != qx || py != qy,
    ensures
        pixel_base(w, px, py) + 4 <= pixel_base(w, qx, qy) || pixel_base(w, qx, qy) + 4 <= pixel_base(
            w,
            px,
            py,
        ),
{
    if py < qy {
        assert((py + 1) * w <= qy * w) by (nonlinear_arith)
            requires
                py + 1 <= qy,
                w >= 0,
        ;
        assert((py + 1) * w == py * w + w) by (nonlinear_arith);
    } else if qy < py {
        assert((qy + 1) * w <= py * w) by (nonlinear_arith)
            requires
                qy + 1 <= py,
                w >= 0,
        ;
        assert((qy + 1) * w == qy * w + w) by (nonlinear_arith);
    }
}

/// Moving between two loop positions that have painted the same pixels keeps the progress.
proof fn lemma_same_progress(
    before: Seq<u8>,
    now: Seq<u8>,
    w: u32,
    h: u32,
    color: [u8; 4],
    x: int,
    y: int,
    s: int,
    gi: int,
    p1: (int, int, int, int),
    p2: (int, int, int, int),
)
    requires
        progress_ok(before, now, w, h, color, x, y, s, gi, p1.0, p1.1, p1.2, p1.3),
        forall|px: int, py: int|
            painted_before(x, y, s, gi, p1.0, p1.1, p1.2, p1.3, px, py) == painted_before(
                x,
                y,
                s,
                gi,
                p2.0,
                p2.1,
                p2.2,
                p2.3,
                px,
                py,
            ),
    ensures
        progress_ok(before, now, w, h, color, x, y, s, gi, p2.0, p2.1, p2.2, p2.3),
{
    assert forall|k: int| 0 <= k < now.len() && !painted_byte(w, h, k, x, y, s, gi, p2.0, p2.1, p2.2, p2.3) implies #[trigger] now[k] == before[k] by {
        if painted_byte(w, h, k, x, y, s, gi, p1.0, p1.1, p1.2, p1.3) {
            let (px, py) = choose|px: int, py: int|
                on_screen(bound(w), bound(h), px, py) && #[trigger] painted_before(x, y, s, gi, p1.0, p1.1, p1.2, p1.3, px, py)
                    && pixel_base(w as int, px, py) <= k < pixel_base(w as int, px, py) + 4;
            assert(painted_before(x, y, s, gi, p2.0, p2.1, p2.2, p2.3, px, py));
        }
    }
    assert forall|px: int, py: int, c: int|
        on_screen(bound(w), bound(h), px, py) && painted_before(x, y, s, gi, p2.0, p2.1, p2.2, p2.3, px, py)
            && 0 <= c < 4 implies #[trigger] byte_of(now, w as int, px, py, c) == color@[c] by {
        assert(painted_before(x, y, s, gi, p1.0, p1.1, p1.2, p1.3, px, py));
    }
}


proof fn lemma_bound_raw(w: u32)
    by (bit_vector)
    ensures
        (w as i32) < 0i32 || (w as i32) as u32 == w,
{
}

/// A dimension read as a signed value is either negative or the dimension itself.
proof fn lemma_bound(w: u32)
    ensures
        bound(w) < 0 || bound(w) == w as int,
{
    lemma_bound_raw(w);
}

proof fn lemma_write_pixel(
    before: Seq<u8>,
    now: Seq<u8>,
    next: Seq<u8>,
    w: u32,
    h: u32,
    color: [u8; 4],
    x: int,
    y: int,
    s: int,
    gi: int,
    col: int,
    row: int,
    sx: int,
    sy: int,
)
    requires
        progress_ok(before, now, w, h, color, x, y, s, gi, col, row, sx, sy),
        glyph_on(gi, col, row),
        0 <= sy,
        forall|px: int, py: int|
            on_screen(bound(w), bound(h), px, py) && #[trigger] painted_before(x, y, s, gi, col, row, sx, sy + 1, px, py)
                ==> 0 <= pixel_base(w as int, px, py) && pixel_base(w as int, px, py) + 4 <= now.len(),
        on_screen(bound(w), bound(h), x + col * s + sx, y + row * s + sy) ==> {
            let b = pixel_base(w as int, x + col * s + sx, y + row * s + sy);
            &&& 0 <= b
            &&& b + 4 <= now.len()
            &&& next == now.update(b, color@[0]).update(b + 1, color@[1]).update(b + 2, color@[2]).update(
                b + 3,
                color@[3],
            )
        },
        !on_screen(bound(w), bound(h), x + col * s + sx, y + row * s + sy) ==> next == now,
    ensures
        progress_ok(before, next, w, h, color, x, y, s, gi, col, row, sx, sy + 1),
{
    let qx = x + col * s + sx;
    let qy = y + row * s + sy;
    lemma_bound(w);
    lemma_bound(h);
    assert forall|px: int, py: int|
        painted_before(x, y, s, gi, col, row, sx, sy + 1, px, py) == (painted_before(x, y, s, gi, col, row, sx, sy, px, py) || (px == qx && py == qy)) by {
    }
    if on_screen(bound(w), bound(h), qx, qy) {
        let b = pixel_base(w as int, qx, qy);
        assert forall|px: int, py: int, c: int|
            on_screen(bound(w), bound(h), px, py) && painted_before(x, y, s, gi, col, row, sx, sy + 1, px, py)
                && 0 <= c < 4 implies #[trigger] byte_of(next, w as int, px, py, c) == color@[c] by {
            if px == qx && py == qy {
                assert(byte_of(next, w as int, px, py, c) == next[b + c]);
                if c == 0 {
                } else if c == 1 {
                } else if c == 2 {
                } else {
                }
            } else {
                assert(on_screen(w as int, h as int, px, py));
                assert(on_screen(w as int, h as int, qx, qy));
                lemma_distinct_pixels(w as int, h as int, px, py, qx, qy);
                let k = pixel_base(w as int, px, py) + c;
                assert(k < b || k >= b + 4);
                assert(next[k] == now[k]);
                assert(byte_of(now, w as int, px, py, c) == color@[c]);
            }
        }
        assert forall|k: int|
            0 <= k < next.len() && !painted_byte(w, h, k, x, y, s, gi, col, row, sx, sy + 1) implies #[trigger] next[k]
                == before[k] by {
            if b <= k < b + 4 {
                assert(painted_before(x, y, s, gi, col, row, sx, sy + 1, qx, qy));
            }
            if painted_byte(w, h, k, x, y, s, gi, col, row, sx, sy) {
                let (px, py) = choose|px: int, py: int|
                    on_screen(bound(w), bound(h), px, py) && #[trigger] painted_before(x, y, s, gi, col, row, sx, sy, px, py)
                        && pixel_base(w as int, px, py) <= k < pixel_base(w as int, px, py) + 4;
                assert(painted_before(x, y, s, gi, col, row, sx, sy + 1, px, py));
            }
            assert(now[k] == before[k]);
        }
    } else {
        assert forall|px: int, py: int, c: int|
            on_screen(bound(w), bound(h), px, py) && painted_before(x, y, s, gi, col, row, sx, sy + 1, px, py)
                && 0 <= c < 4 implies #[trigger] byte_of(next, w as int, px, py, c) == color@[c] by {
            assert(byte_of(now, w as int, px, py, c) == color@[c]);
        }
        assert forall|k: int|
            0 <= k < next.len() && !painted_byte(w, h, k, x, y, s, gi, col, row, sx, sy + 1) implies #[trigger] next[k]
                == before[k] by {
            if painted_byte(w, h, k, x, y, s, gi, col, row, sx, sy) {
                let (px, py) = choose|px: int, py: int|
                    on_screen(bound(w), bound(h), px, py) && #[trigger] painted_before(x, y, s, gi, col, row, sx, sy, px, py)
                        && pixel_base(w as int, px, py) <= k < pixel_base(w as int, px, py) + 4;
                assert(painted_before(x, y, s, gi, col, row, sx, sy + 1, px, py));
            }
        }
    }
}


proof fn lemma_base_nonneg(w: int, px: int, py: int)
    requires
        0 <= w,
        0 <= px,
        0 <= py,
    ensures
        0 <= pixel_base(w, px, py),
{
    assert(0 <= py * w) by (nonlinear_arith)
        requires
            0 <= w,
            0 <= py,
    ;
}

proof fn lemma_progress_fits(
    len: int,
    w: u32,
    h: u32,
    x: int,
    y: int,
    s: int,
    c: char,
    col: int,
    row: int,
    sx: int,
    sy: int,
)
    requires
        char_fits(len, w, h, x, y, s, c),
        0 <= sx < s,
        0 <= sy <= s,
    ensures
        forall|px: int, py: int|
            on_screen(bound(w), bound(h), px, py) && #[trigger] painted_before(x, y, s, glyph_index(c), col, row, sx, sy, px, py)
                ==> 0 <= pixel_base(w as int, px, py) && pixel_base(w as int, px, py) + 4 <= len
                && pixel_base(w as int, px, py) + 3 <= u32::MAX,
{
    assert forall|px: int, py: int|
        on_screen(bound(w), bound(h), px, py) && #[trigger] painted_before(x, y, s, glyph_index(c), col, row, sx, sy, px, py)
            implies 0 <= pixel_base(w as int, px, py) && pixel_base(w as int, px, py) + 4 <= len
                && pixel_base(w as int, px, py) + 3 <= u32::MAX by {
        lemma_bound(w);
        lemma_base_nonneg(w as int, px, py);
        if exists|cc: int, r: int|
            (cc < col || (cc == col && r < row)) && glyph_on(glyph_index(c), cc, r) && #[trigger] in_cell(x, y, s, cc, r, px, py) {
            let (cc, r) = choose|cc: int, r: int|
                (cc < col || (cc == col && r < row)) && glyph_on(glyph_index(c), cc, r) && #[trigger] in_cell(x, y, s, cc, r, px, py);
            assert(char_paints(x, y, s, c, px, py));
        } else {
            assert(in_cell(x, y, s, col, row, px, py));
            assert(char_paints(x, y, s, c, px, py));
        }
    }
}


proof fn lemma_row_done(x: int, y: int, s: int, gi: int, col: int, row: int, sx: int)
    requires
        0 <= col < 5,
        0 <= row < 7,
        (s > 0 && sx == s) || (s <= 0 && sx == 0),
    ensures
        forall|px: int, py: int|
            #[trigger] painted_before(x, y, s, gi, col, row, sx, 0, px, py) == painted_before(
                x,
                y,
                s,
                gi,
                col,
                row + 1,
                0,
                0,
                px,
                py,
            ),
{
    assert forall|px: int, py: int|
        #[trigger] painted_before(x, y, s, gi, col, row, sx, 0, px, py) == painted_before(x, y, s, gi, col, row + 1, 0, 0, px, py) by {
        if painted_before(x, y, s, gi, col, row, sx, 0, px, py) {
            if glyph_on(gi, col, row) && ((x + col * s <= px < x + col * s + sx && y + row * s <= py
                < y + row * s + s) || (px == x + col * s + sx && y + row * s <= py < y + row * s + 0)) {
                assert(in_cell(x, y, s, col, row, px, py));
            }
        }
        if painted_before(x, y, s, gi, col, row + 1, 0, 0, px, py) {
            let (c, r) = choose|c: int, r: int|
                (c < col || (c == col && r < row + 1)) && glyph_on(gi, c, r) && #[trigger] in_cell(x, y, s, c, r, px, py);
            if c == col && r == row {
            } else {
                assert(in_cell(x, y, s, c, r, px, py));
            }
        }
    }
}

proof fn lemma_col_done(x: int, y: int, s: int, gi: int, col: int)
    requires
        0 <= col < 5,
    ensures
        forall|px: int, py: int|
            #[trigger] painted_before(x, y, s, gi, col, 7, 0, 0, px, py) == painted_before(
                x,
                y,
                s,
                gi,
                col + 1,
                0,
                0,
                0,
                px,
                py,
            ),
{
    assert forall|px: int, py: int|
        #[trigger] painted_before(x, y, s, gi, col, 7, 0, 0, px, py) == painted_before(x, y, s, gi, col + 1, 0, 0, 0, px, py) by {
        if painted_before(x, y, s, gi, col, 7, 0, 0, px, py) {
            let (c, r) = choose|c: int, r: int|
                (c < col || (c == col && r < 7)) && glyph_on(gi, c, r) && #[trigger] in_cell(x, y, s, c, r, px, py);
            assert(in_cell(x, y, s, c, r, px, py));
        }
        if painted_before(x, y, s, gi, col + 1, 0, 0, 0, px, py) {
            let (c, r) = choose|c: int, r: int|
                (c < col + 1 || (c == col + 1 && r < 0)) && glyph_on(gi, c, r) && #[trigger] in_cell(x, y, s, c, r, px, py);
            assert(in_cell(x, y, s, c, r, px, py));
        }
    }
}

proof fn lemma_step_done(x: int, y: int, s: int, gi: int, col: int, row: int, sx: int)
    requires
        0 <= sx,
    ensures
        forall|px: int, py: int|
            #[trigger] painted_before(x, y, s, gi, col, row, sx, s, px, py) == painted_before(
                x,
                y,
                s,
                gi,
                col,
                row,
                sx + 1,
                0,
                px,
                py,
            ),
{
}

/// Draws one character of the 5x7 font into an RGBA framebuffer `width` pixels
/// wide and `height` pixels high, with its top left corner at (`x`, `y`) and each
/// font pixel drawn as a `scale` by `scale` square. Pixels off the screen are
/// skipped; characters outside the font draw nothing.
pub fn draw_char(
    dst: &mut [u8],
    width: u32,
    height: u32,
    x: i32,
    y: i32,
    scale: i32,
    c: char,
    color: [u8; 4],
)
    requires
        glyph_in_range(x as int, y as int, scale as int, c),
        char_fits(old(dst)@.len() as int, width, height, x as int, y as int, scale as int, c),
    ensures
        final(dst)@.len() == old(dst)@.len(),
        forall|px: int, py: int, ch: int|
            on_screen(bound(width), bound(height), px, py) && char_paints(x as int, y as int, scale as int, c, px, py)
                && 0 <= ch < 4 ==> #[trigger] byte_of(final(dst)@, width as int, px, py, ch) == color@[ch],
        forall|k: int|
            0 <= k < final(dst)@.len() && !char_byte(width, height, k, x as int, y as int, scale as int, c)
                ==> #[trigger] final(dst)@[k] == old(dst)@[k],
        final(dst)@ == char_image(old(dst)@, width, height, x as int, y as int, scale as int, c, color),
{
    let ghost x_ = x as int;
    let ghost y_ = y as int;
    let ghost s_ = scale as int;
    let ghost start = dst@;
    let code: u32 = c as u32;
    let idx: usize = if code < 32 {
        0
    } else {
        (code - 32) as usize
    };
    let ghost gi = glyph_index(c);
    assert(idx as int == gi);
    if idx >= GLYPHS {
        proof {
            assert forall|k: int|
                0 <= k < dst@.len() && !char_byte(width, height, k, x_, y_, s_, c) implies #[trigger] dst@[k] == start[k] by {
            }
            assert forall|px: int, py: int| !#[trigger] char_paints(x_, y_, s_, c, px, py) by {
            }
            assert(dst@ =~= char_image(start, width, height, x_, y_, s_, c, color));
        }
        return ;
    }
    let glyph = FONT_5X7[idx];
    let wl = width as i32;
    let hl = height as i32;
    proof {
        assert(progress_ok(start, dst@, width, height, color, x_, y_, s_, gi, 0, 0, 0, 0));
    }
    let mut col: usize = 0;
    while col < 5
        invariant
            glyph_in_range(x_, y_, s_, c),
            char_fits(start.len() as int, width, height, x_, y_, s_, c),
            x_ == x as int && y_ == y as int && s_ == scale as int,
            gi == glyph_index(c),
            0 <= gi < 95,
            glyph@ == FONT_5X7@[gi]@,
            wl as int == bound(width),
            hl as int == bound(height),
            col <= 5,
            progress_ok(start, dst@, width, height, color, x_, y_, s_, gi, col as int, 0, 0, 0),
        decreases 5 - col,
    {
        let bits = glyph[col];
        let mut row: usize = 0;
        while row < 7
            invariant
                glyph_in_range(x_, y_, s_, c),
                char_fits(start.len() as int, width, height, x_, y_, s_, c),
                x_ == x as int && y_ == y as int && s_ == scale as int,
                gi == glyph_index(c),
                0 <= gi < 95,
                glyph@ == FONT_5X7@[gi]@,
                bits == FONT_5X7@[gi]@[col as int],
                wl as int == bound(width),
                hl as int == bound(height),
                col < 5,
                row <= 7,
                progress_ok(start, dst@, width, height, color, x_, y_, s_, gi, col as int, row as int, 0, 0),
            decreases 7 - row,
        {
            if (bits & (1u8 << (row as u8))) != 0 {
                assert(glyph_on(gi, col as int, row as int));
                let mut sx: i32 = 0;
                while sx < scale
                    invariant
                        glyph_in_range(x_, y_, s_, c),
                        char_fits(start.len() as int, width, height, x_, y_, s_, c),
                        x_ == x as int && y_ == y as int && s_ == scale as int,
                        gi == glyph_index(c),
                        glyph_on(gi, col as int, row as int),
                        wl as int == bound(width),
                        hl as int == bound(height),
                        col < 5,
                        row < 7,
                        0 <= sx,
                        sx <= scale || sx == 0,
                        progress_ok(start, dst@, width, height, color, x_, y_, s_, gi, col as int, row as int, sx as int, 0),
                    decreases scale - sx,
                {
                    proof {
                        assert(0 <= (col as int) * s_) by (nonlinear_arith)
                            requires
                                0 <= col,
                                s_ > 0,
                        ;
                        assert(0 <= (row as int) * s_) by (nonlinear_arith)
                            requires
                                0 <= row,
                                s_ > 0,
                        ;
                        assert(cell_in_range(x_, y_, s_, col as int, row as int));
                    }
                    let mut sy: i32 = 0;
                    while sy < scale
                        invariant
                            glyph_in_range(x_, y_, s_, c),
                            char_fits(start.len() as int, width, height, x_, y_, s_, c),
                            x_ == x as int && y_ == y as int && s_ == scale as int,
                            gi == glyph_index(c),
                            glyph_on(gi, col as int, row as int),
                            wl as int == bound(width),
                            hl as int == bound(height),
                            col < 5,
                            row < 7,
                            0 <= sx < scale,
                            0 <= sy <= scale,
                            0 <= (col as int) * s_,
                            0 <= (row as int) * s_,
                            cell_in_range(x_, y_, s_, col as int, row as int),
                            progress_ok(start, dst@, width, height, color, x_, y_, s_, gi, col as int, row as int, sx as int, sy as int),
                        decreases scale - sy,
                    {
                        let px = x + (col as i32) * scale + sx;
                        let py = y + (row as i32) * scale + sy;
                        let ghost now = dst@;
                        proof {
                            lemma_progress_fits(start.len() as int, width, height, x_, y_, s_, c, col as int, row as int, sx as int, sy as int + 1);
                            lemma_bound(width);
                            lemma_bound(height);
                            assert(painted_before(x_, y_, s_, gi, col as int, row as int, sx as int, sy as int + 1, px as int, py as int));
                        }
                        if px >= 0 && px < wl && py >= 0 && py < hl {
                            proof {
                                lemma_base_nonneg(width as int, px as int, py as int);
                            }
                            assert(pixel_base(width as int, px as int, py as int) + 3 <= u32::MAX);
                            assert((py as u32) as int * (width as int) == (py as int) * (width as int));
                            let pixel_idx = ((py as u32 * width + px as u32) * 4) as usize;
                            dst[pixel_idx] = color[0];
                            dst[pixel_idx + 1] = color[1];
                            dst[pixel_idx + 2] = color[2];
                            dst[pixel_idx + 3] = color[3];
                        }
                        proof {
                            lemma_write_pixel(start, now, dst@, width, height, color, x_, y_, s_, gi, col as int, row as int, sx as int, sy as int);
                        }
                        sy = sy + 1;
                    }
                    proof {
                        lemma_step_done(x_, y_, s_, gi, col as int, row as int, sx as int);
                        lemma_same_progress(start, dst@, width, height, color, x_, y_, s_, gi,
                            (col as int, row as int, sx as int, sy as int), (col as int, row as int, sx as int + 1, 0));
                    }
                    sx = sx + 1;
                }
                proof {
                    lemma_row_done(x_, y_, s_, gi, col as int, row as int, sx as int);
                    lemma_same_progress(start, dst@, width, height, color, x_, y_, s_, gi,
                        (col as int, row as int, sx as int, 0), (col as int, row as int + 1, 0, 0));
                }
            } else {
                proof {
                    assert(!glyph_on(gi, col as int, row as int));
                    assert forall|px: int, py: int|
                        #[trigger] painted_before(x_, y_, s_, gi, col as int, row as int, 0, 0, px, py) == painted_before(x_, y_, s_, gi, col as int, row as int + 1, 0, 0, px, py) by {
                        if painted_before(x_, y_, s_, gi, col as int, row as int + 1, 0, 0, px, py) {
                            let (c, r) = choose|c: int, r: int|
                                (c < col || (c == col && r < row + 1)) && glyph_on(gi, c, r) && #[trigger] in_cell(x_, y_, s_, c, r, px, py);
                            assert(in_cell(x_, y_, s_, c, r, px, py));
                        }
                    }
                    lemma_same_progress(start, dst@, width, height, color, x_, y_, s_, gi,
                        (col as int, row as int, 0, 0), (col as int, row as int + 1, 0, 0));
                }
            }
            row = row + 1;
        }
        proof {
            lemma_col_done(x_, y_, s_, gi, col as int);
            lemma_same_progress(start, dst@, width, height, color, x_, y_, s_, gi,
                (col as int, 7, 0, 0), (col as int + 1, 0, 0, 0));
        }
        col = col + 1;
    }
    proof {
        assert forall|px: int, py: int|
            #[trigger] painted_before(x_, y_, s_, gi, 5, 0, 0, 0, px, py) == char_paints(x_, y_, s_, c, px, py) by {
        }
        assert forall|k: int|
            0 <= k < dst@.len() && !char_byte(width, height, k, x_, y_, s_, c) implies #[trigger] dst@[k] == start[k] by {
            if painted_byte(width, height, k, x_, y_, s_, gi, 5, 0, 0, 0) {
                let (px, py) = choose|px: int, py: int|
                    on_screen(bound(width), bound(height), px, py) && #[trigger] painted_before(x_, y_, s_, gi, 5, 0, 0, 0, px, py)
                        && pixel_base(width as int, px, py) <= k < pixel_base(width as int, px, py) + 4;
                assert(char_paints(x_, y_, s_, c, px, py));
            }
        }
        assert forall|px: int, py: int, ch: int|
            on_screen(bound(width), bound(height), px, py) && char_paints(x_, y_, s_, c, px, py)
                && 0 <= ch < 4 implies #[trigger] byte_of(dst@, width as int, px, py, ch) == color@[ch] by {
            assert(painted_before(x_, y_, s_, gi, 5, 0, 0, 0, px, py));
        }
        assert forall|k: int| 0 <= k < dst@.len() implies #[trigger] dst@[k] == char_image(
            start,
            width,
            height,
            x_,
            y_,
            s_,
            c,
            color,
        )[k] by {
            if char_byte(width, height, k, x_, y_, s_, c) {
                let (px, py) = choose|px: int, py: int|
                    on_screen(bound(width), bound(height), px, py) && #[trigger] char_paints(x_, y_, s_, c, px, py)
                        && pixel_base(width as int, px, py) <= k < pixel_base(width as int, px, py) + 4;
                let ch = k - pixel_base(width as int, px, py);
                lemma_channel_of_byte(width as int, px, py, ch);
                assert(byte_of(dst@, width as int, px, py, ch) == color@[ch]);
            }
        }
        assert(dst@ =~= char_image(start, width, height, x_, y_, s_, c, color));
    }
}

proof fn lemma_channel_of_byte(w: int, px: int, py: int, ch: int)
    requires
        0 <= ch < 4,
    ensures
        (pixel_base(w, px, py) + ch) % 4 == ch,
{
    assert(((py * w + px) * 4 + ch) % 4 == ch) by (nonlinear_arith)
        requires
            0 <= ch < 4,
    ;
}


/// Horizontal distance between consecutive characters: five font columns and one blank.
pub open spec fn advance(s: int) -> int {
    6 * s
}

/// Drawing the first `n` characters of `t` from (`x`, `y`) paints pixel (`px`, `py`).
pub open spec fn text_paints(x: int, y: int, s: int, t: Seq<char>, n: int, px: int, py: int) -> bool {
    exists|i: int| 0 <= i < n && i < t.len() && #[trigger] char_paints(x + advance(s) * i, y, s, t[i], px, py)
}

/// Byte `k` belongs to an on-screen pixel painted by the first `n` characters.
pub open spec fn text_byte(w: u32, h: u32, k: int, x: int, y: int, s: int, t: Seq<char>, n: int) -> bool {
    exists|px: int, py: int|
        on_screen(bound(w), bound(h), px, py) && #[trigger] text_paints(x, y, s, t, n, px, py)
            && pixel_base(w as int, px, py) <= k < pixel_base(w as int, px, py) + 4
}

/// The buffer after drawing the first `n` characters of `t` one after the
/// other with `draw_char`, each six font columns right of the one before.
pub open spec fn text_image(
    buf: Seq<u8>,
    w: u32,
    h: u32,
    x: int,
    y: int,
    s: int,
    t: Seq<char>,
    n: int,
    color: [u8; 4],
) -> Seq<u8>
    decreases n,
{
    if n <= 0 {
        buf
    } else {
        char_image(text_image(buf, w, h, x, y, s, t, n - 1, color), w, h, x + advance(s) * (n - 1), y, s, t[n - 1], color)
    }
}

/// Every character of the text lies within the coordinate range and the buffer,
/// and the pen position after the last character fits in 32 bits.
pub open spec fn text_fits(len: int, w: u32, h: u32, x: int, y: int, s: int, t: Seq<char>) -> bool {
    &&& i32::MIN <= x + advance(s) * t.len() <= i32::MAX
    &&& t.len() > 0 ==> i32::MIN <= advance(s) <= i32::MAX
    &&& forall|i: int| 0 <= i < t.len() ==> glyph_in_range(x + advance(s) * i, y, s, #[trigger] t[i])
    &&& forall|i: int| 0 <= i < t.len() ==> char_fits(len, w, h, x + advance(s) * i, y, s, #[trigger] t[i])
}

proof fn lemma_pen_between(x: int, s: int, i: int, n: int)
    requires
        0 <= i <= n,
    ensures
        (x <= x + advance(s) * i <= x + advance(s) * n) || (x + advance(s) * n <= x + advance(s) * i <= x),
        x + advance(s) * (i + 1) == x + advance(s) * i + 6 * s,
{
    assert(x + advance(s) * (i + 1) == x + advance(s) * i + 6 * s) by (nonlinear_arith);
    if s >= 0 {
        assert(0 <= advance(s) * i <= advance(s) * n) by (nonlinear_arith)
            requires
                s >= 0,
                0 <= i <= n,
        ;
    } else {
        assert(advance(s) * n <= advance(s) * i <= 0) by (nonlinear_arith)
            requires
                s < 0,
                0 <= i <= n,
        ;
    }
}

/// Draws a string of the 5x7 font into an RGBA framebuffer, left to right
/// from (`x`, `y`), advancing six font columns per character.
pub fn draw_text(
    dst: &mut [u8],
    width: u32,
    height: u32,
    x: i32,
    y: i32,
    scale: i32,
    text: &str,
    color: [u8; 4],
)
    requires
        text_fits(old(dst)@.len() as int, width, height, x as int, y as int, scale as int, text@),
    ensures
        final(dst)@.len() == old(dst)@.len(),
        forall|px: int, py: int, ch: int|
            on_screen(bound(width), bound(height), px, py) && text_paints(
                x as int,
                y as int,
                scale as int,
                text@,
                text@.len() as int,
                px,
                py,
            ) && 0 <= ch < 4 ==> #[trigger] byte_of(final(dst)@, width as int, px, py, ch) == color@[ch],
        forall|k: int|
            0 <= k < final(dst)@.len() && !text_byte(
                width,
                height,
                k,
                x as int,
                y as int,
                scale as int,
                text@,
                text@.len() as int,
            ) ==> #[trigger] final(dst)@[k] == old(dst)@[k],
        final(dst)@ == text_image(
            old(dst)@,
            width,
            height,
            x as int,
            y as int,
            scale as int,
            text@,
            text@.len() as int,
            color,
        ),
{
    let ghost start = dst@;
    let ghost t = text@;
    let ghost x_ = x as int;
    let ghost y_ = y as int;
    let ghost s_ = scale as int;
    let n: usize = text.unicode_len();
    let mut cur_x = x;
    let mut i: usize = 0;
    while i < n
        invariant
            n == t.len(),
            t == text@,
            x_ == x as int && y_ == y as int && s_ == scale as int,
            i <= n,
            text_fits(start.len() as int, width, height, x_, y_, s_, t),
            cur_x as int == x_ + advance(s_) * i,
            dst@.len() == start.len(),
            dst@ == text_image(start, width, height, x_, y_, s_, t, i as int, color),
            forall|px: int, py: int, ch: int|
                on_screen(bound(width), bound(height), px, py) && text_paints(x_, y_, s_, t, i as int, px, py)
                    && 0 <= ch < 4 ==> #[trigger] byte_of(dst@, width as int, px, py, ch) == color@[ch],
            forall|k: int|
                0 <= k < dst@.len() && !text_byte(width, height, k, x_, y_, s_, t, i as int)
                    ==> #[trigger] dst@[k] == start[k],
        decreases n - i,
    {
        let c = text.get_char(i);
        let ghost before = dst@;
        let ghost cx = cur_x as int;
        proof {
            assert(glyph_in_range(x_ + advance(s_) * i, y_, s_, t[i as int]));
            assert(char_fits(start.len() as int, width, height, x_ + advance(s_) * i, y_, s_, t[i as int]));
            lemma_pen_between(x_, s_, i as int + 1, n as int);
        }
        draw_char(dst, width, height, cur_x, y, scale, c, color);
        proof {
            lemma_bound(width);
            lemma_bound(height);
            assert forall|px: int, py: int, ch: int|
                on_screen(bound(width), bound(height), px, py) && text_paints(x_, y_, s_, t, i as int + 1, px, py)
                    && 0 <= ch < 4 implies #[trigger] byte_of(dst@, width as int, px, py, ch) == color@[ch] by {
                if char_paints(cx, y_, s_, c, px, py) {
                } else {
                    let j = choose|j: int| 0 <= j < i + 1 && j < t.len() && #[trigger] char_paints(x_ + advance(s_) * j, y_, s_, t[j], px, py);
                    assert(j < i);
                    assert(text_paints(x_, y_, s_, t, i as int, px, py));
                    let k = pixel_base(width as int, px, py) + ch;
                    assert(byte_of(before, width as int, px, py, ch) == color@[ch]);
                    if char_byte(width, height, k, cx, y_, s_, c) {
                        let (qx, qy) = choose|qx: int, qy: int|
                            on_screen(bound(width), bound(height), qx, qy) && #[trigger] char_paints(cx, y_, s_, c, qx, qy)
                                && pixel_base(width as int, qx, qy) <= k < pixel_base(width as int, qx, qy) + 4;
                        if qx != px || qy != py {
                            lemma_distinct_pixels(width as int, height as int, px, py, qx, qy);
                        }
                    }
                }
            }
            assert forall|k: int|
                0 <= k < dst@.len() && !text_byte(width, height, k, x_, y_, s_, t, i as int + 1) implies #[trigger] dst@[k] == start[k] by {
                if char_byte(width, height, k, cx, y_, s_, c) {
                    let (qx, qy) = choose|qx: int, qy: int|
                        on_screen(bound(width), bound(height), qx, qy) && #[trigger] char_paints(cx, y_, s_, c, qx, qy)
                            && pixel_base(width as int, qx, qy) <= k < pixel_base(width as int, qx, qy) + 4;
                    assert(text_paints(x_, y_, s_, t, i as int + 1, qx, qy));
                }
                if text_byte(width, height, k, x_, y_, s_, t, i as int) {
                    let (qx, qy) = choose|qx: int, qy: int|
                        on_screen(bound(width), bound(height), qx, qy) && #[trigger] text_paints(x_, y_, s_, t, i as int, qx, qy)
                            && pixel_base(width as int, qx, qy) <= k < pixel_base(width as int, qx, qy) + 4;
                    let j = choose|j: int| 0 <= j < i && j < t.len() && #[trigger] char_paints(x_ + advance(s_) * j, y_, s_, t[j], qx, qy);
                    assert(text_paints(x_, y_, s_, t, i as int + 1, qx, qy));
                }
                assert(before[k] == start[k]);
            }
        }
        proof {
            lemma_pen_between(x_, s_, i as int, n as int);
            lemma_pen_between(x_, s_, i as int + 1, n as int);
            assert(i32::MIN <= 6 * s_ <= i32::MAX);
            assert(i32::MIN <= x_ + advance(s_) * n <= i32::MAX);
        }
        cur_x = cur_x + 6 * scale;
        i = i + 1;
    }
}

/// A whole-screen check for drawing `n` characters: the buffer holds the
/// whole `w` by `h` RGBA screen with offsets that fit in 32 bits, the pen stays
/// within 32 bits, and with a positive scale the glyph boxes end within 32
/// bits.
pub open spec fn screen_text_ok(len: int, w: u32, h: u32, x: int, y: int, s: int, n: int) -> bool {
    &&& w * h * 4 <= u32::MAX
    &&& w * h * 4 <= len
    &&& i32::MIN <= x + advance(s) * n <= i32::MAX
    &&& n > 0 ==> i32::MIN <= advance(s) <= i32::MAX
    &&& s > 0 && n > 0 ==> x + advance(s) * n - 1 <= i32::MAX && y + 7 * s - 1 <= i32::MAX
}

proof fn lemma_pixel_on_screen(w: u32, h: u32, px: int, py: int)
    requires
        on_screen(bound(w), bound(h), px, py),
    ensures
        0 <= pixel_base(w as int, px, py),
        pixel_base(w as int, px, py) + 4 <= w * h * 4,
{
    lemma_bound(w);
    lemma_bound(h);
    lemma_base_nonneg(w as int, px, py);
    assert(py * (w as int) + px + 1 <= (h as int) * (w as int)) by (nonlinear_arith)
        requires
            0 <= px < w,
            0 <= py < h,
    ;
    assert((h as int) * (w as int) == w * h) by (nonlinear_arith);
}

/// The whole-screen check is enough for `draw_text`.
pub proof fn lemma_screen_text_fits(len: int, w: u32, h: u32, x: int, y: int, s: int, t: Seq<char>)
    requires
        screen_text_ok(len, w, h, x, y, s, t.len() as int),
    ensures
        text_fits(len, w, h, x, y, s, t),
{
    let n = t.len() as int;
    assert forall|i: int| 0 <= i < t.len() implies glyph_in_range(x + advance(s) * i, y, s, #[trigger] t[i]) by {
        if s > 0 {
            assert forall|col: int, row: int| #[trigger] glyph_on(glyph_index(t[i]), col, row) implies cell_in_range(
                x + advance(s) * i,
                y,
                s,
                col,
                row,
            ) by {
                assert(col * s <= 4 * s && row * s <= 6 * s && 0 <= col * s && 0 <= row * s) by (nonlinear_arith)
                    requires
                        0 <= col < 5,
                        0 <= row < 7,
                        s > 0,
                ;
                assert(advance(s) * i + 6 * s <= advance(s) * n) by (nonlinear_arith)
                    requires
                        0 <= i < n,
                        s > 0,
                ;
            }
        }
    }
    assert forall|i: int| 0 <= i < t.len() implies char_fits(len, w, h, x + advance(s) * i, y, s, #[trigger] t[i]) by {
        assert forall|px: int, py: int|
            on_screen(bound(w), bound(h), px, py) && #[trigger] char_paints(x + advance(s) * i, y, s, t[i], px, py)
                implies pixel_base(w as int, px, py) + 3 <= u32::MAX && pixel_base(w as int, px, py) + 4 <= len by {
            lemma_pixel_on_screen(w, h, px, py);
        }
    }
}

/// Checks `screen_text_ok` for the text, before drawing it on a screen.
pub fn text_fits_screen(len: usize, width: u32, height: u32, x: i32, y: i32, scale: i32, text: &str) -> (r: bool)
    ensures
        r == screen_text_ok(len as int, width, height, x as int, y as int, scale as int, text@.len() as int),
{
    let n: usize = text.unicode_len();
    assert((width as int) * (height as int) <= 0xFFFF_FFFF * 0xFFFF_FFFF) by (nonlinear_arith)
        requires
            width <= 0xFFFF_FFFF,
            height <= 0xFFFF_FFFF,
    ;
    let area: u128 = (width as u128) * (height as u128) * 4;
    if area > 0xFFFF_FFFFu128 || area > len as u128 {
        return false;
    }
    let step: i128 = 6 * (scale as i128);
    assert(-0x4_0000_0000 * 0x1_0000_0000_0000_0000 <= step * (n as int) <= 0x4_0000_0000 * 0x1_0000_0000_0000_0000)
        by (nonlinear_arith)
        requires
            -0x4_0000_0000 <= step <= 0x4_0000_0000,
            0 <= n < 0x1_0000_0000_0000_0000,
    ;
    let end: i128 = (x as i128) + step * (n as i128);
    assert(step * (n as i128) == advance(scale as int) * n) by (nonlinear_arith)
        requires
            step == 6 * scale,
    ;
    if end < i32::MIN as i128 || end > i32::MAX as i128 {
        return false;
    }
    if n > 0 && (step < i32::MIN as i128 || step > i32::MAX as i128) {
        return false;
    }
    if scale > 0 && n > 0 && (end - 1 > i32::MAX as i128 || (y as i128) + 7 * (scale as i128) - 1 > i32::MAX as i128) {
        return false;
    }
    true
}

} // verus!
