//! Rendering of the circular tray icons as RGBA pixel buffers.
//!
//! Both icons are a filled disc with a one-pixel antialiased rim: a pixel at
//! squared distance `d2` from the buffer center is opaque inside the radius,
//! transparent outside `radius + 1`, and carries a linearly interpolated alpha
//! in between, rounded down to a whole alpha step. The edge alpha is computed
//! exactly over integers with a fixed-point square root (255 units per
//! pixel). The status icon may carry a
//! glyph, supplied as a coverage raster and blended white-over-fill.

use vstd::prelude::*;
use crate::color::{parse_hex_color, spec_parse_hex_color};

verus! {

/// Side length of the square status-bar icon, in pixels.
pub const STATUS_ICON_SIZE: usize = 22;

/// Side length of the square menu-entry icon, in pixels.
pub const MENU_ICON_SIZE: usize = 16;

/// Radius of the filled disc drawn in an icon of side `size`.
pub open spec fn spec_radius(size: int) -> int {
    size / 2 - 1
}

/// Squared distance of pixel `(x, y)` from the buffer center.
pub open spec fn spec_d2(size: int, x: int, y: int) -> int {
    (x - size / 2) * (x - size / 2) + (y - size / 2) * (y - size / 2)
}

/// Floor of the square root (zero for negative arguments).
pub open spec fn spec_isqrt(n: int) -> int
    decreases n,
{
    if n <= 0 {
        0
    } else {
        let r = spec_isqrt(n - 1);
        if (r + 1) * (r + 1) <= n {
            r + 1
        } else {
            r
        }
    }
}

proof fn lemma_isqrt_bounds(n: int)
    requires
        n >= 0,
    ensures
        spec_isqrt(n) >= 0,
        spec_isqrt(n) * spec_isqrt(n) <= n,
        n < (spec_isqrt(n) + 1) * (spec_isqrt(n) + 1),
    decreases n,
{
    if n > 0 {
        lemma_isqrt_bounds(n - 1);
        let r = spec_isqrt(n - 1);
        if (r + 1) * (r + 1) <= n {
            assert(spec_isqrt(n) == r + 1);
            assert(n <= (r + 1) * (r + 1));
            assert((r + 1) * (r + 1) < (r + 2) * (r + 2)) by (nonlinear_arith)
                requires
                    r >= 0,
            ;
        } else {
            assert(spec_isqrt(n) == r);
        }
    }
}

proof fn lemma_isqrt_unique(n: int, a: int, b: int)
    requires
        a >= 0,
        b >= 0,
        a * a <= n < (a + 1) * (a + 1),
        b * b <= n < (b + 1) * (b + 1),
    ensures
        a == b,
{
    if a < b {
        assert((a + 1) * (a + 1) <= b * b) by (nonlinear_arith)
            requires
                a + 1 <= b,
                a >= 0,
        ;
    }
    if b < a {
        assert((b + 1) * (b + 1) <= a * a) by (nonlinear_arith)
            requires
                b + 1 <= a,
                b >= 0,
        ;
    }
}

/// Floor of the square root, by bisection.
fn isqrt(n: u64) -> (r: u64)
    requires
        n < 0x4000_0000_0000,
    ensures
        r as int == spec_isqrt(n as int),
{
    let mut lo: u64 = 0;
    let mut hi: u64 = 0x80_0000;
    proof {
        assert((0x80_0000 as int) * (0x80_0000 as int) == 0x4000_0000_0000);
    }
    while hi - lo > 1
        invariant
            lo < hi <= 0x80_0000,
            (lo as int) * (lo as int) <= n as int,
            (n as int) < (hi as int) * (hi as int),
        decreases hi - lo,
    {
        let mid = lo + (hi - lo) / 2;
        proof {
            assert((mid as int) * (mid as int) <= 0x4000_0000_0000) by (nonlinear_arith)
                requires
                    0 <= mid <= 0x80_0000,
            ;
        }
        if mid * mid <= n {
            lo = mid;
        } else {
            hi = mid;
        }
    }
    proof {
        lemma_isqrt_bounds(n as int);
        lemma_isqrt_unique(n as int, lo as int, spec_isqrt(n as int));
    }
    lo
}

/// Alpha of a rim pixel: the interpolated value `(radius + 1 - d) * 255`
/// rounded down, computed exactly over integers via
/// `255 * d = sqrt(65025 * d2)`: when `65025 * d2` is a perfect square the
/// value is an integer, otherwise the floor subtracts one more than the
/// root's floor.
pub open spec fn spec_edge_alpha(size: int, x: int, y: int) -> int {
    let n = 65025 * spec_d2(size, x, y);
    let q = spec_isqrt(n);
    if q * q == n {
        255 * (spec_radius(size) + 1) - q
    } else {
        255 * (spec_radius(size) + 1) - q - 1
    }
}

/// The RGBA value of pixel `(x, y)` of a plain disc icon.
pub open spec fn spec_circle_pixel(size: int, rgb: (u8, u8, u8), x: int, y: int) -> (u8, u8, u8, u8) {
    let d2 = spec_d2(size, x, y);
    let rad = spec_radius(size);
    if d2 <= rad * rad {
        (rgb.0, rgb.1, rgb.2, 255u8)
    } else if d2 <= (rad + 1) * (rad + 1) {
        (rgb.0, rgb.1, rgb.2, spec_edge_alpha(size, x, y) as u8)
    } else {
        (0u8, 0u8, 0u8, 0u8)
    }
}

/// The four bytes of pixel `(x, y)` in a row-major RGBA buffer of side `size`.
pub open spec fn spec_pixel_at(icon: Seq<u8>, size: int, x: int, y: int) -> (u8, u8, u8, u8) {
    (
        icon[4 * (y * size + x)],
        icon[4 * (y * size + x) + 1],
        icon[4 * (y * size + x) + 2],
        icon[4 * (y * size + x) + 3],
    )
}

/// A buffer holds exactly the disc of the given color.
pub open spec fn spec_circle_icon_ok(icon: Seq<u8>, size: int, rgb: (u8, u8, u8)) -> bool {
    &&& icon.len() == 4 * size * size
    &&& forall|x: int, y: int|
        0 <= x < size && 0 <= y < size ==> #[trigger] spec_pixel_at(icon, size, x, y)
            == spec_circle_pixel(size, rgb, x, y)
}

/// A parsed color, or the given fallback when the string is rejected.
pub open spec fn spec_color_or(c: Option<(u8, u8, u8)>, fallback: (u8, u8, u8)) -> (u8, u8, u8) {
    match c {
        Some(v) => v,
        None => fallback,
    }
}

/// Fill color of the status icon: the parsed color, or the default blue.
pub open spec fn spec_status_rgb(color: Seq<char>) -> (u8, u8, u8) {
    spec_color_or(spec_parse_hex_color(color), (91u8, 164u8, 196u8))
}

/// Fill color of a menu icon: the parsed color, or a neutral gray.
pub open spec fn spec_menu_rgb(color: Seq<char>) -> (u8, u8, u8) {
    spec_color_or(spec_parse_hex_color(color), (128u8, 128u8, 128u8))
}

proof fn lemma_edge_alpha_in_range(size: int, x: int, y: int)
    requires
        4 <= size,
        spec_radius(size) * spec_radius(size) < spec_d2(size, x, y),
        spec_d2(size, x, y) <= (spec_radius(size) + 1) * (spec_radius(size) + 1),
    ensures
        0 <= spec_edge_alpha(size, x, y) <= 255,
{
    let rad = spec_radius(size);
    let d2 = spec_d2(size, x, y);
    let n = 65025 * d2;
    let q = spec_isqrt(n);
    assert(rad * rad >= 0) by (nonlinear_arith);
    lemma_isqrt_bounds(n);
    assert(65025 * d2 <= 65025 * ((rad + 1) * (rad + 1))) by (nonlinear_arith)
        requires
            d2 <= (rad + 1) * (rad + 1),
    ;
    assert(65025 * ((rad + 1) * (rad + 1)) == (255 * (rad + 1)) * (255 * (rad + 1)))
        by (nonlinear_arith);
    assert(q <= 255 * (rad + 1)) by (nonlinear_arith)
        requires
            q * q <= (255 * (rad + 1)) * (255 * (rad + 1)),
            q >= 0,
            rad + 1 >= 1,
    ;
    assert(65025 * d2 >= 65025 * (rad * rad) + 65025) by (nonlinear_arith)
        requires
            d2 >= rad * rad + 1,
    ;
    assert(65025 * (rad * rad) == (255 * rad) * (255 * rad)) by (nonlinear_arith);
    assert((q + 1) * (q + 1) > (255 * rad) * (255 * rad));
    assert(q + 1 > 255 * rad) by (nonlinear_arith)
        requires
            (q + 1) * (q + 1) > (255 * rad) * (255 * rad),
            q + 1 >= 0,
            rad >= 0,
    ;
    if q * q != n && q == 255 * (rad + 1) {
        assert(q * q == (255 * (rad + 1)) * (255 * (rad + 1)));
        assert(q * q >= 65025 * d2);
        assert(false);
    }
}

proof fn lemma_rowmajor_lt(size: int, xx: int, yy: int, x: int, y: int)
    requires
        0 <= xx < size,
        0 <= yy,
        0 <= x,
        yy < y || (yy == y && xx < x),
    ensures
        0 <= yy * size + xx,
        yy * size + xx < y * size + x,
{
    assert(0 <= yy * size) by (nonlinear_arith)
        requires
            yy >= 0,
            size >= 0,
    ;
    if yy < y {
        assert((yy + 1) * size == yy * size + size) by (nonlinear_arith);
        assert((yy + 1) * size <= y * size) by (nonlinear_arith)
            requires
                yy + 1 <= y,
                size >= 1,
        ;
    }
}

/// Render a disc of the given fill color into a fresh RGBA buffer.
fn render_circle(size: usize, rgb: (u8, u8, u8)) -> (r: Vec<u8>)
    requires
        size == STATUS_ICON_SIZE || size == MENU_ICON_SIZE,
    ensures
        spec_circle_icon_ok(r@, size as int, rgb),
{
    let mut buf: Vec<u8> = Vec::new();
    let half: i64 = (size as i64) / 2;
    let rad: i64 = half - 1;
    let mut y: usize = 0;
    while y < size
        invariant
            size == STATUS_ICON_SIZE || size == MENU_ICON_SIZE,
            half == size as int / 2,
            rad == spec_radius(size as int),
            y <= size,
            buf@.len() == 4 * ((y as int) * (size as int)),
            forall|xx: int, yy: int|
                0 <= xx < size && 0 <= yy < y ==> #[trigger] spec_pixel_at(buf@, size as int, xx, yy)
                    == spec_circle_pixel(size as int, rgb, xx, yy),
        decreases size - y,
    {
        let mut x: usize = 0;
        while x < size
            invariant
                size == STATUS_ICON_SIZE || size == MENU_ICON_SIZE,
                half == size as int / 2,
                rad == spec_radius(size as int),
                y < size,
                x <= size,
                buf@.len() == 4 * ((y as int) * (size as int) + (x as int)),
                forall|xx: int, yy: int|
                    0 <= xx < size && 0 <= yy < y ==> #[trigger] spec_pixel_at(buf@, size as int, xx, yy)
                        == spec_circle_pixel(size as int, rgb, xx, yy),
                forall|xx: int|
                    0 <= xx < x ==> #[trigger] spec_pixel_at(buf@, size as int, xx, y as int)
                        == spec_circle_pixel(size as int, rgb, xx, y as int),
            decreases size - x,
        {
            let dx: i64 = x as i64 - half;
            let dy: i64 = y as i64 - half;
            proof {
                assert(0 <= dx * dx <= 484 && 0 <= dy * dy <= 484) by (nonlinear_arith)
                    requires
                        -22 <= dx <= 22,
                        -22 <= dy <= 22,
                ;
            }
            let d2: i64 = dx * dx + dy * dy;
            proof {
                assert(d2 == spec_d2(size as int, x as int, y as int));
                assert(0 <= rad * rad <= 121 && 0 <= (rad + 1) * (rad + 1) <= 484)
                    by (nonlinear_arith)
                    requires
                        0 <= rad <= 11,
                ;
            }
            let ghost bufsnap = buf@;
            let ghost oldlen = buf@.len() as int;
            if d2 <= rad * rad {
                buf.push(rgb.0);
                buf.push(rgb.1);
                buf.push(rgb.2);
                buf.push(255u8);
            } else if d2 <= (rad + 1) * (rad + 1) {
                let n64: u64 = (65025 * d2) as u64;
                let q = isqrt(n64);
                proof {
                    lemma_isqrt_bounds(n64 as int);
                    lemma_edge_alpha_in_range(size as int, x as int, y as int);
                }
                let alpha = if q * q == n64 {
                    (255 * (rad + 1) - q as i64) as u8
                } else {
                    (255 * (rad + 1) - q as i64 - 1) as u8
                };
                buf.push(rgb.0);
                buf.push(rgb.1);
                buf.push(rgb.2);
                buf.push(alpha);
            } else {
                buf.push(0u8);
                buf.push(0u8);
                buf.push(0u8);
                buf.push(0u8);
            }
            proof {
                assert(oldlen == 4 * ((y as int) * (size as int) + x as int));
                assert(buf@.len() == oldlen + 4);
                assert(spec_pixel_at(buf@, size as int, x as int, y as int)
                    == spec_circle_pixel(size as int, rgb, x as int, y as int));
                assert forall|xx: int, yy: int|
                    0 <= xx < size && 0 <= yy < y implies #[trigger] spec_pixel_at(
                    buf@,
                    size as int,
                    xx,
                    yy,
                ) == spec_circle_pixel(size as int, rgb, xx, yy) by {
                    lemma_rowmajor_lt(size as int, xx, yy, x as int, y as int);
                    assert(spec_pixel_at(bufsnap, size as int, xx, yy) == spec_circle_pixel(
                        size as int,
                        rgb,
                        xx,
                        yy,
                    ));
                };
                assert forall|xx: int| 0 <= xx < x implies #[trigger] spec_pixel_at(
                    buf@,
                    size as int,
                    xx,
                    y as int,
                ) == spec_circle_pixel(size as int, rgb, xx, y as int) by {
                    lemma_rowmajor_lt(size as int, xx, y as int, x as int, y as int);
                    assert(spec_pixel_at(bufsnap, size as int, xx, y as int) == spec_circle_pixel(
                        size as int,
                        rgb,
                        xx,
                        y as int,
                    ));
                };
            }
            x = x + 1;
        }
        proof {
            assert(((y as int) + 1) * (size as int) == (y as int) * (size as int) + (size as int))
                by (nonlinear_arith);
        }
        y = y + 1;
    }
    proof {
        assert(buf@.len() == 4 * ((size as int) * (size as int)));
        assert(4 * ((size as int) * (size as int)) == 4 * (size as int) * (size as int))
            by (nonlinear_arith);
    }
    buf
}

/// A glyph coverage raster: per-pixel opacities, row-major, to be centered in
/// the status icon. Well-formed when it fits the icon and the coverage grid
/// matches its dimensions.
pub struct GlyphRaster {
    pub width: usize,
    pub height: usize,
    pub coverage: Vec<u8>,
}

impl GlyphRaster {
    /// The raster fits inside the status icon and carries one coverage byte
    /// per cell.
    pub open spec fn wf(&self) -> bool {
        &&& 1 <= self.width <= STATUS_ICON_SIZE
        &&& 1 <= self.height <= STATUS_ICON_SIZE
        &&& self.coverage@.len() == self.width * self.height
    }
}

/// Horizontal position of a centered glyph of width `w`.
pub open spec fn spec_glyph_off_x(w: int) -> int {
    (STATUS_ICON_SIZE as int - w) / 2
}

/// Vertical position of a centered glyph of height `h`, nudged one pixel down
/// for optical centering.
pub open spec fn spec_glyph_off_y(h: int) -> int {
    (STATUS_ICON_SIZE as int - h) / 2 + 1
}

/// Does the glyph paint pixel `(x, y)`? It must lie under the centered raster
/// and keep half a pixel of margin inside the disc radius, so the glyph never
/// touches the antialiased rim.
pub open spec fn spec_glyph_covered(g: GlyphRaster, x: int, y: int) -> bool {
    let ox = spec_glyph_off_x(g.width as int);
    let oy = spec_glyph_off_y(g.height as int);
    &&& ox <= x < ox + g.width
    &&& oy <= y < oy + g.height
    &&& 4 * spec_d2(STATUS_ICON_SIZE as int, x, y) <= (2 * spec_radius(STATUS_ICON_SIZE as int)
        - 1) * (2 * spec_radius(STATUS_ICON_SIZE as int) - 1)
}

/// Coverage value of the glyph at pixel `(x, y)` under the centered placement.
pub open spec fn spec_glyph_cov_at(g: GlyphRaster, x: int, y: int) -> u8 {
    g.coverage@[(y - spec_glyph_off_y(g.height as int)) * g.width + (x - spec_glyph_off_x(
        g.width as int,
    ))]
}

/// One channel of white blended over `c` with opacity `a` (out of 255).
pub open spec fn spec_blend_channel(c: u8, a: u8) -> u8 {
    ((255 * (a as int) + (c as int) * (255 - a as int)) / 255) as u8
}

proof fn lemma_blend_in_range(c: u8, a: u8)
    ensures
        0 <= 255 * (a as int) + (c as int) * (255 - a as int) <= 65025,
        0 <= (255 * (a as int) + (c as int) * (255 - a as int)) / 255 <= 255,
{
    assert(0 <= (c as int) * (255 - a as int) <= 255 * (255 - a as int)) by (nonlinear_arith)
        requires
            0 <= c <= 255,
            0 <= a <= 255,
    ;
    assert(0 <= 255 * (a as int) + (c as int) * (255 - a as int) <= 65025);
    assert((255 * (a as int) + (c as int) * (255 - a as int)) / 255 <= 65025int / 255) by (
    nonlinear_arith)
        requires
            0 <= 255 * (a as int) + (c as int) * (255 - a as int) <= 65025,
    ;
}

/// White glyph coverage `a` blended over an RGBA pixel; alpha is kept.
pub open spec fn spec_glyph_pixel(base: (u8, u8, u8, u8), a: u8) -> (u8, u8, u8, u8) {
    (spec_blend_channel(base.0, a), spec_blend_channel(base.1, a), spec_blend_channel(base.2, a), base.3)
}

/// Pixel `(x, y)` after compositing the glyph over the buffer `base`.
pub open spec fn spec_composited_pixel(base: Seq<u8>, g: GlyphRaster, x: int, y: int) -> (
    u8,
    u8,
    u8,
    u8,
) {
    if spec_glyph_covered(g, x, y) {
        spec_glyph_pixel(spec_pixel_at(base, STATUS_ICON_SIZE as int, x, y), spec_glyph_cov_at(g, x, y))
    } else {
        spec_pixel_at(base, STATUS_ICON_SIZE as int, x, y)
    }
}

/// The status icon for a color string and an optional glyph raster.
pub open spec fn spec_status_icon_ok(icon: Seq<u8>, color: Seq<char>, glyph: Option<GlyphRaster>) -> bool {
    &&& icon.len() == 4 * STATUS_ICON_SIZE * STATUS_ICON_SIZE
    &&& match glyph {
        None => forall|x: int, y: int|
            0 <= x < STATUS_ICON_SIZE && 0 <= y < STATUS_ICON_SIZE
                ==> #[trigger] spec_pixel_at(icon, STATUS_ICON_SIZE as int, x, y)
                == spec_circle_pixel(STATUS_ICON_SIZE as int, spec_status_rgb(color), x, y),
        Some(g) => exists|base: Seq<u8>|
            {
                &&& #[trigger] spec_circle_icon_ok(base, STATUS_ICON_SIZE as int, spec_status_rgb(color))
                &&& forall|x: int, y: int|
                    0 <= x < STATUS_ICON_SIZE && 0 <= y < STATUS_ICON_SIZE
                        ==> #[trigger] spec_pixel_at(icon, STATUS_ICON_SIZE as int, x, y)
                        == spec_composited_pixel(base, g, x, y)
            },
    }
}

/// Blend the glyph raster, centered, white-over-fill, into a status icon
/// buffer. Pixels outside the raster, outside the disc margin, or below the
/// buffer keep their value; the alpha channel is never changed.
pub fn composite_glyph(buf: &mut Vec<u8>, glyph: &GlyphRaster)
    requires
        old(buf)@.len() == 4 * STATUS_ICON_SIZE * STATUS_ICON_SIZE,
        glyph.wf(),
    ensures
        final(buf)@.len() == old(buf)@.len(),
        forall|x: int, y: int|
            0 <= x < STATUS_ICON_SIZE && 0 <= y < STATUS_ICON_SIZE
                ==> #[trigger] spec_pixel_at(final(buf)@, STATUS_ICON_SIZE as int, x, y)
                == spec_composited_pixel(old(buf)@, *glyph, x, y),
{
    let w = glyph.width;
    let h = glyph.height;
    let ox = (STATUS_ICON_SIZE - w) / 2;
    let oy = (STATUS_ICON_SIZE - h) / 2 + 1;
    let mut gy: usize = 0;
    while gy < h
        invariant
            glyph.wf(),
            w == glyph.width,
            h == glyph.height,
            ox == spec_glyph_off_x(w as int),
            oy == spec_glyph_off_y(h as int),
            gy <= h,
            buf@.len() == old(buf)@.len(),
            old(buf)@.len() == 4 * STATUS_ICON_SIZE * STATUS_ICON_SIZE,
            forall|x: int, y: int|
                0 <= x < STATUS_ICON_SIZE && 0 <= y < STATUS_ICON_SIZE
                    ==> #[trigger] spec_pixel_at(buf@, STATUS_ICON_SIZE as int, x, y) == (
                if spec_glyph_covered(*glyph, x, y) && y - oy < gy {
                    spec_glyph_pixel(
                        spec_pixel_at(old(buf)@, STATUS_ICON_SIZE as int, x, y),
                        spec_glyph_cov_at(*glyph, x, y),
                    )
                } else {
                    spec_pixel_at(old(buf)@, STATUS_ICON_SIZE as int, x, y)
                }),
        decreases h - gy,
    {
        let mut gx: usize = 0;
        while gx < w
            invariant
                glyph.wf(),
                w == glyph.width,
                h == glyph.height,
                ox == spec_glyph_off_x(w as int),
                oy == spec_glyph_off_y(h as int),
                gy < h,
                gx <= w,
                buf@.len() == old(buf)@.len(),
                old(buf)@.len() == 4 * STATUS_ICON_SIZE * STATUS_ICON_SIZE,
                forall|x: int, y: int|
                    0 <= x < STATUS_ICON_SIZE && 0 <= y < STATUS_ICON_SIZE
                        ==> #[trigger] spec_pixel_at(buf@, STATUS_ICON_SIZE as int, x, y) == (
                    if spec_glyph_covered(*glyph, x, y) && (y - oy < gy || (y - oy == gy && x - ox
                        < gx)) {
                        spec_glyph_pixel(
                            spec_pixel_at(old(buf)@, STATUS_ICON_SIZE as int, x, y),
                            spec_glyph_cov_at(*glyph, x, y),
                        )
                    } else {
                        spec_pixel_at(old(buf)@, STATUS_ICON_SIZE as int, x, y)
                    }),
            decreases w - gx,
        {
            let ghost snap = buf@;
            let x = gx + ox;
            let y = gy + oy;
            if x < STATUS_ICON_SIZE && y < STATUS_ICON_SIZE {
                let half: i64 = (STATUS_ICON_SIZE as i64) / 2;
                let rad: i64 = half - 1;
                let dx: i64 = x as i64 - half;
                let dy: i64 = y as i64 - half;
                proof {
                    assert(0 <= dx * dx <= 484 && 0 <= dy * dy <= 484) by (nonlinear_arith)
                        requires
                            -22 <= dx <= 22,
                            -22 <= dy <= 22,
                    ;
                }
                let d2: i64 = dx * dx + dy * dy;
                proof {
                    assert(0 <= (2 * (rad as int) - 1) * (2 * (rad as int) - 1) <= 361)
                        by (nonlinear_arith)
                        requires
                            rad == 10,
                    ;
                }
                if 4 * d2 <= (2 * rad - 1) * (2 * rad - 1) {
                    proof {
                        assert((gy as int) * (w as int) + (gx as int) < (w as int) * (h as int)
                            && 0 <= (gy as int) * (w as int) && (w as int) * (h as int) <= 484)
                            by (nonlinear_arith)
                            requires
                                0 <= gx < w,
                                0 <= gy < h,
                                w <= 22,
                                h <= 22,
                        ;
                    }
                    let a = glyph.coverage[gy * w + gx];
                    let idx = 4 * (y * STATUS_ICON_SIZE + x);
                    let b0 = buf[idx];
                    let b1 = buf[idx + 1];
                    let b2 = buf[idx + 2];
                    proof {
                        lemma_blend_in_range(b0, a);
                        lemma_blend_in_range(b1, a);
                        lemma_blend_in_range(b2, a);
                    }
                    let n0 = ((255 * (a as u64) + (b0 as u64) * (255 - a as u64)) / 255) as u8;
                    let n1 = ((255 * (a as u64) + (b1 as u64) * (255 - a as u64)) / 255) as u8;
                    let n2 = ((255 * (a as u64) + (b2 as u64) * (255 - a as u64)) / 255) as u8;
                    buf[idx] = n0;
                    buf[idx + 1] = n1;
                    buf[idx + 2] = n2;
                    proof {
                        assert(spec_glyph_covered(*glyph, x as int, y as int));
                        assert(spec_glyph_cov_at(*glyph, x as int, y as int) == a);
                    }
                } else {
                    proof {
                        assert(!spec_glyph_covered(*glyph, x as int, y as int));
                    }
                }
            }
            proof {
                assert forall|x2: int, y2: int|
                    0 <= x2 < STATUS_ICON_SIZE && 0 <= y2 < STATUS_ICON_SIZE
                        implies #[trigger] spec_pixel_at(buf@, STATUS_ICON_SIZE as int, x2, y2)
                        == (if spec_glyph_covered(*glyph, x2, y2) && (y2 - oy < gy || (y2 - oy == gy
                        && x2 - ox < gx + 1)) {
                        spec_glyph_pixel(
                            spec_pixel_at(old(buf)@, STATUS_ICON_SIZE as int, x2, y2),
                            spec_glyph_cov_at(*glyph, x2, y2),
                        )
                    } else {
                        spec_pixel_at(old(buf)@, STATUS_ICON_SIZE as int, x2, y2)
                    }) by {
                    let p = spec_pixel_at(snap, STATUS_ICON_SIZE as int, x2, y2);
                    assert(buf@.len() == snap.len());
                };
            }
            gx = gx + 1;
        }
        gy = gy + 1;
    }
}

/// Render the 22x22 status icon: a disc of the given color (the default blue
/// when the string does not parse), with an optional glyph raster composited
/// white-over-fill in the middle.
pub fn generate_colored_icon(hex_color: &str, glyph: Option<&GlyphRaster>) -> (r: Vec<u8>)
    requires
        glyph matches Some(g) ==> g.wf(),
    ensures
        spec_status_icon_ok(
            r@,
            hex_color@,
            match glyph {
                Some(g) => Some(*g),
                None => None,
            },
        ),
{
    let rgb = match parse_hex_color(hex_color) {
        Some(t) => t,
        None => (91u8, 164u8, 196u8),
    };
    let mut buf = render_circle(STATUS_ICON_SIZE, rgb);
    let ghost base = buf@;
    match glyph {
        Some(g) => {
            composite_glyph(&mut buf, g);
            proof {
                assert(spec_circle_icon_ok(base, STATUS_ICON_SIZE as int, spec_status_rgb(hex_color@)));
            }
            buf
        },
        None => buf,
    }
}

/// Render a 16x16 menu-entry icon: a plain disc of the given color, gray when
/// the string does not parse.
pub fn generate_menu_icon(hex_color: &str) -> (r: Vec<u8>)
    ensures
        spec_circle_icon_ok(r@, MENU_ICON_SIZE as int, spec_menu_rgb(hex_color@)),
{
    let rgb = match parse_hex_color(hex_color) {
        Some(t) => t,
        None => (128u8, 128u8, 128u8),
    };
    render_circle(MENU_ICON_SIZE, rgb)
}

} // verus!
