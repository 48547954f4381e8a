//! The light between a keyboard's keys, laid over its picture.
//!
//! All lengths are in thousandths of a pixel, all fractions in parts per
//! million.

use crate::features::mouse::geometry::WHOLE;
use crate::services::assets::metadata::{GlowGeometry, GlowSegment};
use vstd::prelude::*;

verus! {

/// Where something is drawn.
#[derive(Debug, Clone, Copy, PartialEq, Eq, Structural)]
pub struct Bounds {
    pub x: i64,
    pub y: i64,
    pub w: i64,
    pub h: i64,
}

/// The least width and height of a lit gap: one pixel.
pub const LEAST: i64 = 1_000;

/// The size of the picture in a box that it fills without losing its
/// proportions.
pub open spec fn contained(w: u32, h: u32, aspect: u32) -> (int, int) {
    if w * WHOLE > h * aspect {
        ((h * aspect) / WHOLE as int, h as int)
    } else {
        (w as int, (w * WHOLE) / aspect as int)
    }
}

/// The size of the picture in a box that it fills without losing its
/// proportions.
pub fn contain(w: u32, h: u32, aspect: u32) -> (size: (u32, u32))
    requires
        w > 0,
        h > 0,
    ensures
        (size.0 as int, size.1 as int) == contained(w, h, aspect),
        size.0 <= w,
        size.1 <= h,
{
    let wide: u64 = w as u64 * WHOLE as u64;
    assert(0 <= h * aspect <= 0xffff_ffff * 0xffff_ffff) by (nonlinear_arith)
        requires
            0 <= h <= 0xffff_ffff,
            0 <= aspect <= 0xffff_ffff,
    ;
    let high: u64 = h as u64 * aspect as u64;
    if wide > high {
        ((high / WHOLE as u64) as u32, h)
    } else {
        assert(aspect > 0) by (nonlinear_arith)
            requires
                0 < w * 1_000_000 <= h * aspect,
                aspect >= 0,
        ;
        assert(0 <= wide as int / aspect as int <= h) by (nonlinear_arith)
            requires
                0 <= wide <= h * aspect,
                aspect > 0,
        ;
        (w, (wide / aspect as u64) as u32)
    }
}

/// A part of a length.
pub open spec fn part(fraction: u32, of: int) -> int {
    (fraction * of) / WHOLE as int
}

fn scaled(fraction: u32, of: u32) -> (length: i64)
    ensures
        length == part(fraction, of as int),
        0 <= length <= 0xff_ffff_ffff_ffff,
{
    assert(0 <= fraction * of <= 0xffff_ffff * 0xffff_ffff) by (nonlinear_arith)
        requires
            0 <= fraction <= 0xffff_ffff,
            0 <= of <= 0xffff_ffff,
    ;
    let product: u64 = fraction as u64 * of as u64;
    let length: u64 = product / WHOLE as u64;
    assert(length <= 0xff_ffff_ffff_ffff) by (nonlinear_arith)
        requires
            length == product / 1_000_000,
            product <= 0xffff_ffff_ffff_ffff,
    ;
    length as i64
}

/// Where a gap is lit, in a picture of the given place and size. A gap is never
/// thinner than a pixel.
pub open spec fn lit(segment: GlowSegment, x: int, y: int, w: int, h: int) -> (int, int, int, int) {
    (
        x + part(segment.x, w),
        y + part(segment.y, h),
        if part(segment.w, w) < LEAST {
            LEAST as int
        } else {
            part(segment.w, w)
        },
        if part(segment.h, h) < LEAST {
            LEAST as int
        } else {
            part(segment.h, h)
        },
    )
}

/// Whether `quads` are the first `upto` gaps as they are lit in a box at `x`,
/// `y` of size `w`, `h`.
pub open spec fn lights(
    quads: Seq<Bounds>,
    geometry: GlowGeometry,
    x: i32,
    y: i32,
    w: u32,
    h: u32,
    upto: int,
) -> bool {
    let (rw, rh) = contained(w, h, geometry.aspect);
    let left = x + (w - rw) / 2;
    let top = y + (h - rh) / 2;
    &&& quads.len() == upto
    &&& forall|i: int|
        0 <= i < upto ==> {
            let quad = #[trigger] quads[i];
            (quad.x as int, quad.y as int, quad.w as int, quad.h as int) == lit(
                geometry.segments@[i],
                left,
                top,
                rw,
                rh,
            )
        }
}

/// The lit gaps of a picture in a box. A box without an area shows none.
pub fn glow_quads(geometry: &GlowGeometry, x: i32, y: i32, w: u32, h: u32) -> (quads: Vec<Bounds>)
    ensures
        if w == 0 || h == 0 {
            quads@.len() == 0
        } else {
            lights(quads@, *geometry, x, y, w, h, geometry.segments@.len() as int)
        },
{
    let mut quads: Vec<Bounds> = Vec::new();
    if w == 0 || h == 0 {
        return quads;
    }
    let (rw, rh) = contain(w, h, geometry.aspect);
    let left: i64 = x as i64 + ((w - rw) / 2) as i64;
    let top: i64 = y as i64 + ((h - rh) / 2) as i64;
    let mut i: usize = 0;
    while i < geometry.segments.len()
        invariant
            i <= geometry.segments@.len(),
            (rw as int, rh as int) == contained(w, h, geometry.aspect),
            left == x + (w - rw) / 2,
            top == y + (h - rh) / 2,
            -0x1_0000_0000 <= left <= 0x2_0000_0000,
            -0x1_0000_0000 <= top <= 0x2_0000_0000,
            lights(quads@, *geometry, x, y, w, h, i as int),
        decreases geometry.segments@.len() - i,
    {
        let segment = geometry.segments[i];
        let mut quad = Bounds {
            x: left + scaled(segment.x, rw),
            y: top + scaled(segment.y, rh),
            w: scaled(segment.w, rw),
            h: scaled(segment.h, rh),
        };
        if quad.w < LEAST {
            quad.w = LEAST;
        }
        if quad.h < LEAST {
            quad.h = LEAST;
        }
        quads.push(quad);
        i += 1;
    }
    quads
}

/// The picture lies inside its box and touches two of its sides.
pub proof fn the_glow_fits_its_box(w: u32, h: u32, aspect: u32)
    requires
        w > 0,
        h > 0,
    ensures
        ({
            let (rw, rh) = contained(w, h, aspect);
            0 <= rw <= w && 0 <= rh <= h && (rw == w || rh == h)
        }),
{
    if w * WHOLE > h * aspect {
        assert(h * aspect >= 0) by (nonlinear_arith)
            requires
                h >= 0,
                aspect >= 0,
        ;
    } else {
        assert(aspect > 0) by (nonlinear_arith)
            requires
                0 < w * 1_000_000 <= h * aspect,
                aspect >= 0,
        ;
        assert(0 <= (w * WHOLE) / aspect as int <= h) by (nonlinear_arith)
            requires
                0 <= w * WHOLE <= h * aspect,
                aspect > 0,
        ;
    }
}

} // verus!
