//! The size of the viewport and the lengths that are derived from it.

use vstd::prelude::*;
use crate::fixed::{lemma_trunc_div_bounds, scale, scale_spec, trunc_div, LIMIT, ONE};

verus! {

/// Radius of the player and of a projectile, as a fraction of the shorter
/// dimension of the viewport.
pub const PLAYER_SIZE: i64 = 20_000;

/// Largest width or height, in millionths of a pixel.
pub const MAX_EXTENT: i64 = 4_294_967_295_000_000;

/// The viewport: width and height, their halves and the shorter of the two,
/// all in millionths of a pixel.
#[derive(Clone, Copy, Debug, PartialEq, Eq, Structural)]
pub struct DisplayProperties {
    pub w: i64,
    pub h: i64,
    pub half_w: i64,
    pub half_h: i64,
    pub shorter_dimension: i64,
}

/// A number of pixels as a length, at least one pixel.
pub open spec fn extent_of(pixels: u32) -> int {
    if pixels == 0 {
        ONE as int
    } else {
        pixels * ONE
    }
}

/// The metrics of a viewport of the given size in pixels. A dimension of
/// zero counts as one pixel.
pub open spec fn metrics_of(width: u32, height: u32) -> DisplayProperties {
    let w = extent_of(width);
    let h = extent_of(height);
    DisplayProperties {
        w: w as i64,
        h: h as i64,
        half_w: (w / 2) as i64,
        half_h: (h / 2) as i64,
        shorter_dimension: (if w < h {
            w
        } else {
            h
        }) as i64,
    }
}

impl DisplayProperties {
    /// The derived lengths agree with width and height, and neither
    /// dimension is degenerate.
    pub open spec fn wf(self) -> bool {
        &&& ONE <= self.w <= MAX_EXTENT
        &&& ONE <= self.h <= MAX_EXTENT
        &&& self.half_w == self.w / 2
        &&& self.half_h == self.h / 2
        &&& self.shorter_dimension == if self.w < self.h {
            self.w
        } else {
            self.h
        }
    }

    /// The radius of the player and of a projectile.
    pub open spec fn radius(self) -> int {
        scale_spec(self.shorter_dimension as int, PLAYER_SIZE as int)
    }

    /// The distance below which two round bodies touch.
    pub open spec fn collision_distance(self) -> int {
        scale_spec(self.shorter_dimension as int, 2 * PLAYER_SIZE)
    }

    /// The metrics of a viewport of the given size in pixels.
    pub fn from_pixels(width: u32, height: u32) -> (d: DisplayProperties)
        ensures
            d == metrics_of(width, height),
            d.wf(),
    {
        let w: i64 = if width == 0 {
            ONE
        } else {
            (width as i64) * ONE
        };
        let h: i64 = if height == 0 {
            ONE
        } else {
            (height as i64) * ONE
        };
        DisplayProperties {
            w,
            h,
            half_w: w / 2,
            half_h: h / 2,
            shorter_dimension: if w < h {
                w
            } else {
                h
            },
        }
    }

    /// Takes over the size of the window if a resize was observed.
    pub fn resize_screen_bounds(&mut self, resize_events: usize, width: u32, height: u32)
        ensures
            resize_events == 0 ==> *final(self) == *old(self),
            resize_events > 0 ==> *final(self) == metrics_of(width, height),
            resize_events > 0 ==> final(self).wf(),
    {
        if resize_events > 0 {
            *self = DisplayProperties::from_pixels(width, height);
        }
    }

    /// The radius of the player and of a projectile.
    pub fn player_radius(&self) -> (r: i64)
        requires
            self.wf(),
        ensures
            r == self.radius(),
            0 <= r,
            r <= self.half_w,
            r <= self.half_h,
    {
        proof {
            lemma_radius_fits(*self);
        }
        scale(self.shorter_dimension, PLAYER_SIZE)
    }

    /// The distance below which two round bodies touch.
    pub fn touch_distance(&self) -> (r: i64)
        requires
            self.wf(),
        ensures
            r == self.collision_distance(),
            0 <= r <= self.shorter_dimension,
    {
        proof {
            lemma_radius_fits(*self);
        }
        scale(self.shorter_dimension, 2 * PLAYER_SIZE)
    }
}

impl Default for DisplayProperties {
    /// The metrics before the window reports its size: 640 by 480 pixels.
    fn default() -> (d: DisplayProperties)
        ensures
            d == metrics_of(640, 480),
            d.wf(),
    {
        DisplayProperties::from_pixels(640, 480)
    }
}

/// The radius is no longer than either half extent, and the touch distance
/// no longer than the shorter dimension.
pub proof fn lemma_radius_fits(d: DisplayProperties)
    requires
        d.wf(),
    ensures
        0 <= d.radius() <= d.half_w,
        d.radius() <= d.half_h,
        0 <= d.collision_distance() <= d.shorter_dimension,
        d.radius() == (d.shorter_dimension * PLAYER_SIZE) / (ONE as int),
        d.collision_distance() == (d.shorter_dimension * (2 * PLAYER_SIZE)) / (ONE as int),
{
    let s = d.shorter_dimension as int;
    lemma_trunc_div_bounds(s * PLAYER_SIZE, ONE as int);
    lemma_trunc_div_bounds(s * (2 * PLAYER_SIZE), ONE as int);
    assert(s * PLAYER_SIZE == s * 20_000 && s * (2 * PLAYER_SIZE) == s * 40_000);
    assert(trunc_div(s * 20_000, ONE as int) == (s * 20_000) / 1_000_000);
    assert(trunc_div(s * 40_000, ONE as int) == (s * 40_000) / 1_000_000);
    assert(LIMIT == 0x1000_0000_0000_0000);
}

} // verus!
