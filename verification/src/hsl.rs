//! The hue/saturation/lightness color model: pure, range-safe adjustments.

use vstd::prelude::*;
use vstd::arithmetic::div_mod::{
    lemma_fundamental_div_mod, lemma_mod_multiples_vanish, lemma_small_mod,
};

verus! {

/// A hue/saturation/lightness triple. Hue is a cyclic angle in degrees,
/// saturation and lightness are percentages.
#[derive(Clone, Copy, Debug, PartialEq, Eq, Structural)]
pub struct Hsl {
    pub hue: u16,
    pub saturation: u8,
    pub lightness: u8,
}

/// The three colors bound to the template's three placeholder slots.
#[derive(Clone, Copy, Debug, PartialEq, Eq, Structural)]
pub struct Palette {
    pub primary: Hsl,
    pub secondary: Hsl,
    pub accent: Hsl,
}

/// `value` forced into the percentage range, saturating at the boundaries.
pub open spec fn clamped_channel(value: int) -> int {
    if value < 0 {
        0
    } else if value > 100 {
        100
    } else {
        value
    }
}

/// The hue reached from `hue` after a rotation of `degrees`, wrapped into
/// `[0, 360)` by true (Euclidean) modulo.
pub open spec fn wrapped_hue(hue: int, degrees: int) -> int {
    (hue + degrees) % 360
}

/// `color` with its hue rotated by `degrees`; the other channels are kept.
pub open spec fn spec_rotate_hue(color: Hsl, degrees: int) -> Hsl {
    Hsl {
        hue: wrapped_hue(color.hue as int, degrees) as u16,
        saturation: color.saturation,
        lightness: color.lightness,
    }
}

/// `color` with `delta` added to its saturation, clamped to `[0, 100]`.
pub open spec fn spec_offset_saturation(color: Hsl, delta: int) -> Hsl {
    Hsl {
        hue: color.hue,
        saturation: clamped_channel(color.saturation + delta) as u8,
        lightness: color.lightness,
    }
}

/// `color` with `delta` added to its lightness, clamped to `[0, 100]`.
pub open spec fn spec_offset_lightness(color: Hsl, delta: int) -> Hsl {
    Hsl {
        hue: color.hue,
        saturation: color.saturation,
        lightness: clamped_channel(color.lightness + delta) as u8,
    }
}

impl Hsl {
    /// All channels within their documented ranges.
    pub open spec fn wf(self) -> bool {
        self.hue < 360 && self.saturation <= 100 && self.lightness <= 100
    }

    /// Builds a triple from in-range channel values.
    pub fn new(hue: u16, saturation: u8, lightness: u8) -> (r: Hsl)
        requires
            hue < 360,
            saturation <= 100,
            lightness <= 100,
        ensures
            r == (Hsl { hue, saturation, lightness }),
            r.wf(),
    {
        Hsl { hue, saturation, lightness }
    }

    /// Whether all channels are within their documented ranges.
    pub fn in_range(&self) -> (r: bool)
        ensures
            r == self.wf(),
    {
        self.hue < 360 && self.saturation <= 100 && self.lightness <= 100
    }

    /// Rotates the hue by `degrees` (signed), wrapping into `[0, 360)` with
    /// true modulo; saturation and lightness are untouched.
    pub fn rotate_hue(&self, degrees: i64) -> (r: Hsl)
        requires
            self.wf(),
        ensures
            r == spec_rotate_hue(*self, degrees as int),
            r.wf(),
    {
        // 9_360_000_000_000_000_000 == 360 * 26_000_000_000_000_000, large
        // enough to make the sum nonnegative for every i64 rotation.
        let shifted: i128 = self.hue as i128 + degrees as i128 + 9_360_000_000_000_000_000i128;
        let wrapped: i128 = shifted % 360;
        proof {
            lemma_mod_multiples_vanish(
                26_000_000_000_000_000int,
                self.hue as int + degrees as int,
                360,
            );
        }
        Hsl { hue: wrapped as u16, saturation: self.saturation, lightness: self.lightness }
    }

    /// Adds `delta` (signed) to the saturation, clamping to `[0, 100]`.
    pub fn offset_saturation(&self, delta: i64) -> (r: Hsl)
        requires
            self.wf(),
        ensures
            r == spec_offset_saturation(*self, delta as int),
            r.wf(),
    {
        let shifted: i128 = self.saturation as i128 + delta as i128;
        let clamped: u8 = if shifted < 0 {
            0
        } else if shifted > 100 {
            100
        } else {
            shifted as u8
        };
        Hsl { hue: self.hue, saturation: clamped, lightness: self.lightness }
    }

    /// Adds `delta` (signed) to the lightness, clamping to `[0, 100]`.
    pub fn offset_lightness(&self, delta: i64) -> (r: Hsl)
        requires
            self.wf(),
        ensures
            r == spec_offset_lightness(*self, delta as int),
            r.wf(),
    {
        let shifted: i128 = self.lightness as i128 + delta as i128;
        let clamped: u8 = if shifted < 0 {
            0
        } else if shifted > 100 {
            100
        } else {
            shifted as u8
        };
        Hsl { hue: self.hue, saturation: self.saturation, lightness: clamped }
    }
}

impl Palette {
    /// All three colors well formed.
    pub open spec fn wf(self) -> bool {
        self.primary.wf() && self.secondary.wf() && self.accent.wf()
    }
}

/// Law: hue rotation is a bijection modulo 360 — rotating any in-range hue by
/// `degrees` and then by `-degrees` returns the original hue, for every
/// integer amount of degrees.
pub proof fn lemma_rotate_hue_round_trip(color: Hsl, degrees: int)
    requires
        color.wf(),
    ensures
        spec_rotate_hue(spec_rotate_hue(color, degrees), -degrees) == color,
{
    let h = color.hue as int;
    let m = (h + degrees) % 360;
    lemma_fundamental_div_mod(h + degrees, 360);
    let k = (h + degrees) / 360;
    assert(m + -degrees == 360 * (-k) + h) by {
        assert(360 * (-k) == -(360 * k)) by (nonlinear_arith);
    }
    lemma_mod_multiples_vanish(-k, h, 360);
    lemma_small_mod(color.hue as nat, 360);
}

} // verus!
