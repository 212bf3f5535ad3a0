//! Frame planning: the sweep of rotation angles and the palette derived for
//! each frame.

use vstd::prelude::*;
use vstd::arithmetic::mul::lemma_mul_strict_inequality;
use crate::hsl::{Hsl, Palette, spec_offset_lightness, spec_offset_saturation, spec_rotate_hue};

verus! {

/// Configuration for one batch: sweep geometry, base palette, per-slot hue
/// offsets, and the global saturation and lightness deltas.
#[derive(Clone, Copy, Debug, PartialEq, Eq, Structural)]
pub struct SweepConfig {
    /// Degrees between two consecutive frames; must be positive.
    pub step_degrees: u16,
    /// Frames cover the angles in `[0, range_degrees)`.
    pub range_degrees: u16,
    /// The base colors of the three template slots.
    pub base: Palette,
    /// Extra rotation applied to the primary slot on top of the sweep angle.
    pub primary_hue_offset: i32,
    /// Extra rotation applied to the secondary slot on top of the sweep angle.
    pub secondary_hue_offset: i32,
    /// Extra rotation applied to the accent slot on top of the sweep angle.
    pub accent_hue_offset: i32,
    /// Added to every slot's saturation, clamped to `[0, 100]`.
    pub saturation_delta: i32,
    /// Added to every slot's lightness, clamped to `[0, 100]`.
    pub lightness_delta: i32,
}

/// One frame of the sweep: its rotation angle and its derived palette.
#[derive(Clone, Copy, Debug, PartialEq, Eq, Structural)]
pub struct FramePlan {
    /// The sweep angle, also the frame's index in degrees.
    pub angle: u16,
    /// The palette substituted into the template for this frame.
    pub colors: Palette,
}

/// The color of one slot at one frame: the hue rotated by `degrees`, then the
/// saturation delta, then the lightness delta — in that order, since the
/// clamped offsets do not commute.
pub open spec fn spec_slot_color(
    base: Hsl,
    degrees: int,
    saturation_delta: int,
    lightness_delta: int,
) -> Hsl {
    spec_offset_lightness(
        spec_offset_saturation(spec_rotate_hue(base, degrees), saturation_delta),
        lightness_delta,
    )
}

/// The palette derived for the frame at `angle` under `config`.
pub open spec fn spec_frame_palette(config: SweepConfig, angle: int) -> Palette {
    Palette {
        primary: spec_slot_color(
            config.base.primary,
            angle + config.primary_hue_offset,
            config.saturation_delta as int,
            config.lightness_delta as int,
        ),
        secondary: spec_slot_color(
            config.base.secondary,
            angle + config.secondary_hue_offset,
            config.saturation_delta as int,
            config.lightness_delta as int,
        ),
        accent: spec_slot_color(
            config.base.accent,
            angle + config.accent_hue_offset,
            config.saturation_delta as int,
            config.lightness_delta as int,
        ),
    }
}

impl SweepConfig {
    /// A usable configuration: a positive step and an in-range base palette.
    pub open spec fn wf(self) -> bool {
        self.step_degrees > 0 && self.base.wf()
    }

    /// Whether the configuration is usable.
    pub fn valid(&self) -> (r: bool)
        ensures
            r == self.wf(),
    {
        self.step_degrees > 0 && self.base.primary.in_range() && self.base.secondary.in_range()
            && self.base.accent.in_range()
    }
}

/// The angles of the sweep: `0, step, 2*step, ...`, strictly below
/// `range_degrees`, in increasing order, with no angle skipped.
pub fn plan_sweep(step_degrees: u16, range_degrees: u16) -> (r: Vec<u16>)
    requires
        step_degrees > 0,
    ensures
        forall|i: int| 0 <= i < r@.len() ==> r@[i] == i * step_degrees,
        forall|i: int| 0 <= i < r@.len() ==> r@[i] < range_degrees,
        range_degrees <= r@.len() * step_degrees,
        r@.len() * step_degrees < range_degrees + step_degrees,
        forall|i: int, j: int| 0 <= i < j < r@.len() ==> r@[i] < r@[j],
{
    let mut out: Vec<u16> = Vec::new();
    let mut angle: u32 = 0;
    proof {
        assert(out@.len() == 0);
    }
    while angle < range_degrees as u32
        invariant
            step_degrees > 0,
            angle == out@.len() * step_degrees,
            angle < range_degrees + step_degrees,
            out@.len() <= range_degrees,
            forall|i: int| 0 <= i < out@.len() ==> out@[i] == i * step_degrees,
            forall|i: int| 0 <= i < out@.len() ==> out@[i] < range_degrees,
        decreases range_degrees - out@.len(),
    {
        let ghost prior_len = out@.len() as int;
        out.push(angle as u16);
        proof {
            assert((prior_len + 1) * step_degrees == prior_len * step_degrees
                + step_degrees) by (nonlinear_arith);
            assert(prior_len <= prior_len * (step_degrees as int)) by (nonlinear_arith)
                requires
                    step_degrees >= 1,
                    prior_len >= 0,
            ;
        }
        angle = angle + step_degrees as u32;
    }
    proof {
        assert forall|i: int, j: int| 0 <= i < j < out@.len() implies out@[i] < out@[j] by {
            lemma_mul_strict_inequality(i, j, step_degrees as int);
        }
    }
    out
}

/// Derives the palette for the frame at `sweep_angle`: per slot, rotate the
/// hue by the sweep angle plus the slot's own offset, then apply the
/// saturation delta, then the lightness delta.
pub fn derive_frame_colors(config: &SweepConfig, sweep_angle: u16) -> (r: Palette)
    requires
        config.wf(),
    ensures
        r == spec_frame_palette(*config, sweep_angle as int),
        r.wf(),
{
    let primary = config.base.primary.rotate_hue(
        sweep_angle as i64 + config.primary_hue_offset as i64,
    ).offset_saturation(config.saturation_delta as i64).offset_lightness(
        config.lightness_delta as i64,
    );
    let secondary = config.base.secondary.rotate_hue(
        sweep_angle as i64 + config.secondary_hue_offset as i64,
    ).offset_saturation(config.saturation_delta as i64).offset_lightness(
        config.lightness_delta as i64,
    );
    let accent = config.base.accent.rotate_hue(
        sweep_angle as i64 + config.accent_hue_offset as i64,
    ).offset_saturation(config.saturation_delta as i64).offset_lightness(
        config.lightness_delta as i64,
    );
    Palette { primary, secondary, accent }
}

/// Plans the whole sweep: one frame per angle in increasing order, each
/// carrying the palette derived for it. Frames are independent of each other.
pub fn plan_frames(config: &SweepConfig) -> (r: Vec<FramePlan>)
    requires
        config.wf(),
    ensures
        forall|i: int| 0 <= i < r@.len() ==> r@[i].angle == i * config.step_degrees,
        forall|i: int| 0 <= i < r@.len() ==> r@[i].angle < config.range_degrees,
        config.range_degrees <= r@.len() * config.step_degrees,
        r@.len() * config.step_degrees < config.range_degrees + config.step_degrees,
        forall|i: int|
            0 <= i < r@.len() ==> r@[i].colors == spec_frame_palette(
                *config,
                r@[i].angle as int,
            ),
        forall|i: int| 0 <= i < r@.len() ==> r@[i].colors.wf(),
        forall|i: int, j: int| 0 <= i < j < r@.len() ==> r@[i].angle < r@[j].angle,
{
    let angles = plan_sweep(config.step_degrees, config.range_degrees);
    let mut frames: Vec<FramePlan> = Vec::new();
    let mut k: usize = 0;
    while k < angles.len()
        invariant
            k <= angles@.len(),
            config.wf(),
            frames@.len() == k,
            forall|i: int| 0 <= i < angles@.len() ==> angles@[i] == i * config.step_degrees,
            forall|i: int| 0 <= i < angles@.len() ==> angles@[i] < config.range_degrees,
            config.range_degrees <= angles@.len() * config.step_degrees,
            angles@.len() * config.step_degrees < config.range_degrees + config.step_degrees,
            forall|i: int, j: int| 0 <= i < j < angles@.len() ==> angles@[i] < angles@[j],
            forall|i: int| 0 <= i < k ==> frames@[i].angle == angles@[i],
            forall|i: int|
                0 <= i < k ==> frames@[i].colors == spec_frame_palette(
                    *config,
                    angles@[i] as int,
                ),
            forall|i: int| 0 <= i < k ==> frames@[i].colors.wf(),
        decreases angles@.len() - k,
    {
        let a = angles[k];
        let colors = derive_frame_colors(config, a);
        frames.push(FramePlan { angle: a, colors });
        k = k + 1;
    }
    frames
}

} // verus!
