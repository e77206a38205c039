use vstd::prelude::*;

verus! {

use vstd::arithmetic::div_mod::{
    lemma_fundamental_div_mod,
    lemma_mod_bound,
    lemma_multiply_divide_lt,
};
use crate::filters::{contrast_of, contrast_rgb, resample_of, resample_rgb, sharpen_of,
    unsharpen_rgb};
use crate::pixels::{brighten_data, spec_brighten, Pixels};
use crate::policy::{RunPolicy, MAX_DIMENSION};

/// The quotient of `short * target / long`, rounded to the nearest whole
/// number (halves round up).
pub open spec fn spec_round_ratio(short: int, long: int, target: int) -> int {
    (2 * short * target + long) / (2 * long)
}

/// The length of the shorter output side when the longer side of a
/// `short` x `long` image is scaled to `target`: the rounded ratio, held
/// at one or above so the image keeps both dimensions.
pub open spec fn spec_short_side(short: int, long: int, target: int) -> int {
    if spec_round_ratio(short, long, target) < 1 {
        1
    } else {
        spec_round_ratio(short, long, target)
    }
}

/// The output size of the resize stage: the longer side becomes `target`
/// and the shorter side is scaled by the same factor, rounded. A square
/// image counts as wider than tall.
pub open spec fn spec_resize_dims(w: int, h: int, target: int) -> (int, int) {
    if w >= h {
        (target, spec_short_side(h, w, target))
    } else {
        (spec_short_side(w, h, target), target)
    }
}

/// The rounded short side never exceeds the target.
proof fn lemma_short_side_le_target(short: int, long: int, target: int)
    requires
        1 <= short <= long,
        1 <= target,
    ensures
        1 <= spec_short_side(short, long, target) <= target,
{
    assert(2 * short * target + long < (2 * long) * (target + 1)) by (nonlinear_arith)
        requires
            1 <= short <= long,
            1 <= target,
    ;
    lemma_multiply_divide_lt(2 * short * target + long, 2 * long, target + 1);
}

/// An enabled resize scales the longer side exactly to the target and the
/// shorter side to the same ratio within half a pixel: writing `(nw, nh)`
/// for the output size of a `w` x `h` input, the longer output side is
/// `target` and the shorter one differs from the exact ratio by at most
/// half a pixel, provided the ratio does not round below one pixel.
pub proof fn lemma_resize_aspect(w: int, h: int, target: int)
    requires
        1 <= w,
        1 <= h,
        1 <= target,
        2 * (if w <= h { w } else { h }) * target >= (if w >= h { w } else { h }),
    ensures
        w >= h ==> spec_resize_dims(w, h, target).0 == target && {
            let nh = spec_resize_dims(w, h, target).1;
            -(w - 1) <= 2 * w * nh - 2 * h * target <= w
        },
        w < h ==> spec_resize_dims(w, h, target).1 == target && {
            let nw = spec_resize_dims(w, h, target).0;
            -(h - 1) <= 2 * h * nw - 2 * w * target <= h
        },
{
    let long = if w >= h { w } else { h };
    let short = if w <= h { w } else { h };
    let num = 2 * short * target + long;
    let q = num / (2 * long);
    lemma_fundamental_div_mod(num, 2 * long);
    lemma_mod_bound(num, 2 * long);
    assert(q >= 1) by {
        if q < 1 {
            assert(num == (2 * long) * q + num % (2 * long));
            assert((2 * long) * q <= 0) by (nonlinear_arith)
                requires
                    q <= 0,
                    long >= 1,
            ;
        }
    }
    assert(spec_short_side(short, long, target) == q);
    assert(2 * long * q - 2 * short * target == long - num % (2 * long)) by (nonlinear_arith)
        requires
            num == (2 * long) * q + num % (2 * long),
            num == 2 * short * target + long,
    ;
}

/// One stage of the transform pipeline. The pipeline applies the stages in
/// the fixed order resize, sharpen, brighten, contrast; each runs only when
/// its `enabled` flag is set.
#[derive(Clone, Copy, PartialEq, Eq, Structural, Debug)]
pub enum Stage {
    Resize,
    Sharpen,
    Brighten,
    Contrast,
}

/// The size and contents of a pixel buffer, as one mathematical value.
#[verifier::ext_equal]
pub struct PixelsView {
    pub width: int,
    pub height: int,
    pub data: Seq<u8>,
}

impl View for Pixels {
    type V = PixelsView;

    open spec fn view(&self) -> PixelsView {
        PixelsView { width: self.width as int, height: self.height as int, data: self.data@ }
    }
}

/// What one stage leaves of the image under the given policy: the input
/// unchanged when the stage is disabled, else the stage's transform.
/// Only resize changes the dimensions.
pub open spec fn spec_apply_stage(policy: RunPolicy, stage: Stage, pv: PixelsView) -> PixelsView {
    match stage {
        Stage::Resize => {
            if policy.config.resize.enabled {
                let (nw, nh) = spec_resize_dims(
                    pv.width,
                    pv.height,
                    policy.config.resize.long_side_target as int,
                );
                PixelsView {
                    width: nw,
                    height: nh,
                    data: resample_of(pv.width, pv.height, pv.data, nw, nh),
                }
            } else {
                pv
            }
        },
        Stage::Sharpen => {
            if policy.config.sharpen.enabled {
                PixelsView {
                    data: sharpen_of(
                        pv.width,
                        pv.height,
                        pv.data,
                        policy.config.sharpen.sigma_bits,
                        policy.config.sharpen.threshold,
                    ),
                    ..pv
                }
            } else {
                pv
            }
        },
        Stage::Brighten => {
            if policy.config.brighten.enabled {
                PixelsView {
                    data: spec_brighten(pv.data, policy.config.brighten.delta as int),
                    ..pv
                }
            } else {
                pv
            }
        },
        Stage::Contrast => {
            if policy.config.contrast.enabled {
                PixelsView {
                    data: contrast_of(
                        pv.width,
                        pv.height,
                        pv.data,
                        policy.config.contrast.delta_bits,
                    ),
                    ..pv
                }
            } else {
                pv
            }
        },
    }
}

/// What a sequence of stages, applied left to right, leaves of the image.
pub open spec fn spec_run_stages(policy: RunPolicy, stages: Seq<Stage>, pv: PixelsView)
    -> PixelsView
    decreases stages.len(),
{
    if stages.len() == 0 {
        pv
    } else {
        spec_run_stages(policy, stages.drop_first(), spec_apply_stage(policy, stages[0], pv))
    }
}

/// The fixed order of the transform pipeline.
pub open spec fn spec_stage_order() -> Seq<Stage> {
    seq![Stage::Resize, Stage::Sharpen, Stage::Brighten, Stage::Contrast]
}

/// What the whole transform pipeline leaves of the image.
pub open spec fn spec_pipeline(policy: RunPolicy, pv: PixelsView) -> PixelsView {
    spec_run_stages(policy, spec_stage_order(), pv)
}

/// A disabled resize leaves the dimensions untouched: no other stage
/// changes them, so the pipeline's output size equals its input size.
pub proof fn lemma_disabled_resize_keeps_dims(policy: RunPolicy, pv: PixelsView)
    requires
        !policy.config.resize.enabled,
    ensures
        spec_pipeline(policy, pv).width == pv.width,
        spec_pipeline(policy, pv).height == pv.height,
{
    reveal_with_fuel(spec_run_stages, 5);
}

/// An enabled resize decides the pipeline's output size on its own: the
/// output dimensions are those of the resize stage, whatever the other
/// stages do to the pixels.
pub proof fn lemma_enabled_resize_sets_dims(policy: RunPolicy, pv: PixelsView)
    requires
        policy.config.resize.enabled,
    ensures
        ({
            let (nw, nh) = spec_resize_dims(
                pv.width,
                pv.height,
                policy.config.resize.long_side_target as int,
            );
            spec_pipeline(policy, pv).width == nw && spec_pipeline(policy, pv).height == nh
        }),
{
    reveal_with_fuel(spec_run_stages, 5);
}

/// Computes the output size of an enabled resize: the longer side becomes
/// `target`, the shorter side is rounded to the same ratio and held at one
/// or above.
pub fn resize_dims(w: u32, h: u32, target: u32) -> (r: (u32, u32))
    requires
        1 <= w <= MAX_DIMENSION,
        1 <= h <= MAX_DIMENSION,
        1 <= target <= MAX_DIMENSION,
    ensures
        (r.0 as int, r.1 as int) == spec_resize_dims(w as int, h as int, target as int),
        1 <= r.0 <= MAX_DIMENSION,
        1 <= r.1 <= MAX_DIMENSION,
{
    let (long, short) = if w >= h { (w, h) } else { (h, w) };
    proof {
        assert(2 * (short as int) * (target as int) + (long as int) < 0x1_0000_0000_0000)
            by (nonlinear_arith)
            requires
                short <= MAX_DIMENSION,
                target <= MAX_DIMENSION,
                long <= MAX_DIMENSION,
        ;
    }
    let num: u64 = 2 * (short as u64) * (target as u64) + (long as u64);
    let den: u64 = 2 * (long as u64);
    let q: u64 = num / den;
    proof {
        lemma_short_side_le_target(short as int, long as int, target as int);
    }
    let s: u32 = if q < 1 {
        1
    } else {
        q as u32
    };
    if w >= h {
        (target, s)
    } else {
        (s, target)
    }
}

/// Applies one stage of the pipeline to the image, under the policy's
/// toggles and parameters.
pub fn apply_stage(policy: &RunPolicy, stage: Stage, px: Pixels) -> (r: Pixels)
    requires
        policy.valid(),
        px.wf(),
    ensures
        r@ == spec_apply_stage(*policy, stage, px@),
        r.wf(),
{
    match stage {
        Stage::Resize => {
            if policy.config.resize.enabled {
                let (nw, nh) = resize_dims(px.width, px.height, policy.config.resize.long_side_target);
                let r = resample_rgb(&px, nw, nh);
                proof {
                    assert(r@ =~= spec_apply_stage(*policy, stage, px@));
                }
                r
            } else {
                px
            }
        },
        Stage::Sharpen => {
            if policy.config.sharpen.enabled {
                let r = unsharpen_rgb(
                    &px,
                    policy.config.sharpen.sigma_bits,
                    policy.config.sharpen.threshold,
                );
                proof {
                    assert(r@ =~= spec_apply_stage(*policy, stage, px@));
                }
                r
            } else {
                px
            }
        },
        Stage::Brighten => {
            if policy.config.brighten.enabled {
                let data = brighten_data(&px.data, policy.config.brighten.delta);
                let r = Pixels { width: px.width, height: px.height, data };
                proof {
                    assert(r@ =~= spec_apply_stage(*policy, stage, px@));
                }
                r
            } else {
                px
            }
        },
        Stage::Contrast => {
            if policy.config.contrast.enabled {
                let r = contrast_rgb(&px, policy.config.contrast.delta_bits);
                proof {
                    assert(r@ =~= spec_apply_stage(*policy, stage, px@));
                }
                r
            } else {
                px
            }
        },
    }
}

/// Sends the image through the whole transform pipeline: resize, sharpen,
/// brighten, contrast, in that order, each stage only when enabled.
pub fn run_pipeline(policy: &RunPolicy, px: Pixels) -> (r: Pixels)
    requires
        policy.valid(),
        px.wf(),
    ensures
        r@ == spec_pipeline(*policy, px@),
        r.wf(),
{
    let a = apply_stage(policy, Stage::Resize, px);
    let b = apply_stage(policy, Stage::Sharpen, a);
    let c = apply_stage(policy, Stage::Brighten, b);
    let d = apply_stage(policy, Stage::Contrast, c);
    proof {
        reveal_with_fuel(spec_run_stages, 5);
    }
    d
}

} // verus!
