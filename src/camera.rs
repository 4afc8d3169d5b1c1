use vstd::prelude::*;

use crate::fixed::{fx_add, fx_mul, fx_sub, Fixed};

verus! {

/// The smallest scale a camera zooms to: one hundredth.
pub const MIN_SCALE: i64 = 10;

/// The largest scale a camera zooms to: twenty-five.
pub const MAX_SCALE: i64 = 25000;

/// `scale` clamped into `[MIN_SCALE, MAX_SCALE]`.
pub open spec fn clamp_scale(scale: int) -> int {
    if scale > MAX_SCALE {
        MAX_SCALE as int
    } else if scale < MIN_SCALE {
        MIN_SCALE as int
    } else {
        scale
    }
}

/// One smoothing step from `from` toward `to`, covering the fraction `rate` of the distance.
pub open spec fn approach(from: int, to: int, rate: int) -> int {
    fx_add(from, fx_mul(fx_sub(to, from), rate))
}

/// A viewpoint on the world: where it looks, how far it is zoomed on each axis, and the size
/// of the viewport in pixels.
#[derive(Clone, Copy, Debug)]
pub struct Camera {
    pub position: (Fixed, Fixed),
    pub scale: (Fixed, Fixed),
    pub dimensions: (u16, u16),
}

impl Camera {
    /// Both scale factors lie in `[MIN_SCALE, MAX_SCALE]`.
    pub open spec fn scale_in_range(self) -> bool {
        &&& MIN_SCALE <= self.scale.0@ <= MAX_SCALE
        &&& MIN_SCALE <= self.scale.1@ <= MAX_SCALE
    }

    /// A camera at the origin with scale one.
    pub fn new(dimensions: (u16, u16)) -> (r: Camera)
        ensures
            r.position.0@ == 0 && r.position.1@ == 0,
            r.scale.0@ == 1000 && r.scale.1@ == 1000,
            r.dimensions == dimensions,
            r.scale_in_range(),
    {
        Camera { position: (Fixed::zero(), Fixed::zero()), scale: (Fixed::one(), Fixed::one()), dimensions }
    }

    fn restrict_zoom(&mut self)
        ensures
            final(self).position == old(self).position,
            final(self).dimensions == old(self).dimensions,
            final(self).scale.0@ == clamp_scale(old(self).scale.0@),
            final(self).scale.1@ == clamp_scale(old(self).scale.1@),
            final(self).scale_in_range(),
    {
        if self.scale.0.milli > MAX_SCALE {
            self.scale.0 = Fixed::from_milli(MAX_SCALE);
        }
        if self.scale.1.milli > MAX_SCALE {
            self.scale.1 = Fixed::from_milli(MAX_SCALE);
        }
        if self.scale.0.milli < MIN_SCALE {
            self.scale.0 = Fixed::from_milli(MIN_SCALE);
        }
        if self.scale.1.milli < MIN_SCALE {
            self.scale.1 = Fixed::from_milli(MIN_SCALE);
        }
    }

    /// Multiplies both scale factors by `factor`, then clamps them; the scale never leaves
    /// `[MIN_SCALE, MAX_SCALE]`, however often this is called.
    pub fn zoom(&mut self, factor: Fixed)
        ensures
            final(self).position == old(self).position,
            final(self).dimensions == old(self).dimensions,
            final(self).scale.0@ == clamp_scale(fx_mul(old(self).scale.0@, factor@)),
            final(self).scale.1@ == clamp_scale(fx_mul(old(self).scale.1@, factor@)),
            final(self).scale_in_range(),
    {
        self.scale.0 = self.scale.0.mul(factor);
        self.scale.1 = self.scale.1.mul(factor);
        self.restrict_zoom();
    }

    /// Sets both scale factors to `scale`, clamped; the position is left as it is.
    pub fn set_zoom(&mut self, scale: Fixed)
        ensures
            final(self).position == old(self).position,
            final(self).dimensions == old(self).dimensions,
            final(self).scale.0@ == clamp_scale(scale@),
            final(self).scale.1@ == clamp_scale(scale@),
            final(self).scale_in_range(),
    {
        self.scale.0 = scale;
        self.scale.1 = scale;
        self.restrict_zoom();
    }

    /// One step of exponential smoothing toward `target_camera`: position and scale each
    /// cover the fraction `rate` (per axis) of their distance to the target.
    pub fn to_target(&mut self, target_camera: &Camera, rate: (Fixed, Fixed))
        ensures
            final(self).dimensions == old(self).dimensions,
            final(self).position.0@ == approach(old(self).position.0@, target_camera.position.0@, rate.0@),
            final(self).position.1@ == approach(old(self).position.1@, target_camera.position.1@, rate.1@),
            final(self).scale.0@ == approach(old(self).scale.0@, target_camera.scale.0@, rate.0@),
            final(self).scale.1@ == approach(old(self).scale.1@, target_camera.scale.1@, rate.1@),
            old(self).scale_in_range() && target_camera.scale_in_range() && 0 <= rate.0@ <= 1000
                && 0 <= rate.1@ <= 1000 ==> final(self).scale_in_range(),
    {
        proof {
            if old(self).scale_in_range() && target_camera.scale_in_range() {
                if 0 <= rate.0@ <= 1000 {
                    lemma_approach_between(self.scale.0@, target_camera.scale.0@, rate.0@);
                }
                if 0 <= rate.1@ <= 1000 {
                    lemma_approach_between(self.scale.1@, target_camera.scale.1@, rate.1@);
                }
            }
        }
        self.position.0 = self.position.0.add(target_camera.position.0.sub(self.position.0).mul(rate.0));
        self.position.1 = self.position.1.add(target_camera.position.1.sub(self.position.1).mul(rate.1));
        self.scale.0 = self.scale.0.add(target_camera.scale.0.sub(self.scale.0).mul(rate.0));
        self.scale.1 = self.scale.1.add(target_camera.scale.1.sub(self.scale.1).mul(rate.1));
    }
}

proof fn lemma_approach_between(from: int, to: int, rate: int)
    requires
        MIN_SCALE <= from <= MAX_SCALE,
        MIN_SCALE <= to <= MAX_SCALE,
        0 <= rate <= 1000,
    ensures
        MIN_SCALE <= approach(from, to, rate) <= MAX_SCALE,
{
    let d = to - from;
    if d >= 0 {
        assert(0 <= d * rate <= d * 1000) by (nonlinear_arith)
            requires
                d >= 0,
                0 <= rate <= 1000,
        ;
    } else {
        assert(0 <= (-d) * rate <= (-d) * 1000) by (nonlinear_arith)
            requires
                d < 0,
                0 <= rate <= 1000,
        ;
        assert(-(d * rate) == (-d) * rate) by (nonlinear_arith);
    }
}

/// A smoothing step at full rate lands on the target, unless the distance itself overflows.
pub proof fn lemma_full_rate_reaches_target(from: Fixed, to: Fixed)
    requires
        i64::MIN <= to@ - from@ <= i64::MAX,
    ensures
        approach(from@, to@, 1000) == to@,
{
    assert((to@ - from@) * 1000 / 1000 == to@ - from@) by (nonlinear_arith);
    assert((from@ - to@) * 1000 / 1000 == from@ - to@) by (nonlinear_arith);
}

/// A smoothing step at rate zero stays where it is.
pub proof fn lemma_zero_rate_stays(from: Fixed, to: Fixed)
    ensures
        approach(from@, to@, 0) == from@,
{
}

} // verus!
