//! Pixels and the blending of an overlay colour into them.

use vstd::prelude::*;

verus! {

/// The coverage weight of a fully covered pixel; an untouched one has 0.
pub const FULL_COVERAGE: u8 = 255;

/// The weighted mean of two channel values, rounded down: `overlay` weighs
/// `coverage` parts of 255 and `existing` the rest.
pub open spec fn mix(existing: int, overlay: int, coverage: int) -> int {
    (existing * (255 - coverage) + overlay * coverage) / 255
}

/// The mix of two channel values lies between them, so it needs no clamping
/// to stay inside the channel's range.
pub proof fn lemma_mix_between(existing: int, overlay: int, coverage: int)
    requires
        0 <= coverage <= 255,
    ensures
        existing <= overlay ==> existing <= mix(existing, overlay, coverage) <= overlay,
        overlay <= existing ==> overlay <= mix(existing, overlay, coverage) <= existing,
{
    let n = existing * (255 - coverage) + overlay * coverage;
    if existing <= overlay {
        assert(existing * 255 <= n <= overlay * 255) by (nonlinear_arith)
            requires
                n == existing * (255 - coverage) + overlay * coverage,
                0 <= coverage <= 255,
                existing <= overlay,
        ;
    }
    if overlay <= existing {
        assert(overlay * 255 <= n <= existing * 255) by (nonlinear_arith)
            requires
                n == existing * (255 - coverage) + overlay * coverage,
                0 <= coverage <= 255,
                overlay <= existing,
        ;
    }
}

/// A pixel value into which an overlay colour can be blended.
pub trait Blend: Copy {
    /// The pixel that results from laying `overlay` over `self` with the
    /// given coverage.
    spec fn blended(self, overlay: Self, coverage: u8) -> Self;

    /// Blends `overlay` into `self`: `coverage` 0 keeps `self`, 255 gives
    /// `overlay`, and the values between move each channel in proportion.
    fn blend(self, overlay: Self, coverage: u8) -> (r: Self)
        ensures
            r == self.blended(overlay, coverage),
    ;

    /// At the two extremes of coverage blending returns one of its operands
    /// unchanged.
    proof fn lemma_blend_extremes(self, overlay: Self)
        ensures
            self.blended(overlay, 0) == self,
            self.blended(overlay, 255) == overlay,
    ;
}

impl Blend for u8 {
    open spec fn blended(self, overlay: Self, coverage: u8) -> Self {
        mix(self as int, overlay as int, coverage as int) as u8
    }

    fn blend(self, overlay: Self, coverage: u8) -> (r: Self) {
        proof {
            lemma_mix_between(self as int, overlay as int, coverage as int);
        }
        let keep: u32 = (FULL_COVERAGE - coverage) as u32;
        let n: u32 = self as u32 * keep + overlay as u32 * coverage as u32;
        (n / FULL_COVERAGE as u32) as u8
    }

    proof fn lemma_blend_extremes(self, overlay: Self) {
    }
}

/// A pixel of four eight-bit channels: red, green, blue and alpha.
#[derive(Clone, Copy, Debug, PartialEq, Eq, Structural)]
pub struct Rgba {
    pub red: u8,
    pub green: u8,
    pub blue: u8,
    pub alpha: u8,
}

impl Rgba {
    /// The pixel with the given channels.
    pub fn new(red: u8, green: u8, blue: u8, alpha: u8) -> (p: Rgba)
        ensures
            p == (Rgba { red, green, blue, alpha }),
    {
        Rgba { red, green, blue, alpha }
    }
}

impl Blend for Rgba {
    open spec fn blended(self, overlay: Self, coverage: u8) -> Self {
        Rgba {
            red: self.red.blended(overlay.red, coverage),
            green: self.green.blended(overlay.green, coverage),
            blue: self.blue.blended(overlay.blue, coverage),
            alpha: self.alpha.blended(overlay.alpha, coverage),
        }
    }

    fn blend(self, overlay: Self, coverage: u8) -> (r: Self) {
        Rgba {
            red: self.red.blend(overlay.red, coverage),
            green: self.green.blend(overlay.green, coverage),
            blue: self.blue.blend(overlay.blue, coverage),
            alpha: self.alpha.blend(overlay.alpha, coverage),
        }
    }

    proof fn lemma_blend_extremes(self, overlay: Self) {
        self.red.lemma_blend_extremes(overlay.red);
        self.green.lemma_blend_extremes(overlay.green);
        self.blue.lemma_blend_extremes(overlay.blue);
        self.alpha.lemma_blend_extremes(overlay.alpha);
    }
}

} // verus!
