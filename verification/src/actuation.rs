//! Haptic actuation commands and their normalized intensities.

use vstd::prelude::*;

verus! {

/// A normalized actuation intensity, kept as the exact rational `num / den`.
///
/// Ratio-derived intensities (for example gold divided by a threshold) are
/// clamped so that the value never exceeds 1; `wf` captures that bound.
#[derive(Clone, Copy, Debug, PartialEq, Eq, Structural)]
pub struct Intensity {
    pub num: u64,
    pub den: u64,
}

impl Intensity {
    /// The rational `num / den` is a well-defined value in `[0, 1]`.
    pub open spec fn wf(self) -> bool {
        0 < self.den && self.num <= self.den
    }
}

/// The intensity `min(raw / den, 1)`, as an exact rational.
pub open spec fn spec_clamped(raw: u64, den: u64) -> Intensity {
    Intensity { num: if raw > den { den } else { raw }, den: den }
}

/// Divides `raw` by `den` and clamps the quotient at 1.
pub fn clamped_ratio(raw: u64, den: u64) -> (r: Intensity)
    requires
        0 < den,
    ensures
        r == spec_clamped(raw, den),
        r.wf(),
{
    if raw > den {
        Intensity { num: den, den: den }
    } else {
        Intensity { num: raw, den: den }
    }
}

/// A clamped ratio never leaves `[0, 1]`: at or above the threshold the
/// intensity saturates at exactly 1, below it the raw ratio is kept.
pub proof fn lemma_clamped_in_range(raw: u64, den: u64)
    requires
        0 < den,
    ensures
        spec_clamped(raw, den).wf(),
        raw >= den ==> spec_clamped(raw, den).num == spec_clamped(raw, den).den,
        raw <= den ==> spec_clamped(raw, den).num == raw,
{
}

/// A timed haptic command: actuate at `intensity`, hold for `duration_ms`
/// milliseconds, then stop.
#[derive(Clone, Copy, Debug, PartialEq, Eq, Structural)]
pub struct Actuation {
    pub intensity: Intensity,
    pub duration_ms: u64,
}

impl Actuation {
    /// The command's intensity is normalized.
    pub open spec fn wf(self) -> bool {
        self.intensity.wf()
    }
}

} // verus!
