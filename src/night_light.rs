//! Night light: colour temperature presets, the intensity ramp, and the gamma
//! tables that tint a display towards a preset.

use vstd::prelude::*;
use crate::ramp::{lemma_nearest_between, nearest, Ramp};

verus! {

/// The number of steps of a gradual change of night light.
pub const NIGHT_LIGHT_STEPS: u32 = 20;

/// The largest entry of a gamma table.
pub const GAMMA_MAX: u32 = 65535;

/// A colour temperature that the night light tints the display towards.
#[derive(Clone, Copy, Debug, PartialEq, Eq, Structural)]
pub enum ColorTemperature {
    K2000,
    K3000,
    K4000,
    K5000,
    K6500,
}

/// Why the night light could not be applied.
#[derive(Clone, Copy, Debug, PartialEq, Eq, Structural)]
pub enum NightLightError {
    /// The intensity is above 100.
    InvalidIntensity,
    /// The display offers no CRTC whose gamma could be set.
    NoCrtcFound,
    /// The display server refused a request or could not be reached.
    ProtocolFailure,
}

/// The red, green and blue multipliers of a preset, in hundredths; neutral is
/// `(100, 100, 100)`.
pub open spec fn factors_of(t: ColorTemperature) -> (u32, u32, u32) {
    match t {
        ColorTemperature::K2000 => (100, 40, 0),
        ColorTemperature::K3000 => (100, 60, 30),
        ColorTemperature::K4000 => (100, 80, 50),
        ColorTemperature::K5000 => (100, 90, 70),
        ColorTemperature::K6500 => (100, 100, 100),
    }
}

impl ColorTemperature {
    /// The target multipliers for red, green and blue, in hundredths.
    pub fn target_factors(&self) -> (r: (u32, u32, u32))
        ensures
            r == factors_of(*self),
            r.0 <= 100 && r.1 <= 100 && r.2 <= 100,
    {
        match self {
            ColorTemperature::K2000 => (100, 40, 0),
            ColorTemperature::K3000 => (100, 60, 30),
            ColorTemperature::K4000 => (100, 80, 50),
            ColorTemperature::K5000 => (100, 90, 70),
            ColorTemperature::K6500 => (100, 100, 100),
        }
    }
}

/// The ramp of intensities the night light goes through: the intensity alone,
/// or `NIGHT_LIGHT_STEPS` steps up from no tint. An intensity above 100 is
/// refused.
pub open spec fn night_light_plan(intensity: u32, gradual: bool) -> Result<Ramp, NightLightError> {
    if intensity > 100 {
        Err(NightLightError::InvalidIntensity)
    } else if !gradual {
        Ok(Ramp { start: intensity, target: intensity, steps: 0, next_step: 0, aborted: false })
    } else {
        Ok(Ramp { start: 0, target: intensity, steps: NIGHT_LIGHT_STEPS, next_step: 0, aborted: false })
    }
}

/// The intensities, in percent, that applying the night light goes through.
pub fn night_light_ramp(intensity: u32, gradual: bool) -> (r: Result<Ramp, NightLightError>)
    ensures
        r == night_light_plan(intensity, gradual),
        r matches Ok(ramp) ==> ramp.wf(),
{
    if intensity > 100 {
        return Err(NightLightError::InvalidIntensity);
    }
    if !gradual {
        Ok(Ramp::immediate(intensity))
    } else {
        Ok(Ramp::new(0, intensity, NIGHT_LIGHT_STEPS))
    }
}

/// A channel's multiplier at `intensity` percent towards the preset's
/// `target` hundredths, in ten-thousandths: `(1 - f) + f * target` with
/// `f = intensity / 100`.
pub open spec fn channel_factor(intensity: u32, target: u32) -> nat {
    (10000 - intensity * (100 - target)) as nat
}

/// Entry `i` of a gamma table of `size` entries for a channel with the given
/// multiplier: the identity ramp `i / (size - 1) * GAMMA_MAX`, scaled and
/// rounded to the nearest integer. A table of one entry holds 0.
pub open spec fn gamma_entry(size: u16, intensity: u32, target: u32, i: int) -> nat {
    if size <= 1 {
        0
    } else {
        nearest((i * GAMMA_MAX * channel_factor(intensity, target)) as nat, ((size - 1) * 10000) as nat)
    }
}

/// The gamma table of one channel: `size` entries, entry `i` being
/// `gamma_entry(size, intensity, target, i)`.
pub fn gamma_channel(size: u16, intensity: u32, target: u32) -> (r: Vec<u16>)
    requires
        intensity <= 100,
        target <= 100,
    ensures
        r.len() == size,
        forall|i: int| 0 <= i < size ==> r[i] == gamma_entry(size, intensity, target, i),
{
    let mut r: Vec<u16> = Vec::new();
    let k: u64 = intensity as u64;
    let g: u64 = 100 - target as u64;
    assert(k * g <= 100 * 100) by (nonlinear_arith)
        requires k <= 100, g <= 100;
    let factor: u64 = 10000 - k * g;
    let mut i: u16 = 0;
    while i < size
        invariant
            i <= size,
            r.len() == i,
            intensity <= 100,
            target <= 100,
            factor == channel_factor(intensity, target),
            factor <= 10000,
            forall|j: int| 0 <= j < i ==> r[j] == gamma_entry(size, intensity, target, j),
        decreases size - i,
    {
        if size <= 1 {
            r.push(0);
        } else {
            let d: u64 = (size as u64 - 1) * 10000;
            let ii: u64 = i as u64;
            assert(ii * 65535 * factor <= (size - 1) * 65535 * 10000) by (nonlinear_arith)
                requires ii <= size - 1, factor <= 10000;
            assert((size - 1) * 65535 * 10000 <= 65535u64 * 65535 * 10000) by (nonlinear_arith)
                requires size <= 65535;
            let n: u64 = ii * 65535 * factor;
            let q: u64 = n / d;
            let rem: u64 = n % d;
            let v: u64 = if 2 * rem >= d { q + 1 } else { q };
            proof {
                assert(0 * d <= n <= 65535 * d) by (nonlinear_arith)
                    requires n <= (size - 1) * 65535 * 10000, d == (size - 1) * 10000;
                lemma_nearest_between(0, 65535, n as nat, d as nat);
            }
            r.push(v as u16);
        }
        i = i + 1;
    }
    r
}

/// The red, green and blue gamma tables of `size` entries that tint the
/// display towards `temp` at `intensity` percent.
pub fn gamma_tables(temp: ColorTemperature, intensity: u32, size: u16) -> (r: (Vec<u16>, Vec<u16>, Vec<u16>))
    requires
        intensity <= 100,
    ensures
        r.0.len() == size && r.1.len() == size && r.2.len() == size,
        forall|i: int| 0 <= i < size ==> r.0[i] == gamma_entry(size, intensity, factors_of(temp).0, i),
        forall|i: int| 0 <= i < size ==> r.1[i] == gamma_entry(size, intensity, factors_of(temp).1, i),
        forall|i: int| 0 <= i < size ==> r.2[i] == gamma_entry(size, intensity, factors_of(temp).2, i),
{
    let (red, green, blue) = temp.target_factors();
    (gamma_channel(size, intensity, red), gamma_channel(size, intensity, green), gamma_channel(size, intensity, blue))
}

/// The CRTC whose gamma is set: the first the display offers.
pub fn first_crtc(crtcs: &Vec<u32>) -> (r: Result<u32, NightLightError>)
    ensures
        crtcs.len() == 0 <==> r == Err::<u32, NightLightError>(NightLightError::NoCrtcFound),
        crtcs.len() > 0 ==> r == Ok::<u32, NightLightError>(crtcs[0]),
{
    if crtcs.len() == 0 {
        Err(NightLightError::NoCrtcFound)
    } else {
        Ok(crtcs[0])
    }
}

} // verus!
