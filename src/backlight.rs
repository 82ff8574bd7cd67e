//! Brightness of a backlight device: the percentage scale and the ramp that a
//! change of brightness follows.

use vstd::prelude::*;
use crate::ramp::{lemma_nearest_between, nearest, Ramp};

verus! {

/// The number of steps of a gradual change of brightness.
pub const BRIGHTNESS_STEPS: u32 = 20;

/// The pause between two steps of a gradual change, in milliseconds.
pub const STEP_DELAY_MS: u64 = 50;

/// Why a brightness could not be read or set.
#[derive(Clone, Copy, Debug, PartialEq, Eq, Structural)]
pub enum BacklightError {
    /// No backlight device with a level and a maximum was found.
    DeviceNotFound,
    /// The device reports a maximum level of zero.
    InvalidDeviceData,
    /// Reading or writing the device failed.
    IoFailure,
}

/// The text with leading and trailing whitespace removed, as `str::trim`
/// gives it.
pub uninterp spec fn trimmed(s: Seq<char>) -> Seq<char>;

/// The number that a string of decimal digits writes.
pub open spec fn digits_value(s: Seq<char>) -> int
    decreases s.len(),
{
    if s.len() == 0 {
        0
    } else {
        digits_value(s.drop_last()) * 10 + (s.last() as int - '0' as int)
    }
}

/// The `u32` that a decimal text writes: an optional `+`, then one or more
/// ASCII digits, of value below 2^32; nothing else reads as one.
pub open spec fn decimal_u32(s: Seq<char>) -> Option<u32> {
    let d = if s.len() > 0 && s[0] == '+' { s.drop_first() } else { s };
    if d.len() > 0 && (forall|i: int| 0 <= i < d.len() ==> '0' <= #[trigger] d[i] <= '9')
        && digits_value(d) <= u32::MAX {
        Some(digits_value(d) as u32)
    } else {
        None
    }
}

/// Relies on std's `str::trim`: a function of the text alone.
#[verifier::external_body]
fn trim_text(s: &str) -> (r: &str)
    ensures
        r@ == trimmed(s@),
{
    s.trim()
}

/// Relies on std's `str::parse::<u32>` (`u32::from_str`): an optional `+`
/// followed by decimal digits whose value fits, and an error on anything else.
#[verifier::external_body]
fn parse_u32(s: &str) -> (r: Option<u32>)
    ensures
        r == decimal_u32(s@),
{
    s.parse::<u32>().ok()
}

/// The level written in a device attribute file: a decimal number, with
/// whitespace around it; text that is not one reads as 0.
pub fn parse_level(text: &str) -> (r: u32)
    ensures
        r == (match decimal_u32(trimmed(text@)) {
            Some(v) => v,
            None => 0,
        }),
{
    match parse_u32(trim_text(text)) {
        Some(v) => v,
        None => 0,
    }
}

/// The device level for `percentage` percent of `max`, rounded to the
/// nearest level.
pub open spec fn level_for(max: u32, percentage: u32) -> nat {
    nearest((max * percentage) as nat, 100)
}

/// The percentage that `current` is of `max`, rounded down; a level above the
/// maximum counts as full brightness.
pub open spec fn percentage_of(current: u32, max: u32) -> nat
    recommends
        max > 0,
{
    if current >= max {
        100
    } else {
        ((current * 100) / (max as int)) as nat
    }
}

/// The device level that shows `percentage` percent of a device whose
/// maximum level is `max`.
pub fn device_level(max: u32, percentage: u32) -> (r: u64)
    ensures
        r == level_for(max, percentage),
{
    let m: u64 = max as u64;
    let p: u64 = percentage as u64;
    assert(m * p <= 0xffff_ffff * 0xffff_ffffu64) by (nonlinear_arith)
        requires m <= 0xffff_ffff, p <= 0xffff_ffff;
    let n: u64 = m * p;
    let q: u64 = n / 100;
    let rem: u64 = n % 100;
    if 2 * rem >= 100 { q + 1 } else { q }
}

/// The brightness, in percent, of a device at level `current` of `max`.
pub fn current_percentage(current: u32, max: u32) -> (r: u32)
    requires
        max > 0,
    ensures
        r == percentage_of(current, max),
        r <= 100,
{
    if current >= max {
        100
    } else {
        let p: u64 = current as u64 * 100 / max as u64;
        assert(current * 100 / (max as int) <= 100) by {
            vstd::arithmetic::div_mod::lemma_div_is_ordered(current * 100, max * 100, max as int);
            vstd::arithmetic::div_mod::lemma_div_multiples_vanish(100, max as int);
            assert(max * 100 == (max as int) * 100);
        }
        p as u32
    }
}

/// The ramp a change of brightness to `percentage` follows on a device at
/// level `current` of `max`: the target alone, or `BRIGHTNESS_STEPS` steps
/// from the current percentage. A device whose maximum is zero cannot be set.
pub open spec fn brightness_plan(max: u32, current: u32, percentage: u32, gradual: bool) -> Result<Ramp, BacklightError> {
    if max == 0 {
        Err(BacklightError::InvalidDeviceData)
    } else if !gradual {
        Ok(Ramp { start: percentage, target: percentage, steps: 0, next_step: 0, aborted: false })
    } else {
        Ok(Ramp { start: percentage_of(current, max) as u32, target: percentage, steps: BRIGHTNESS_STEPS, next_step: 0, aborted: false })
    }
}

/// The level a device is left at once every value of `ramp` was applied.
pub open spec fn settled_level(max: u32, ramp: Ramp) -> nat {
    level_for(max, ramp.values().last() as u32)
}

/// The percentages a change of brightness to `percentage` goes through on a
/// device at level `current` of `max`.
pub fn brightness_ramp(max: u32, current: u32, percentage: u32, gradual: bool) -> (r: Result<Ramp, BacklightError>)
    ensures
        r == brightness_plan(max, current, percentage, gradual),
        r matches Ok(ramp) ==> ramp.wf(),
{
    if max == 0 {
        return Err(BacklightError::InvalidDeviceData);
    }
    if !gradual {
        Ok(Ramp::immediate(percentage))
    } else {
        let from = current_percentage(current, max);
        Ok(Ramp::new(from, percentage, BRIGHTNESS_STEPS))
    }
}

/// Every change of brightness ends at its target: the device is left at the
/// level for the requested percentage, gradual or not.
pub proof fn lemma_change_reaches_target(max: u32, current: u32, percentage: u32, gradual: bool)
    requires
        max > 0,
    ensures
        settled_level(max, brightness_plan(max, current, percentage, gradual).unwrap()) == level_for(max, percentage),
{
    let ramp = brightness_plan(max, current, percentage, gradual).unwrap();
    crate::ramp::lemma_ramp_value_bounds(ramp.start, ramp.target, ramp.steps, ramp.steps);
}

/// Setting the same brightness at once twice in a row leaves the device where
/// setting it once did.
pub proof fn lemma_immediate_set_idempotent(max: u32, current: u32, percentage: u32)
    requires
        max > 0,
        percentage <= 100,
    ensures
        ({
            let once = settled_level(max, brightness_plan(max, current, percentage, false).unwrap());
            &&& once <= max
            &&& settled_level(max, brightness_plan(max, once as u32, percentage, false).unwrap()) == once
        }),
{
    lemma_change_reaches_target(max, current, percentage, false);
    lemma_level_within_max(max, percentage);
    let once = level_for(max, percentage);
    lemma_change_reaches_target(max, once as u32, percentage, false);
}

/// A percentage of at most 100 gives a level of at most the maximum.
pub proof fn lemma_level_within_max(max: u32, percentage: u32)
    requires
        percentage <= 100,
    ensures
        level_for(max, percentage) <= max,
{
    assert(0 * 100 <= max * percentage <= max * 100) by (nonlinear_arith)
        requires percentage <= 100;
    lemma_nearest_between(0, max as nat, (max * percentage) as nat, 100);
}

} // verus!
