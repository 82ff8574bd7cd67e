//! The gradual ramp: a value carried from a start to a target over a fixed
//! number of steps, one application per step, handed out one at a time so that
//! the caller can apply each value and wait between them.

use vstd::prelude::*;
use vstd::arithmetic::div_mod::{lemma_div_is_ordered, lemma_fundamental_div_mod};
use vstd::arithmetic::mul::lemma_mul_inequality;

verus! {

/// `n / d` rounded to the nearest integer, halves rounded up.
pub open spec fn nearest(n: nat, d: nat) -> nat
    recommends
        d > 0,
{
    if 2 * (n % d) >= d {
        n / d + 1
    } else {
        n / d
    }
}

/// The value applied at step `step` of a ramp from `start` to `target` over
/// `steps` steps: `start + (target - start) * step / steps`, rounded to the
/// nearest integer. A ramp of no steps applies its target at once.
pub open spec fn ramp_value(start: u32, target: u32, steps: u32, step: u32) -> int {
    if steps == 0 {
        target as int
    } else {
        nearest((start * (steps - step) + target * step) as nat, steps as nat) as int
    }
}

/// A ramp in progress. It hands out `steps + 1` values, from `start` at step 0
/// to `target` at step `steps`, unless it is aborted first.
#[derive(Clone, Copy, Debug)]
pub struct Ramp {
    pub start: u32,
    pub target: u32,
    pub steps: u32,
    /// The step whose value is handed out next: the number handed out so far.
    pub next_step: u32,
    /// Set once an application failed: nothing more is handed out.
    pub aborted: bool,
}

/// A quotient of a value between `lo * d` and `hi * d`, rounded, lies between
/// `lo` and `hi`.
pub proof fn lemma_nearest_between(lo: nat, hi: nat, n: nat, d: nat)
    requires
        d > 0,
        lo <= hi,
        lo * d <= n <= hi * d,
    ensures
        lo <= nearest(n, d) <= hi,
{
    let q = n / d;
    let r = n % d;
    lemma_fundamental_div_mod(n as int, d as int);
    assert(lo * d == d * lo && hi * d == d * hi) by (nonlinear_arith);
    lemma_div_is_ordered((d * lo) as int, n as int, d as int);
    lemma_div_is_ordered(n as int, (d * hi) as int, d as int);
    vstd::arithmetic::div_mod::lemma_div_multiples_vanish(lo as int, d as int);
    vstd::arithmetic::div_mod::lemma_div_multiples_vanish(hi as int, d as int);
    if q == hi && 2 * r >= d {
        assert(n == d * hi + r);
        assert(false);
    }
}

/// An exact quotient is not changed by rounding.
pub proof fn lemma_nearest_exact(a: nat, d: nat)
    requires
        d > 0,
    ensures
        nearest(a * d, d) == a,
{
    vstd::arithmetic::div_mod::lemma_div_multiples_vanish(a as int, d as int);
    vstd::arithmetic::div_mod::lemma_mod_multiples_basic(a as int, d as int);
    assert(d * a == a * d) by (nonlinear_arith);
}

/// Every value of a ramp lies between its start and its target, the first is
/// the start and the last is the target.
pub proof fn lemma_ramp_value_bounds(start: u32, target: u32, steps: u32, step: u32)
    requires
        step <= steps,
    ensures
        start <= target ==> start <= ramp_value(start, target, steps, step) <= target,
        target <= start ==> target <= ramp_value(start, target, steps, step) <= start,
        step == steps ==> ramp_value(start, target, steps, step) == target,
        step == 0 && steps > 0 ==> ramp_value(start, target, steps, step) == start,
{
    if steps > 0 {
        let n = (start * (steps - step) + target * step) as nat;
        let a = (steps - step) as nat;
        let b = step as nat;
        assert(a + b == steps);
        if start <= target {
            assert(start * steps <= n <= target * steps) by (nonlinear_arith)
                requires n == start * a + target * b, a + b == steps, start <= target;
            lemma_nearest_between(start as nat, target as nat, n, steps as nat);
        }
        if target <= start {
            assert(target * steps <= n <= start * steps) by (nonlinear_arith)
                requires n == start * a + target * b, a + b == steps, target <= start;
            lemma_nearest_between(target as nat, start as nat, n, steps as nat);
        }
        if step == steps {
            assert(start * (steps - step) == 0) by (nonlinear_arith) requires step == steps;
            lemma_nearest_exact(target as nat, steps as nat);
        }
        if step == 0 {
            assert(target * step == 0) by (nonlinear_arith) requires step == 0;
            lemma_nearest_exact(start as nat, steps as nat);
        }
    }
}

/// The value at one step of a ramp.
pub fn value_at(start: u32, target: u32, steps: u32, step: u32) -> (r: u32)
    requires
        step <= steps,
    ensures
        r == ramp_value(start, target, steps, step),
{
    proof {
        lemma_ramp_value_bounds(start, target, steps, step);
    }
    if steps == 0 {
        return target;
    }
    let a: u64 = (steps - step) as u64;
    let b: u64 = step as u64;
    let s: u64 = start as u64;
    let t: u64 = target as u64;
    assert(s * a <= 0xffff_ffff * a) by (nonlinear_arith)
        requires s <= 0xffff_ffff;
    assert(t * b <= 0xffff_ffff * b) by (nonlinear_arith)
        requires t <= 0xffff_ffff;
    assert(0xffff_ffff * a + 0xffff_ffff * b <= 0xffff_ffff * 0xffff_ffffu64) by (nonlinear_arith)
        requires a + b <= 0xffff_ffff;
    let n: u64 = s * a + t * b;
    let d: u64 = steps as u64;
    let q: u64 = n / d;
    let rem: u64 = n % d;
    let r: u64 = if 2 * rem >= d { q + 1 } else { q };
    r as u32
}

impl Ramp {
    /// How far the ramp has got: it hands out values of steps `0..=steps`.
    pub open spec fn wf(self) -> bool {
        self.steps < u32::MAX && self.next_step <= self.steps + 1
    }

    /// Nothing more is handed out: every step was, or the ramp was aborted.
    pub open spec fn done(self) -> bool {
        self.aborted || self.next_step > self.steps
    }

    /// All the values of the ramp, in the order they are handed out.
    pub open spec fn values(self) -> Seq<int> {
        Seq::new((self.steps + 1) as nat, |i: int| ramp_value(self.start, self.target, self.steps, i as u32))
    }

    /// The ramp after one more value was handed out.
    pub open spec fn advanced(self) -> Ramp {
        Ramp { next_step: (self.next_step + 1) as u32, ..self }
    }

    /// The values that `calls` successive calls of `next_value` hand out.
    pub open spec fn handed_out(self, calls: nat) -> Seq<int>
        decreases calls,
    {
        if calls == 0 || self.done() {
            Seq::empty()
        } else {
            seq![ramp_value(self.start, self.target, self.steps, self.next_step)] + self.advanced().handed_out(
                (calls - 1) as nat,
            )
        }
    }

    /// A ramp from `start` to `target` in `steps` steps; `steps + 1` values in
    /// all, the first `start` and the last `target`.
    pub fn new(start: u32, target: u32, steps: u32) -> (r: Ramp)
        requires
            steps < u32::MAX,
        ensures
            r.wf(),
            r.start == start,
            r.target == target,
            r.steps == steps,
            r.next_step == 0,
            !r.aborted,
    {
        Ramp { start, target, steps, next_step: 0, aborted: false }
    }

    /// A change made at once: the single value `target`.
    pub fn immediate(target: u32) -> (r: Ramp)
        ensures
            r.wf(),
            r.start == target,
            r.target == target,
            r.steps == 0,
            r.next_step == 0,
            !r.aborted,
            r.values() =~= seq![target as int],
    {
        Ramp { start: target, target, steps: 0, next_step: 0, aborted: false }
    }

    /// Hands out the value of the next step, or nothing once the ramp is done.
    pub fn next_value(&mut self) -> (r: Option<u32>)
        requires
            old(self).wf(),
        ensures
            final(self).wf(),
            old(self).done() ==> r is None && *final(self) == *old(self),
            !old(self).done() ==> r == Some(ramp_value(old(self).start, old(self).target, old(self).steps, old(self).next_step) as u32)
                && r.unwrap() as int == old(self).values()[old(self).next_step as int]
                && *final(self) == old(self).advanced(),
    {
        if self.aborted || self.next_step > self.steps {
            return None;
        }
        let v = value_at(self.start, self.target, self.steps, self.next_step);
        self.next_step = self.next_step + 1;
        Some(v)
    }

    /// Records that applying the last value failed: the ramp hands out nothing
    /// more, and the number of values handed out stays as it is.
    pub fn abort(&mut self)
        requires
            old(self).wf(),
        ensures
            final(self).wf(),
            final(self).done(),
            *final(self) == (Ramp { aborted: true, ..*old(self) }),
    {
        self.aborted = true;
    }

    /// The number of values handed out so far.
    pub fn applied(&self) -> (r: u32)
        ensures
            r == self.next_step,
    {
        self.next_step
    }

    /// Whether the ramp will hand out nothing more.
    pub fn is_done(&self) -> (r: bool)
        ensures
            r == self.done(),
    {
        self.aborted || self.next_step > self.steps
    }
}

/// The values still to come from a ramp that is not aborted: those of its
/// remaining steps, in order.
proof fn lemma_handed_out_rest(r: Ramp, calls: nat)
    requires
        r.wf(),
        !r.aborted,
    ensures
        r.handed_out(calls) =~= r.values().subrange(
            r.next_step as int,
            if r.next_step + calls <= r.steps + 1 { r.next_step + calls } else { r.steps + 1 },
        ),
    decreases calls,
{
    if calls > 0 && !r.done() {
        lemma_handed_out_rest(r.advanced(), (calls - 1) as nat);
    }
}

/// A ramp run to its end hands out exactly its `steps + 1` values, in order,
/// and nothing after them.
pub proof fn lemma_full_run(r: Ramp, calls: nat)
    requires
        r.wf(),
        r.next_step == 0,
        !r.aborted,
        calls >= r.steps + 1,
    ensures
        r.handed_out(calls) == r.values(),
        r.handed_out(calls).last() == r.target,
{
    lemma_handed_out_rest(r, calls);
    assert(r.values().subrange(0, r.steps + 1) =~= r.values());
    lemma_ramp_value_bounds(r.start, r.target, r.steps, r.steps);
}

/// A ramp whose application fails at the `k`-th value is aborted having handed
/// out exactly its first `k` values: no later call hands out another.
pub proof fn lemma_abort_after(r: Ramp, k: nat, later_calls: nat)
    requires
        r.wf(),
        r.next_step == 0,
        !r.aborted,
        1 <= k <= r.steps + 1,
    ensures
        r.handed_out(k) == r.values().take(k as int),
        (Ramp { next_step: k as u32, aborted: true, ..r }).handed_out(later_calls) == Seq::<int>::empty(),
{
    lemma_handed_out_rest(r, k);
    assert(r.values().subrange(0, k as int) =~= r.values().take(k as int));
}

} // verus!
