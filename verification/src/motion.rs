//! Rate-limited motion: the sequence of angles that carries a servo from where
//! it is to a target, one write per millisecond.

use vstd::arithmetic::div_mod::{
    lemma_div_is_ordered, lemma_div_multiples_vanish, lemma_div_pos_is_pos,
    lemma_fundamental_div_mod, lemma_fundamental_div_mod_converse, lemma_mod_bound,
};
use vstd::arithmetic::mul::{lemma_mul_inequality, lemma_mul_is_commutative};
use vstd::prelude::*;

verus! {

/// The fastest a servo is asked to turn, in thousandths of a degree per
/// millisecond: sixty degrees in a hundred and fifty milliseconds.
pub const MAX_SPEED: i32 = 400;

/// How long the caller suspends after each write of a stepped motion, in
/// milliseconds.
pub const STEP_DELAY_MS: u64 = 1;

/// The size of the move from `start` to `target`.
pub open spec fn distance(start: int, target: int) -> int {
    if target >= start {
        target - start
    } else {
        start - target
    }
}

/// The number of whole milliseconds the move takes at `MAX_SPEED`.
pub open spec fn step_count(start: int, target: int) -> int {
    distance(start, target) / (MAX_SPEED as int)
}

/// The number of writes the move makes.
pub open spec fn write_count(start: int, target: int) -> int {
    step_count(start, target) + 1
}

/// The number of times the caller suspends during the move: never for a move
/// shorter than one step, otherwise once after each write.
pub open spec fn suspension_count(start: int, target: int) -> int {
    if step_count(start, target) == 0 {
        0
    } else {
        step_count(start, target) + 1
    }
}

/// The angle of write number `i` of the move, counted from zero. A move
/// shorter than one step writes the target at once; a longer one divides the
/// way evenly, truncating each offset towards the start.
pub open spec fn planned_angle(start: int, target: int, i: int) -> int {
    let steps = step_count(start, target);
    if steps == 0 {
        target
    } else if target >= start {
        start + (distance(start, target) * i) / steps
    } else {
        start - (distance(start, target) * i) / steps
    }
}

/// What the caller does next in a motion.
#[derive(Clone, Copy, Debug, PartialEq, Eq, Structural)]
pub enum SmoothStep {
    /// Write `angle` to the servo, then suspend for `STEP_DELAY_MS` if
    /// `suspend` is set.
    Write { angle: i32, suspend: bool },
    /// Every write has been made.
    Done,
}

/// A motion in progress: where it began, where it ends, and how many of its
/// writes have been handed out.
#[derive(Clone, Copy, Debug, PartialEq, Eq, Structural)]
pub struct SmoothMotion {
    start: i32,
    target: i32,
    steps: u32,
    issued: u32,
}

impl SmoothMotion {
    /// The angle the motion began at.
    pub closed spec fn start(&self) -> int {
        self.start as int
    }

    /// The angle the motion ends at.
    pub closed spec fn target(&self) -> int {
        self.target as int
    }

    /// The number of writes handed out so far.
    pub closed spec fn issued(&self) -> int {
        self.issued as int
    }

    /// The step count is that of the move and no write beyond the last has
    /// been handed out.
    pub closed spec fn wf(&self) -> bool {
        &&& self.steps == step_count(self.start as int, self.target as int)
        &&& self.issued <= self.steps + 1
    }

    /// Whether every write has been handed out.
    pub open spec fn finished(&self) -> bool {
        self.issued() == write_count(self.start(), self.target())
    }

    /// Plans the move from `start` to `target`.
    pub fn new(start: i32, target: i32) -> (m: SmoothMotion)
        ensures
            m.wf(),
            m.start() == start,
            m.target() == target,
            m.issued() == 0,
    {
        let d: u64 = exec_distance(start, target);
        let steps: u64 = d / (MAX_SPEED as u64);
        SmoothMotion { start, target, steps: steps as u32, issued: 0 }
    }

    /// The number of writes the whole motion makes.
    pub fn total_writes(&self) -> (n: u32)
        requires
            self.wf(),
        ensures
            n == write_count(self.start(), self.target()),
    {
        proof {
            lemma_step_count_bound(self.start as int, self.target as int);
        }
        self.steps + 1
    }

    /// Hands out the next write of the motion, or `Done` once all have been
    /// handed out.
    pub fn advance(&mut self) -> (step: SmoothStep)
        requires
            old(self).wf(),
        ensures
            final(self).wf(),
            final(self).start() == old(self).start(),
            final(self).target() == old(self).target(),
            old(self).finished() ==> step == SmoothStep::Done && final(self).issued() == old(
                self,
            ).issued(),
            !old(self).finished() ==> final(self).issued() == old(self).issued() + 1 && step == (
            SmoothStep::Write {
                angle: planned_angle(old(self).start(), old(self).target(), old(self).issued())
                    as i32,
                suspend: step_count(old(self).start(), old(self).target()) != 0,
            }) && i32::MIN <= planned_angle(
                old(self).start(),
                old(self).target(),
                old(self).issued(),
            ) <= i32::MAX,
    {
        proof {
            lemma_step_count_bound(self.start as int, self.target as int);
        }
        if self.issued > self.steps {
            return SmoothStep::Done;
        }
        let angle: i32 = if self.steps == 0 {
            self.target
        } else {
            let d: u64 = exec_distance(self.start, self.target);
            proof {
                lemma_offset_bound(d as int, self.issued as int, self.steps as int);
            }
            let offset: u64 = (d * (self.issued as u64)) / (self.steps as u64);
            if self.target >= self.start {
                (self.start as i64 + offset as i64) as i32
            } else {
                (self.start as i64 - offset as i64) as i32
            }
        };
        self.issued = self.issued + 1;
        SmoothStep::Write { angle, suspend: self.steps != 0 }
    }
}

/// The size of the move from `start` to `target`.
fn exec_distance(start: i32, target: i32) -> (d: u64)
    ensures
        d == distance(start as int, target as int),
        d < 0x1_0000_0000,
{
    if target >= start {
        (target as i64 - start as i64) as u64
    } else {
        (start as i64 - target as i64) as u64
    }
}

/// Between two 32-bit angles the step count fits well within 32 bits.
proof fn lemma_step_count_bound(start: int, target: int)
    requires
        i32::MIN <= start <= i32::MAX,
        i32::MIN <= target <= i32::MAX,
    ensures
        0 <= step_count(start, target) < 0x100_0000,
{
    let d = distance(start, target);
    assert(0 <= d / 400 < 0x100_0000) by (nonlinear_arith)
        requires
            0 <= d < 0x1_0000_0000,
    ;
}

/// Write number `i` of `steps` lies no further from the start than the whole
/// distance `d`.
proof fn lemma_offset_bound(d: int, i: int, steps: int)
    requires
        0 <= d < 0x1_0000_0000,
        0 <= i <= steps,
        0 < steps < 0x100_0000,
    ensures
        0 <= d * i < 0x100_0000_0000_0000,
        0 <= (d * i) / steps <= d,
{
    assert(0 <= d * i <= d * steps) by (nonlinear_arith)
        requires
            0 <= d,
            0 <= i <= steps,
    ;
    assert(d * steps < 0x100_0000_0000_0000) by (nonlinear_arith)
        requires
            0 <= d < 0x1_0000_0000,
            0 < steps < 0x100_0000,
    ;
    lemma_div_pos_is_pos(d * i, steps);
    lemma_div_is_ordered(d * i, d * steps, steps);
    lemma_div_multiples_vanish(d, steps);
    lemma_mul_is_commutative(d, steps);
}

/// A move to the angle the servo already holds makes exactly one write, of
/// that angle, and never suspends.
pub proof fn lemma_move_in_place(angle: int)
    ensures
        step_count(angle, angle) == 0,
        write_count(angle, angle) == 1,
        suspension_count(angle, angle) == 0,
        planned_angle(angle, angle, 0) == angle,
{
}

/// A move shorter than one step makes exactly one write, of the target, and
/// never suspends.
pub proof fn lemma_short_move(start: int, target: int)
    requires
        distance(start, target) < MAX_SPEED,
    ensures
        write_count(start, target) == 1,
        suspension_count(start, target) == 0,
        planned_angle(start, target, 0) == target,
{
}

/// A stepped move makes one write more than it has steps and suspends after
/// each of them.
pub proof fn lemma_stepped_move(start: int, target: int)
    requires
        distance(start, target) >= MAX_SPEED,
    ensures
        step_count(start, target) >= 1,
        write_count(start, target) == step_count(start, target) + 1,
        suspension_count(start, target) == write_count(start, target),
{
}

/// The first write of a stepped move is the angle the servo starts from.
pub proof fn lemma_first_write_is_start(start: int, target: int)
    requires
        step_count(start, target) != 0,
    ensures
        planned_angle(start, target, 0) == start,
{
    let d = distance(start, target);
    let steps = step_count(start, target);
    assert(d * 0 == 0) by (nonlinear_arith);
    assert(0int / steps == 0) by (nonlinear_arith)
        requires
            steps != 0,
    ;
}

/// The last write of any move is exactly the target.
pub proof fn lemma_last_write_is_target(start: int, target: int)
    ensures
        planned_angle(start, target, step_count(start, target)) == target,
{
    let d = distance(start, target);
    let steps = step_count(start, target);
    if steps != 0 {
        assert(steps > 0);
        lemma_div_multiples_vanish(d, steps);
        lemma_mul_is_commutative(d, steps);
    }
}

/// Every write of a move lies between the start and the target.
pub proof fn lemma_planned_between(start: int, target: int, i: int)
    requires
        0 <= i <= step_count(start, target),
    ensures
        target >= start ==> start <= planned_angle(start, target, i) <= target,
        target < start ==> target <= planned_angle(start, target, i) <= start,
{
    let d = distance(start, target);
    let steps = step_count(start, target);
    if steps != 0 {
        assert(0 <= d * i <= d * steps) by (nonlinear_arith)
            requires
                0 <= d,
                0 <= i <= steps,
        ;
        lemma_div_pos_is_pos(d * i, steps);
        lemma_div_is_ordered(d * i, d * steps, steps);
        lemma_div_multiples_vanish(d, steps);
        lemma_mul_is_commutative(d, steps);
    }
}

/// The writes of a move never turn back: a later one is at least as far along
/// the way as an earlier one.
pub proof fn lemma_planned_monotonic(start: int, target: int, i: int, j: int)
    requires
        0 <= i <= j <= step_count(start, target),
    ensures
        target >= start ==> planned_angle(start, target, i) <= planned_angle(start, target, j),
        target < start ==> planned_angle(start, target, i) >= planned_angle(start, target, j),
{
    let d = distance(start, target);
    let steps = step_count(start, target);
    if steps != 0 {
        lemma_mul_inequality(i, j, d);
        lemma_mul_is_commutative(i, d);
        lemma_mul_is_commutative(j, d);
        lemma_div_is_ordered(d * i, d * j, steps);
    }
}

/// Each step of a stepped move covers at least `MAX_SPEED` and less than
/// twice `MAX_SPEED`: the servo is never asked to turn slower than the rate
/// the move was planned at, nor as much as twice as fast.
pub proof fn lemma_step_size(start: int, target: int, i: int)
    requires
        0 <= i < step_count(start, target),
    ensures
        MAX_SPEED <= distance(
            planned_angle(start, target, i),
            planned_angle(start, target, i + 1),
        ) < 2 * MAX_SPEED,
{
    let d = distance(start, target);
    let s = step_count(start, target);
    let k = d / s;
    let r = d % s;
    let qa = (d * i) / s;
    let ra = (d * i) % s;
    lemma_fundamental_div_mod(d, 400);
    lemma_mod_bound(d, 400);
    assert(400 * s <= d < 400 * s + 400);
    lemma_fundamental_div_mod(d, s);
    lemma_mod_bound(d, s);
    lemma_fundamental_div_mod(d * i, s);
    lemma_mod_bound(d * i, s);
    assert(400 <= k <= 799 && (k == 799 ==> s == 1)) by (nonlinear_arith)
        requires
            d == s * k + r,
            0 <= r < s,
            400 * s <= d < 400 * s + 400,
            1 <= s,
    ;
    assert(d * (i + 1) == (qa + k) * s + (ra + r)) by (nonlinear_arith)
        requires
            d == s * k + r,
            d * i == s * qa + ra,
    ;
    let step = (d * (i + 1)) / s - qa;
    if ra + r < s {
        lemma_fundamental_div_mod_converse(d * (i + 1), s, qa + k, ra + r);
        assert(step == k);
    } else {
        assert(d * (i + 1) == (qa + k + 1) * s + (ra + r - s)) by (nonlinear_arith)
            requires
                d * (i + 1) == (qa + k) * s + (ra + r),
        ;
        lemma_fundamental_div_mod_converse(d * (i + 1), s, qa + k + 1, ra + r - s);
        assert(step == k + 1);
    }
    assert(400 <= step <= 799);
}

} // verus!
