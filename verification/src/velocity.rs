//! Velocity of a dot: a bounded random walk with a soft pull toward the
//! upper right.

use vstd::prelude::*;
use nanorand::WyRand;
use crate::random::draw_between;
use crate::units::{FULL_SPEED, NUDGE, JITTER_LIMIT};

verus! {

/// Velocity in units per update, with the increments that the next update
/// adds to each component.
///
/// A component that an increment would carry past the range of `i32` stays
/// at the end of the range, some four thousand pixels per update; the nudges
/// keep a walk far from there.
#[derive(Clone, Copy, Debug, PartialEq, Eq, Structural)]
pub struct Velocity {
    pub x: i32,
    pub y: i32,
    pub x_delta: i32,
    pub y_delta: i32,
}

/// `value` held to the range of `i32`.
pub open spec fn saturated(value: int) -> int {
    if value > i32::MAX {
        i32::MAX as int
    } else if value < i32::MIN {
        i32::MIN as int
    } else {
        value
    }
}

/// One nudge of the horizontal component toward `0 ..= FULL_SPEED`.
pub open spec fn nudged_x(x: int) -> int {
    if x > FULL_SPEED {
        x - NUDGE
    } else if x < 0 {
        x + NUDGE
    } else {
        x
    }
}

/// One nudge of the vertical component: down when positive, up otherwise.
/// The component never rests.
pub open spec fn nudged_y(y: int) -> int {
    if y > 0 {
        y - NUDGE
    } else {
        y + NUDGE
    }
}

/// Whether `jitter` is an increment that an update may draw.
pub open spec fn is_jitter(jitter: i32) -> bool {
    -JITTER_LIMIT <= jitter <= JITTER_LIMIT
}

/// Whether a horizontal component is at rest: no nudge applies to it.
pub open spec fn is_settled_x(x: int) -> bool {
    0 <= x <= FULL_SPEED
}

/// Whether a vertical component has reached the band around zero that the
/// nudges then hold it in.
pub open spec fn is_settled_y(y: int) -> bool {
    -NUDGE < y <= NUDGE
}

/// A number of updates after which a coasting horizontal component is at
/// rest: its distance from `0 ..= FULL_SPEED` in nudges, rounded up.
pub open spec fn settling_time_x(x: int) -> nat {
    if x > FULL_SPEED {
        ((x - FULL_SPEED + NUDGE - 1) / (NUDGE as int)) as nat
    } else if x < 0 {
        ((-x + NUDGE - 1) / (NUDGE as int)) as nat
    } else {
        0
    }
}

/// A number of updates after which a coasting vertical component is within
/// one nudge of zero: its distance from zero in nudges, rounded down.
pub open spec fn settling_time_y(y: int) -> nat {
    if y > 0 {
        (y / (NUDGE as int)) as nat
    } else {
        (-y / (NUDGE as int)) as nat
    }
}

/// Adds two components, holding the sum to the range of `i32`.
fn saturating_sum(a: i32, b: i32) -> (sum: i32)
    ensures
        sum == saturated(a + b),
{
    let wide: i64 = a as i64 + b as i64;
    if wide > i32::MAX as i64 {
        i32::MAX
    } else if wide < i32::MIN as i64 {
        i32::MIN
    } else {
        wide as i32
    }
}

/// Draws a jitter increment, uniform over `-JITTER_LIMIT ..= JITTER_LIMIT`.
pub fn draw_jitter(rng: &mut WyRand) -> (jitter: i32)
    ensures
        is_jitter(jitter),
{
    let offset: u32 = draw_between(rng, 0, 2 * (JITTER_LIMIT as u32) + 1);
    jitter_at(offset)
}

/// The jitter increment that stands `offset` places above the lowest one:
/// offset zero is `-JITTER_LIMIT`, and the highest offset, twice the limit,
/// is `JITTER_LIMIT`.
pub fn jitter_at(offset: u32) -> (jitter: i32)
    requires
        offset <= 2 * JITTER_LIMIT,
    ensures
        jitter == offset - JITTER_LIMIT,
        is_jitter(jitter),
{
    offset as i32 - JITTER_LIMIT
}

impl Velocity {
    /// The velocity after one update that draws `jitter_x` and `jitter_y` as
    /// the next increments.
    pub open spec fn stepped(self, jitter_x: i32, jitter_y: i32) -> Velocity {
        Velocity {
            x: nudged_x(saturated(self.x + self.x_delta)) as i32,
            y: nudged_y(saturated(self.y + self.y_delta)) as i32,
            x_delta: jitter_x,
            y_delta: jitter_y,
        }
    }

    /// Applies the pending increments, stores `jitter_x` and `jitter_y` as the
    /// next ones, and nudges each component once. The nudge is soft: a
    /// component far out of range takes many updates to come back.
    pub fn step(&mut self, jitter_x: i32, jitter_y: i32)
        ensures
            *final(self) == old(self).stepped(jitter_x, jitter_y),
    {
        let mut x: i32 = saturating_sum(self.x, self.x_delta);
        let mut y: i32 = saturating_sum(self.y, self.y_delta);
        if x > FULL_SPEED {
            x = x - NUDGE;
        } else if x < 0 {
            x = x + NUDGE;
        }
        // The second test holds whenever the first fails: the vertical
        // component is nudged on every update.
        if y > 0 {
            y = y - NUDGE;
        } else if y < FULL_SPEED {
            y = y + NUDGE;
        }
        self.x = x;
        self.y = y;
        self.x_delta = jitter_x;
        self.y_delta = jitter_y;
    }

    /// The velocity after `updates` updates that all draw zero jitter.
    pub open spec fn coasted(self, updates: nat) -> Velocity
        decreases updates,
    {
        if updates == 0 {
            self
        } else {
            self.stepped(0, 0).coasted((updates - 1) as nat)
        }
    }

    /// Whether one update can turn this velocity into `next`: some pair of
    /// jitter increments makes the step.
    pub open spec fn may_become(self, next: Velocity) -> bool {
        exists|jitter_x: i32, jitter_y: i32|
            is_jitter(jitter_x) && is_jitter(jitter_y) && next == #[trigger] self.stepped(
                jitter_x,
                jitter_y,
            )
    }

    /// One update: applies the pending increments, draws fresh ones from
    /// `rng`, and nudges each component once.
    pub fn update(&mut self, rng: &mut WyRand)
        ensures
            old(self).may_become(*final(self)),
    {
        let jitter_x: i32 = draw_jitter(rng);
        let jitter_y: i32 = draw_jitter(rng);
        self.step(jitter_x, jitter_y);
        assert(*self == old(self).stepped(jitter_x, jitter_y));
    }
}

/// A settled component stays settled while the velocity coasts.
pub proof fn lemma_settled_stays(start: Velocity, updates: nat)
    requires
        start.x_delta == 0,
        start.y_delta == 0,
    ensures
        is_settled_x(start.x as int) ==> is_settled_x(start.coasted(updates).x as int),
        is_settled_y(start.y as int) ==> is_settled_y(start.coasted(updates).y as int),
    decreases updates,
{
    if updates > 0 {
        lemma_settled_stays(start.stepped(0, 0), (updates - 1) as nat);
    }
}

/// A velocity that no jitter disturbs settles, and stays settled: once as
/// many updates have passed as its distance from the resting range counts
/// nudges, the horizontal component lies in `0 ..= FULL_SPEED` and the
/// vertical one within one nudge of zero.
pub proof fn lemma_coasting_settles(start: Velocity, updates: nat)
    requires
        start.x_delta == 0,
        start.y_delta == 0,
    ensures
        updates >= settling_time_x(start.x as int) ==> is_settled_x(start.coasted(updates).x as int),
        updates >= settling_time_y(start.y as int) ==> is_settled_y(start.coasted(updates).y as int),
    decreases updates,
{
    let time_x = settling_time_x(start.x as int);
    let time_y = settling_time_y(start.y as int);
    assert(time_x == 0 ==> is_settled_x(start.x as int));
    assert(time_y == 0 ==> is_settled_y(start.y as int));
    lemma_settled_stays(start, updates);
    if updates > 0 {
        let next = start.stepped(0, 0);
        assert(time_x > 0 ==> settling_time_x(next.x as int) + 1 == time_x);
        assert(time_y > 0 ==> settling_time_y(next.y as int) + 1 == time_y);
        lemma_coasting_settles(next, (updates - 1) as nat);
    }
}

} // verus!
