//! The packing driver: the state of the stochastic placement loop and the
//! rules that advance it.
//!
//! The driver never touches geometry queries itself.  The surrounding
//! program samples a point, asks its shape engine for the signed distance
//! to the nearest boundary and for insertion, and feeds the answers back
//! in: [`PackRun::propose`] sizes a candidate from a signed distance,
//! [`PackRun::record_accept`] and [`PackRun::record_stall`] advance the
//! state.  Termination policy (target coverage or exhausted stall budget)
//! is decided here and proved finite below.

use vstd::prelude::*;
use vstd::arithmetic::div_mod::{lemma_div_is_ordered, lemma_div_plus_one, lemma_div_pos_is_pos};
use vstd::arithmetic::mul::lemma_mul_inequality;
use crate::config::PackingConfig;
use crate::geometry::{COORD_LIMIT, Rect};

verus! {

/// Largest occupied area the driver accounts for: the area of the largest
/// representable container (`COORD_LIMIT * COORD_LIMIT`).
pub const AREA_LIMIT: i64 = 1_000_000_000_000_000_000;

/// The mutable state of one packing run.
#[derive(Clone, Copy, PartialEq, Eq, Structural, Debug)]
pub struct PackRun {
    /// Smallest radius a candidate may have; positive.
    pub min_radius: i64,
    /// Clearance demanded around every circle; non-negative.
    pub padding: i64,
    /// Occupied area at which the run is satisfied.
    pub target_area: i64,
    /// Occupied area the engine reported last; monotonically non-decreasing.
    pub occupied_area: i64,
    /// Consecutive failed rounds since the last accepted circle.
    pub stall_count: u32,
    /// Consecutive failed rounds after which the run gives up.
    pub max_stall_iterations: u32,
    /// Whether the run is over (target reached or stall budget exhausted).
    pub done: bool,
}

impl PackRun {
    /// Every state the driver can reach.  `done` is not a free field: it
    /// says exactly that the target is reached or the budget exhausted.
    pub open spec fn wf(self) -> bool {
        &&& 0 < self.min_radius <= COORD_LIMIT
        &&& 0 <= self.padding <= COORD_LIMIT
        &&& 0 <= self.target_area <= AREA_LIMIT
        &&& 0 <= self.occupied_area <= AREA_LIMIT
        &&& 0 < self.max_stall_iterations
        &&& self.stall_count <= self.max_stall_iterations
        &&& self.done == (self.occupied_area >= self.target_area
            || self.stall_count >= self.max_stall_iterations)
    }

    /// The area the run aims for: the configured fraction of the
    /// container's area, rounded down to the grid.
    pub open spec fn spec_target_area(container: Rect, config: PackingConfig) -> int {
        (config.target_num * container.spec_area()) / (config.target_den as int)
    }

    /// Starts a run over `container`, aiming for the configured coverage
    /// fraction.  `initial_occupied` is the occupied area the engine
    /// reports before any circle is placed.
    pub fn new(container: &Rect, config: &PackingConfig, initial_occupied: i64) -> (run: PackRun)
        requires
            container.wf(),
            config.wf(),
            0 <= initial_occupied <= AREA_LIMIT,
        ensures
            run.wf(),
            run.min_radius == config.min_radius,
            run.padding == config.padding,
            run.max_stall_iterations == config.max_stall_iterations,
            run.target_area == Self::spec_target_area(*container, *config),
            run.occupied_area == initial_occupied,
            run.stall_count == 0,
            run.done == (initial_occupied >= run.target_area),
    {
        let area = container.area();
        let num = config.target_num as i128;
        let den = config.target_den as i128;
        proof {
            let n = config.target_num as int;
            let d = config.target_den as int;
            let a = container.spec_area();
            assert(0 <= n * a <= d * a && d * a <= 4294967296 * 1_000_000_000_000_000_000)
                by (nonlinear_arith)
                requires 0 < n <= d < 4294967296, 0 < a <= 1_000_000_000_000_000_000;
            lemma_div_pos_is_pos(n * a, d);
            lemma_div_is_ordered(n * a, d * a, d);
            assert((d * a) / d == a) by (nonlinear_arith)
                requires 0 < d;
        }
        let wide: i128 = num * (area as i128) / den;
        let target = wide as i64;
        PackRun {
            min_radius: config.min_radius,
            padding: config.padding,
            target_area: target,
            occupied_area: initial_occupied,
            stall_count: 0,
            max_stall_iterations: config.max_stall_iterations,
            done: initial_occupied >= target,
        }
    }

    /// The radius of the largest circle that, centered on the sampled
    /// point, keeps `padding` clearance to every existing boundary:
    /// the reported clearance (`-sdf`) minus the padding.
    pub open spec fn spec_candidate_radius(self, sdf: int) -> int {
        -sdf - self.padding
    }

    /// Sizes a candidate circle from the engine's signed distance at the
    /// sampled point (negative inside free space).  Returns `None` when
    /// the point cannot host a circle of at least `min_radius` — a stall.
    pub fn propose(&self, sdf: i64) -> (candidate: Option<i64>)
        requires
            self.wf(),
            -COORD_LIMIT <= sdf <= COORD_LIMIT,
        ensures
            candidate.is_some() <==> self.spec_candidate_radius(sdf as int) >= self.min_radius,
            match candidate {
                Some(radius) => radius == self.spec_candidate_radius(sdf as int)
                    && radius >= self.min_radius,
                None => self.spec_candidate_radius(sdf as int) < self.min_radius,
            },
    {
        let radius = -sdf - self.padding;
        if radius >= self.min_radius {
            Some(radius)
        } else {
            None
        }
    }
}

/// How a stalled round changes the state: one more consecutive stall, and
/// the run ends if that exhausts the budget.
pub open spec fn stall_step(pre: PackRun, post: PackRun) -> bool {
    post == (PackRun {
        stall_count: (pre.stall_count + 1) as u32,
        done: pre.occupied_area >= pre.target_area
            || pre.stall_count + 1 >= pre.max_stall_iterations,
        ..pre
    })
}

/// How an accepted insertion changes the state: the stall counter resets,
/// the engine's reported area is adopted, and the run ends once the
/// target is reached.
pub open spec fn accept_step(pre: PackRun, post: PackRun, new_occupied: int) -> bool {
    post == (PackRun {
        stall_count: 0u32,
        occupied_area: new_occupied as i64,
        done: new_occupied >= pre.target_area,
        ..pre
    })
}

impl PackRun {
    /// Records a stalled round: the sampled point could not host a circle
    /// of at least `min_radius`, or the engine rejected the insertion.
    pub fn record_stall(&mut self)
        requires
            old(self).wf(),
            !old(self).done,
        ensures
            final(self).wf(),
            stall_step(*old(self), *final(self)),
    {
        self.stall_count = self.stall_count + 1;
        if self.stall_count >= self.max_stall_iterations {
            self.done = true;
        }
    }

    /// Records an accepted insertion, with the occupied area the engine
    /// reports afterwards (never less than before: area only grows).
    pub fn record_accept(&mut self, new_occupied: i64)
        requires
            old(self).wf(),
            !old(self).done,
            old(self).occupied_area <= new_occupied <= AREA_LIMIT,
        ensures
            final(self).wf(),
            accept_step(*old(self), *final(self), new_occupied as int),
    {
        self.stall_count = 0;
        self.occupied_area = new_occupied;
        if new_occupied >= self.target_area {
            self.done = true;
        }
    }
}

/// Law: the stall budget is respected.  In every reachable state the
/// consecutive-stall counter is at most `max_stall_iterations`, and a
/// state that has used the whole budget is a finished state — the loop
/// never runs further stalls past the limit.
pub proof fn lemma_stall_budget(run: PackRun)
    requires
        run.wf(),
    ensures
        run.stall_count <= run.max_stall_iterations,
        run.stall_count == run.max_stall_iterations ==> run.done,
{
}

/// How many acceptances, each contributing at least `gain`, are still
/// needed to reach the target (zero once the target is reached).
pub open spec fn remaining_gain_units(run: PackRun, gain: int) -> int {
    if run.occupied_area >= run.target_area {
        0
    } else {
        (run.target_area - run.occupied_area + gain - 1) / gain
    }
}

/// A measure of how much work a run may still do: pending acceptances
/// weighted by a full stall budget, plus the stalls left in the current
/// budget.
pub open spec fn progress_measure(run: PackRun, gain: int) -> int {
    remaining_gain_units(run, gain) * (run.max_stall_iterations + 1)
        + (run.max_stall_iterations - run.stall_count)
}

/// Law: the loop is finite.  Every round taken from an unfinished state —
/// a stall, or an acceptance that grows the occupied area by at least
/// some fixed `gain >= 1` (any accepted circle covers at least the area
/// of a `min_radius` circle) — strictly decreases `progress_measure`,
/// which is never negative.  No configuration, container and sample
/// sequence can therefore drive the loop forever: it stops after at most
/// `progress_measure` further rounds, by reaching the target or
/// exhausting the stall budget.
pub proof fn lemma_step_decreases_measure(pre: PackRun, post: PackRun, new_occupied: int, gain: int)
    requires
        pre.wf(),
        !pre.done,
        gain >= 1,
        stall_step(pre, post)
            || (accept_step(pre, post, new_occupied) && new_occupied >= pre.occupied_area + gain
                && new_occupied <= AREA_LIMIT),
    ensures
        0 <= progress_measure(post, gain),
        progress_measure(post, gain) < progress_measure(pre, gain),
{
    let m = pre.max_stall_iterations as int;
    let remaining = pre.target_area - pre.occupied_area;
    assert(remaining > 0);
    lemma_div_pos_is_pos(remaining + gain - 1, gain);
    let units_pre = remaining_gain_units(pre, gain);
    assert(units_pre >= 1) by {
        lemma_div_plus_one(remaining - 1, gain);
        lemma_div_pos_is_pos(remaining - 1, gain);
    }
    assert(units_pre * (m + 1) >= 1 * (m + 1)) by {
        lemma_mul_inequality(1, units_pre, m + 1);
    }
    if stall_step(pre, post) {
        assert(remaining_gain_units(post, gain) == units_pre);
        assert(progress_measure(post, gain) == progress_measure(pre, gain) - 1);
    } else {
        let units_post = remaining_gain_units(post, gain);
        assert(units_post >= 0) by {
            if post.occupied_area < post.target_area {
                lemma_div_pos_is_pos(post.target_area - post.occupied_area + gain - 1, gain);
            }
        }
        assert(units_post <= units_pre - 1) by {
            lemma_div_plus_one(remaining - 1, gain);
            if post.occupied_area < post.target_area {
                // remaining area shrank by at least `gain`
                lemma_div_is_ordered(
                    post.target_area - post.occupied_area + gain - 1,
                    remaining - 1,
                    gain,
                );
            }
        }
        assert(units_post * (m + 1) <= (units_pre - 1) * (m + 1)) by {
            lemma_mul_inequality(units_post, units_pre - 1, m + 1);
        }
        assert((units_pre - 1) * (m + 1) == units_pre * (m + 1) - (m + 1)) by (nonlinear_arith);
        assert(units_post * (m + 1) >= 0) by {
            lemma_mul_inequality(0, units_post, m + 1);
        }
    }
}

/// Law: the driver is deterministic.  The state after a round is a
/// function of the state before it and of the engine's answer alone; two
/// runs fed the same answers in the same order pass through the same
/// states and produce the same outcome.
pub proof fn lemma_step_deterministic(
    pre: PackRun,
    post1: PackRun,
    post2: PackRun,
    new_occupied: int,
)
    requires
        (stall_step(pre, post1) && stall_step(pre, post2))
            || (accept_step(pre, post1, new_occupied) && accept_step(pre, post2, new_occupied)),
    ensures
        post1 == post2,
{
}

} // verus!
