//! One candidate solution: a position, a velocity, and the particle's own
//! best find so far, together with a cached snapshot of the swarm-wide best.

use vstd::prelude::*;
use crate::SearchSpace;
use crate::copy_values;
use crate::fixed::{fx_add, fx_sub, fx_mul, fx_add_spec, fx_sub_spec, fx_mul_spec};
use crate::rng::sample_range;

verus! {

/// The canonical velocity update on one coordinate, in saturating fixed
/// point: an inertia share of the old velocity, a pull toward the particle's
/// own best position, and a pull toward the swarm-wide best position.
pub open spec fn velocity_update_spec(
    weight: int,
    velocity: int,
    cognitive_coeff: int,
    local_best: int,
    position: int,
    social_coeff: int,
    global_best: int,
) -> int {
    fx_add_spec(
        fx_add_spec(
            fx_mul_spec(weight, velocity),
            fx_mul_spec(cognitive_coeff, fx_sub_spec(local_best, position)),
        ),
        fx_mul_spec(social_coeff, fx_sub_spec(global_best, position)),
    )
}

/// Relates a particle `prev` to a particle `next` that arose from it by one
/// full motion step against the swarm-best snapshot `global_best`: the
/// position moved by the old velocity, and every velocity coordinate was then
/// updated with the effective coefficients `rp * cognitive_coeff` and
/// `rg * social_coeff`, where `rp` and `rg` are the two random draws shared
/// by all coordinates.
pub open spec fn velocities_updated(
    prev: Particle,
    next: Particle,
    global_best: Seq<i64>,
    cognitive_coeff: i64,
    social_coeff: i64,
    rp: i64,
    rg: i64,
) -> bool {
    forall|i: int| 0 <= i < prev.velocity@.len()
        ==> (#[trigger] next.velocity@[i]) as int == velocity_update_spec(
            prev.weight as int,
            prev.velocity@[i] as int,
            fx_mul_spec(rp as int, cognitive_coeff as int),
            prev.local_best@[i] as int,
            fx_add_spec(prev.position@[i] as int, prev.velocity@[i] as int),
            fx_mul_spec(rg as int, social_coeff as int),
            global_best[i] as int,
        )
}

/// A member of the swarm.  The particle owns its position, velocity and
/// local-best data exclusively; `global_best` is a copy of the swarm-wide
/// best position as of the particle's last synchronisation, never a live
/// alias.
pub struct Particle {
    pub position: Vec<i64>,
    pub local_best_merit: i64,
    pub velocity: Vec<i64>,
    pub local_best: Vec<i64>,
    pub global_best: Vec<i64>,
    pub weight: i64,
}

impl Particle {
    /// The shape invariant: position, velocity and both best-position
    /// snapshots all have exactly one coordinate per dimension.
    pub open spec fn wf(self, num_dimensions: int) -> bool {
        &&& self.position@.len() == num_dimensions
        &&& self.velocity@.len() == num_dimensions
        &&& self.local_best@.len() == num_dimensions
        &&& self.global_best@.len() == num_dimensions
    }

    /// The shape invariant, with the particle's own position length as the
    /// dimensionality.
    pub open spec fn consistent(self) -> bool {
        self.wf(self.position@.len() as int)
    }

    /// Sample a fresh particle: each position coordinate uniformly within
    /// `[lower[i], upper[i]]` and each velocity coordinate uniformly within
    /// `[-(upper[i] - lower[i]), upper[i] - lower[i]]`; the particle's own
    /// best starts at its initial position with no merit recorded yet.  A
    /// dimension with `lower[i] == upper[i]` admits only that one coordinate,
    /// with a zero velocity.
    pub fn new(
        num_dimensions: usize,
        search_space: &SearchSpace,
        global_best: &Vec<i64>,
        weight: i64,
    ) -> (particle: Particle)
        requires
            search_space.wf(),
            search_space.lower().len() == num_dimensions,
            global_best@.len() == num_dimensions,
        ensures
            particle.wf(num_dimensions as int),
            particle.local_best_merit == i64::MAX,
            particle.local_best@ == particle.position@,
            particle.global_best@ == global_best@,
            particle.weight == weight,
            forall|i: int| 0 <= i < num_dimensions
                ==> search_space.lower()[i] <= #[trigger] particle.position@[i]
                    <= search_space.upper()[i],
            forall|i: int| 0 <= i < num_dimensions
                ==> -(search_space.upper()[i] - search_space.lower()[i])
                    <= #[trigger] particle.velocity@[i]
                    <= search_space.upper()[i] - search_space.lower()[i],
    {
        let mut position: Vec<i64> = Vec::with_capacity(num_dimensions);
        let mut velocity: Vec<i64> = Vec::with_capacity(num_dimensions);

        let mut i: usize = 0;
        while i < num_dimensions
            invariant
                i <= num_dimensions,
                search_space.wf(),
                search_space.lower().len() == num_dimensions,
                position@.len() == i,
                velocity@.len() == i,
                forall|j: int| 0 <= j < i
                    ==> search_space.lower()[j] <= #[trigger] position@[j]
                        <= search_space.upper()[j],
                forall|j: int| 0 <= j < i
                    ==> -(search_space.upper()[j] - search_space.lower()[j])
                        <= #[trigger] velocity@[j]
                        <= search_space.upper()[j] - search_space.lower()[j],
            decreases num_dimensions - i,
        {
            let x_lower: i64 = search_space.lower[i];
            let x_upper: i64 = search_space.upper[i];
            let xi = if x_lower < x_upper {
                sample_range(x_lower, x_upper)
            } else {
                x_lower
            };
            position.push(xi);

            let width: i64 = x_upper - x_lower;
            let vi = if width > 0 {
                sample_range(-width, width)
            } else {
                0
            };
            velocity.push(vi);

            i = i + 1;
        }

        let local_best = copy_values(&position);
        let global_best = copy_values(global_best);
        let local_best_merit = i64::MAX;

        Particle { position, local_best_merit, velocity, local_best, global_best, weight }
    }

    /// Move every coordinate by the current velocity.  Positions are not
    /// clamped to the search space: a particle may wander outside it.
    pub fn update_position(&mut self)
        requires
            old(self).consistent(),
        ensures
            final(self).consistent(),
            final(self).position@.len() == old(self).position@.len(),
            forall|i: int| 0 <= i < old(self).position@.len()
                ==> final(self).position@[i] as int
                    == fx_add_spec(old(self).position@[i] as int, old(self).velocity@[i] as int),
            final(self).velocity@ == old(self).velocity@,
            final(self).local_best@ == old(self).local_best@,
            final(self).global_best@ == old(self).global_best@,
            final(self).weight == old(self).weight,
            final(self).local_best_merit == old(self).local_best_merit,
    {
        let n = self.position.len();
        let mut i: usize = 0;
        while i < n
            invariant
                i <= n,
                n == old(self).position@.len(),
                self.position@.len() == n,
                self.velocity == old(self).velocity,
                self.local_best == old(self).local_best,
                self.global_best == old(self).global_best,
                self.weight == old(self).weight,
                self.local_best_merit == old(self).local_best_merit,
                self.velocity@.len() == n,
                forall|j: int| 0 <= j < i
                    ==> self.position@[j] as int
                        == fx_add_spec(old(self).position@[j] as int, old(self).velocity@[j] as int),
                forall|j: int| i <= j < n ==> self.position@[j] == old(self).position@[j],
            decreases n - i,
        {
            let next = fx_add(self.position[i], self.velocity[i]);
            self.position.set(i, next);
            i = i + 1;
        }
    }

    /// Apply the canonical velocity update rule on every coordinate, with
    /// the given (already randomised) cognitive and social coefficients.
    pub fn update_velocity(&mut self, cognitive_coeff: i64, social_coeff: i64)
        requires
            old(self).consistent(),
        ensures
            final(self).consistent(),
            final(self).velocity@.len() == old(self).velocity@.len(),
            forall|i: int| 0 <= i < old(self).velocity@.len()
                ==> final(self).velocity@[i] as int == velocity_update_spec(
                    old(self).weight as int,
                    old(self).velocity@[i] as int,
                    cognitive_coeff as int,
                    old(self).local_best@[i] as int,
                    old(self).position@[i] as int,
                    social_coeff as int,
                    old(self).global_best@[i] as int,
                ),
            final(self).position@ == old(self).position@,
            final(self).local_best@ == old(self).local_best@,
            final(self).global_best@ == old(self).global_best@,
            final(self).weight == old(self).weight,
            final(self).local_best_merit == old(self).local_best_merit,
    {
        let n = self.velocity.len();
        let mut i: usize = 0;
        while i < n
            invariant
                i <= n,
                n == old(self).velocity@.len(),
                self.position == old(self).position,
                self.local_best == old(self).local_best,
                self.global_best == old(self).global_best,
                self.weight == old(self).weight,
                self.local_best_merit == old(self).local_best_merit,
                self.position@.len() == n,
                self.local_best@.len() == n,
                self.global_best@.len() == n,
                self.velocity@.len() == n,
                forall|j: int| 0 <= j < i
                    ==> self.velocity@[j] as int == velocity_update_spec(
                        old(self).weight as int,
                        old(self).velocity@[j] as int,
                        cognitive_coeff as int,
                        old(self).local_best@[j] as int,
                        old(self).position@[j] as int,
                        social_coeff as int,
                        old(self).global_best@[j] as int,
                    ),
                forall|j: int| i <= j < n ==> self.velocity@[j] == old(self).velocity@[j],
            decreases n - i,
        {
            let inertia = fx_mul(self.weight, self.velocity[i]);
            let cognitive = fx_mul(cognitive_coeff, fx_sub(self.local_best[i], self.position[i]));
            let social = fx_mul(social_coeff, fx_sub(self.global_best[i], self.position[i]));
            self.velocity.set(i, fx_add(fx_add(inertia, cognitive), social));
            i = i + 1;
        }
    }

    /// Copy the current position into the particle's own best position.
    /// Called only after the caller has confirmed that the current position's
    /// merit improves on `local_best_merit`.
    pub fn set_local_best_position(&mut self)
        ensures
            final(self).local_best@ == old(self).position@,
            final(self).position@ == old(self).position@,
            final(self).velocity@ == old(self).velocity@,
            final(self).global_best@ == old(self).global_best@,
            final(self).weight == old(self).weight,
            final(self).local_best_merit == old(self).local_best_merit,
    {
        self.local_best = copy_values(&self.position);
    }

    /// Overwrite the cached swarm-wide best position with a fresh snapshot —
    /// the only way a particle learns about progress made by others.
    pub fn refresh_global_best(&mut self, position: &Vec<i64>)
        ensures
            final(self).global_best@ == position@,
            final(self).position@ == old(self).position@,
            final(self).velocity@ == old(self).velocity@,
            final(self).local_best@ == old(self).local_best@,
            final(self).weight == old(self).weight,
            final(self).local_best_merit == old(self).local_best_merit,
    {
        self.global_best = copy_values(position);
    }

    /// Shape invariant: a well-formed particle always has exactly one
    /// position coordinate and one velocity coordinate per dimension.
    /// [`Particle::new`] establishes `wf`, and every particle operation and
    /// engine function re-ensures it, so the law holds of every particle the
    /// library ever hands out.
    pub proof fn lemma_shape_invariant(self, num_dimensions: int)
        requires
            self.wf(num_dimensions),
        ensures
            self.position@.len() == num_dimensions,
            self.velocity@.len() == num_dimensions,
            self.position@.len() == self.velocity@.len(),
    {
    }
}

} // verus!
