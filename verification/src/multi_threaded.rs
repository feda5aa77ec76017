//! The verified per-particle pieces of the pool-driven engine.
//!
//! The concurrent engine hands one long-running job per particle to a worker
//! pool; the jobs contend for a single shared [`Optimum`] behind an exclusive
//! lock.  Threads and locks cannot be verified here, so the unverified runner
//! owns them and calls back into this module for every decision: seeding a
//! particle under the lock, moving a particle without the lock, and folding a
//! freshly evaluated merit into the particle's own best and the shared record
//! under the lock.  Each piece carries the full contract, so whatever order
//! the scheduler interleaves the jobs in, every update of the shared record
//! goes through [`Optimum::try_improve`] and keeps its guarantees.

use vstd::prelude::*;
use crate::{MeritFunction, Optimum, SearchSpace};
use crate::fixed::{fx_mul, SCALE};
use crate::particle::{Particle, velocities_updated};
use crate::rng::sample_range;

verus! {

/// Sample one particle seeded with the current swarm-best snapshot, evaluate
/// its starting position, and offer that merit to the shared record.  The
/// caller must hold the record exclusively for the whole call.
pub fn seed_particle<M: MeritFunction>(
    num_dimensions: usize,
    search_space: &SearchSpace,
    particle_weight: i64,
    merit_function: &M,
    optimum: &mut Optimum,
) -> (particle: Particle)
    requires
        search_space.wf(),
        search_space.lower().len() == num_dimensions,
        old(optimum).best_swarm_position@.len() == num_dimensions,
    ensures
        particle.wf(num_dimensions as int),
        particle.local_best_merit == i64::MAX,
        particle.local_best@ == particle.position@,
        particle.global_best@ == old(optimum).best_swarm_position@,
        particle.weight == particle_weight,
        forall|i: int| 0 <= i < num_dimensions
            ==> search_space.lower()[i] <= #[trigger] particle.position@[i]
                <= search_space.upper()[i],
        forall|i: int| 0 <= i < num_dimensions
            ==> -(search_space.upper()[i] - search_space.lower()[i])
                <= #[trigger] particle.velocity@[i]
                <= search_space.upper()[i] - search_space.lower()[i],
        final(optimum).best_swarm_merit <= old(optimum).best_swarm_merit,
        final(optimum).best_swarm_merit <= particle.local_best_merit,
        final(optimum).best_swarm_position@.len() == num_dimensions,
        *final(optimum) == *old(optimum)
            || (final(optimum).best_swarm_position@ == particle.position@
                && final(optimum).best_swarm_merit < old(optimum).best_swarm_merit),
{
    let particle = Particle::new(
        num_dimensions,
        search_space,
        &optimum.best_swarm_position,
        particle_weight,
    );
    let merit = merit_function.calculate(&particle.position);
    optimum.try_improve(&particle.position, merit);
    particle
}

/// One motion step of one particle, against a caller-provided snapshot of the
/// swarm-wide best position: refresh the cached snapshot, move by the current
/// velocity, update the velocity with fresh random coefficient draws, and
/// evaluate the merit of the new position.  Needs no access to the shared
/// record, so the caller holds no lock.
pub fn step_particle<M: MeritFunction>(
    particle: &mut Particle,
    global_best: &Vec<i64>,
    cognitive_coeff: i64,
    social_coeff: i64,
    merit_function: &M,
) -> (merit: i64)
    requires
        old(particle).consistent(),
        global_best@.len() == old(particle).position@.len(),
    ensures
        final(particle).consistent(),
        final(particle).position@.len() == old(particle).position@.len(),
        final(particle).local_best_merit == old(particle).local_best_merit,
        final(particle).local_best@ == old(particle).local_best@,
        final(particle).global_best@ == global_best@,
        final(particle).weight == old(particle).weight,
        forall|i: int| 0 <= i < old(particle).position@.len()
            ==> (#[trigger] final(particle).position@[i]) as int
                == crate::fixed::fx_add_spec(
                    old(particle).position@[i] as int,
                    old(particle).velocity@[i] as int,
                ),
        exists|rp: i64, rg: i64| 0 <= rp < SCALE && 0 <= rg < SCALE
            && velocities_updated(
                *old(particle), *final(particle), global_best@,
                cognitive_coeff, social_coeff, rp, rg,
            ),
{
    let ghost prev = *particle;

    particle.refresh_global_best(global_best);
    particle.update_position();

    let rp = sample_range(0, SCALE);
    let rg = sample_range(0, SCALE);
    particle.update_velocity(fx_mul(rp, cognitive_coeff), fx_mul(rg, social_coeff));

    proof {
        assert(velocities_updated(
            prev, *particle, global_best@, cognitive_coeff, social_coeff, rp, rg,
        ));
    }

    merit_function.calculate(&particle.position)
}

/// Whether a freshly evaluated merit beats the particle's own best so far —
/// exactly the test under which [`record_improvement`] touches the shared
/// record, so a runner may skip taking the lock when this is false.
pub fn improves_local_best(particle: &Particle, merit: i64) -> (improves: bool)
    ensures
        improves == (merit < particle.local_best_merit),
{
    merit < particle.local_best_merit
}

/// Fold a freshly evaluated merit into the particle's own best and, through
/// it, into the shared record.  The caller must hold the record exclusively
/// for the whole call.  The shared best merit never increases, and if it was
/// no worse than this particle's own best before the call, it still is after.
pub fn record_improvement(
    particle: &mut Particle,
    merit: i64,
    optimum: &mut Optimum,
) -> (improved: bool)
    ensures
        improved == (merit < old(particle).local_best_merit),
        final(particle).position@ == old(particle).position@,
        final(particle).velocity@ == old(particle).velocity@,
        final(particle).global_best@ == old(particle).global_best@,
        final(particle).weight == old(particle).weight,
        final(particle).local_best_merit <= old(particle).local_best_merit,
        improved ==> final(particle).local_best_merit == merit
            && final(particle).local_best@ == old(particle).position@,
        !improved ==> *final(particle) == *old(particle),
        final(optimum).best_swarm_merit <= old(optimum).best_swarm_merit,
        improved && merit < old(optimum).best_swarm_merit
            ==> final(optimum).best_swarm_merit == merit
                && final(optimum).best_swarm_position@ == old(particle).position@,
        !(improved && merit < old(optimum).best_swarm_merit) ==> *final(optimum) == *old(optimum),
        old(optimum).best_swarm_merit <= old(particle).local_best_merit
            ==> final(optimum).best_swarm_merit <= final(particle).local_best_merit,
{
    if merit < particle.local_best_merit {
        particle.local_best_merit = merit;
        particle.set_local_best_position();
        optimum.try_improve(&particle.position, merit);
        true
    } else {
        false
    }
}

} // verus!
