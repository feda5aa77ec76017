//! The single-threaded engine: the whole swarm update loop on the calling
//! thread, with direct access to the shared record and no locking.
//!
//! When one particle's view of the termination predicate says stop, the whole
//! run stops before the next particle update — a single explicit policy in
//! place of per-job early exit.

use vstd::prelude::*;
use crate::{MeritFunction, Termination, Optimum, PSConfigSingleThread, RunError};
use crate::fixed::{fx_mul, SCALE};
use crate::particle::{Particle, velocities_updated};
use crate::rng::sample_range;

verus! {

/// One full update of one particle: refresh the cached swarm-best snapshot,
/// move, update the velocity with fresh random coefficient draws, evaluate
/// the merit of the new position, and record it in the particle's own best
/// and the shared record where it improves on them.
///
/// The shared best merit never increases, and if it was no worse than this
/// particle's own best before the call, it still is after.
pub fn iterate<M: MeritFunction>(
    particle: &mut Particle,
    cognitive_coeff: i64,
    social_coeff: i64,
    merit_function: &M,
    optimum: &mut Optimum,
)
    requires
        old(particle).consistent(),
        old(optimum).best_swarm_position@.len() == old(particle).position@.len(),
    ensures
        final(particle).consistent(),
        final(particle).position@.len() == old(particle).position@.len(),
        final(particle).local_best_merit <= old(particle).local_best_merit,
        final(particle).local_best_merit != old(particle).local_best_merit
            ==> final(particle).local_best@ == final(particle).position@,
        final(particle).local_best_merit == old(particle).local_best_merit
            ==> final(particle).local_best@ == old(particle).local_best@,
        forall|i: int| 0 <= i < old(particle).position@.len()
            ==> (#[trigger] final(particle).position@[i]) as int
                == crate::fixed::fx_add_spec(
                    old(particle).position@[i] as int,
                    old(particle).velocity@[i] as int,
                ),
        exists|rp: i64, rg: i64| 0 <= rp < SCALE && 0 <= rg < SCALE
            && velocities_updated(
                *old(particle), *final(particle), old(optimum).best_swarm_position@,
                cognitive_coeff, social_coeff, rp, rg,
            ),
        final(optimum).best_swarm_merit <= old(optimum).best_swarm_merit,
        final(optimum).best_swarm_merit == old(optimum).best_swarm_merit
            ==> final(optimum).best_swarm_position@ == old(optimum).best_swarm_position@,
        final(optimum).best_swarm_position@.len() == old(optimum).best_swarm_position@.len(),
        old(optimum).best_swarm_merit <= old(particle).local_best_merit
            ==> final(optimum).best_swarm_merit <= final(particle).local_best_merit,
        final(optimum).best_swarm_merit == old(optimum).best_swarm_merit
            || (final(optimum).best_swarm_merit == final(particle).local_best_merit
                && final(optimum).best_swarm_position@ == final(particle).position@),
{
    let ghost prev = *particle;

    particle.refresh_global_best(&optimum.best_swarm_position);
    particle.update_position();

    let rp = sample_range(0, SCALE);
    let rg = sample_range(0, SCALE);
    particle.update_velocity(fx_mul(rp, cognitive_coeff), fx_mul(rg, social_coeff));

    proof {
        assert(velocities_updated(
            prev, *particle, old(optimum).best_swarm_position@,
            cognitive_coeff, social_coeff, rp, rg,
        ));
    }

    let ghost moved = *particle;

    let merit = merit_function.calculate(&particle.position);

    if merit < particle.local_best_merit {
        particle.local_best_merit = merit;
        particle.set_local_best_position();
        optimum.try_improve(&particle.position, merit);
    }

    proof {
        assert(particle.velocity@ == moved.velocity@);
        assert(velocities_updated(
            prev, *particle, old(optimum).best_swarm_position@,
            cognitive_coeff, social_coeff, rp, rg,
        ));
    }
}

/// Build the swarm: sample each particle seeded with the swarm-best snapshot
/// of the moment, evaluate its starting position, and offer that merit to the
/// shared record.  Afterwards the shared best merit is no worse than any
/// particle's own best.
pub fn initialise<M: MeritFunction, T: Termination>(
    config: &PSConfigSingleThread<M, T>,
    optimum: &mut Optimum,
) -> (swarm: Vec<Particle>)
    requires
        config.wf(),
        old(optimum).best_swarm_position@.len() == config.num_dimensions(),
    ensures
        swarm@.len() == config.num_particles(),
        forall|k: int| 0 <= k < swarm@.len()
            ==> (#[trigger] swarm@[k]).wf(config.num_dimensions() as int),
        forall|k: int| 0 <= k < swarm@.len()
            ==> (#[trigger] swarm@[k]).local_best_merit == i64::MAX,
        forall|k: int| 0 <= k < swarm@.len()
            ==> (#[trigger] swarm@[k]).local_best@ == swarm@[k].position@,
        forall|k: int| 0 <= k < swarm@.len()
            ==> (#[trigger] swarm@[k]).weight == config.particle_weight(),
        forall|k: int, i: int| 0 <= k < swarm@.len() && 0 <= i < config.num_dimensions()
            ==> config.search_space().lower()[i] <= #[trigger] swarm@[k].position@[i]
                <= config.search_space().upper()[i],
        forall|k: int, i: int| 0 <= k < swarm@.len() && 0 <= i < config.num_dimensions()
            ==> -(config.search_space().upper()[i] - config.search_space().lower()[i])
                <= #[trigger] swarm@[k].velocity@[i]
                <= config.search_space().upper()[i] - config.search_space().lower()[i],
        forall|k: int| 0 <= k < swarm@.len()
            ==> final(optimum).best_swarm_merit <= (#[trigger] swarm@[k]).local_best_merit,
        final(optimum).best_swarm_merit <= old(optimum).best_swarm_merit,
        final(optimum).best_swarm_position@.len() == config.num_dimensions(),
{
    let num_particles = config.num_particles;
    let mut swarm: Vec<Particle> = Vec::with_capacity(num_particles);

    let mut i: usize = 0;
    while i < num_particles
        invariant
            i <= num_particles,
            config.wf(),
            swarm@.len() == i,
            optimum.best_swarm_position@.len() == config.num_dimensions(),
            optimum.best_swarm_merit <= old(optimum).best_swarm_merit,
            forall|k: int| 0 <= k < i
                ==> (#[trigger] swarm@[k]).wf(config.num_dimensions() as int),
            forall|k: int| 0 <= k < i
                ==> (#[trigger] swarm@[k]).local_best_merit == i64::MAX,
            forall|k: int| 0 <= k < i
                ==> (#[trigger] swarm@[k]).local_best@ == swarm@[k].position@,
            forall|k: int| 0 <= k < i
                ==> (#[trigger] swarm@[k]).weight == config.particle_weight(),
            forall|k: int, j: int| 0 <= k < i && 0 <= j < config.num_dimensions()
                ==> config.search_space().lower()[j] <= #[trigger] swarm@[k].position@[j]
                    <= config.search_space().upper()[j],
            forall|k: int, j: int| 0 <= k < i && 0 <= j < config.num_dimensions()
                ==> -(config.search_space().upper()[j] - config.search_space().lower()[j])
                    <= #[trigger] swarm@[k].velocity@[j]
                    <= config.search_space().upper()[j] - config.search_space().lower()[j],
            forall|k: int| 0 <= k < i
                ==> optimum.best_swarm_merit <= (#[trigger] swarm@[k]).local_best_merit,
        decreases num_particles - i,
    {
        let particle = Particle::new(
            config.num_dimensions,
            &config.search_space,
            &optimum.best_swarm_position,
            config.particle_weight,
        );

        let merit = config.merit.calculate(&particle.position);

        optimum.try_improve(&particle.position, merit);
        swarm.push(particle);
        i = i + 1;
    }
    swarm
}

/// Run the full swarm loop and return the final shared record together with
/// the swarm itself.
///
/// No lost updates: the returned best merit is no worse than any returned
/// particle's own best merit — no particle's finding is dropped on the way
/// into the shared record.
pub fn run_swarm<M: MeritFunction, T: Termination>(
    config: &PSConfigSingleThread<M, T>,
) -> (result: (Optimum, Vec<Particle>))
    requires
        config.wf(),
    ensures
        result.0.best_swarm_position@.len() == config.num_dimensions(),
        result.1@.len() == config.num_particles(),
        forall|k: int| 0 <= k < result.1@.len()
            ==> (#[trigger] result.1@[k]).wf(config.num_dimensions() as int),
        forall|k: int| 0 <= k < result.1@.len()
            ==> result.0.best_swarm_merit <= (#[trigger] result.1@[k]).local_best_merit,
{
    let mut optimum = Optimum::new(config.num_dimensions);

    let mut swarm = initialise(config, &mut optimum);

    let num_iters = config.num_iters;
    let num_particles = swarm.len();
    let mut stopped = false;

    let mut it: u32 = 0;
    while it < num_iters && !stopped
        invariant
            config.wf(),
            swarm@.len() == num_particles,
            num_particles == config.num_particles(),
            optimum.best_swarm_position@.len() == config.num_dimensions(),
            forall|k: int| 0 <= k < swarm@.len()
                ==> (#[trigger] swarm@[k]).wf(config.num_dimensions() as int),
            forall|k: int| 0 <= k < swarm@.len()
                ==> optimum.best_swarm_merit <= (#[trigger] swarm@[k]).local_best_merit,
        decreases num_iters - it,
    {
        let mut j: usize = 0;
        while j < num_particles && !stopped
            invariant
                config.wf(),
                j <= num_particles,
                swarm@.len() == num_particles,
                optimum.best_swarm_position@.len() == config.num_dimensions(),
                forall|k: int| 0 <= k < swarm@.len()
                    ==> (#[trigger] swarm@[k]).wf(config.num_dimensions() as int),
                forall|k: int| 0 <= k < swarm@.len()
                    ==> optimum.best_swarm_merit <= (#[trigger] swarm@[k]).local_best_merit,
            decreases num_particles - j,
        {
            let particle = &mut swarm[j];

            iterate(
                particle,
                config.cognitive_coeff,
                config.social_coeff,
                &config.merit,
                &mut optimum,
            );

            let merit = optimum.best_swarm_merit;

            if config.termination.should_stop(merit) {
                stopped = true;
            }
            j = j + 1;
        }
        it = it + 1;
    }

    (optimum, swarm)
}

/// Run the swarm on the calling thread and return the final shared record.
pub fn run<M: MeritFunction, T: Termination>(
    config: PSConfigSingleThread<M, T>,
) -> (result: Result<Optimum, RunError>)
    requires
        config.wf(),
    ensures
        result is Ok,
        result matches Ok(optimum)
            ==> optimum.best_swarm_position@.len() == config.num_dimensions(),
{
    let (optimum, _swarm) = run_swarm(&config);
    Ok(optimum)
}

} // verus!
