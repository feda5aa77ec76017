//! A particle swarm optimisation engine over a saturating fixed-point model.
//!
//! A swarm of particles explores an `N`-dimensional search space looking for
//! the lowest value ("merit") of a caller-supplied objective function.  Every
//! coordinate and merit value is an `i64` fixed-point number (see [`fixed`]),
//! so the whole update rule and the shared-optimum protocol are verified.
//! Randomness comes from a uniform generator consumed through a narrow
//! trusted boundary.

use vstd::prelude::*;

pub mod fixed;
pub mod multi_threaded;
pub mod particle;
pub mod single_threaded;
mod rng;

verus! {

/// The per-dimension lower and upper bounds of the search space.
///
/// Positions are sampled within `[lower[i], upper[i]]` and initial velocities
/// within `[-(upper[i] - lower[i]), upper[i] - lower[i]]`, so a well-formed
/// space has `lower[i] <= upper[i]` with the width representable.
pub struct SearchSpace {
    lower: Vec<i64>,
    upper: Vec<i64>,
}

impl SearchSpace {
    pub closed spec fn lower(self) -> Seq<i64> {
        self.lower@
    }

    pub closed spec fn upper(self) -> Seq<i64> {
        self.upper@
    }

    pub open spec fn wf(self) -> bool {
        &&& self.lower().len() == self.upper().len()
        &&& forall|i: int| 0 <= i < self.lower().len() ==> self.lower()[i] <= self.upper()[i]
        &&& forall|i: int| 0 <= i < self.lower().len()
            ==> self.upper()[i] - self.lower()[i] <= i64::MAX
    }

    pub fn new(lower: Vec<i64>, upper: Vec<i64>) -> (space: SearchSpace)
        ensures
            space.lower() == lower@,
            space.upper() == upper@,
    {
        SearchSpace { lower, upper }
    }

    /// The number of dimensions this space has bounds for.
    pub fn dimensions(&self) -> (n: usize)
        ensures
            n == self.lower().len(),
    {
        self.lower.len()
    }

    /// Whether the bounds are usable: one pair per dimension, no lower bound
    /// above its upper bound, and every width representable.  Callers that
    /// cannot discharge [`SearchSpace::wf`] statically can test it here and
    /// fail fast.
    pub fn is_well_formed(&self) -> (ok: bool)
        ensures
            ok == self.wf(),
    {
        if self.lower.len() != self.upper.len() {
            return false;
        }
        let n = self.lower.len();
        let mut i: usize = 0;
        while i < n
            invariant
                i <= n,
                n == self.lower().len(),
                n == self.upper().len(),
                forall|j: int| 0 <= j < i ==> self.lower()[j] <= self.upper()[j],
                forall|j: int| 0 <= j < i ==> self.upper()[j] - self.lower()[j] <= i64::MAX,
            decreases n - i,
        {
            let lower = self.lower[i];
            let upper = self.upper[i];
            if lower > upper {
                return false;
            }
            if (upper as i128) - (lower as i128) > i64::MAX as i128 {
                return false;
            }
            i = i + 1;
        }
        true
    }
}

/// The swarm-wide best record: the lowest merit seen so far and the position
/// it was seen at.  `i64::MAX` as the merit means "no solution yet".
pub struct Optimum {
    pub best_swarm_merit: i64,
    pub best_swarm_position: Vec<i64>,
}

impl Optimum {
    pub open spec fn wf(self, num_dimensions: int) -> bool {
        self.best_swarm_position@.len() == num_dimensions
    }

    pub fn new(num_dimensions: usize) -> (optimum: Optimum)
        ensures
            optimum.best_swarm_merit == i64::MAX,
            optimum.best_swarm_position@.len() == num_dimensions,
            forall|i: int| 0 <= i < num_dimensions ==> optimum.best_swarm_position@[i] == 0,
    {
        let best_swarm_merit = i64::MAX;
        let mut best_swarm_position: Vec<i64> = Vec::with_capacity(num_dimensions);
        let mut i: usize = 0;
        while i < num_dimensions
            invariant
                i <= num_dimensions,
                best_swarm_position@.len() == i,
                forall|j: int| 0 <= j < i ==> best_swarm_position@[j] == 0,
            decreases num_dimensions - i,
        {
            best_swarm_position.push(0);
            i = i + 1;
        }
        Optimum { best_swarm_merit, best_swarm_position }
    }

    /// Record `candidate_merit` at `candidate_position` if it beats the best
    /// merit seen so far; otherwise leave the record untouched.  The best
    /// merit never increases.
    pub fn try_improve(&mut self, candidate_position: &Vec<i64>, candidate_merit: i64) -> (improved: bool)
        ensures
            improved == (candidate_merit < old(self).best_swarm_merit),
            final(self).best_swarm_merit <= old(self).best_swarm_merit,
            improved ==> final(self).best_swarm_merit == candidate_merit
                && final(self).best_swarm_position@ == candidate_position@,
            !improved ==> *final(self) == *old(self),
    {
        if candidate_merit < self.best_swarm_merit {
            self.best_swarm_merit = candidate_merit;
            self.best_swarm_position = copy_values(candidate_position);
            true
        } else {
            false
        }
    }

    /// A copy of the pair, decoupled from future mutation.  The position and
    /// the merit are read together, so a caller never pairs one candidate's
    /// position with another's merit.
    pub fn snapshot(&self) -> (snap: (Vec<i64>, i64))
        ensures
            snap.0@ == self.best_swarm_position@,
            snap.1 == self.best_swarm_merit,
    {
        (copy_values(&self.best_swarm_position), self.best_swarm_merit)
    }
}

/// An element-wise copy of a vector of fixed-point values.
pub fn copy_values(values: &Vec<i64>) -> (copy: Vec<i64>)
    ensures
        copy@ == values@,
{
    let mut copy: Vec<i64> = Vec::with_capacity(values.len());
    let mut i: usize = 0;
    while i < values.len()
        invariant
            i <= values@.len(),
            copy@ == values@.subrange(0, i as int),
        decreases values@.len() - i,
    {
        copy.push(values[i]);
        assert(copy@ == values@.subrange(0, i + 1 as int));
        i = i + 1;
    }
    assert(values@.subrange(0, values@.len() as int) == values@);
    copy
}

/// The scalar objective: lower results are better.  Implementations are
/// supplied by the caller; nothing is assumed of the result.
pub trait MeritFunction {
    fn calculate(&self, data: &Vec<i64>) -> i64;
}

/// The caller-supplied stopping condition, evaluated against the swarm-wide
/// best merit.
pub trait Termination {
    fn should_stop(&self, merit: i64) -> bool;
}

/// Everything one single-threaded optimisation run needs: the iteration and
/// swarm sizes, the search space, the update-rule coefficients, and the
/// caller's merit function and termination predicate.
pub struct PSConfigSingleThread<M, T> {
    num_iters: u32,
    num_particles: usize,
    num_dimensions: usize,
    search_space: SearchSpace,
    particle_weight: i64,
    cognitive_coeff: i64,
    social_coeff: i64,
    merit: M,
    termination: T,
}

impl<M, T> PSConfigSingleThread<M, T> {
    pub closed spec fn num_iters(self) -> u32 {
        self.num_iters
    }

    pub closed spec fn num_particles(self) -> usize {
        self.num_particles
    }

    pub closed spec fn num_dimensions(self) -> usize {
        self.num_dimensions
    }

    pub closed spec fn search_space(self) -> SearchSpace {
        self.search_space
    }

    pub closed spec fn particle_weight(self) -> i64 {
        self.particle_weight
    }

    pub closed spec fn cognitive_coeff(self) -> i64 {
        self.cognitive_coeff
    }

    pub closed spec fn social_coeff(self) -> i64 {
        self.social_coeff
    }

    pub closed spec fn merit(self) -> M {
        self.merit
    }

    pub closed spec fn termination(self) -> T {
        self.termination
    }

    /// The search space is valid and has one bound pair per dimension.
    pub open spec fn wf(self) -> bool {
        &&& self.search_space().wf()
        &&& self.search_space().lower().len() == self.num_dimensions()
    }

    pub fn new(
        num_iters: u32,
        num_particles: usize,
        num_dimensions: usize,
        search_space: SearchSpace,
        particle_weight: i64,
        cognitive_coeff: i64,
        social_coeff: i64,
        merit: M,
        termination: T,
    ) -> (config: PSConfigSingleThread<M, T>)
        ensures
            config.num_iters() == num_iters,
            config.num_particles() == num_particles,
            config.num_dimensions() == num_dimensions,
            config.search_space() == search_space,
            config.particle_weight() == particle_weight,
            config.cognitive_coeff() == cognitive_coeff,
            config.social_coeff() == social_coeff,
            config.merit() == merit,
            config.termination() == termination,
    {
        PSConfigSingleThread {
            num_iters,
            num_particles,
            num_dimensions,
            search_space,
            particle_weight,
            cognitive_coeff,
            social_coeff,
            merit,
            termination,
        }
    }
}

/// A run that could not produce a result.  The single-threaded engine never
/// constructs one; the type exists so that callers of the engine see the same
/// fallible shape everywhere.
#[derive(Debug)]
pub struct RunError {}

/// Run the swarm on the calling thread until the iteration budget is spent or
/// the termination predicate fires.
pub fn run_singlethreaded<M: MeritFunction, T: Termination>(
    config: PSConfigSingleThread<M, T>,
) -> (result: Result<Optimum, RunError>)
    requires
        config.wf(),
    ensures
        result is Ok,
        result matches Ok(optimum) ==> optimum.best_swarm_position@.len() == config.num_dimensions(),
{
    single_threaded::run(config)
}

} // verus!
