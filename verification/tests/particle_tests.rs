use particle_swarm::SearchSpace;
use particle_swarm::fixed::SCALE;
use particle_swarm::particle::Particle;

#[test]
fn initialise_particle() {
    let num_dimensions = 3;
    let lower = vec![0; 3];
    let upper = vec![SCALE; 3];
    let search_space = SearchSpace::new(lower, upper);
    let best_swarm_position: Vec<i64> = vec![0, 0, 0];
    let weight = SCALE;
    let particle = Particle::new(num_dimensions, &search_space, &best_swarm_position, weight);
    let expected = 3;
    assert_eq!(expected, particle.position.len());
}

#[test]
fn update_pos_works() {
    let num_dimensions = 3;
    let lower = vec![0; 3];
    let upper = vec![SCALE; 3];
    let search_space = SearchSpace::new(lower, upper);
    let best_swarm_position: Vec<i64> = vec![0, 0, 0];
    let weight = SCALE;
    let mut particle = Particle::new(num_dimensions, &search_space, &best_swarm_position, weight);
    let expected = 3;

    particle.update_position();

    assert_eq!(expected, particle.position.len());
}

#[test]
fn update_vel_works() {
    let num_dimensions = 3;
    let lower = vec![0; 3];
    let upper = vec![SCALE; 3];
    let search_space = SearchSpace::new(lower, upper);
    let best_swarm_position: Vec<i64> = vec![0, 0, 0];
    let weight = SCALE;
    let mut particle = Particle::new(num_dimensions, &search_space, &best_swarm_position, weight);
    let expected = 3;
    let cognitive_coeff = 8 * SCALE / 10;
    let social_coeff = 7 * SCALE / 10;

    particle.update_velocity(cognitive_coeff, social_coeff);
    particle.update_position();

    assert_eq!(expected, particle.position.len());
}

#[test]
fn new_particle_within_bounds() {
    let lower = vec![-5 * SCALE, 0, 3];
    let upper = vec![5 * SCALE, 7, 4 * SCALE];
    let search_space = SearchSpace::new(lower.clone(), upper.clone());
    let best: Vec<i64> = vec![0, 0, 0];
    for _ in 0..100 {
        let particle = Particle::new(3, &search_space, &best, SCALE / 2);
        for i in 0..3 {
            assert!(lower[i] <= particle.position[i]);
            assert!(particle.position[i] < upper[i]);
            let width = upper[i] - lower[i];
            assert!(-width <= particle.velocity[i]);
            assert!(particle.velocity[i] < width);
        }
    }
}

#[test]
fn new_particle_pins_a_unit_range() {
    // with a range one step wide the only admissible coordinate is its lower bound
    let search_space = SearchSpace::new(vec![5], vec![6]);
    let best: Vec<i64> = vec![0];
    let particle = Particle::new(1, &search_space, &best, SCALE);
    assert_eq!(particle.position, vec![5]);
    assert_eq!(particle.local_best, vec![5]);
    assert_eq!(particle.local_best_merit, i64::MAX);
    assert_eq!(particle.global_best, vec![0]);
}

#[test]
fn new_particle_on_degenerate_bounds_sits_still() {
    // a dimension whose bounds coincide pins the coordinate and zeroes the velocity
    let search_space = SearchSpace::new(vec![7, -SCALE], vec![7, SCALE]);
    let best: Vec<i64> = vec![0, 0];
    let particle = Particle::new(2, &search_space, &best, SCALE);
    assert_eq!(particle.position[0], 7);
    assert_eq!(particle.velocity[0], 0);
    assert!(-SCALE <= particle.position[1] && particle.position[1] <= SCALE);
}

#[test]
fn particle_shapes_agree() {
    let search_space = SearchSpace::new(vec![-SCALE; 4], vec![SCALE; 4]);
    let best: Vec<i64> = vec![0; 4];
    let mut particle = Particle::new(4, &search_space, &best, SCALE / 2);
    for _ in 0..5 {
        particle.update_position();
        particle.update_velocity(SCALE, SCALE);
        assert_eq!(particle.position.len(), 4);
        assert_eq!(particle.velocity.len(), 4);
        assert_eq!(particle.local_best.len(), 4);
        assert_eq!(particle.global_best.len(), 4);
    }
}

#[test]
fn update_position_moves_by_velocity() {
    let mut particle = Particle {
        position: vec![1_000, -2_000],
        local_best_merit: i64::MAX,
        velocity: vec![500, 250],
        local_best: vec![1_000, -2_000],
        global_best: vec![0, 0],
        weight: SCALE / 2,
    };
    particle.update_position();
    assert_eq!(particle.position, vec![1_500, -1_750]);
    assert_eq!(particle.velocity, vec![500, 250]);
}

#[test]
fn update_velocity_keeps_only_inertia_at_rest() {
    // local best and global best both equal the position, so the cognitive
    // and social pulls vanish and only the inertia share remains
    let mut particle = Particle {
        position: vec![2_000],
        local_best_merit: i64::MAX,
        velocity: vec![1_000],
        local_best: vec![2_000],
        global_best: vec![2_000],
        weight: SCALE / 2,
    };
    particle.update_velocity(SCALE, SCALE);
    assert_eq!(particle.velocity, vec![500]);
}

#[test]
fn update_velocity_pulls_toward_the_bests() {
    // zero inertia and full pulls: the new velocity is exactly
    // cognitive_coeff * (local_best - position) + social_coeff * (global_best - position)
    let mut particle = Particle {
        position: vec![0],
        local_best_merit: i64::MAX,
        velocity: vec![9_999],
        local_best: vec![4_000],
        global_best: vec![-10_000],
        weight: 0,
    };
    particle.update_velocity(SCALE / 2, SCALE / 4);
    assert_eq!(particle.velocity, vec![2_000 - 2_500]);
}

#[test]
fn set_local_best_position_copies_position() {
    let mut particle = Particle {
        position: vec![123, 456],
        local_best_merit: 5 * SCALE,
        velocity: vec![0, 0],
        local_best: vec![0, 0],
        global_best: vec![0, 0],
        weight: SCALE,
    };
    particle.set_local_best_position();
    assert_eq!(particle.local_best, vec![123, 456]);
    assert_eq!(particle.position, vec![123, 456]);
}

#[test]
fn refresh_global_best_overwrites_the_snapshot() {
    let mut particle = Particle {
        position: vec![123],
        local_best_merit: i64::MAX,
        velocity: vec![0],
        local_best: vec![123],
        global_best: vec![0],
        weight: SCALE,
    };
    particle.refresh_global_best(&vec![-777]);
    assert_eq!(particle.global_best, vec![-777]);
    assert_eq!(particle.position, vec![123]);
}
