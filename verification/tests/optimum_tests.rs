use particle_swarm::Optimum;

#[test]
fn new_optimum_has_no_solution() {
    let optimum = Optimum::new(3);
    assert_eq!(optimum.best_swarm_merit, i64::MAX);
    assert_eq!(optimum.best_swarm_position.len(), 3);
    assert_eq!(optimum.best_swarm_position, vec![0, 0, 0]);
}

#[test]
fn try_improve_records_a_better_merit() {
    let mut optimum = Optimum::new(2);
    let improved = optimum.try_improve(&vec![100, -200], 5_000_000);
    assert!(improved);
    assert_eq!(optimum.best_swarm_merit, 5_000_000);
    assert_eq!(optimum.best_swarm_position, vec![100, -200]);
}

#[test]
fn try_improve_ignores_a_worse_merit() {
    let mut optimum = Optimum::new(2);
    optimum.try_improve(&vec![100, -200], 5_000_000);
    let improved = optimum.try_improve(&vec![7, 7], 5_000_000);
    assert!(!improved);
    assert_eq!(optimum.best_swarm_merit, 5_000_000);
    assert_eq!(optimum.best_swarm_position, vec![100, -200]);
}

#[test]
fn snapshot_copies_the_pair() {
    let mut optimum = Optimum::new(1);
    optimum.try_improve(&vec![42], 1_250_000);
    let (position, merit) = optimum.snapshot();
    assert_eq!(position, vec![42]);
    assert_eq!(merit, 1_250_000);
}

#[test]
fn snapshots_never_increase() {
    let mut optimum = Optimum::new(1);
    let offers: Vec<i64> = vec![9_000_000, 4_000_000, 6_000_000, 4_000_000, 1_000_000];
    let mut observed: Vec<i64> = vec![optimum.snapshot().1];
    for (i, merit) in offers.iter().enumerate() {
        optimum.try_improve(&vec![i as i64], *merit);
        observed.push(optimum.snapshot().1);
    }
    for pair in observed.windows(2) {
        assert!(pair[1] <= pair[0]);
    }
}
