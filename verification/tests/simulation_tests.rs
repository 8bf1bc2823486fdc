use shard_sim::index::Index;
use shard_sim::simulation::SimulationBuilder;
use shard_sim::simulation::SimulationError;
use shard_sim::timing::Duration;

#[test]
fn simulation_it_works() {
    let simulation = SimulationBuilder::default()
        .with_index(Index::new_from_shards(0, &[20_000_000], 768))
        // 0.171326754 ns per element, expressed exactly in attoseconds.
        .with_search_cost(
            Duration::from_attos(171_326_754),
            Duration::from_nanos(10),
        )
        .with_scatter_gather_cost(Duration::from_micros(200), Duration::from_micros(200))
        .build();

    let _ = simulation.simulate_find(0);
}

#[test]
fn single_shard() {
    let shard_assignment = vec![
        (768, vec![20_000_000]),
        (768, vec![10_000_000; 2]),
        (768, vec![5_000_000; 4]),
        (
            768,
            vec![
                3_000_000, 3_000_000, 3_000_000, 3_000_000, 3_000_000, 3_000_000, 2_000_000,
            ],
        ),
        (768, vec![1_000_000; 20]),
        // Double the vector, half the elements
        (1536, vec![10_000_000]),
        (1536, vec![5_000_000; 2]),
        (1536, vec![2_000_000; 5]),
        (1536, vec![1_000_000; 10]),
        // Half the vector, double the elements
        (384, vec![40_000_000]),
        (384, vec![20_000_000; 2]),
        (384, vec![10_000_000; 4]),
        (384, vec![2_000_000; 20]),
        (384, vec![1_000_000; 40]),
    ];

    for (dims, assignment) in shard_assignment {
        let simulation = SimulationBuilder::default()
            .with_index(Index::new_from_shards(0, &assignment, dims))
            .with_search_cost(
                Duration::from_attos(171_326_754),
                Duration::from_nanos(10),
            )
            .with_scatter_gather_cost(Duration::from_millis(20), Duration::from_millis(0))
            .build();

        let duration = simulation.simulate_find(0).unwrap();
        let count: usize = assignment.iter().sum();
        let weight: usize = count * dims;
        println!(
            "weight={}, num vectors={}, dims={}, num shards={}, duration={}",
            weight,
            count,
            dims,
            assignment.len(),
            duration.as_nanos()
        );
    }
}

#[test]
fn hundred_vectors_cost_hundred_nanos() {
    let simulation = SimulationBuilder::default()
        .with_index(Index::new_from_shards(0, &[100], 512))
        .with_search_cost(Duration::zero(), Duration::from_nanos(1))
        .with_scatter_gather_cost(Duration::zero(), Duration::zero())
        .with_threads(1, Duration::zero())
        .build();

    let duration = simulation.simulate_find(0).unwrap();
    assert_eq!(duration, Duration::from_nanos(100));
    assert_eq!(duration.as_nanos(), 100);
}

#[test]
fn simulate_find_is_deterministic() {
    let simulation = SimulationBuilder::default()
        .with_index(Index::new_from_shards(0, &[1_000, 2_000, 3_000], 784))
        .with_search_cost(Duration::from_attos(123_456), Duration::from_nanos(7))
        .with_scatter_gather_cost(Duration::from_micros(9), Duration::from_micros(11))
        .with_threads(3, Duration::from_micros(2))
        .build();

    let first = simulation.simulate_find(0).unwrap();
    let second = simulation.simulate_find(0).unwrap();
    assert_eq!(first, second);
    assert_eq!(first.as_attos(), second.as_attos());
}

#[test]
fn single_thread_matches_serial_formula() {
    // Two shards of 50 and 75 vectors, 512 elements each; costs in attos.
    let per_element: u128 = 1_000;
    let per_vector: u128 = 500;
    let per_scatter: u128 = 7;
    let per_gather: u128 = 5;
    let simulation = SimulationBuilder::default()
        .with_index(Index::new_from_shards(0, &[50, 75], 512))
        .with_search_cost(
            Duration::from_attos(per_element),
            Duration::from_attos(per_vector),
        )
        .with_scatter_gather_cost(
            Duration::from_attos(per_scatter),
            Duration::from_attos(per_gather),
        )
        .with_threads(1, Duration::zero())
        .build();

    let per_vector_time = per_element * 512 + per_vector;
    let slowest_shard = per_vector_time * 75;
    let expected = slowest_shard + per_scatter * 2 + per_gather * 2;
    assert_eq!(simulation.simulate_find(0).unwrap().as_attos(), expected);
}

#[test]
fn threads_divide_scan_and_add_overhead() {
    let simulation = SimulationBuilder::default()
        .with_index(Index::new_from_shards(0, &[100], 512))
        .with_search_cost(Duration::zero(), Duration::from_nanos(1))
        .with_threads(4, Duration::from_attos(100))
        .build();

    // 100 vectors at 1 ns each: 100 ns serial, divided over 4 threads,
    // plus 4 threads at 100 attos of overhead each.
    let expected: u128 = 100_000_000_000 / 4 + 4 * 100;
    assert_eq!(simulation.simulate_find(0).unwrap().as_attos(), expected);
}

#[test]
fn unknown_index_is_reported() {
    let simulation = SimulationBuilder::default()
        .with_index(Index::new(0, 10, 16))
        .build();
    assert_eq!(
        simulation.simulate_find(42).unwrap_err(),
        SimulationError::IndexNotFound { index_id: 42 }
    );
}

#[test]
fn later_index_overwrites_earlier() {
    let simulation = SimulationBuilder::default()
        .with_index(Index::new(0, 100, 512))
        .with_index(Index::new(1, 50, 512))
        .with_index(Index::new(0, 7, 512))
        .with_search_cost(Duration::zero(), Duration::from_nanos(1))
        .build();

    assert_eq!(simulation.index_ids(), vec![0, 1]);
    assert_eq!(simulation.simulate_find(0).unwrap().as_nanos(), 7);
    assert_eq!(simulation.index(0).unwrap().len(), 7);
    assert_eq!(simulation.index(1).unwrap().len(), 50);
}

#[test]
fn builder_defaults_to_one_thread() {
    let simulation = SimulationBuilder::default().build();
    assert_eq!(simulation.thread_count(), 1);
    assert_eq!(simulation.index_ids(), Vec::<usize>::new());
}

#[test]
fn search_phase_is_slowest_shard() {
    // One big shard and one small shard: only the big one bounds the
    // search phase; the small one contributes scatter/gather alone.
    let simulation = SimulationBuilder::default()
        .with_index(Index::new_from_shards(0, &[1_000, 10], 100))
        .with_search_cost(Duration::zero(), Duration::from_nanos(2))
        .with_scatter_gather_cost(Duration::from_nanos(3), Duration::from_nanos(4))
        .build();

    let expected_nanos: u128 = 2 * 1_000 + 3 * 2 + 4 * 2;
    assert_eq!(
        simulation.simulate_find(0).unwrap().as_nanos(),
        expected_nanos
    );
}
