use colliding_particles::collision::count_collisions;
use colliding_particles::movement::{move_particles_with_samples, random_move_particles};
use colliding_particles::particle::{Particle, ENCLOSURE_H, ENCLOSURE_W};
use colliding_particles::partition::partition_chunks;
use colliding_particles::shared::SharedParticleSystem;
use colliding_particles::system::ParticleSystem;

#[test]
fn construction_starts_at_origin() {
    let system = ParticleSystem::new(4);
    assert_eq!(system.len(), 4);
    let snapshot = system.snapshot();
    assert_eq!(snapshot.len(), 4);
    for p in &snapshot {
        assert_eq!(*p, Particle { x: 0, y: 0 });
    }
}

#[test]
fn construction_of_empty_system() {
    let system = ParticleSystem::new(0);
    assert_eq!(system.len(), 0);
    assert_eq!(system.snapshot().len(), 0);
}

#[test]
fn collision_check_is_symmetric() {
    let a = Particle { x: 5, y: 5 };
    let b = Particle { x: 50, y: 90 };
    assert_eq!(a.perform_collision_check(&b), b.perform_collision_check(&a));
    assert!(a.perform_collision_check(&b));
    let far = Particle { x: 5000, y: 5000 };
    assert_eq!(
        a.perform_collision_check(&far),
        far.perform_collision_check(&a)
    );
    assert!(!a.perform_collision_check(&far));
}

#[test]
fn collision_check_with_itself() {
    let a = Particle { x: 1234, y: 9876 };
    assert!(a.perform_collision_check(&a));
}

#[test]
fn collision_check_at_exact_threshold_is_false() {
    // Squared distance exactly 10_000 (= 0.01 square length units):
    // the comparison is strict, so this is not a collision.
    let a = Particle { x: 0, y: 0 };
    let b = Particle { x: 100, y: 0 };
    assert!(!a.perform_collision_check(&b));
    // One coordinate unit closer, squared distance 9_801: a collision.
    let c = Particle { x: 99, y: 0 };
    assert!(a.perform_collision_check(&c));
}

#[test]
fn movement_with_fixed_samples_is_reproducible() {
    let samples = vec![(10_000u32, 20_001u32), (123u32, 456u32), (4_294_967_295u32, 0u32)];

    let mut first = vec![Particle { x: 0, y: 0 }; 3];
    move_particles_with_samples(&mut first, &samples);

    let mut second = vec![Particle { x: 7, y: 7 }; 3];
    move_particles_with_samples(&mut second, &samples);

    assert_eq!(first, second);
    assert_eq!(first[0], Particle { x: 0, y: 1 });
    assert_eq!(first[1], Particle { x: 123, y: 456 });
    assert_eq!(first[2], Particle { x: 7295, y: 0 });
    for p in &first {
        assert!(p.x < ENCLOSURE_W && p.y < ENCLOSURE_H);
    }
}

#[test]
fn random_movement_stays_in_enclosure() {
    let mut particles = vec![Particle { x: 0, y: 0 }; 50];
    random_move_particles(&mut particles);
    assert_eq!(particles.len(), 50);
    for p in &particles {
        assert!(p.x < ENCLOSURE_W);
        assert!(p.y < ENCLOSURE_H);
    }
}

#[test]
fn partition_of_100_into_10_excludes_the_last_index() {
    let chunks = partition_chunks(100, 10);
    assert_eq!(
        chunks,
        vec![
            (0, 10),
            (10, 10),
            (20, 10),
            (30, 10),
            (40, 10),
            (50, 10),
            (60, 10),
            (70, 10),
            (80, 10),
            // The clamp bound is one less than the particle count, so the
            // final chunk stops at index 98 and index 99 is never moved.
            (90, 9),
        ]
    );
}

#[test]
fn partition_of_4_into_2_excludes_the_last_index() {
    let chunks = partition_chunks(4, 2);
    assert_eq!(chunks, vec![(0, 2), (2, 1)]);
}

#[test]
fn collision_count_of_synthetic_snapshot() {
    let particles = vec![
        Particle { x: 0, y: 0 },
        Particle { x: 50, y: 0 },
        Particle { x: 5000, y: 5000 },
    ];
    // Only the pair (0, 1) is closer than the collision radius.
    assert_eq!(count_collisions(&particles), 1);
}

#[test]
fn collision_count_counts_every_unordered_pair_once() {
    // Four particles at the origin: all 6 unordered pairs overlap.
    let system = ParticleSystem::new(4);
    assert_eq!(count_collisions(&system.snapshot()), 6);
}

#[test]
fn read_and_write_range() {
    let mut system = ParticleSystem::new(5);
    let replacement = vec![Particle { x: 1, y: 2 }, Particle { x: 3, y: 4 }];
    system.write_range(1, &replacement);

    assert_eq!(system.read_range(1, 2), replacement);
    assert_eq!(system.read_range(0, 1), vec![Particle { x: 0, y: 0 }]);
    assert_eq!(
        system.read_range(3, 2),
        vec![Particle { x: 0, y: 0 }, Particle { x: 0, y: 0 }]
    );

    let snapshot = system.snapshot();
    assert_eq!(snapshot.len(), 5);
    assert_eq!(snapshot[1], Particle { x: 1, y: 2 });
    assert_eq!(snapshot[2], Particle { x: 3, y: 4 });
}

#[test]
fn dump_lists_index_and_coordinates() {
    let mut system = ParticleSystem::new(1);
    system.write_range(0, &vec![Particle { x: 123, y: 45 }]);
    let bytes = system.debug_dump_bytes();
    assert_eq!(String::from_utf8(bytes).unwrap(), "0 : x 123 y 45 |\n----\n");
}

#[test]
fn dump_groups_entries_five_per_line() {
    // The fifth entry (index 4) closes its line, so the sixth entry
    // starts a new line: no line carries more than five entries.
    let system = ParticleSystem::new(6);
    let bytes = system.debug_dump_bytes();
    assert_eq!(
        String::from_utf8(bytes).unwrap(),
        "0 : x 0 y 0 |1 : x 0 y 0 |2 : x 0 y 0 |3 : x 0 y 0 |4 : x 0 y 0\n5 : x 0 y 0 |\n----\n"
    );
}

#[test]
fn shared_handle_keeps_population_and_contents() {
    let shared = SharedParticleSystem::new(10);
    assert_eq!(shared.len(), 10);

    let snapshot = shared.snapshot();
    assert_eq!(snapshot.len(), 10);
    for p in &snapshot {
        assert_eq!(*p, Particle { x: 0, y: 0 });
    }

    let replacement = vec![Particle { x: 10, y: 20 }, Particle { x: 30, y: 40 }];
    shared.write_range(4, &replacement);
    assert_eq!(shared.read_range(4, 2), replacement);
    assert_eq!(shared.read_range(0, 1), vec![Particle { x: 0, y: 0 }]);
    assert_eq!(shared.len(), 10);
}

#[test]
fn shared_handle_is_usable_across_threads() {
    // Two writers on disjoint ranges and a concurrent reader: every
    // snapshot holds the full population, never a torn particle, since
    // a whole range is replaced per write under the lock.
    let shared = std::sync::Arc::new(SharedParticleSystem::new(8));
    let pool = threadpool::ThreadPool::new(3);

    for (start, value) in [(0usize, 7u32), (4usize, 9u32)] {
        let handle = std::sync::Arc::clone(&shared);
        pool.execute(move || {
            for _ in 0..1000 {
                let values = vec![Particle { x: value, y: value }; 4];
                handle.write_range(start, &values);
            }
        });
    }
    let reader = std::sync::Arc::clone(&shared);
    pool.execute(move || {
        for _ in 0..1000 {
            let snapshot = reader.snapshot();
            assert_eq!(snapshot.len(), 8);
            for p in &snapshot {
                assert_eq!(p.x, p.y);
                assert!(p.x == 0 || p.x == 7 || p.x == 9);
            }
        }
    });
    pool.join();
    assert_eq!(pool.panic_count(), 0);

    let final_snapshot = shared.snapshot();
    assert_eq!(final_snapshot.len(), 8);
}

#[test]
fn untouched_system_reports_all_pairs_at_origin() {
    // A run whose deadline expires before any mover iteration completes
    // leaves every particle at the origin: the scan still reports a
    // count, and the dump lists every particle unchanged.
    let system = ParticleSystem::new(4);
    let snapshot = system.snapshot();
    let count = count_collisions(&snapshot);
    assert_eq!(count, 6);
    let dump = String::from_utf8(system.debug_dump_bytes()).unwrap();
    assert_eq!(dump.matches("x 0 y 0").count(), 4);
    assert!(dump.ends_with("\n----\n"));
}
