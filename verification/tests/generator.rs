use snowflake_ids::generator::{ClockError, ConfigError, SnowflakeGenerator, Step};
use snowflake_ids::layout::{compose, MAX_TIMESTAMP};

fn generator(worker_id: u8, data_center_id: u8, now: u128) -> SnowflakeGenerator {
    match SnowflakeGenerator::new_at(worker_id, data_center_id, now) {
        Ok(generator) => generator,
        Err(error) => panic!("node address refused: {:?}", error),
    }
}

fn issued(result: Result<Step, ClockError>) -> u128 {
    match result {
        Ok(Step::Issued(id)) => id,
        other => panic!("no identifier: {:?}", other),
    }
}

fn timestamp_of(id: u128) -> u128 {
    id >> 22
}

fn data_center_id_of(id: u128) -> u128 {
    (id >> 17) & 0x1f
}

fn worker_id_of(id: u128) -> u128 {
    (id >> 12) & 0x1f
}

fn sequence_of(id: u128) -> u128 {
    id & 0xfff
}

#[test]
fn end_to_end_example() {
    let mut g = generator(3, 7, 999);
    let first = issued(g.next_id_at(1000));
    assert_eq!(sequence_of(first), 0);
    assert_eq!(first, (1000 << 22) | (7 << 17) | (3 << 12));
    assert_eq!(first, 4195233792);
    let second = issued(g.next_id_at(1000));
    assert_eq!(sequence_of(second), 1);
    assert_eq!(second, 4195233793);
    assert!(second > first);
    assert_eq!(timestamp_of(first), 1000);
    assert_eq!(timestamp_of(second), 1000);
    assert_eq!(worker_id_of(first), 3);
    assert_eq!(data_center_id_of(first), 7);
}

#[test]
fn first_identifier_in_the_millisecond_of_construction_has_sequence_one() {
    let mut g = generator(3, 7, 1000);
    assert_eq!(g.sequence(), 0);
    let first = issued(g.next_id_at(1000));
    assert_eq!(sequence_of(first), 1);
    assert_eq!(timestamp_of(first), 1000);
}

#[test]
fn compose_packs_by_the_layout() {
    assert_eq!(compose(0, 0, 0, 0), 0);
    assert_eq!(compose(0, 0, 0, 1), 1);
    assert_eq!(compose(0, 0, 1, 0), 4096);
    assert_eq!(compose(0, 1, 0, 0), 131072);
    assert_eq!(compose(1, 0, 0, 0), 4194304);
    assert_eq!(compose(1, 31, 31, 4095), 2 * 4194304 - 1);
    assert_eq!(compose(1000, 7, 3, 5), 4195233797);
    assert_eq!(compose(MAX_TIMESTAMP, 31, 31, 4095), u128::MAX);
}

#[test]
fn largest_timestamp_is_two_to_the_106_less_one() {
    assert_eq!(MAX_TIMESTAMP, (1u128 << 106) - 1);
}

#[test]
fn node_address_bounds() {
    assert!(SnowflakeGenerator::new_at(31, 31, 0).is_ok());
    assert!(SnowflakeGenerator::new_at(0, 0, 0).is_ok());
    assert_eq!(
        SnowflakeGenerator::new_at(32, 0, 0).err(),
        Some(ConfigError::WorkerIdOutOfRange { worker_id: 32 })
    );
    assert_eq!(
        SnowflakeGenerator::new_at(0, 32, 0).err(),
        Some(ConfigError::DataCenterIdOutOfRange { data_center_id: 32 })
    );
    assert_eq!(
        SnowflakeGenerator::new_at(255, 255, 0).err(),
        Some(ConfigError::WorkerIdOutOfRange { worker_id: 255 })
    );
}

#[test]
fn node_address_bounds_with_the_system_clock() {
    assert!(SnowflakeGenerator::new(31, 31).is_ok());
    assert_eq!(
        SnowflakeGenerator::new(40, 1).err(),
        Some(ConfigError::WorkerIdOutOfRange { worker_id: 40 })
    );
    assert_eq!(
        SnowflakeGenerator::new(1, 40).err(),
        Some(ConfigError::DataCenterIdOutOfRange { data_center_id: 40 })
    );
}

#[test]
fn a_new_generator_holds_what_it_was_made_with() {
    let g = generator(3, 7, 1234);
    assert_eq!(g.worker_id(), 3);
    assert_eq!(g.data_center_id(), 7);
    assert_eq!(g.last_time_millis(), 1234);
    assert_eq!(g.sequence(), 0);
}

#[test]
fn sequence_restarts_when_the_clock_advances() {
    let mut g = generator(1, 2, 0);
    let a = issued(g.next_id_at(5));
    let b = issued(g.next_id_at(5));
    let c = issued(g.next_id_at(5));
    let d = issued(g.next_id_at(6));
    assert_eq!(sequence_of(a), 0);
    assert_eq!(sequence_of(b), 1);
    assert_eq!(sequence_of(c), 2);
    assert_eq!(sequence_of(d), 0);
    assert_eq!(timestamp_of(d), 6);
    assert_eq!(g.last_time_millis(), 6);
    assert_eq!(g.sequence(), 0);
    assert!(a < b && b < c && c < d);
}

#[test]
fn rollback_is_detected() {
    let mut g = generator(3, 7, 0);
    let _ = issued(g.next_id_at(1000));
    assert_eq!(g.next_id_at(999), Err(ClockError { moved_back_by: 1 }));
    assert_eq!(g.last_time_millis(), 1000);
    assert_eq!(g.sequence(), 0);
}

#[test]
fn rollback_reports_the_distance() {
    let mut g = generator(3, 7, 1000);
    assert_eq!(g.next_id_at(400), Err(ClockError { moved_back_by: 600 }));
}

#[test]
fn nothing_is_issued_after_a_rollback() {
    let mut g = generator(3, 7, 0);
    let _ = issued(g.next_id_at(1000));
    assert_eq!(g.next_id_at(990), Err(ClockError { moved_back_by: 10 }));
    assert_eq!(g.next_id_at(1000), Err(ClockError { moved_back_by: 10 }));
    assert_eq!(g.next_id_at(5000), Err(ClockError { moved_back_by: 10 }));
    assert_eq!(g.next_id_at(0), Err(ClockError { moved_back_by: 10 }));
    assert_eq!(g.last_time_millis(), 1000);
}

#[test]
fn at_most_4096_identifiers_in_one_millisecond() {
    let mut g = generator(3, 7, 999);
    let mut count: u32 = 0;
    let mut last: Option<u128> = None;
    for _ in 0..5000 {
        match g.next_id_at(1000) {
            Ok(Step::Issued(id)) => {
                assert_eq!(sequence_of(id), count as u128);
                if let Some(previous) = last {
                    assert!(id > previous);
                }
                last = Some(id);
                count += 1;
            }
            Ok(Step::Wait) => assert_eq!(count, 4096),
            Err(error) => panic!("clock error: {:?}", error),
        }
    }
    assert_eq!(count, 4096);
    assert_eq!(g.sequence(), 4095);
    let next = issued(g.next_id_at(1001));
    assert_eq!(sequence_of(next), 0);
    assert_eq!(timestamp_of(next), 1001);
    assert!(next > last.unwrap());
}

#[test]
fn the_millisecond_of_construction_has_room_for_4095() {
    let mut g = generator(0, 0, 1000);
    let mut count: u32 = 0;
    for _ in 0..5000 {
        if let Ok(Step::Issued(_)) = g.next_id_at(1000) {
            count += 1;
        }
    }
    assert_eq!(count, 4095);
}

#[test]
fn a_saturated_generator_waits_until_the_clock_has_passed() {
    let mut g = generator(3, 7, 999);
    for _ in 0..4096 {
        let _ = issued(g.next_id_at(1000));
    }
    assert_eq!(g.next_id_at(1000), Ok(Step::Wait));
    assert_eq!(g.next_id_at(1000), Ok(Step::Wait));
    assert_eq!(g.next_id_at(998), Ok(Step::Wait));
    let next = issued(g.next_id_at(1002));
    assert_eq!(next, compose(1002, 7, 3, 0));
    assert_eq!(g.next_id_at(1001), Err(ClockError { moved_back_by: 1 }));
}

#[test]
fn identifiers_are_distinct_and_increasing() {
    let mut g = generator(9, 21, 0);
    let clock: [u128; 12] = [1, 1, 1, 2, 2, 3, 10, 10, 10, 10, 11, 500];
    let mut ids: Vec<u128> = Vec::new();
    for round in 0..400u128 {
        for now in clock.iter() {
            ids.push(issued(g.next_id_at(round * 1000 + *now)));
        }
    }
    assert_eq!(ids.len(), 4800);
    for pair in ids.windows(2) {
        assert!(pair[0] < pair[1]);
    }
    let mut sorted = ids.clone();
    sorted.sort();
    sorted.dedup();
    assert_eq!(sorted, ids);
}

#[test]
fn every_identifier_carries_its_node_address() {
    for worker_id in 0..32u8 {
        for data_center_id in 0..32u8 {
            let mut g = generator(worker_id, data_center_id, 0);
            for now in [1u128, 1, 2, 77, 77, 77, 1 << 40] {
                let id = issued(g.next_id_at(now));
                assert_eq!(worker_id_of(id), worker_id as u128);
                assert_eq!(data_center_id_of(id), data_center_id as u128);
                assert_eq!(timestamp_of(id), now);
                assert_eq!(sequence_of(id), g.sequence() as u128);
            }
        }
    }
}

#[test]
fn generators_of_different_nodes_do_not_collide() {
    let mut a = generator(3, 7, 0);
    let mut b = generator(7, 3, 0);
    let mut c = generator(3, 8, 0);
    let mut ids: Vec<u128> = Vec::new();
    for now in 1..200u128 {
        for _ in 0..5 {
            ids.push(issued(a.next_id_at(now)));
            ids.push(issued(b.next_id_at(now)));
            ids.push(issued(c.next_id_at(now)));
        }
    }
    let total = ids.len();
    ids.sort();
    ids.dedup();
    assert_eq!(ids.len(), total);
}

#[test]
fn callers_taking_turns_get_distinct_identifiers() {
    let contexts: usize = 8;
    let per_context: usize = 1000;
    let mut g = generator(5, 6, 0);
    let mut received: Vec<Vec<u128>> = vec![Vec::new(); contexts];
    let mut now: u128 = 1;
    let mut turn: u64 = 12345;
    while received.iter().any(|ids| ids.len() < per_context) {
        turn = turn.wrapping_mul(6364136223846793005).wrapping_add(1442695040888963407);
        let context = ((turn >> 33) % contexts as u64) as usize;
        if received[context].len() == per_context {
            continue;
        }
        match g.next_id_at(now) {
            Ok(Step::Issued(id)) => received[context].push(id),
            Ok(Step::Wait) => now += 1,
            Err(error) => panic!("clock error: {:?}", error),
        }
    }
    let mut all: Vec<u128> = received.concat();
    assert_eq!(all.len(), contexts * per_context);
    all.sort();
    for pair in all.windows(2) {
        assert!(pair[0] < pair[1]);
    }
    for ids in received.iter() {
        for pair in ids.windows(2) {
            assert!(pair[0] < pair[1]);
        }
    }
}

#[test]
fn the_largest_timestamp_is_accepted() {
    let mut g = generator(31, 31, MAX_TIMESTAMP - 1);
    let id = issued(g.next_id_at(MAX_TIMESTAMP));
    assert_eq!(timestamp_of(id), MAX_TIMESTAMP);
    assert_eq!(sequence_of(id), 0);
    assert_eq!(id, u128::MAX - 4095);
    for _ in 0..4095 {
        let _ = issued(g.next_id_at(MAX_TIMESTAMP));
    }
    assert_eq!(g.next_id_at(MAX_TIMESTAMP), Ok(Step::Wait));
}

#[test]
fn identifiers_from_the_system_clock_increase() {
    let mut g = match SnowflakeGenerator::new(3, 7) {
        Ok(g) => g,
        Err(error) => panic!("node address refused: {:?}", error),
    };
    assert!(g.last_time_millis() <= MAX_TIMESTAMP);
    let mut ids: Vec<u128> = Vec::new();
    while ids.len() < 10000 {
        match g.next_id() {
            Ok(Step::Issued(id)) => ids.push(id),
            Ok(Step::Wait) => {}
            Err(error) => panic!("clock error: {:?}", error),
        }
    }
    for pair in ids.windows(2) {
        assert!(pair[0] < pair[1]);
    }
    for id in ids.iter() {
        assert_eq!(worker_id_of(*id), 3);
        assert_eq!(data_center_id_of(*id), 7);
    }
    assert_eq!(timestamp_of(ids[ids.len() - 1]), g.last_time_millis());
}
