use snowflake_ids::clock::{timestamp_from_unix_millis, TIMESTAMP_OFFSET};
use snowflake_ids::generator::SnowflakeGenerator;
use snowflake_ids::layout::MAX_TIMESTAMP;
use std::time::{SystemTime, UNIX_EPOCH};

fn unix_millis() -> u128 {
    match SystemTime::now().duration_since(UNIX_EPOCH) {
        Ok(elapsed) => elapsed.as_millis(),
        Err(_) => 0,
    }
}

#[test]
fn the_epoch_is_the_first_of_january_2020() {
    assert_eq!(TIMESTAMP_OFFSET, 1577836800000);
    assert_eq!(TIMESTAMP_OFFSET, (50 * 365 + 12) * 24 * 60 * 60 * 1000);
}

#[test]
fn timestamps_count_from_the_epoch() {
    assert_eq!(timestamp_from_unix_millis(TIMESTAMP_OFFSET), 0);
    assert_eq!(timestamp_from_unix_millis(TIMESTAMP_OFFSET + 1), 1);
    assert_eq!(timestamp_from_unix_millis(1577836801000), 1000);
    assert_eq!(timestamp_from_unix_millis(1790000000000), 212163200000);
}

#[test]
fn a_clock_before_the_epoch_reads_as_zero() {
    assert_eq!(timestamp_from_unix_millis(0), 0);
    assert_eq!(timestamp_from_unix_millis(TIMESTAMP_OFFSET - 1), 0);
}

#[test]
fn timestamps_stop_at_the_largest() {
    assert_eq!(timestamp_from_unix_millis(u128::MAX), MAX_TIMESTAMP);
    assert_eq!(timestamp_from_unix_millis(TIMESTAMP_OFFSET + MAX_TIMESTAMP), MAX_TIMESTAMP);
    assert_eq!(timestamp_from_unix_millis(TIMESTAMP_OFFSET + MAX_TIMESTAMP + 1), MAX_TIMESTAMP);
    assert_eq!(
        timestamp_from_unix_millis(TIMESTAMP_OFFSET + MAX_TIMESTAMP - 1),
        MAX_TIMESTAMP - 1
    );
}

#[test]
fn the_current_timestamp_follows_the_system_clock() {
    let before = timestamp_from_unix_millis(unix_millis());
    let now = SnowflakeGenerator::get_current_timestamp();
    let after = timestamp_from_unix_millis(unix_millis());
    assert!(before <= now);
    assert!(now <= after);
    assert!(now > 0);
}

#[test]
fn a_generator_starts_at_the_current_timestamp() {
    let before = SnowflakeGenerator::get_current_timestamp();
    let g = SnowflakeGenerator::new(1, 1).unwrap();
    let after = SnowflakeGenerator::get_current_timestamp();
    assert!(before <= g.last_time_millis());
    assert!(g.last_time_millis() <= after);
    assert_eq!(g.sequence(), 0);
    assert_eq!(g.worker_id(), 1);
    assert_eq!(g.data_center_id(), 1);
}
