use modbot::clock::{now, timestamp_of};
use std::time::{SystemTime, UNIX_EPOCH};

#[test]
fn now_reads_the_system_clock() {
    let before = SystemTime::now().duration_since(UNIX_EPOCH).unwrap().as_secs() as i64;
    let t = now().expect("clock after 1970");
    let after = SystemTime::now().duration_since(UNIX_EPOCH).unwrap().as_secs() as i64;
    assert!(before <= t && t <= after);
}

#[test]
fn timestamps_cast_like_as() {
    assert_eq!(timestamp_of(0), 0);
    assert_eq!(timestamp_of(1_700_000_000), 1_700_000_000);
    assert_eq!(timestamp_of(u64::MAX), -1);
}
