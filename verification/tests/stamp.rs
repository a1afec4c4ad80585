use epics_ca::db_access::EpicsTimeStamp;
use epics_ca::dbr::{from_raw_stamp, UnixTime, EPICS_EPOCH_SECS, NANOS_PER_SEC};
use std::time::{Duration, UNIX_EPOCH};

fn as_system_time(time: UnixTime) -> std::time::SystemTime {
    UNIX_EPOCH + Duration::new(time.secs, time.nanos)
}

#[test]
fn zero_stamp_is_the_epoch_of_the_bus() {
    let time = from_raw_stamp(&EpicsTimeStamp { secs: 0, nsec: 0 });
    assert_eq!(time, UnixTime { secs: 631152000, nanos: 0 });
    assert_eq!(EPICS_EPOCH_SECS, 631152000);
    assert_eq!(NANOS_PER_SEC, 1_000_000_000);
}

#[test]
fn stamp_conversion_is_exact() {
    let time = from_raw_stamp(&EpicsTimeStamp { secs: 1_000_000_000, nsec: 123_456_789 });
    assert_eq!(time, UnixTime { secs: 1_631_152_000, nanos: 123_456_789 });
}

#[test]
fn stamp_conversion_grows_with_the_seconds() {
    let mut last = from_raw_stamp(&EpicsTimeStamp { secs: 0, nsec: 999_999_999 });
    for secs in [1u32, 2, 10, 1_000_000, u32::MAX - 1, u32::MAX] {
        let next = from_raw_stamp(&EpicsTimeStamp { secs, nsec: 999_999_999 });
        assert!((next.secs, next.nanos) > (last.secs, last.nanos));
        assert_eq!(next.nanos, last.nanos);
        last = next;
    }
}

#[test]
fn nanoseconds_of_a_second_or_more_carry() {
    let time = from_raw_stamp(&EpicsTimeStamp { secs: 5, nsec: 1_500_000_000 });
    assert_eq!(time, UnixTime { secs: 631152006, nanos: 500_000_000 });
    let time = from_raw_stamp(&EpicsTimeStamp { secs: u32::MAX, nsec: u32::MAX });
    assert_eq!(time, UnixTime { secs: 631152000 + 4294967295 + 4, nanos: 294_967_295 });
}

#[test]
fn stamp_agrees_with_the_system_clock_arithmetic() {
    for (secs, nsec) in [(0u32, 0u32), (1, 1), (86400, 999_999_999), (7, 3_000_000_001)] {
        let expected = UNIX_EPOCH
            .checked_add(Duration::new(631152000, 0))
            .unwrap()
            .checked_add(Duration::new(secs as u64, nsec))
            .unwrap();
        assert_eq!(as_system_time(from_raw_stamp(&EpicsTimeStamp { secs, nsec })), expected);
    }
}
