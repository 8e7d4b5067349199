use std::time::Duration;
use twamp_rs::timestamp::{TimeStamp, NTP_EPOCH};

#[test]
fn mod_timestamp_from_duration() {
    let duration = Duration::from_nanos(1713088089243932687);
    let integer_part = duration.as_secs();
    let fractional_part = duration.subsec_nanos();
    let timestamp = TimeStamp::from_duration(duration);
    assert_eq!(timestamp.integer_part_of_seconds, (integer_part + NTP_EPOCH) as u32);
    assert_eq!(timestamp.fractional_part_of_seconds, fractional_part);
}

#[test]
fn timestamp_timestamp_from_duration() {
    let duration = Duration::from_nanos(1713088089243932687);
    let integer_part = duration.as_secs();
    let fractional_part = duration.subsec_nanos();
    let timestamp = TimeStamp::from_duration(duration);
    assert_eq!(timestamp.integer_part_of_seconds(), (integer_part + NTP_EPOCH) as u32);
    assert_eq!(timestamp.fractional_part_of_seconds(), fractional_part);
}

#[test]
fn subtraction_from_bigger_to_smaller() {
    let t1 = TimeStamp { integer_part_of_seconds: 10, fractional_part_of_seconds: 1_000_000_000 };
    let t2 = TimeStamp { integer_part_of_seconds: 8, fractional_part_of_seconds: 1_000_000_000 };
    let result = t1 - t2;
    assert_eq!(result, TimeStamp { integer_part_of_seconds: 2, fractional_part_of_seconds: 0 })
}

#[test]
fn addition() {
    let ts1 = TimeStamp { integer_part_of_seconds: 1, fractional_part_of_seconds: 3_000_000_000 };
    let ts2 = TimeStamp { integer_part_of_seconds: 2, fractional_part_of_seconds: 2_500_000_000 };
    let result = ts1 + ts2;
    assert_eq!(
        result,
        TimeStamp { integer_part_of_seconds: 4, fractional_part_of_seconds: 1_205_032_705 }
    )
}

#[test]
fn addition_without_carry() {
    let a = TimeStamp::new(5, 100);
    let b = TimeStamp::new(7, 250);
    assert_eq!(a + b, TimeStamp::new(12, 350));
}

#[test]
fn subtraction_with_borrow() {
    let a = TimeStamp::new(10, 100);
    let b = TimeStamp::new(3, 200);
    assert_eq!(a - b, TimeStamp::new(6, 0xffff_ffff - 100));
}

#[test]
fn add_then_subtract_gives_back_first_operand() {
    let a = TimeStamp::new(4_000_000_000, 999_999_999);
    let b = TimeStamp::new(500_000_000, 4_000_000_000);
    assert_eq!((a + b) - b, a);
    let c = TimeStamp::new(1, 2);
    let d = TimeStamp::new(3, 4);
    assert_eq!((c + d) - d, c);
}

#[test]
fn integer_seconds_wrap_at_two_to_the_32() {
    let a = TimeStamp::new(u32::MAX, 0);
    let b = TimeStamp::new(2, 0);
    assert_eq!(a + b, TimeStamp::new(1, 0));
    assert_eq!(TimeStamp::new(1, 0) - b, a);
}

#[test]
fn duration_since_epoch_is_recovered() {
    let d = TimeStamp::from_unix(1_713_088_089, 243_932_687);
    let zero = TimeStamp::from_unix(0, 0);
    assert_eq!(zero, TimeStamp::new(NTP_EPOCH as u32, 0));
    assert_eq!(d - zero, TimeStamp::new(1_713_088_089, 243_932_687));
}

#[test]
fn from_unix_wraps_seconds() {
    let t = TimeStamp::from_unix(u64::MAX, 5);
    let expected = ((u64::MAX as u128 + NTP_EPOCH as u128) % (1u128 << 32)) as u32;
    assert_eq!(t, TimeStamp::new(expected, 5));
}

#[test]
fn sum_equals_repeated_addition() {
    let ts = vec![
        TimeStamp::new(1, 3_000_000_000),
        TimeStamp::new(2, 2_500_000_000),
        TimeStamp::new(3, 7),
    ];
    let expected = ((TimeStamp::new(0, 0) + ts[0]) + ts[1]) + ts[2];
    assert_eq!(TimeStamp::sum(&ts), expected);
    assert_eq!(TimeStamp::sum(&[]), TimeStamp::new(0, 0));
}

#[test]
fn now_has_nanosecond_fraction() {
    let t = TimeStamp::now();
    assert!(t.fractional_part_of_seconds < 1_000_000_000);
    assert!(t.integer_part_of_seconds > 0);
    let d = TimeStamp::default();
    assert!(d.fractional_part_of_seconds < 1_000_000_000);
}

#[test]
fn from_duration_matches_from_unix() {
    let d = Duration::new(12_345, 678);
    assert_eq!(TimeStamp::from_duration(d), TimeStamp::from_unix(12_345, 678));
    assert_eq!(TimeStamp::from_duration(Duration::ZERO), TimeStamp::new(NTP_EPOCH as u32, 0));
}
