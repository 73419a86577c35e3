use fileshare::misc::{
    duration_input_supported, expires_at, parse_duration, Duration, DurationError, MAX_TIMESTAMP_MICROS,
    MIN_TIMESTAMP_MICROS,
};
use fileshare::number::parse_i64;

fn seconds(input: &str) -> i64 {
    parse_duration(input).unwrap().num_seconds()
}

#[test]
fn parse_duration_units() {
    assert_eq!(seconds("7d"), 7 * 86400);
    assert_eq!(seconds("12h"), 12 * 3600);
    assert_eq!(seconds("30m"), 1800);
    assert_eq!(seconds("45s"), 45);
    assert_eq!(seconds("0s"), 0);
}

#[test]
fn parse_duration_signs() {
    assert_eq!(seconds("+2h"), 7200);
    assert_eq!(seconds("-1d"), -86400);
    assert_eq!(seconds("007m"), 420);
}

#[test]
fn parse_duration_errors() {
    assert_eq!(parse_duration("5x").unwrap_err(), DurationError::InvalidSpecifier);
    assert_eq!(parse_duration("5D").unwrap_err(), DurationError::InvalidSpecifier);
    assert_eq!(parse_duration("xd").unwrap_err(), DurationError::InvalidNumber);
    assert_eq!(parse_duration("d").unwrap_err(), DurationError::InvalidNumber);
    assert_eq!(parse_duration("1.5h").unwrap_err(), DurationError::InvalidNumber);
    assert_eq!(parse_duration("-h").unwrap_err(), DurationError::InvalidNumber);
    // the number is checked before the unit
    assert_eq!(parse_duration("ax").unwrap_err(), DurationError::InvalidNumber);
    // out of the range of i64: a number error, not a failure
    assert_eq!(parse_duration("99999999999999999999d").unwrap_err(), DurationError::InvalidNumber);
}

#[test]
fn duration_inputs_supported() {
    assert!(duration_input_supported("7d"));
    assert!(duration_input_supported("5x"));
    assert!(duration_input_supported("99999999999999999999d"));
    assert!(duration_input_supported("9223372036854775s"));
    assert!(duration_input_supported("-9223372036854775s"));
    assert!(!duration_input_supported(""));
    assert!(!duration_input_supported("7é"));
    assert!(!duration_input_supported("9223372036854776s"));
    assert!(!duration_input_supported("-9223372036854776s"));
    assert!(!duration_input_supported("106751991168d"));
    assert!(duration_input_supported("106751991167d"));
}

#[test]
fn duration_matches_chrono_bounds() {
    assert_eq!(seconds("9223372036854775s"), 9223372036854775);
    assert_eq!(seconds("-9223372036854775s"), -9223372036854775);
    assert_eq!(seconds("153722867280912m"), 153722867280912 * 60);
}

#[test]
fn days_constructor() {
    assert_eq!(Duration::days(30).num_seconds(), 2592000);
    assert_eq!(Duration::days(0).num_seconds(), 0);
}

#[test]
fn parse_i64_like_std() {
    let cases = [
        "0", "7", "+7", "-7", "007", "", "+", "-", "12a", " 1", "1 ", "--1", "+-1",
        "9223372036854775807", "9223372036854775808", "-9223372036854775808",
        "-9223372036854775809", "١٢", "99999999999999999999999999",
    ];
    for case in cases {
        assert_eq!(parse_i64(case), case.parse::<i64>().ok(), "input {:?}", case);
    }
}

#[test]
fn day_units_agree() {
    for n in [0i64, 1, 7, 30, -3, 1_000_000_000, -1_000_000_000, 106751991167] {
        let d = seconds(&format!("{}d", n));
        assert_eq!(d, n * 86400);
        assert_eq!(seconds(&format!("{}h", 24 * n)), d);
        assert_eq!(seconds(&format!("{}m", 1440 * n)), d);
        assert_eq!(seconds(&format!("{}s", 86400 * n)), d);
    }
}

#[test]
fn durations_grow_with_the_number() {
    let numbers = [-1_000_000_000i64, -5, -1, 0, 1, 2, 30, 1_000_000_000];
    for unit in ["h", "d", "m", "s"] {
        for a in numbers {
            for b in numbers {
                if a <= b {
                    assert!(seconds(&format!("{}{}", a, unit)) <= seconds(&format!("{}{}", b, unit)));
                }
            }
        }
    }
}

#[test]
fn expiry_time_from_now() {
    let week = parse_duration("7d").unwrap();
    assert_eq!(expires_at(0, &week), Some(7 * 86400 * 1_000_000));
    assert_eq!(expires_at(1_700_000_000_123_456, &parse_duration("-1h").unwrap()), Some(1_700_000_000_123_456 - 3_600_000_000));
    assert_eq!(expires_at(i64::MAX, &week), None);
    assert_eq!(expires_at(0, &parse_duration("9223372036854775s").unwrap()), None);
}

#[test]
fn calendar_bounds_are_chronos() {
    let min = chrono::NaiveDateTime::MIN.and_utc().timestamp_micros();
    let max = chrono::NaiveDateTime::MAX.and_utc().timestamp_micros();
    assert_eq!(min, MIN_TIMESTAMP_MICROS);
    assert_eq!(max, MAX_TIMESTAMP_MICROS);
}

#[test]
fn expiry_time_at_calendar_edges() {
    let zero = parse_duration("0s").unwrap();
    let one = parse_duration("1s").unwrap();
    let minus_one = parse_duration("-1s").unwrap();
    assert_eq!(expires_at(MAX_TIMESTAMP_MICROS, &zero), Some(MAX_TIMESTAMP_MICROS));
    assert_eq!(expires_at(MAX_TIMESTAMP_MICROS, &one), None);
    assert_eq!(expires_at(MAX_TIMESTAMP_MICROS - 1_000_000, &one), Some(MAX_TIMESTAMP_MICROS));
    assert_eq!(expires_at(MIN_TIMESTAMP_MICROS, &zero), Some(MIN_TIMESTAMP_MICROS));
    assert_eq!(expires_at(MIN_TIMESTAMP_MICROS, &minus_one), None);
    assert_eq!(expires_at(MIN_TIMESTAMP_MICROS - 1, &one), None);
    assert_eq!(expires_at(MAX_TIMESTAMP_MICROS + 1, &minus_one), None);
}
