use relative_uda::offset::Failure;
use relative_uda::spelling::{
    is_decimal_digit, seconds_of_spelling, DAYS, HOURS, MONTHS_OR_MINUTES, PERIOD, SECONDS,
    SECONDS_PER_DAY, SECONDS_PER_HOUR, SECONDS_PER_MINUTE, SECONDS_PER_MONTH, SECONDS_PER_YEAR,
    TIME, YEARS,
};
use tasklib::prelude::Duration;

#[test]
fn letters_are_those_of_iso_8601() {
    assert_eq!(PERIOD, b'P');
    assert_eq!(TIME, b'T');
    assert_eq!(YEARS, b'Y');
    assert_eq!(MONTHS_OR_MINUTES, b'M');
    assert_eq!(DAYS, b'D');
    assert_eq!(HOURS, b'H');
    assert_eq!(SECONDS, b'S');
}

#[test]
fn units_have_the_lengths_of_the_parser() {
    assert_eq!(SECONDS_PER_MINUTE, u64::from(Duration::minutes(1).num_seconds()));
    assert_eq!(SECONDS_PER_HOUR, u64::from(Duration::hours(1).num_seconds()));
    assert_eq!(SECONDS_PER_DAY, u64::from(Duration::days(1).num_seconds()));
    assert_eq!(SECONDS_PER_MONTH, u64::from(Duration::months(1).num_seconds()));
    assert_eq!(SECONDS_PER_YEAR, u64::from(Duration::years(1).num_seconds()));
}

#[test]
fn digits_are_zero_to_nine() {
    for byte in 0..=255u8 {
        assert_eq!(is_decimal_digit(byte), byte.is_ascii_digit());
    }
}

#[test]
fn spelling_of_the_parser_is_read_back() {
    let durations = [
        Duration::seconds(6),
        Duration::minutes(5),
        Duration::hours(4),
        Duration::days(3),
        Duration::months(2),
        Duration::years(1),
        Duration::years(1) + Duration::months(2) + Duration::days(3),
        Duration::hours(4) + Duration::minutes(5) + Duration::seconds(6),
        Duration::years(1) + Duration::seconds(1),
        Duration::months(11) + Duration::minutes(59),
        Duration::seconds(0),
        Duration::seconds(u32::MAX),
        Duration::days(49_710),
    ];
    for duration in durations {
        let spelled = duration.to_string();
        assert_eq!(
            seconds_of_spelling(spelled.as_bytes()),
            Ok(duration.num_seconds()),
            "{}",
            spelled
        );
    }
}

#[test]
fn spelling_is_read_field_by_field() {
    assert_eq!(seconds_of_spelling(b"P2D"), Ok(172_800));
    assert_eq!(seconds_of_spelling(b"P"), Ok(0));
    assert_eq!(seconds_of_spelling(b"PT"), Ok(0));
    assert_eq!(seconds_of_spelling(b"PT6S"), Ok(6));
    assert_eq!(seconds_of_spelling(b"PT5M"), Ok(300));
    assert_eq!(seconds_of_spelling(b"PT4H"), Ok(14_400));
    assert_eq!(seconds_of_spelling(b"P3D"), Ok(259_200));
    assert_eq!(seconds_of_spelling(b"P2M"), Ok(5_184_000));
    assert_eq!(seconds_of_spelling(b"P1Y"), Ok(31_536_000));
    assert_eq!(seconds_of_spelling(b"P1Y2M3DT4H5M6S"), Ok(36_993_906));
    assert_eq!(seconds_of_spelling(b"P007D"), Ok(604_800));
    assert_eq!(seconds_of_spelling(b"P1YT1S"), Ok(31_536_001));
}

#[test]
fn spelling_must_be_well_formed() {
    assert_eq!(seconds_of_spelling(b""), Err(Failure::NotADuration));
    assert_eq!(seconds_of_spelling(b"2D"), Err(Failure::NotADuration));
    assert_eq!(seconds_of_spelling(b"p2d"), Err(Failure::NotADuration));
    assert_eq!(seconds_of_spelling(b"P2"), Err(Failure::NotADuration));
    assert_eq!(seconds_of_spelling(b"P2X"), Err(Failure::NotADuration));
    assert_eq!(seconds_of_spelling(b"PD"), Err(Failure::NotADuration));
    assert_eq!(seconds_of_spelling(b"P2D "), Err(Failure::NotADuration));
    assert_eq!(seconds_of_spelling(b"P2D1Y"), Err(Failure::NotADuration));
    assert_eq!(seconds_of_spelling(b"P1H"), Err(Failure::NotADuration));
    assert_eq!(seconds_of_spelling(b"PT1S1H"), Err(Failure::NotADuration));
    assert_eq!(seconds_of_spelling(b"PTT1S"), Err(Failure::NotADuration));
}

#[test]
fn spelling_up_to_u32_max() {
    assert_eq!(seconds_of_spelling(b"PT4294967295S"), Ok(u32::MAX));
    assert_eq!(seconds_of_spelling(b"PT4294967296S"), Err(Failure::OutOfRange));
    assert_eq!(seconds_of_spelling(b"P136Y"), Ok(4_288_896_000));
    assert_eq!(seconds_of_spelling(b"P136Y70DT6H28M15S"), Ok(u32::MAX));
    assert_eq!(seconds_of_spelling(b"P136Y70DT6H28M16S"), Err(Failure::OutOfRange));
    assert_eq!(seconds_of_spelling(b"P137Y"), Err(Failure::OutOfRange));
    assert_eq!(
        seconds_of_spelling(b"P99999999999999999999999999999999999999D"),
        Err(Failure::OutOfRange)
    );
    assert_eq!(seconds_of_spelling(b"P4294967295Y4294967295M4294967295DT4294967295H4294967295M4294967295S"), Err(Failure::OutOfRange));
}

