use study_sync::dates::{civil_from_days, u64_to_string, ymd_string};

#[test]
fn decimal_rendering() {
    assert_eq!(u64_to_string(0), "0");
    assert_eq!(u64_to_string(7), "7");
    assert_eq!(u64_to_string(42), "42");
    assert_eq!(u64_to_string(1714986000123), "1714986000123");
}

#[test]
fn epoch_day_zero_is_the_epoch() {
    assert_eq!(civil_from_days(0), (1970, 1, 1));
    assert_eq!(civil_from_days(1), (1970, 1, 2));
    assert_eq!(civil_from_days(365), (1971, 1, 1));
}

#[test]
fn leap_years_are_respected() {
    // 1972 is the first leap year after the epoch
    assert_eq!(civil_from_days(365 + 365 + 31 + 28), (1972, 2, 29));
    // 2000 was a leap year (divisible by 400), 1900-style century rules
    // put 2100-02-28 right before 2100-03-01
    assert_eq!(civil_from_days(19849), (2024, 5, 6));
}

#[test]
fn ymd_names_are_zero_padded() {
    assert_eq!(ymd_string(2024, 5, 6), "2024-05-06");
    assert_eq!(ymd_string(1999, 12, 31), "1999-12-31");
    let (y, m, d) = civil_from_days(19849);
    assert_eq!(ymd_string(y, m, d), "2024-05-06");
}
