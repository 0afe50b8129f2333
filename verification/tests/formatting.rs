use cost_notifier::date::{Date, format_jp_date, format_rfc3339_midnight, prev_day};
use cost_notifier::decimal::{format_fraction, format_padded, u64_to_dec};
use cost_notifier::money::{color_tag, format_usd, severity_of, Severity};

fn date(year: i32, month: u32, day: u32) -> Date {
    Date { year, month, day }
}

#[test]
fn decimal_digits() {
    assert_eq!(u64_to_dec(0), "0");
    assert_eq!(u64_to_dec(7), "7");
    assert_eq!(u64_to_dec(1234), "1234");
    assert_eq!(u64_to_dec(1000000), "1000000");
}

#[test]
fn decimal_padding() {
    assert_eq!(format_padded(7, 4), "0007");
    assert_eq!(format_padded(0, 2), "00");
    assert_eq!(format_padded(12, 2), "12");
    assert_eq!(format_padded(12345, 4), "12345");
}

#[test]
fn fraction_trimming() {
    assert_eq!(format_fraction(420000, 6), "42");
    assert_eq!(format_fraction(5, 6), "000005");
    assert_eq!(format_fraction(500000, 6), "5");
    assert_eq!(format_fraction(123456, 6), "123456");
}

#[test]
fn usd_rendering() {
    assert_eq!(format_usd(0), "0");
    assert_eq!(format_usd(420000), "0.42");
    assert_eq!(format_usd(500000), "0.5");
    assert_eq!(format_usd(750000), "0.75");
    assert_eq!(format_usd(999999), "0.999999");
    assert_eq!(format_usd(1000000), "1");
    assert_eq!(format_usd(3200000), "3.2");
    assert_eq!(format_usd(10050000), "10.05");
}

#[test]
fn severity_boundaries() {
    assert_eq!(color_tag(severity_of(0)), "good");
    assert_eq!(color_tag(severity_of(499999)), "good");
    assert_eq!(color_tag(severity_of(500000)), "warning");
    assert_eq!(color_tag(severity_of(999999)), "warning");
    assert_eq!(color_tag(severity_of(1000000)), "#ff0000");
    assert_eq!(color_tag(severity_of(3200000)), "#ff0000");
}

#[test]
fn severity_values() {
    assert_eq!(severity_of(420000), Severity::Good);
    assert_eq!(severity_of(750000), Severity::Warning);
    assert_eq!(severity_of(5000000), Severity::Danger);
}

#[test]
fn previous_day_within_month() {
    assert_eq!(prev_day(date(2024, 3, 15)), date(2024, 3, 14));
}

#[test]
fn previous_day_leap_february() {
    assert_eq!(prev_day(date(2024, 3, 1)), date(2024, 2, 29));
    assert_eq!(prev_day(date(2023, 3, 1)), date(2023, 2, 28));
    assert_eq!(prev_day(date(2000, 3, 1)), date(2000, 2, 29));
    assert_eq!(prev_day(date(1900, 3, 1)), date(1900, 2, 28));
}

#[test]
fn previous_day_across_year() {
    assert_eq!(prev_day(date(2024, 1, 1)), date(2023, 12, 31));
    assert_eq!(prev_day(date(2024, 5, 1)), date(2024, 4, 30));
}

#[test]
fn rfc3339_rendering() {
    assert_eq!(
        format_rfc3339_midnight(date(2024, 3, 15)),
        "2024-03-15T00:00:00+00:00"
    );
    assert_eq!(
        format_rfc3339_midnight(date(987, 1, 2)),
        "0987-01-02T00:00:00+00:00"
    );
}

#[test]
fn japanese_date_rendering() {
    assert_eq!(format_jp_date(date(2024, 3, 15)), "2024年03月15日");
    assert_eq!(format_jp_date(date(2024, 12, 1)), "2024年12月01日");
}
