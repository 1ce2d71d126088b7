use share_scraper::dates::{
    get_elapsed_time, parse_date, parse_datetime, parse_time, Date, DateTime, Time,
};
use share_scraper::numbers::{parse_int, parse_numeric, Decimal};
use share_scraper::records::{
    price_date_cell, price_datetime_cell, PriceDateReference, PriceDateTimeReference,
};

fn chars(s: &str) -> Vec<char> {
    s.chars().collect()
}

#[test]
fn italian_convention_thousands_dot_decimal_comma() {
    assert_eq!(parse_numeric("1.234,56"), Some(Decimal::new(false, 123456, 2)));
    assert_eq!(parse_numeric("1.234.567,89"), Some(Decimal::new(false, 123456789, 2)));
    assert_eq!(parse_numeric("12,5"), Some(Decimal::new(false, 125, 1)));
}

#[test]
fn signs_and_percent_are_stripped() {
    assert_eq!(parse_numeric("-3,21%"), Some(Decimal::new(true, 321, 2)));
    assert_eq!(parse_numeric("+7,5%"), Some(Decimal::new(false, 75, 1)));
    assert_eq!(parse_numeric("  -0,5  "), Some(Decimal::new(true, 5, 1)));
}

#[test]
fn comma_decimal_matches_the_pattern_even_without_dots() {
    // "1,234" fits the pattern, so the comma is a decimal point: 1.234.
    assert_eq!(parse_numeric("1,234"), Some(Decimal::new(false, 1234, 3)));
}

#[test]
fn text_outside_the_pattern_drops_commas() {
    // "12.34" has a two-digit lead, so it is not the dotted-thousands
    // shape: the dot stays a decimal point.
    assert_eq!(parse_numeric("12.34"), Some(Decimal::new(false, 1234, 2)));
    // "1,23.45" fails the pattern; commas are stripped outright.
    assert_eq!(parse_numeric("1,23.45"), Some(Decimal::new(false, 12345, 2)));
}

#[test]
fn plain_integers_parse_under_both_conventions() {
    assert_eq!(parse_numeric("1234"), Some(Decimal::new(false, 1234, 0)));
    assert_eq!(parse_numeric("7"), Some(Decimal::new(false, 7, 0)));
}

#[test]
fn garbage_is_rejected() {
    assert_eq!(parse_numeric(""), None);
    assert_eq!(parse_numeric("abc"), None);
    assert_eq!(parse_numeric("12a"), None);
    assert_eq!(parse_numeric("--5"), None);
    assert_eq!(parse_numeric("."), None);
}

#[test]
fn parse_int_strips_dots() {
    assert_eq!(parse_int("1.234"), Some(1234));
    assert_eq!(parse_int("  42  "), Some(42));
    assert_eq!(parse_int("+9"), Some(9));
    assert_eq!(parse_int("1,234"), None);
    assert_eq!(parse_int("x"), None);
    assert_eq!(parse_int(""), None);
}

#[test]
fn dates_validate_against_the_calendar() {
    assert_eq!(
        parse_date(&chars("01/02/24")),
        Some(Date { year: 2024, month: 2, day: 1 })
    );
    assert_eq!(
        parse_date(&chars("29/02/24")),
        Some(Date { year: 2024, month: 2, day: 29 })
    );
    assert_eq!(parse_date(&chars("29/02/23")), None);
    assert_eq!(parse_date(&chars("31/04/24")), None);
    assert_eq!(parse_date(&chars("00/01/24")), None);
    assert_eq!(parse_date(&chars("01/13/24")), None);
    assert_eq!(
        parse_date(&chars("31/12/99")),
        Some(Date { year: 1999, month: 12, day: 31 })
    );
    assert_eq!(
        parse_date(&chars("1/2/24")),
        Some(Date { year: 2024, month: 2, day: 1 })
    );
    assert_eq!(parse_date(&chars("123/02/24")), None);
}

#[test]
fn times_stay_in_range() {
    assert_eq!(
        parse_time(&chars("16.07.46")),
        Some(Time { hour: 16, minute: 7, second: 46 })
    );
    assert_eq!(parse_time(&chars("24.00.00")), None);
    assert_eq!(parse_time(&chars("23.60.00")), None);
}

#[test]
fn datetimes_accept_both_separators() {
    let expected = DateTime {
        date: Date { year: 2024, month: 11, day: 29 },
        time: Time { hour: 16, minute: 7, second: 46 },
    };
    assert_eq!(parse_datetime(&chars("29/11/24 16.07.46")), Some(expected));
    assert_eq!(parse_datetime(&chars("29/11/24 - 16.07.46")), Some(expected));
    assert_eq!(parse_datetime(&chars("29/11/24x16.07.46")), None);
}

#[test]
fn composite_price_date_splits_on_spaced_dash() {
    assert_eq!(
        price_date_cell(&Some("1.234,56 - 01/02/24".to_string())),
        Some(PriceDateReference {
            price: Some(Decimal::new(false, 123456, 2)),
            date: Some(Date { year: 2024, month: 2, day: 1 }),
        })
    );
    // A side that fails to parse is absent, not an error.
    assert_eq!(
        price_date_cell(&Some("n/d - 01/02/24".to_string())),
        Some(PriceDateReference {
            price: None,
            date: Some(Date { year: 2024, month: 2, day: 1 }),
        })
    );
    assert_eq!(price_date_cell(&Some("1.234,56".to_string())), None);
    assert_eq!(price_date_cell(&None), None);
}

#[test]
fn composite_price_datetime_splits_on_first_dash() {
    assert_eq!(
        price_datetime_cell(&Some("1.234,56-29/11/24 16.07.46".to_string())),
        Some(PriceDateTimeReference {
            price: Some(Decimal::new(false, 123456, 2)),
            datetime: Some(DateTime {
                date: Date { year: 2024, month: 11, day: 29 },
                time: Time { hour: 16, minute: 7, second: 46 },
            }),
        })
    );
    assert_eq!(
        price_datetime_cell(&Some("1,5- 29/11/24 16.07.46".to_string())),
        Some(PriceDateTimeReference {
            price: Some(Decimal::new(false, 15, 1)),
            datetime: Some(DateTime {
                date: Date { year: 2024, month: 11, day: 29 },
                time: Time { hour: 16, minute: 7, second: 46 },
            }),
        })
    );
    assert_eq!(price_datetime_cell(&None), None);
}

#[test]
fn values_beyond_u64_are_rejected() {
    // u64::MAX itself fits; one digit more does not.
    assert_eq!(parse_int("18446744073709551615"), Some(u64::MAX));
    assert_eq!(parse_int("18446744073709551616"), None);
    assert_eq!(
        parse_numeric("18446744073709551615"),
        Some(Decimal::new(false, u64::MAX, 0))
    );
    assert_eq!(parse_numeric("99999999999999999999"), None);
}

#[test]
fn unpadded_fields_parse_like_padded_ones() {
    assert_eq!(
        parse_time(&chars("9.5.3")),
        Some(Time { hour: 9, minute: 5, second: 3 })
    );
    assert_eq!(
        parse_datetime(&chars("1/2/24 9.5.3")),
        Some(DateTime {
            date: Date { year: 2024, month: 2, day: 1 },
            time: Time { hour: 9, minute: 5, second: 3 },
        })
    );
    assert_eq!(
        parse_datetime(&chars("1/2/24 - 9.5.3")),
        Some(DateTime {
            date: Date { year: 2024, month: 2, day: 1 },
            time: Time { hour: 9, minute: 5, second: 3 },
        })
    );
}

#[test]
fn exponents_fold_into_the_scale_exactly() {
    assert_eq!(parse_numeric("1e5"), Some(Decimal::new(false, 100000, 0)));
    assert_eq!(parse_numeric("1.2e3"), Some(Decimal::new(false, 1200, 0)));
    assert_eq!(parse_numeric("1e+2"), Some(Decimal::new(false, 100, 0)));
    assert_eq!(parse_numeric("5e-3"), Some(Decimal::new(false, 5, 3)));
    // The comma is stripped as a thousands separator first, so the
    // mantissa the exponent applies to is 25, not 2.5.
    assert_eq!(parse_numeric("-2,5E2%"), Some(Decimal::new(true, 2500, 0)));
    assert_eq!(parse_numeric(".5e1"), Some(Decimal::new(false, 5, 0)));
    assert_eq!(parse_numeric("0e7"), Some(Decimal::new(false, 0, 0)));
    // No digits after the exponent marker, or an exponent past any
    // representable magnitude, is no value.
    assert_eq!(parse_numeric("1e"), None);
    assert_eq!(parse_numeric("1e+"), None);
    assert_eq!(parse_numeric("1e999999999"), None);
    assert_eq!(parse_numeric("1e30"), None);
}

#[test]
fn elapsed_time_is_the_difference_of_clock_readings() {
    assert_eq!(get_elapsed_time(1_000, 4_500), 3_500);
    assert_eq!(get_elapsed_time(4_500, 1_000), -3_500);
    assert_eq!(get_elapsed_time(0, 86_399_999), 86_399_999);
}
