use share_scraper::dates::{Date, DateTime, Time};
use share_scraper::isin::{Isin, IsinError, ShareIsin};

fn sample_time(second: u8) -> DateTime {
    DateTime {
        date: Date { year: 2024, month: 6, day: 1 },
        time: Time { hour: 12, minute: 0, second },
    }
}

#[test]
fn parse_splits_positionally() {
    let isin = Isin::parse("US0378331005").unwrap();
    assert_eq!(isin.country, "US");
    assert_eq!(isin.nna, "037833100");
    assert_eq!(isin.check, 5);
}

#[test]
fn parse_and_format_round_trip() {
    for s in ["US0378331005", "IT0001234567", "XS9999999990", "ab!d$fghijk3"] {
        let isin = Isin::parse(s).unwrap();
        assert_eq!(isin.get_str(), s);
    }
}

#[test]
fn wrong_lengths_fail_with_invalid_length() {
    assert_eq!(Isin::parse(""), Err(IsinError::InvalidLength(0)));
    assert_eq!(Isin::parse("US03783310"), Err(IsinError::InvalidLength(10)));
    assert_eq!(
        Isin::parse("US03783310055"),
        Err(IsinError::InvalidLength(13))
    );
}

#[test]
fn non_digit_check_fails_with_invalid_check_digit() {
    assert_eq!(
        Isin::parse("US037833100X"),
        Err(IsinError::InvalidCheckDigit("X".to_string()))
    );
}

#[test]
fn new_discards_the_reason() {
    assert!(Isin::new("US0378331005".to_string()).is_some());
    assert!(Isin::new("US0378331".to_string()).is_none());
    assert!(Isin::new("US037833100X".to_string()).is_none());
}

#[test]
fn share_isin_requires_a_name() {
    assert!(ShareIsin::new("Apple".to_string(), "US0378331005".to_string()).is_some());
    assert!(ShareIsin::new("".to_string(), "US0378331005".to_string()).is_none());
    assert!(ShareIsin::new("Apple".to_string(), "bogus".to_string()).is_none());
}

#[test]
fn equality_ignores_observation_time() {
    let base = ShareIsin::new("Apple".to_string(), "US0378331005".to_string()).unwrap();
    let mut a = base.clone();
    let mut b = base.clone();
    a.updated_at = sample_time(1);
    b.updated_at = sample_time(2);
    assert!(a == b);

    let mut c = base.clone();
    c.share_name = "Apple Inc".to_string();
    assert!(a != c);

    let d = ShareIsin::new("Apple".to_string(), "US0378331015".to_string()).unwrap();
    assert!(a != d);
}
