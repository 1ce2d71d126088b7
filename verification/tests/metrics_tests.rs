use share_scraper::errors::ScrapingError;
use share_scraper::metrics::{
    insertion_metrics, ScrapingErrorMetrics, ScrapingMetrics, WithMetrics,
};

fn sample(total: i32, successful: i32, network: i32, timeout: i32) -> ScrapingMetrics {
    ScrapingMetrics {
        total,
        successful,
        errors: ScrapingErrorMetrics {
            network_error: network,
            invalid_page: 0,
            timeout,
            max_retries: 0,
            parsing_error: 0,
        },
    }
}

#[test]
fn merge_is_field_wise_sum() {
    let a = sample(3, 2, 1, 0);
    let b = sample(5, 4, 0, 1);
    assert_eq!(a.merge(b), sample(8, 6, 1, 1));
}

#[test]
fn merge_is_commutative_and_associative_with_identity() {
    let a = sample(3, 2, 1, 0);
    let b = sample(5, 4, 0, 1);
    let c = sample(10, 7, 2, 1);
    let zero = ScrapingMetrics::empty();
    assert_eq!(a.merge(b), b.merge(a));
    assert_eq!(a.merge(b).merge(c), a.merge(b.merge(c)));
    assert_eq!(a.merge(zero), a);
    assert_eq!(zero.merge(a), a);
}

#[test]
fn merge_saturates_instead_of_overflowing() {
    let big = sample(i32::MAX, i32::MAX - 1, 1, 0);
    let one = sample(1, 1, 0, 0);
    let merged = big.merge(one);
    assert_eq!(merged.total, i32::MAX);
    assert_eq!(merged.successful, i32::MAX);
}

#[test]
fn update_increments_exactly_one_category() {
    let mut e = ScrapingErrorMetrics::empty();
    e.update(ScrapingError::NetworkError);
    e.update(ScrapingError::Timeout);
    e.update(ScrapingError::Timeout);
    e.update(ScrapingError::InvalidPage);
    e.update(ScrapingError::MaxRetries);
    e.update(ScrapingError::ParsingErr);
    assert_eq!(e.network_error, 1);
    assert_eq!(e.invalid_page, 1);
    assert_eq!(e.timeout, 2);
    assert_eq!(e.max_retries, 1);
    assert_eq!(e.parsing_error, 1);
}

#[test]
fn record_outcomes_keep_the_balance() {
    let mut m = ScrapingMetrics::empty();
    m.record_success();
    m.record_failure(ScrapingError::Timeout);
    m.record_success();
    assert_eq!(m.total, 3);
    assert_eq!(m.successful, 2);
    assert_eq!(m.errors.timeout, 1);
    assert_eq!(
        m.total,
        m.successful + m.errors.network_error + m.errors.invalid_page + m.errors.timeout
            + m.errors.max_retries + m.errors.parsing_error
    );
}

#[test]
fn with_metrics_hands_the_result_out_once() {
    let mut wm = WithMetrics::new(vec![1, 2, 3], sample(3, 3, 0, 0));
    let taken = wm.unmetric();
    assert_eq!(taken, vec![1, 2, 3]);
    assert!(wm.result.is_none());
    assert_eq!(wm.metrics, sample(3, 3, 0, 0));
}

#[test]
fn insertion_metrics_count_successes() {
    let outcomes = vec![true, false, true, true, false];
    let m = insertion_metrics(&outcomes);
    assert_eq!(m.total, 5);
    assert_eq!(m.successful, 3);
    let none: Vec<bool> = Vec::new();
    let m = insertion_metrics(&none);
    assert_eq!(m.total, 0);
    assert_eq!(m.successful, 0);
}
