//! Typed counters for scraping and persistence outcomes.
//!
//! Counters saturate at `i32::MAX` instead of overflowing; on well-formed
//! (non-negative) metrics the merge operation is associative and
//! commutative with the empty metrics as identity, which the lemmas at the
//! bottom of this module prove.

use vstd::prelude::*;
use crate::errors::ScrapingError;

verus! {

/// Saturating counter addition: clamps to the `i32` range.
pub open spec fn counter_add(a: int, b: int) -> int {
    if a + b > i32::MAX as int {
        i32::MAX as int
    } else if a + b < i32::MIN as int {
        i32::MIN as int
    } else {
        a + b
    }
}

/// Adds two counters, saturating at the ends of the `i32` range.
pub fn counter_add_i32(a: i32, b: i32) -> (r: i32)
    ensures
        r as int == counter_add(a as int, b as int),
{
    match a.checked_add(b) {
        Some(v) => v,
        None => {
            if a < 0 {
                i32::MIN
            } else {
                i32::MAX
            }
        },
    }
}

/// Per-category failure counters of a scraping batch.
#[derive(Debug, Clone, Copy, PartialEq, Eq, Structural)]
pub struct ScrapingErrorMetrics {
    pub network_error: i32,
    pub invalid_page: i32,
    pub timeout: i32,
    pub max_retries: i32,
    pub parsing_error: i32,
}

impl ScrapingErrorMetrics {
    /// Counters are non-negative.
    pub open spec fn wf(self) -> bool {
        self.network_error >= 0 && self.invalid_page >= 0 && self.timeout >= 0
            && self.max_retries >= 0 && self.parsing_error >= 0
    }

    pub open spec fn spec_total(self) -> int {
        self.network_error + self.invalid_page + self.timeout + self.max_retries
            + self.parsing_error
    }

    pub open spec fn spec_merge(self, rhs: Self) -> Self {
        ScrapingErrorMetrics {
            network_error: counter_add(self.network_error as int, rhs.network_error as int) as i32,
            invalid_page: counter_add(self.invalid_page as int, rhs.invalid_page as int) as i32,
            timeout: counter_add(self.timeout as int, rhs.timeout as int) as i32,
            max_retries: counter_add(self.max_retries as int, rhs.max_retries as int) as i32,
            parsing_error: counter_add(self.parsing_error as int, rhs.parsing_error as int) as i32,
        }
    }

    /// The counters after recording one failure of category `error`.
    pub open spec fn spec_update(self, error: ScrapingError) -> Self {
        match error {
            ScrapingError::NetworkError => ScrapingErrorMetrics {
                network_error: counter_add(self.network_error as int, 1) as i32,
                ..self
            },
            ScrapingError::InvalidPage => ScrapingErrorMetrics {
                invalid_page: counter_add(self.invalid_page as int, 1) as i32,
                ..self
            },
            ScrapingError::Timeout => ScrapingErrorMetrics {
                timeout: counter_add(self.timeout as int, 1) as i32,
                ..self
            },
            ScrapingError::MaxRetries => ScrapingErrorMetrics {
                max_retries: counter_add(self.max_retries as int, 1) as i32,
                ..self
            },
            ScrapingError::ParsingErr => ScrapingErrorMetrics {
                parsing_error: counter_add(self.parsing_error as int, 1) as i32,
                ..self
            },
        }
    }

    /// All-zero failure counters.
    pub fn empty() -> (r: Self)
        ensures
            r == (ScrapingErrorMetrics {
                network_error: 0,
                invalid_page: 0,
                timeout: 0,
                max_retries: 0,
                parsing_error: 0,
            }),
    {
        ScrapingErrorMetrics {
            network_error: 0,
            invalid_page: 0,
            timeout: 0,
            max_retries: 0,
            parsing_error: 0,
        }
    }

    /// Records one failure under its category's counter.
    pub fn update(&mut self, error: ScrapingError)
        ensures
            *final(self) == old(self).spec_update(error),
    {
        match error {
            ScrapingError::NetworkError => self.network_error = counter_add_i32(
                self.network_error,
                1,
            ),
            ScrapingError::InvalidPage => self.invalid_page = counter_add_i32(
                self.invalid_page,
                1,
            ),
            ScrapingError::Timeout => self.timeout = counter_add_i32(self.timeout, 1),
            ScrapingError::MaxRetries => self.max_retries = counter_add_i32(self.max_retries, 1),
            ScrapingError::ParsingErr => self.parsing_error = counter_add_i32(
                self.parsing_error,
                1,
            ),
        }
    }

    /// Field-wise saturating sum of two failure-counter records.
    pub fn merge(self, rhs: Self) -> (r: Self)
        ensures
            r == self.spec_merge(rhs),
    {
        ScrapingErrorMetrics {
            network_error: counter_add_i32(self.network_error, rhs.network_error),
            invalid_page: counter_add_i32(self.invalid_page, rhs.invalid_page),
            timeout: counter_add_i32(self.timeout, rhs.timeout),
            max_retries: counter_add_i32(self.max_retries, rhs.max_retries),
            parsing_error: counter_add_i32(self.parsing_error, rhs.parsing_error),
        }
    }
}

/// Outcome counters of a scraping batch.
#[derive(Debug, Clone, Copy, PartialEq, Eq, Structural)]
pub struct ScrapingMetrics {
    pub total: i32,
    pub successful: i32,
    pub errors: ScrapingErrorMetrics,
}

/// All-zero scraping metrics.
pub open spec fn spec_zero_metrics() -> ScrapingMetrics {
    ScrapingMetrics {
        total: 0,
        successful: 0,
        errors: ScrapingErrorMetrics {
            network_error: 0,
            invalid_page: 0,
            timeout: 0,
            max_retries: 0,
            parsing_error: 0,
        },
    }
}

/// `m` after one successful outcome.
pub open spec fn spec_record_success(m: ScrapingMetrics) -> ScrapingMetrics {
    ScrapingMetrics {
        total: counter_add(m.total as int, 1) as i32,
        successful: counter_add(m.successful as int, 1) as i32,
        errors: m.errors,
    }
}

/// `m` after one failed outcome of category `error`.
pub open spec fn spec_record_failure(m: ScrapingMetrics, error: ScrapingError) -> ScrapingMetrics {
    ScrapingMetrics {
        total: counter_add(m.total as int, 1) as i32,
        successful: m.successful,
        errors: m.errors.spec_update(error),
    }
}

/// The left fold of merges over a batch of metric records.
pub open spec fn spec_merge_all(ms: Seq<ScrapingMetrics>) -> ScrapingMetrics
    decreases ms.len(),
{
    if ms.len() == 0 {
        spec_zero_metrics()
    } else {
        spec_merge_all(ms.drop_last()).spec_merge(ms.last())
    }
}

impl ScrapingMetrics {
    pub open spec fn wf(self) -> bool {
        self.total >= 0 && self.successful >= 0 && self.errors.wf()
    }

    /// Every outcome counted under `total` is counted under exactly one of
    /// `successful` or a failure category.
    pub open spec fn balanced(self) -> bool {
        self.total == self.successful + self.errors.spec_total()
    }

    pub open spec fn spec_merge(self, rhs: Self) -> Self {
        ScrapingMetrics {
            total: counter_add(self.total as int, rhs.total as int) as i32,
            successful: counter_add(self.successful as int, rhs.successful as int) as i32,
            errors: self.errors.spec_merge(rhs.errors),
        }
    }

    /// All-zero metrics.
    pub fn empty() -> (r: Self)
        ensures
            r == spec_zero_metrics(),
    {
        ScrapingMetrics { total: 0, successful: 0, errors: ScrapingErrorMetrics::empty() }
    }

    /// Field-wise saturating sum of two outcome-counter records.
    pub fn merge(self, rhs: Self) -> (r: Self)
        ensures
            r == self.spec_merge(rhs),
    {
        ScrapingMetrics {
            total: counter_add_i32(self.total, rhs.total),
            successful: counter_add_i32(self.successful, rhs.successful),
            errors: self.errors.merge(rhs.errors),
        }
    }

    /// Records one successful outcome: `total` and `successful` both grow by one.
    pub fn record_success(&mut self)
        ensures
            *final(self) == spec_record_success(*old(self)),
    {
        self.total = counter_add_i32(self.total, 1);
        self.successful = counter_add_i32(self.successful, 1);
    }

    /// Records one failed outcome: `total` and the failure's category grow by one.
    pub fn record_failure(&mut self, error: ScrapingError)
        ensures
            *final(self) == spec_record_failure(*old(self), error),
    {
        self.total = counter_add_i32(self.total, 1);
        self.errors.update(error);
    }
}

/// Outcome counters of a persistence batch.
#[derive(Debug, Clone, Copy, PartialEq, Eq, Structural)]
pub struct InsertionMetrics {
    pub total: i32,
    pub successful: i32,
}

/// How many of the first `i` outcomes succeeded.
pub open spec fn spec_count_true(s: Seq<bool>, i: int) -> int
    decreases i,
{
    if i <= 0 {
        0
    } else {
        spec_count_true(s, i - 1) + if s[i - 1] {
            1int
        } else {
            0int
        }
    }
}

/// Counts a persistence batch: one attempt per outcome, successes as the
/// collaborator reported them.
#[verifier::loop_isolation(false)]
pub fn insertion_metrics(outcomes: &Vec<bool>) -> (r: InsertionMetrics)
    requires
        outcomes@.len() <= i32::MAX,
    ensures
        r.total == outcomes@.len(),
        r.successful == spec_count_true(outcomes@, outcomes@.len() as int),
{
    let mut successful: i32 = 0;
    let mut i: usize = 0;
    proof {
        assert(spec_count_true(outcomes@, 0) == 0);
    }
    while i < outcomes.len()
        invariant
            i <= outcomes@.len(),
            successful == spec_count_true(outcomes@, i as int),
            0 <= successful <= i,
        decreases outcomes@.len() - i,
    {
        if outcomes[i] {
            successful = successful + 1;
        }
        i = i + 1;
    }
    InsertionMetrics { total: outcomes.len() as i32, successful }
}

/// The two metric records of one scrape-then-persist run.
#[derive(Debug, Clone, Copy, PartialEq, Eq, Structural)]
pub struct ScrapeAndInsertMetrics {
    pub scrape: ScrapingMetrics,
    pub insert: InsertionMetrics,
}

/// A batch result together with the metrics gathered while producing it.
pub struct WithMetrics<T> {
    pub metrics: ScrapingMetrics,
    pub result: Option<T>,
}

impl<T> WithMetrics<T> {
    pub fn new(result: T, metrics: ScrapingMetrics) -> (r: Self)
        ensures
            r.result == Some(result),
            r.metrics == metrics,
    {
        WithMetrics { result: Some(result), metrics }
    }

    /// Takes the result out, leaving the metrics behind.
    pub fn unmetric(&mut self) -> (r: T)
        requires
            old(self).result is Some,
        ensures
            r == old(self).result->Some_0,
            final(self).result is None,
            final(self).metrics == old(self).metrics,
    {
        self.result.take().unwrap()
    }
}

/// Merging scraping metrics is commutative.
pub proof fn lemma_merge_commutative(a: ScrapingMetrics, b: ScrapingMetrics)
    ensures
        a.spec_merge(b) == b.spec_merge(a),
{
}

/// Merging well-formed scraping metrics is associative.
pub proof fn lemma_merge_associative(a: ScrapingMetrics, b: ScrapingMetrics, c: ScrapingMetrics)
    requires
        a.wf(),
        b.wf(),
        c.wf(),
    ensures
        a.spec_merge(b).spec_merge(c) == a.spec_merge(b.spec_merge(c)),
{
}

/// The empty metrics record is an identity for merge.
pub proof fn lemma_merge_identity(a: ScrapingMetrics)
    ensures
        a.spec_merge(spec_zero_metrics()) == a,
{
}

/// Recording one outcome keeps the metrics balanced: while the counters
/// have room, exactly one of `successful` or a failure category grows
/// together with `total`.
pub proof fn lemma_record_keeps_balance(m: ScrapingMetrics, error: ScrapingError)
    requires
        m.wf(),
        m.balanced(),
        m.total < i32::MAX,
    ensures
        spec_record_success(m).wf(),
        spec_record_success(m).balanced(),
        spec_record_success(m).total == m.total + 1,
        spec_record_failure(m, error).wf(),
        spec_record_failure(m, error).balanced(),
        spec_record_failure(m, error).total == m.total + 1,
{
}

/// Merging preserves well-formedness, and — while the true totals still fit
/// in the counters — a merge of balanced metrics is balanced, with `total`
/// the exact sum of both sides.
pub proof fn lemma_merge_balanced(a: ScrapingMetrics, b: ScrapingMetrics)
    requires
        a.wf(),
        b.wf(),
        a.balanced(),
        b.balanced(),
        a.total + b.total <= i32::MAX,
    ensures
        a.spec_merge(b).wf(),
        a.spec_merge(b).balanced(),
        a.spec_merge(b).total == a.total + b.total,
{
}

} // verus!
