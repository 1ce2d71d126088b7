//! Detail-page scraping decisions.
//!
//! One security's detail page becomes one aggregate record — always.  A
//! fetched page is parsed under the configured extraction strategy; a
//! fetch that failed (or timed out) yields the identity-only aggregate
//! and a counted failure, never an error that could fail the batch.

use vstd::prelude::*;
use crate::errors::ScrapingError;
use crate::isin::{Isin, ShareIsin};
use crate::metrics::{
    ScrapingMetrics, WithMetrics, spec_record_success, spec_record_failure, spec_zero_metrics,
    spec_merge_all,
};
use crate::page::{
    Field, FieldExtractor, PropertySelector, labeled_rows, positional_cells, labeled_rows_of,
    positional_cells_of, labeled_cell, spec_label_terms, spec_select_field,
};
use crate::records::{Share, share_models, share_empty};

verus! {

/// Which of the two field-extraction strategies a scrape uses.
#[derive(Debug, Clone, Copy, PartialEq, Eq, Structural)]
pub enum ExtractionStrategy {
    /// Index rows by their lowercased label text.
    LabelMatching,
    /// Fixed positions within the two column tables.
    Positional,
}

/// The cell text a page yields for a field under a strategy.
pub open spec fn spec_page_get(
    text: Seq<char>,
    strategy: ExtractionStrategy,
    f: Field,
) -> Option<Seq<char>> {
    match strategy {
        ExtractionStrategy::LabelMatching => labeled_cell(
            labeled_rows_of(text),
            spec_label_terms(f),
        ),
        ExtractionStrategy::Positional => spec_select_field(f, positional_cells_of(text)),
    }
}

/// Parses one detail page into the aggregate record under the given
/// strategy.
pub fn parse_share_page(text: &str, share_isin: &ShareIsin, strategy: ExtractionStrategy) -> (r:
    Share)
    requires
        share_isin.isin.check <= 9,
    ensures
        share_models(r, *share_isin, |f: Field| spec_page_get(text@, strategy, f)),
{
    let extractor = match strategy {
        ExtractionStrategy::LabelMatching => FieldExtractor::Labels(
            PropertySelector::new(labeled_rows(text)),
        ),
        ExtractionStrategy::Positional => FieldExtractor::Positions(positional_cells(text)),
    };
    Share::from_selector(share_isin, &extractor)
}

/// Turns one security's fetch outcome into its aggregate record and a
/// one-item metrics record: a fetched page is parsed and counted a
/// success; a failed fetch yields the identity-only aggregate with its
/// failure counted — the outcome never escalates.
pub fn share_outcome(
    share_isin: &ShareIsin,
    fetch: Result<String, ScrapingError>,
    strategy: ExtractionStrategy,
) -> (r: WithMetrics<Share>)
    requires
        share_isin.isin.check <= 9,
    ensures
        r.result is Some,
        match fetch {
            Ok(text) => share_models(
                r.result->Some_0,
                *share_isin,
                |f: Field| spec_page_get(text@, strategy, f),
            ) && r.metrics == spec_record_success(spec_zero_metrics()),
            Err(e) => share_empty(r.result->Some_0, *share_isin) && r.metrics
                == spec_record_failure(spec_zero_metrics(), e),
        },
{
    let mut metrics = ScrapingMetrics::empty();
    match fetch {
        Ok(text) => {
            let share = parse_share_page(text.as_str(), share_isin, strategy);
            metrics.record_success();
            WithMetrics::new(share, metrics)
        },
        Err(e) => {
            let share = Share::with_isin(share_isin);
            metrics.record_failure(e);
            WithMetrics::new(share, metrics)
        },
    }
}

/// Collects per-security outcomes in completion order: every aggregate
/// is kept, metrics are folded with the metrics merge.
#[verifier::loop_isolation(false)]
pub fn collect_share_outcomes(outcomes: Vec<WithMetrics<Share>>) -> (r: WithMetrics<Vec<Share>>)
    requires
        forall|k: int| 0 <= k < outcomes@.len() ==> (#[trigger] outcomes@[k]).result is Some,
    ensures
        r.result is Some,
        r.metrics == spec_merge_all(outcomes@.map_values(|o: WithMetrics<Share>| o.metrics)),
        r.result->Some_0@ == outcomes@.map_values(|o: WithMetrics<Share>| o.result->Some_0),
{
    let ghost om = outcomes@.map_values(|o: WithMetrics<Share>| o.metrics);
    let ghost os = outcomes@.map_values(|o: WithMetrics<Share>| o.result->Some_0);
    let mut outcomes = outcomes;
    let ghost orig = outcomes@;
    let mut metrics = ScrapingMetrics::empty();
    let mut res: Vec<Share> = Vec::new();
    let ghost n = orig.len();
    proof {
        assert(om.take(0) =~= Seq::<ScrapingMetrics>::empty());
    }
    while outcomes.len() > 0
        invariant
            outcomes@ =~= orig.skip(n - outcomes@.len()),
            res@.len() + outcomes@.len() == n,
            metrics == spec_merge_all(om.take(res@.len() as int)),
            res@ == os.take(res@.len() as int),
        decreases outcomes@.len(),
    {
        let ghost done = res@.len() as int;
        let mut o = outcomes.remove(0);
        proof {
            assert(o == orig[done]);
            assert(outcomes@ =~= orig.skip(n - outcomes@.len()));
            assert(om.take(done + 1).drop_last() =~= om.take(done));
            assert(om.take(done + 1).last() == om[done]);
            assert(om[done] == orig[done].metrics);
            assert(os[done] == orig[done].result->Some_0);
        }
        let share = o.unmetric();
        metrics = metrics.merge(o.metrics);
        res.push(share);
        proof {
            assert(res@ =~= os.take(done + 1));
        }
    }
    proof {
        assert(om.take(res@.len() as int) =~= om);
        assert(os.take(res@.len() as int) =~= os);
    }
    WithMetrics::new(res, metrics)
}

/// The detail-page URL of one security.
pub open spec fn spec_detail_url(isin_s: Seq<char>) -> Seq<char> {
    "https://www.borsaitaliana.it/borsa/azioni/dati-completi.html?isin="@ + isin_s + "&lang=it"@
}

/// Builds the detail-page URL of one security.
pub fn detail_url(isin: &Isin) -> (r: String)
    requires
        isin.check <= 9,
    ensures
        r@ == spec_detail_url(isin.isin_str()),
{
    let mut r = String::from_str(
        "https://www.borsaitaliana.it/borsa/azioni/dati-completi.html?isin=",
    );
    let s = isin.get_str();
    r.append(s.as_str());
    r.append("&lang=it");
    proof {
        assert(r@ =~= spec_detail_url(isin.isin_str()));
    }
    r
}

} // verus!
