use share_scraper::backoff::{run_backoff_script, BackoffMessage};
use share_scraper::details::{collect_share_outcomes, share_outcome, ExtractionStrategy};
use share_scraper::errors::ScrapingError;
use share_scraper::fetch::{check_page_text, classify_status, StatusClass};
use share_scraper::isin::ShareIsin;
use share_scraper::listing::{
    listing_grid, listing_page_outcome, listing_url, merge_listing_results,
};

/// Drives the verified backoff protocol over a fixed status sequence, the
/// way the fetch loop does against a live server.
fn fetch_sim(statuses: &[u16], body: &str) -> Result<String, ScrapingError> {
    let script: Vec<BackoffMessage<String>> = statuses
        .iter()
        .map(|s| match classify_status(*s) {
            StatusClass::Success => BackoffMessage::Return(body.to_string()),
            StatusClass::Transient => BackoffMessage::Retry,
            StatusClass::Fatal => BackoffMessage::Exit,
        })
        .collect();
    let (res, _delays) = run_backoff_script(script).expect("status script must be decisive");
    match res {
        Ok(text) => check_page_text(text),
        Err(e) => Err(ScrapingError::from(e)),
    }
}

fn listing_html(entries: &[(&str, &str)]) -> String {
    let mut anchors = String::new();
    for (name, isin) in entries {
        anchors.push_str(&format!(
            r#"<tr><td><a class="u-hidden -xs" href="/borsa/azioni/scheda/{isin}.html">
               <span class="t-text">{name}</span></a></td></tr>"#
        ));
    }
    format!(
        r#"<html><body><div data-bb-view="list-aZ-stream">
           <table class="m-table -firstlevel"><tbody>{anchors}</tbody></table>
           </div></body></html>"#
    )
}

#[test]
fn listing_round_over_a_two_by_two_grid() {
    let page_a = listing_html(&[("Alpha SpA", "IT0001234567"), ("Beta SpA", "IT0009876543")]);
    let page_b = listing_html(&[("Beta SpA", "IT0009876543"), ("Gamma SpA", "IT0005555555")]);
    let page_d = listing_html(&[("Alpha SpA", "IT0001234567")]);

    let outcomes = vec![
        // Two fetches hit transient statuses first, then succeed.
        listing_page_outcome(fetch_sim(&[500, 200], &page_a)),
        listing_page_outcome(fetch_sim(&[429, 503, 200], &page_b)),
        // One fails permanently.
        listing_page_outcome(fetch_sim(&[404], &page_a)),
        // One succeeds first try.
        listing_page_outcome(fetch_sim(&[200], &page_d)),
    ];

    let mut merged = merge_listing_results(outcomes);
    assert_eq!(merged.metrics.total, 4);
    assert_eq!(merged.metrics.successful, 3);
    assert_eq!(merged.metrics.errors.network_error, 1);
    assert_eq!(merged.metrics.errors.timeout, 0);

    let securities = merged.unmetric();
    let names: Vec<&str> = securities.iter().map(|s| s.share_name.as_str()).collect();
    assert_eq!(names, vec!["Alpha SpA", "Beta SpA", "Gamma SpA"]);
    assert_eq!(securities[0].isin.get_str(), "IT0001234567");
    assert_eq!(securities[1].isin.get_str(), "IT0009876543");
    assert_eq!(securities[2].isin.get_str(), "IT0005555555");
}

#[test]
fn listing_page_failures_only_count() {
    let out = listing_page_outcome(Err(ScrapingError::MaxRetries));
    assert_eq!(out.metrics.total, 1);
    assert_eq!(out.metrics.successful, 0);
    assert_eq!(out.metrics.errors.max_retries, 1);
    assert!(out.result.as_ref().unwrap().is_empty());
}

#[test]
fn empty_bodies_are_invalid_pages() {
    assert_eq!(fetch_sim(&[200], ""), Err(ScrapingError::InvalidPage));
}

#[test]
fn anchors_with_broken_links_count_as_failures() {
    // One good anchor, one whose identifier is too short.
    let html = listing_html(&[("Alpha SpA", "IT0001234567"), ("Broken", "SHORT")]);
    let page = share_scraper::listing::parse_listing_page(&html);
    assert_eq!(page.metrics.total, 2);
    assert_eq!(page.metrics.successful, 1);
    assert_eq!(page.metrics.errors.parsing_error, 1);
    assert_eq!(page.result.as_ref().unwrap().len(), 1);
}

fn detail_html() -> &'static str {
    r#"<table>
      <tr><td><strong>Prezzo Ultimo Contratto</strong></td>
          <td><span class="t-text -right">1.234,56</span></td></tr>
    </table>"#
}

#[test]
fn detail_round_keeps_timed_out_items_as_identity_only() {
    let s1 = ShareIsin::new("Alpha SpA".to_string(), "IT0001234567".to_string()).unwrap();
    let s2 = ShareIsin::new("Beta SpA".to_string(), "IT0009876543".to_string()).unwrap();
    let s3 = ShareIsin::new("Gamma SpA".to_string(), "IT0005555555".to_string()).unwrap();

    let outcomes = vec![
        share_outcome(&s1, Ok(detail_html().to_string()), ExtractionStrategy::LabelMatching),
        // This fetch never completed within its deadline.
        share_outcome(&s2, Err(ScrapingError::Timeout), ExtractionStrategy::LabelMatching),
        share_outcome(&s3, Ok(detail_html().to_string()), ExtractionStrategy::LabelMatching),
    ];

    let mut collected = collect_share_outcomes(outcomes);
    assert_eq!(collected.metrics.total, 3);
    assert_eq!(collected.metrics.successful, 2);
    assert_eq!(collected.metrics.errors.timeout, 1);

    let shares = collected.unmetric();
    assert_eq!(shares.len(), 3);
    assert!(shares[0].price_data.prezzo_ultimo_contratto.is_some());
    // The timed-out security is present, identity populated, fields absent.
    assert_eq!(shares[1].share_id.share_name, "Beta SpA");
    assert_eq!(shares[1].share_details.isin, "IT0009876543");
    assert!(shares[1].price_data.prezzo_ultimo_contratto.is_none());
    assert!(shares[1].market_information.super_sector.is_none());
    assert!(shares[2].price_data.prezzo_ultimo_contratto.is_some());
}

#[test]
fn grid_covers_26_letters_times_5_pages() {
    let grid = listing_grid();
    assert_eq!(grid.len(), 130);
    assert_eq!(grid[0], ('A', 1));
    assert_eq!(grid[4], ('A', 5));
    assert_eq!(grid[5], ('B', 1));
    assert_eq!(grid[129], ('Z', 5));
}

#[test]
fn urls_follow_the_site_layout() {
    assert_eq!(
        listing_url('A', 2),
        "https://www.borsaitaliana.it/borsa/azioni/listino-a-z.html?initial=A&page=2&lang=it"
    );
    let isin = share_scraper::isin::Isin::parse("IT0001234567").unwrap();
    assert_eq!(
        share_scraper::details::detail_url(&isin),
        "https://www.borsaitaliana.it/borsa/azioni/dati-completi.html?isin=IT0001234567&lang=it"
    );
}

#[test]
fn merging_no_pages_yields_empty_zero_metrics() {
    let mut merged = merge_listing_results(Vec::new());
    assert_eq!(merged.metrics.total, 0);
    assert_eq!(merged.metrics.successful, 0);
    assert!(merged.unmetric().is_empty());
}

#[test]
fn collecting_no_outcomes_yields_empty_zero_metrics() {
    let mut collected = collect_share_outcomes(Vec::new());
    assert_eq!(collected.metrics.total, 0);
    assert!(collected.unmetric().is_empty());
}
