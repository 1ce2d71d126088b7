use share_scraper::query::{query_plan, QueryPlan, ShareQuery};

#[test]
fn builder_collects_fields() {
    let q = ShareQuery::builder()
        .name("Alpha".to_string())
        .isin("IT0001234567".to_string())
        .lang("IT".to_string())
        .build();
    assert_eq!(q.name.as_deref(), Some("Alpha"));
    assert_eq!(q.isin.as_deref(), Some("IT0001234567"));
    assert_eq!(q.lang.as_deref(), Some("IT"));
}

#[test]
fn constructors_fill_one_field() {
    let q = ShareQuery::from_isin("IT0001234567".to_string());
    assert_eq!(q.isin.as_deref(), Some("IT0001234567"));
    assert!(q.name.is_none() && q.lang.is_none());
    let q = ShareQuery::from_name("Alpha".to_string());
    assert_eq!(q.name.as_deref(), Some("Alpha"));
    let q = ShareQuery::from_lang("IT".to_string());
    assert_eq!(q.lang.as_deref(), Some("IT"));
    let q = ShareQuery::empty();
    assert!(q.isin.is_none() && q.name.is_none() && q.lang.is_none());
}

#[test]
fn identifier_filter_wins_over_everything() {
    let q = ShareQuery::new(
        Some("IT0001234567".to_string()),
        Some("Alpha".to_string()),
        Some("IT".to_string()),
    );
    assert!(matches!(query_plan(q), QueryPlan::ByIsin(s) if s == "IT0001234567"));
}

#[test]
fn remaining_filters_combine_name_and_prefix() {
    let q = ShareQuery::new(None, None, Some("IT".to_string()));
    assert!(matches!(query_plan(q), QueryPlan::ByLangPrefix(s) if s == "IT"));

    let q = ShareQuery::new(None, Some("Alpha".to_string()), Some("IT".to_string()));
    assert!(
        matches!(query_plan(q), QueryPlan::ByNameAndLang(n, l) if n == "Alpha" && l == "IT")
    );

    let q = ShareQuery::new(None, Some("Alpha".to_string()), None);
    assert!(matches!(query_plan(q), QueryPlan::ByName(n) if n == "Alpha"));

    let q = ShareQuery::empty();
    assert!(matches!(query_plan(q), QueryPlan::All));
}
