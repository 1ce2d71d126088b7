use share_scraper::dates::{Date, DateTime, Time};
use share_scraper::details::{parse_share_page, ExtractionStrategy};
use share_scraper::isin::ShareIsin;
use share_scraper::numbers::Decimal;
use share_scraper::page::{column_tables, parse_row_str, select_for_prop, PropertySelector};
use share_scraper::records::{PriceDateReference, PriceDateTimeReference};

fn detail_page() -> &'static str {
    r#"<html><body>
    <table>
      <tr><td><strong>Super Sector</strong></td>
          <td><span class="t-text -right">Technology</span></td></tr>
      <tr><td><strong>Prezzo Ultimo Contratto</strong></td>
          <td><span class="t-text -right">1.234,56</span></td></tr>
      <tr><td><strong>Var %</strong></td>
          <td><span class="t-text -right">-3,21%</span></td></tr>
      <tr><td><strong>Numero Contratti</strong></td>
          <td><span class="t-text -right">1.234</span></td></tr>
      <tr><td><strong>Data - Ora Ultimo Contratto:</strong></td>
          <td><span class="t-text -right">29/11/24 16.07.46</span></td></tr>
    </table>
    <table>
      <tr><td><strong>Max Anno</strong></td>
          <td><span class="t-text -right">2,50 - 01/02/24</span></td></tr>
      <tr><td><strong>Prezzo di Riferimento</strong></td>
          <td><span class="t-text -right">1.234,56-29/11/24 16.07.46</span></td></tr>
    </table>
    </body></html>"#
}

fn security() -> ShareIsin {
    ShareIsin::new("Alpha SpA".to_string(), "IT0001234567".to_string()).unwrap()
}

#[test]
fn label_matching_finds_rows_case_insensitively() {
    let ps = PropertySelector::from_html(detail_page());
    assert_eq!(ps.get_property("super_sector").as_deref(), Some("Technology"));
    assert_eq!(
        ps.get_property("prezzo_ultimo_contratto").as_deref(),
        Some("1.234,56")
    );
    assert_eq!(ps.get_property("var_percentuale").as_deref(), Some("-3,21%"));
    assert_eq!(ps.get_property("max_oggi"), None);
    assert_eq!(ps.get_property("not_a_field"), None);
}

#[test]
fn later_rows_overwrite_earlier_ones_in_the_label_index() {
    let html = r#"<table>
      <tr><td><strong>Max Oggi</strong></td>
          <td><span class="t-text -right">1,0</span></td></tr>
      <tr><td><strong>Max Oggi</strong></td>
          <td><span class="t-text -right">2,0</span></td></tr>
    </table>"#;
    let ps = PropertySelector::from_html(html);
    assert_eq!(ps.get_property("max_oggi").as_deref(), Some("2,0"));
}

#[test]
fn rows_without_labels_or_cells_resolve_to_nothing() {
    let html = r#"<table>
      <tr><td>plain</td><td><span class="t-text -right">ignored</span></td></tr>
      <tr><td><strong>Max Oggi</strong></td><td>no value cell</td></tr>
    </table>"#;
    let ps = PropertySelector::from_html(html);
    assert_eq!(ps.get_property("max_oggi"), None);
}

#[test]
fn full_share_assembly_under_label_matching() {
    let share = parse_share_page(detail_page(), &security(), ExtractionStrategy::LabelMatching);
    assert_eq!(share.share_details.isin, "IT0001234567");
    assert_eq!(share.market_information.super_sector.as_deref(), Some("Technology"));
    assert_eq!(
        share.price_data.prezzo_ultimo_contratto,
        Some(Decimal::new(false, 123456, 2))
    );
    assert_eq!(share.price_data.var_percentuale, Some(Decimal::new(true, 321, 2)));
    assert_eq!(share.price_data.numero_contratti, Some(1234));
    assert_eq!(
        share.price_data.data_ora_ultimo_contratto,
        Some(DateTime {
            date: Date { year: 2024, month: 11, day: 29 },
            time: Time { hour: 16, minute: 7, second: 46 },
        })
    );
    assert_eq!(
        share.price_data.max_anno,
        Some(PriceDateReference {
            price: Some(Decimal::new(false, 250, 2)),
            date: Some(Date { year: 2024, month: 2, day: 1 }),
        })
    );
    assert_eq!(
        share.price_data.prezzo_riferimento,
        Some(PriceDateTimeReference {
            price: Some(Decimal::new(false, 123456, 2)),
            datetime: Some(DateTime {
                date: Date { year: 2024, month: 11, day: 29 },
                time: Time { hour: 16, minute: 7, second: 46 },
            }),
        })
    );
    // Fields the page does not carry stay absent.
    assert_eq!(share.price_data.max_oggi, None);
    assert_eq!(share.performance_metrics.performance_1_anno, None);
}

fn positional_page() -> &'static str {
    r#"<article class="l-grid__cell"><div class="l-box -pb -pt h-bg--white">
    <div><table>
      <tr><td><span class="t-text -right">IT0001234567</span></td></tr>
      <tr><td><span class="t-text -right">123,45</span></td></tr>
    </table></div>
    <div><table>
      <tr><td><span class="t-text -right">9.876,5</span></td></tr>
      <tr><td><span class="t-text -right">55,5</span></td></tr>
    </table></div>
    </div></article>"#
}

#[test]
fn positional_strategy_indexes_by_side_and_order() {
    let tables = column_tables(positional_page());
    assert_eq!(
        select_for_prop("codice_isin", &tables).as_deref(),
        Some("IT0001234567")
    );
    assert_eq!(select_for_prop("id_strumento", &tables).as_deref(), Some("123,45"));
    assert_eq!(select_for_prop("controvalore", &tables).as_deref(), Some("9.876,5"));
    assert_eq!(select_for_prop("max_oggi", &tables).as_deref(), Some("55,5"));
    assert_eq!(select_for_prop("max_anno", &tables), None);
    assert_eq!(select_for_prop("bogus", &tables), None);
}

#[test]
fn positional_share_assembly() {
    let share = parse_share_page(
        positional_page(),
        &security(),
        ExtractionStrategy::Positional,
    );
    assert_eq!(share.share_details.id_strumento, Some(Decimal::new(false, 12345, 2)));
    assert_eq!(share.price_data.controvalore, Some(Decimal::new(false, 98765, 1)));
    assert_eq!(share.price_data.max_oggi, Some(Decimal::new(false, 555, 1)));
    assert_eq!(share.price_data.prezzo_ultimo_contratto, None);
}

#[test]
fn a_page_without_the_wrapper_yields_nothing_positionally() {
    let tables = column_tables("<html><body><p>maintenance</p></body></html>");
    assert!(tables.is_empty());
    assert_eq!(select_for_prop("codice_isin", &tables), None);
}

#[test]
fn position_tags_parse_one_based() {
    assert_eq!(parse_row_str("left_1"), Some((0, 0)));
    assert_eq!(parse_row_str("right_12"), Some((1, 11)));
    assert_eq!(parse_row_str("left_0"), None);
    assert_eq!(parse_row_str("middle_3"), None);
    assert_eq!(parse_row_str("left3"), None);
    assert_eq!(parse_row_str("left_x"), None);
}
