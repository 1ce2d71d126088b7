//! Page model and field extraction.
//!
//! A detail page is seen through two models, both produced by trusted
//! wrappers over the HTML crate and both plain data: the labeled rows of
//! every table (for the label-matching strategy) and the value cells of
//! the two column tables inside the data wrapper (for the positional
//! strategy).  Everything after that — locating a semantic field's cell
//! text — is verified code over those models.

use vstd::prelude::*;
use crate::text::{
    lower_of, lowercase, spec_contains, str_chars, str_eq, chars_to_string, find_char,
    find_first_char, copy_range, contains_sub, strip_one_prefix, digit_val,
};
use crate::numbers::int_scan;

verus! {

/// For each table row of the document, in document order: the text of its
/// first `strong` (label) element, and the first text of its first
/// right-aligned value cell.  The result of parsing `html` with the HTML
/// crate depends on that text alone.
pub uninterp spec fn labeled_rows_of(html: Seq<char>) -> Seq<(Option<Seq<char>>, Option<Seq<char>>)>;

/// For each column table under the detail-page data wrapper, in document
/// order: the first text of each of its right-aligned value cells.
pub uninterp spec fn positional_cells_of(html: Seq<char>) -> Seq<Seq<Option<Seq<char>>>>;

/// Relies on the scraper crate (`Html::parse_document`, CSS selectors):
/// one entry per `tr` of each `table`, with the concatenated text of the
/// row's first `strong` element and the first text node of the row's
/// first `span.t-text.-right` cell.
#[verifier::external_body]
pub(crate) fn labeled_rows(html: &str) -> (r: Vec<(Option<String>, Option<String>)>)
    ensures
        r.deep_view() == labeled_rows_of(html@),
{
    let doc = scraper::Html::parse_document(html);
    let t = scraper::Selector::parse("table").unwrap();
    let tr = scraper::Selector::parse("tr").unwrap();
    let st = scraper::Selector::parse("strong").unwrap();
    let vs = scraper::Selector::parse("span.t-text.-right").unwrap();
    doc.select(&t)
        .flat_map(|tb| tb.select(&tr).collect::<Vec<_>>())
        .map(|row| (
            row.select(&st).next().map(|e| e.text().collect::<String>()),
            row.select(&vs).next().and_then(|c| c.text().next()).map(String::from),
        ))
        .collect()
}

/// Relies on the scraper crate: under the first detail-page data wrapper
/// (`article.l-grid__cell div.l-box.-pb.-pt.h-bg--white`), for each
/// first-of-type table, the first text node of each `span.t-text.-right`
/// cell; nothing when the wrapper is missing.
#[verifier::external_body]
pub(crate) fn positional_cells(html: &str) -> (r: Vec<Vec<Option<String>>>)
    ensures
        r.deep_view() == positional_cells_of(html@),
{
    let doc = scraper::Html::parse_document(html);
    let w = scraper::Selector::parse("article.l-grid__cell div.l-box.-pb.-pt.h-bg--white").unwrap();
    let t = scraper::Selector::parse("table:nth-of-type(1)").unwrap();
    let vs = scraper::Selector::parse("span.t-text.-right").unwrap();
    match doc.select(&w).next() {
        None => Vec::new(),
        Some(wrap) => wrap.select(&t)
            .map(|tb| tb.select(&vs).map(|c| c.text().next().map(String::from)).collect())
            .collect(),
    }
}

/// Parses a detail page into the value-cell columns of the positional
/// strategy.
pub fn column_tables(html: &str) -> (r: Vec<Vec<Option<String>>>)
    ensures
        r.deep_view() == positional_cells_of(html@),
{
    positional_cells(html)
}

/// The semantic fields of a security detail page.
#[derive(Debug, Clone, Copy, PartialEq, Eq, Structural)]
pub enum Field {
    CodiceIsin,
    IdStrumento,
    CodiceAlfanumerico,
    SuperSector,
    MercatoSegmento,
    CapitalizzazioneDiMercato,
    LottoMinimo,
    FaseDiMercato,
    PrezzoUltimoContratto,
    VarPercentuale,
    VarAssoluta,
    PrMedioProgr,
    DataOraUltimoContratto,
    QuantitaUltimo,
    QuantitaTotale,
    NumeroContratti,
    Controvalore,
    MaxOggi,
    MaxAnno,
    MinOggi,
    MinAnno,
    ChiusuraPrecedente,
    PrezzoRiferimento,
    PrezzoUfficiale,
    AperturaOdierna,
    Performance1Mese,
    Performance6Mesi,
    Performance1Anno,
}

/// The label substrings that index a field under the label-matching
/// strategy; a row is the field's when its lowercased label contains one
/// of them.  The identifier field has none: it never comes from a label.
pub open spec fn spec_label_terms(f: Field) -> Seq<Seq<char>> {
    match f {
        Field::CodiceIsin => seq![],
        Field::IdStrumento => seq!["id strumento"@],
        Field::CodiceAlfanumerico => seq!["codice alfanumerico"@],
        Field::SuperSector => seq!["super sector"@],
        Field::MercatoSegmento => seq!["mercato/segmento"@],
        Field::CapitalizzazioneDiMercato => seq!["capitalizzazione di mercato"@],
        Field::LottoMinimo => seq!["lotto minimo"@],
        Field::FaseDiMercato => seq!["fase di mercato"@],
        Field::PrezzoUltimoContratto => seq!["prezzo ultimo contratto"@],
        Field::VarPercentuale => seq!["var %"@],
        Field::VarAssoluta => seq!["var assoluta"@],
        Field::PrMedioProgr => seq!["pr medio progr"@],
        Field::DataOraUltimoContratto => seq!["data - ora ultimo contratto:"@],
        Field::QuantitaUltimo => seq!["quantit\u{e0} ultimo"@],
        Field::QuantitaTotale => seq!["quantit\u{e0} totale"@],
        Field::NumeroContratti => seq!["numero contratti"@],
        Field::Controvalore => seq!["controvalore"@],
        Field::MaxOggi => seq!["max oggi"@],
        Field::MaxAnno => seq!["max anno"@],
        Field::MinOggi => seq!["min oggi"@],
        Field::MinAnno => seq!["min anno"@],
        Field::ChiusuraPrecedente => seq!["chiusura precedente/pre-chiusura/chiusura:"@],
        Field::PrezzoRiferimento => seq!["prezzo di riferimento"@],
        Field::PrezzoUfficiale => seq!["prezzo ufficiale"@],
        Field::AperturaOdierna => seq!["apertura odierna:"@],
        Field::Performance1Mese => seq!["performance 1 mese"@],
        Field::Performance6Mesi => seq!["performance 6 mesi"@],
        Field::Performance1Anno => seq!["performance 1 anno"@],
    }
}

/// Builds the label-term list of a field.
pub fn label_terms(f: Field) -> (r: Vec<String>)
    ensures
        r.deep_view() == spec_label_terms(f),
{
    let mut r: Vec<String> = Vec::new();
    match f {
        Field::CodiceIsin => {},
        Field::IdStrumento => r.push("id strumento".to_owned()),
        Field::CodiceAlfanumerico => r.push("codice alfanumerico".to_owned()),
        Field::SuperSector => r.push("super sector".to_owned()),
        Field::MercatoSegmento => r.push("mercato/segmento".to_owned()),
        Field::CapitalizzazioneDiMercato => r.push("capitalizzazione di mercato".to_owned()),
        Field::LottoMinimo => r.push("lotto minimo".to_owned()),
        Field::FaseDiMercato => r.push("fase di mercato".to_owned()),
        Field::PrezzoUltimoContratto => r.push("prezzo ultimo contratto".to_owned()),
        Field::VarPercentuale => r.push("var %".to_owned()),
        Field::VarAssoluta => r.push("var assoluta".to_owned()),
        Field::PrMedioProgr => r.push("pr medio progr".to_owned()),
        Field::DataOraUltimoContratto => r.push("data - ora ultimo contratto:".to_owned()),
        Field::QuantitaUltimo => r.push("quantit\u{e0} ultimo".to_owned()),
        Field::QuantitaTotale => r.push("quantit\u{e0} totale".to_owned()),
        Field::NumeroContratti => r.push("numero contratti".to_owned()),
        Field::Controvalore => r.push("controvalore".to_owned()),
        Field::MaxOggi => r.push("max oggi".to_owned()),
        Field::MaxAnno => r.push("max anno".to_owned()),
        Field::MinOggi => r.push("min oggi".to_owned()),
        Field::MinAnno => r.push("min anno".to_owned()),
        Field::ChiusuraPrecedente => r.push(
            "chiusura precedente/pre-chiusura/chiusura:".to_owned(),
        ),
        Field::PrezzoRiferimento => r.push("prezzo di riferimento".to_owned()),
        Field::PrezzoUfficiale => r.push("prezzo ufficiale".to_owned()),
        Field::AperturaOdierna => r.push("apertura odierna:".to_owned()),
        Field::Performance1Mese => r.push("performance 1 mese".to_owned()),
        Field::Performance6Mesi => r.push("performance 6 mesi".to_owned()),
        Field::Performance1Anno => r.push("performance 1 anno".to_owned()),
    }
    proof {
        assert(r.deep_view() =~~= spec_label_terms(f));
    }
    r
}

/// The `side_index` position tag of a field under the positional
/// strategy, e.g. `left_2`: the table (left or right column) and the
/// 1-based value cell within it.
pub open spec fn spec_field_tag(f: Field) -> Seq<char> {
    match f {
        Field::CodiceIsin => "left_1"@,
        Field::IdStrumento => "left_2"@,
        Field::CodiceAlfanumerico => "left_3"@,
        Field::SuperSector => "left_4"@,
        Field::MercatoSegmento => "left_5"@,
        Field::CapitalizzazioneDiMercato => "left_6"@,
        Field::LottoMinimo => "left_7"@,
        Field::FaseDiMercato => "left_8"@,
        Field::PrezzoUltimoContratto => "left_9"@,
        Field::VarPercentuale => "left_10"@,
        Field::VarAssoluta => "left_11"@,
        Field::PrMedioProgr => "left_12"@,
        Field::DataOraUltimoContratto => "left_13"@,
        Field::QuantitaUltimo => "left_14"@,
        Field::QuantitaTotale => "left_15"@,
        Field::NumeroContratti => "left_16"@,
        Field::Controvalore => "right_1"@,
        Field::MaxOggi => "right_2"@,
        Field::MaxAnno => "right_3"@,
        Field::MinOggi => "right_4"@,
        Field::MinAnno => "right_5"@,
        Field::ChiusuraPrecedente => "right_6"@,
        Field::PrezzoRiferimento => "right_7"@,
        Field::PrezzoUfficiale => "right_8"@,
        Field::AperturaOdierna => "right_9"@,
        Field::Performance1Mese => "right_10"@,
        Field::Performance6Mesi => "right_11"@,
        Field::Performance1Anno => "right_12"@,
    }
}

/// The position tag of a field.
pub fn field_tag(f: Field) -> (r: &'static str)
    ensures
        r@ == spec_field_tag(f),
{
    match f {
        Field::CodiceIsin => "left_1",
        Field::IdStrumento => "left_2",
        Field::CodiceAlfanumerico => "left_3",
        Field::SuperSector => "left_4",
        Field::MercatoSegmento => "left_5",
        Field::CapitalizzazioneDiMercato => "left_6",
        Field::LottoMinimo => "left_7",
        Field::FaseDiMercato => "left_8",
        Field::PrezzoUltimoContratto => "left_9",
        Field::VarPercentuale => "left_10",
        Field::VarAssoluta => "left_11",
        Field::PrMedioProgr => "left_12",
        Field::DataOraUltimoContratto => "left_13",
        Field::QuantitaUltimo => "left_14",
        Field::QuantitaTotale => "left_15",
        Field::NumeroContratti => "left_16",
        Field::Controvalore => "right_1",
        Field::MaxOggi => "right_2",
        Field::MaxAnno => "right_3",
        Field::MinOggi => "right_4",
        Field::MinAnno => "right_5",
        Field::ChiusuraPrecedente => "right_6",
        Field::PrezzoRiferimento => "right_7",
        Field::PrezzoUfficiale => "right_8",
        Field::AperturaOdierna => "right_9",
        Field::Performance1Mese => "right_10",
        Field::Performance6Mesi => "right_11",
        Field::Performance1Anno => "right_12",
    }
}

/// The field a property name denotes, if any.
pub open spec fn spec_field_from_prop(p: Seq<char>) -> Option<Field> {
    if p == "codice_isin"@ {
        Some(Field::CodiceIsin)
    } else if p == "id_strumento"@ {
        Some(Field::IdStrumento)
    } else if p == "codice_alfanumerico"@ {
        Some(Field::CodiceAlfanumerico)
    } else if p == "super_sector"@ {
        Some(Field::SuperSector)
    } else if p == "mercato_segmento"@ {
        Some(Field::MercatoSegmento)
    } else if p == "capitalizzazione_di_mercato"@ {
        Some(Field::CapitalizzazioneDiMercato)
    } else if p == "lotto_minimo"@ {
        Some(Field::LottoMinimo)
    } else if p == "fase_di_mercato"@ {
        Some(Field::FaseDiMercato)
    } else if p == "prezzo_ultimo_contratto"@ {
        Some(Field::PrezzoUltimoContratto)
    } else if p == "var_percentuale"@ {
        Some(Field::VarPercentuale)
    } else if p == "var_assoluta"@ {
        Some(Field::VarAssoluta)
    } else if p == "pr_medio_progr"@ {
        Some(Field::PrMedioProgr)
    } else if p == "data_ora_ultimo_contratto"@ {
        Some(Field::DataOraUltimoContratto)
    } else if p == "quantita_ultimo"@ {
        Some(Field::QuantitaUltimo)
    } else if p == "quantita_totale"@ {
        Some(Field::QuantitaTotale)
    } else if p == "numero_contratti"@ {
        Some(Field::NumeroContratti)
    } else if p == "controvalore"@ {
        Some(Field::Controvalore)
    } else if p == "max_oggi"@ {
        Some(Field::MaxOggi)
    } else if p == "max_anno"@ {
        Some(Field::MaxAnno)
    } else if p == "min_oggi"@ {
        Some(Field::MinOggi)
    } else if p == "min_anno"@ {
        Some(Field::MinAnno)
    } else if p == "chiusura_precedente"@ {
        Some(Field::ChiusuraPrecedente)
    } else if p == "prezzo_riferimento"@ {
        Some(Field::PrezzoRiferimento)
    } else if p == "prezzo_ufficiale"@ {
        Some(Field::PrezzoUfficiale)
    } else if p == "apertura_odierna"@ {
        Some(Field::AperturaOdierna)
    } else if p == "performance_1_mese"@ {
        Some(Field::Performance1Mese)
    } else if p == "performance_6_mesi"@ {
        Some(Field::Performance6Mesi)
    } else if p == "performance_1_anno"@ {
        Some(Field::Performance1Anno)
    } else {
        None
    }
}

/// Resolves a property name to its field.
pub fn field_from_prop(prop: &str) -> (r: Option<Field>)
    ensures
        r == spec_field_from_prop(prop@),
{
    if str_eq(prop, "codice_isin") {
        Some(Field::CodiceIsin)
    } else if str_eq(prop, "id_strumento") {
        Some(Field::IdStrumento)
    } else if str_eq(prop, "codice_alfanumerico") {
        Some(Field::CodiceAlfanumerico)
    } else if str_eq(prop, "super_sector") {
        Some(Field::SuperSector)
    } else if str_eq(prop, "mercato_segmento") {
        Some(Field::MercatoSegmento)
    } else if str_eq(prop, "capitalizzazione_di_mercato") {
        Some(Field::CapitalizzazioneDiMercato)
    } else if str_eq(prop, "lotto_minimo") {
        Some(Field::LottoMinimo)
    } else if str_eq(prop, "fase_di_mercato") {
        Some(Field::FaseDiMercato)
    } else if str_eq(prop, "prezzo_ultimo_contratto") {
        Some(Field::PrezzoUltimoContratto)
    } else if str_eq(prop, "var_percentuale") {
        Some(Field::VarPercentuale)
    } else if str_eq(prop, "var_assoluta") {
        Some(Field::VarAssoluta)
    } else if str_eq(prop, "pr_medio_progr") {
        Some(Field::PrMedioProgr)
    } else if str_eq(prop, "data_ora_ultimo_contratto") {
        Some(Field::DataOraUltimoContratto)
    } else if str_eq(prop, "quantita_ultimo") {
        Some(Field::QuantitaUltimo)
    } else if str_eq(prop, "quantita_totale") {
        Some(Field::QuantitaTotale)
    } else if str_eq(prop, "numero_contratti") {
        Some(Field::NumeroContratti)
    } else if str_eq(prop, "controvalore") {
        Some(Field::Controvalore)
    } else if str_eq(prop, "max_oggi") {
        Some(Field::MaxOggi)
    } else if str_eq(prop, "max_anno") {
        Some(Field::MaxAnno)
    } else if str_eq(prop, "min_oggi") {
        Some(Field::MinOggi)
    } else if str_eq(prop, "min_anno") {
        Some(Field::MinAnno)
    } else if str_eq(prop, "chiusura_precedente") {
        Some(Field::ChiusuraPrecedente)
    } else if str_eq(prop, "prezzo_riferimento") {
        Some(Field::PrezzoRiferimento)
    } else if str_eq(prop, "prezzo_ufficiale") {
        Some(Field::PrezzoUfficiale)
    } else if str_eq(prop, "apertura_odierna") {
        Some(Field::AperturaOdierna)
    } else if str_eq(prop, "performance_1_mese") {
        Some(Field::Performance1Mese)
    } else if str_eq(prop, "performance_6_mesi") {
        Some(Field::Performance6Mesi)
    } else if str_eq(prop, "performance_1_anno") {
        Some(Field::Performance1Anno)
    } else {
        None
    }
}

/// The table index and 0-based cell index a `side_index` tag denotes:
/// `left` is table 0, `right` table 1; the index part is 1-based.  Tags
/// whose index is `0`, unparsable, or with an unknown side denote nothing.
pub open spec fn spec_parse_row_str(s: Seq<char>) -> Option<(int, int)> {
    match find_char(s, '_') {
        None => None,
        Some(i) => {
            let side = s.subrange(0, i);
            let row_str = s.subrange(i + 1, s.len() as int);
            match int_scan(strip_one_prefix(row_str, '+'), 0, 0, 0) {
                None => None,
                Some(row) => if row >= 1 {
                    if side == "left"@ {
                        Some((0, row - 1))
                    } else if side == "right"@ {
                        Some((1, row - 1))
                    } else {
                        None
                    }
                } else {
                    None
                },
            }
        },
    }
}

/// Parses a plain unsigned integer (optional `+`, then digits).
fn parse_plain_usize(v: &Vec<char>) -> (r: Option<usize>)
    ensures
        r is Some <==> (int_scan(strip_one_prefix(v@, '+'), 0, 0, 0) matches Some(t) && t
            <= usize::MAX),
        r matches Some(n) ==> int_scan(strip_one_prefix(v@, '+'), 0, 0, 0) == Some(n as int),
{
    let body = crate::text::strip_prefix_char(v, '+');
    let mut i: usize = 0;
    let mut acc: usize = 0;
    let mut digits: usize = 0;
    #[verifier::loop_isolation(false)]
    while i < body.len()
        invariant
            i <= body@.len(),
            digits <= i,
            int_scan(body@, 0, 0, 0) == int_scan(body@, i as int, acc as int, digits as int),
        decreases body@.len() - i,
    {
        let c = body[i];
        if crate::text::check_digit_char(c) {
            let d: usize = ((c as u32) - 48) as usize;
            let next_acc = match acc.checked_mul(10) {
                Some(m) => m.checked_add(d),
                None => None,
            };
            match next_acc {
                Some(a) => {
                    acc = a;
                    digits = digits + 1;
                },
                None => {
                    proof {
                        crate::numbers::lemma_int_scan_monotone(
                            body@,
                            i + 1,
                            acc * 10 + digit_val(body@[i as int]),
                            digits + 1,
                        );
                    }
                    return None;
                },
            }
        } else {
            return None;
        }
        i = i + 1;
    }
    if digits >= 1 {
        Some(acc)
    } else {
        None
    }
}

/// Parses a `side_index` position tag.
pub fn parse_row_str(raw: &str) -> (r: Option<(usize, usize)>)
    ensures
        r is Some <==> (spec_parse_row_str(raw@) matches Some(t) && t.1 + 1 <= usize::MAX),
        r matches Some(p) ==> spec_parse_row_str(raw@) == Some((p.0 as int, p.1 as int)),
{
    let v = str_chars(raw);
    let n = v.len();
    let i = match find_first_char(&v, '_') {
        Some(i) => i,
        None => {
            return None;
        },
    };
    let side = copy_range(&v, 0, i);
    let row_chars = copy_range(&v, i + 1, n);
    let row = match parse_plain_usize(&row_chars) {
        Some(row) => row,
        None => {
            return None;
        },
    };
    if row == 0 {
        return None;
    }
    let side_str = chars_to_string(&side);
    if str_eq(side_str.as_str(), "left") {
        Some((0, row - 1))
    } else if str_eq(side_str.as_str(), "right") {
        Some((1, row - 1))
    } else {
        None
    }
}

/// The cell text the positional strategy yields for a field, given the
/// column tables' cells.
pub open spec fn spec_select_field(f: Field, tables: Seq<Seq<Option<Seq<char>>>>) -> Option<
    Seq<char>,
> {
    match spec_parse_row_str(spec_field_tag(f)) {
        None => None,
        Some(p) => {
            if 0 <= p.0 < tables.len() && 0 <= p.1 < tables[p.0].len() {
                tables[p.0][p.1]
            } else {
                None
            }
        },
    }
}

/// Copies an optional cell text.
pub fn clone_cell(cell: &Option<String>) -> (r: Option<String>)
    ensures
        r.deep_view() == cell.deep_view(),
{
    match cell {
        Some(s) => Some(s.clone()),
        None => None,
    }
}

/// Looks a field up by its position among the column tables' cells.
pub fn select_field(f: Field, tables: &Vec<Vec<Option<String>>>) -> (r: Option<String>)
    ensures
        r.deep_view() == spec_select_field(f, tables.deep_view()),
{
    let tag = field_tag(f);
    match parse_row_str(tag) {
        None => {
            proof {
                if spec_parse_row_str(spec_field_tag(f)) is Some {
                    let t = spec_parse_row_str(spec_field_tag(f))->Some_0;
                    if 0 <= t.0 < tables.deep_view().len() {
                        let tv = tables@[t.0];
                        vstd::std_specs::vec::axiom_spec_len(&tv);
                        assert(tables.deep_view()[t.0] == tv.deep_view());
                    }
                }
            }
            None
        },
        Some(p) => {
            if p.0 < tables.len() {
                let row = &tables[p.0];
                if p.1 < row.len() {
                    clone_cell(&row[p.1])
                } else {
                    None
                }
            } else {
                None
            }
        },
    }
}

/// Looks a property up by name under the positional strategy.
pub fn select_for_prop(prop: &str, tables: &Vec<Vec<Option<String>>>) -> (r: Option<String>)
    ensures
        r.deep_view() == match spec_field_from_prop(prop@) {
            None => None::<Seq<char>>,
            Some(f) => spec_select_field(f, tables.deep_view()),
        },
{
    match field_from_prop(prop) {
        None => None,
        Some(f) => select_field(f, tables),
    }
}

/// A row is a field's under the label-matching strategy when it has a
/// label whose lowercased text contains one of the field's terms.
pub open spec fn row_matches(
    row: (Option<Seq<char>>, Option<Seq<char>>),
    terms: Seq<Seq<char>>,
) -> bool {
    match row.0 {
        None => false,
        Some(label) => exists|i: int|
            0 <= i < terms.len() && spec_contains(lower_of(label), terms[i]),
    }
}

/// The cell text the label-matching strategy yields: the first value cell
/// of the last matching row, as the label index is overwritten by later
/// rows.
pub open spec fn labeled_cell(
    rows: Seq<(Option<Seq<char>>, Option<Seq<char>>)>,
    terms: Seq<Seq<char>>,
) -> Option<Seq<char>>
    decreases rows.len(),
{
    if rows.len() == 0 {
        None
    } else if row_matches(rows.last(), terms) {
        rows.last().1
    } else {
        labeled_cell(rows.drop_last(), terms)
    }
}

/// Checks whether a row's lowercased label contains one of the terms.
fn row_matches_exec(row: &(Option<String>, Option<String>), terms: &Vec<String>) -> (r: bool)
    ensures
        r == row_matches(
            (row.0.deep_view(), row.1.deep_view()),
            terms.deep_view(),
        ),
{
    let label = match &row.0 {
        None => {
            return false;
        },
        Some(label) => label,
    };
    let lowered = lowercase(label.as_str());
    let hay = str_chars(lowered.as_str());
    let mut i: usize = 0;
    #[verifier::loop_isolation(false)]
    while i < terms.len()
        invariant
            i <= terms@.len(),
            forall|k: int|
                0 <= k < i ==> !spec_contains(lower_of(label@), terms.deep_view()[k]),
        decreases terms@.len() - i,
    {
        let term = str_chars(terms[i].as_str());
        if contains_sub(&hay, &term) {
            proof {
                assert(terms.deep_view()[i as int] == terms@[i as int]@);
                assert(spec_contains(lower_of(label@), terms.deep_view()[i as int]));
            }
            return true;
        }
        i = i + 1;
    }
    false
}

/// The label-matching extractor: the labeled rows of a detail page.
pub struct PropertySelector {
    rows: Vec<(Option<String>, Option<String>)>,
}

impl PropertySelector {
    /// The rows as the specification sees them.
    pub closed spec fn view_rows(self) -> Seq<(Option<Seq<char>>, Option<Seq<char>>)> {
        self.rows.deep_view()
    }

    /// Builds the extractor over a page's labeled rows.
    pub fn new(rows: Vec<(Option<String>, Option<String>)>) -> (r: Self)
        ensures
            r.view_rows() == rows.deep_view(),
    {
        PropertySelector { rows }
    }

    /// Builds the extractor straight from a detail page.
    pub fn from_html(html: &str) -> (r: Self)
        ensures
            r.view_rows() == labeled_rows_of(html@),
    {
        PropertySelector::new(labeled_rows(html))
    }

    /// The cell text of a field.
    pub fn get_field(&self, f: Field) -> (r: Option<String>)
        ensures
            r.deep_view() == labeled_cell(self.view_rows(), spec_label_terms(f)),
    {
        let terms = label_terms(f);
        let mut j: usize = self.rows.len();
        proof {
            assert(self.view_rows().take(j as int) =~= self.view_rows());
        }
        #[verifier::loop_isolation(false)]
        while j > 0
            invariant
                j <= self.rows@.len(),
                labeled_cell(self.view_rows(), spec_label_terms(f)) == labeled_cell(
                    self.view_rows().take(j as int),
                    spec_label_terms(f),
                ),
            decreases j,
        {
            let row = &self.rows[j - 1];
            proof {
                assert(self.view_rows().take(j as int).last() == self.view_rows()[j - 1]);
                assert(self.view_rows()[j - 1] == (row.0.deep_view(), row.1.deep_view()));
                assert(self.view_rows().take(j as int).drop_last() =~= self.view_rows().take(
                    j - 1,
                ));
            }
            if row_matches_exec(row, &terms) {
                return clone_cell(&row.1);
            }
            j = j - 1;
        }
        None
    }

    /// The cell text of a property, by name.
    pub fn get_property(&self, prop: &str) -> (r: Option<String>)
        ensures
            r.deep_view() == match spec_field_from_prop(prop@) {
                None => None::<Seq<char>>,
                Some(f) => labeled_cell(self.view_rows(), spec_label_terms(f)),
            },
    {
        match field_from_prop(prop) {
            None => None,
            Some(f) => self.get_field(f),
        }
    }
}

/// One pluggable extractor with the two interchangeable strategies.
pub enum FieldExtractor {
    /// Label matching over the page's labeled rows.
    Labels(PropertySelector),
    /// Fixed positions among the column tables' cells.
    Positions(Vec<Vec<Option<String>>>),
}

impl FieldExtractor {
    /// The cell text this extractor yields for a field.
    pub open spec fn spec_get(self, f: Field) -> Option<Seq<char>> {
        match self {
            FieldExtractor::Labels(ps) => labeled_cell(ps.view_rows(), spec_label_terms(f)),
            FieldExtractor::Positions(tables) => spec_select_field(f, tables.deep_view()),
        }
    }

    /// Looks a field's cell text up.
    pub fn get(&self, f: Field) -> (r: Option<String>)
        ensures
            r.deep_view() == self.spec_get(f),
    {
        match self {
            FieldExtractor::Labels(ps) => ps.get_field(f),
            FieldExtractor::Positions(tables) => select_field(f, tables),
        }
    }
}

} // verus!
