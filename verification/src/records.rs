//! The security aggregate and its sub-records.
//!
//! Every scalar on the detail page is optional: a field that cannot be
//! located or parsed is absent, never a default and never an error.  Each
//! sub-record carries the identifier string and a creation timestamp; the
//! identity-only aggregate (all fields absent) stands in whenever a page
//! could not be fetched or parsed at all.

use vstd::prelude::*;
use crate::dates::{Date, DateTime, now_utc, spec_parse_date, spec_parse_datetime};
use crate::isin::ShareIsin;
use crate::numbers::{Decimal, spec_parse_numeric, spec_parse_int, parse_numeric_chars,
    parse_int_chars};
use crate::page::{Field, FieldExtractor, clone_cell};
use crate::text::{spec_split_once, spec_trim, str_chars, split_once, trim};

verus! {

/// A price paired with the date it refers to; either side may be absent.
#[derive(Debug, Clone, Copy, PartialEq, Eq, Structural)]
pub struct PriceDateReference {
    pub price: Option<Decimal>,
    pub date: Option<Date>,
}

/// A price paired with the timestamp it refers to.
#[derive(Debug, Clone, Copy, PartialEq, Eq, Structural)]
pub struct PriceDateTimeReference {
    pub price: Option<Decimal>,
    pub datetime: Option<DateTime>,
}

/// A parsed number, when it fits the counter types.
pub open spec fn fit_decimal(t: Option<(bool, int, int)>) -> Option<Decimal> {
    match t {
        None => None,
        Some(p) => if p.1 <= u64::MAX && p.2 <= u32::MAX {
            Some(Decimal { negative: p.0, unscaled: p.1 as u64, scale: p.2 as u32 })
        } else {
            None
        },
    }
}

/// The decimal a cell's text denotes, if any.
pub open spec fn spec_decimal_cell(o: Option<Seq<char>>) -> Option<Decimal> {
    match o {
        None => None,
        Some(s) => fit_decimal(spec_parse_numeric(s)),
    }
}

/// The unsigned integer a cell's text denotes, if any.
pub open spec fn spec_u64_cell(o: Option<Seq<char>>) -> Option<u64> {
    match o {
        None => None,
        Some(s) => match spec_parse_int(s) {
            None => None,
            Some(t) => if t <= u64::MAX {
                Some(t as u64)
            } else {
                None
            },
        },
    }
}

/// The timestamp a cell's text denotes, if any.
pub open spec fn spec_datetime_cell(o: Option<Seq<char>>) -> Option<DateTime> {
    match o {
        None => None,
        Some(s) => spec_parse_datetime(s),
    }
}

/// The price-and-date pair a cell's text denotes: the text splits at the
/// first `" - "`, each side parsed on its own and absent when it fails.
pub open spec fn spec_price_date_cell(o: Option<Seq<char>>) -> Option<PriceDateReference> {
    match o {
        None => None,
        Some(s) => match spec_split_once(s, " - "@) {
            None => None,
            Some(p) => Some(
                PriceDateReference {
                    price: fit_decimal(spec_parse_numeric(p.0)),
                    date: spec_parse_date(p.1),
                },
            ),
        },
    }
}

/// The price-and-timestamp pair a cell's text denotes: the text splits at
/// the first `-`, both sides trimmed, each parsed on its own.
pub open spec fn spec_price_datetime_cell(o: Option<Seq<char>>) -> Option<
    PriceDateTimeReference,
> {
    match o {
        None => None,
        Some(s) => match spec_split_once(s, seq!['-']) {
            None => None,
            Some(p) => Some(
                PriceDateTimeReference {
                    price: fit_decimal(spec_parse_numeric(p.0)),
                    datetime: spec_parse_datetime(spec_trim(p.1)),
                },
            ),
        },
    }
}

/// Parses a cell as a decimal.
pub fn decimal_cell(o: &Option<String>) -> (r: Option<Decimal>)
    ensures
        r == spec_decimal_cell(o.deep_view()),
{
    match o {
        None => None,
        Some(s) => {
            let v = str_chars(s.as_str());
            parse_numeric_chars(&v)
        },
    }
}

/// Parses a cell as an unsigned integer.
pub fn u64_cell(o: &Option<String>) -> (r: Option<u64>)
    ensures
        r == spec_u64_cell(o.deep_view()),
{
    match o {
        None => None,
        Some(s) => {
            let v = str_chars(s.as_str());
            parse_int_chars(&v)
        },
    }
}

/// Parses a cell as a timestamp.
pub fn datetime_cell(o: &Option<String>) -> (r: Option<DateTime>)
    ensures
        r == spec_datetime_cell(o.deep_view()),
{
    match o {
        None => None,
        Some(s) => {
            let v = str_chars(s.as_str());
            crate::dates::parse_datetime(&v)
        },
    }
}

/// Parses a cell as a price-and-date pair.
pub fn price_date_cell(o: &Option<String>) -> (r: Option<PriceDateReference>)
    ensures
        r == spec_price_date_cell(o.deep_view()),
{
    match o {
        None => None,
        Some(s) => {
            let v = str_chars(s.as_str());
            let sep = str_chars(" - ");
            match split_once(&v, &sep) {
                None => None,
                Some(p) => Some(
                    PriceDateReference {
                        price: parse_numeric_chars(&p.0),
                        date: crate::dates::parse_date(&p.1),
                    },
                ),
            }
        },
    }
}

/// Parses a cell as a price-and-timestamp pair.
pub fn price_datetime_cell(o: &Option<String>) -> (r: Option<PriceDateTimeReference>)
    ensures
        r == spec_price_datetime_cell(o.deep_view()),
{
    match o {
        None => None,
        Some(s) => {
            let v = str_chars(s.as_str());
            let mut sep: Vec<char> = Vec::new();
            sep.push('-');
            proof {
                assert(sep@ =~= seq!['-']);
            }
            match split_once(&v, &sep) {
                None => None,
                Some(p) => {
                    let right = trim(&p.1);
                    Some(
                        PriceDateTimeReference {
                            price: parse_numeric_chars(&p.0),
                            datetime: crate::dates::parse_datetime(&right),
                        },
                    )
                },
            }
        },
    }
}

/// Instrument code fields.
#[derive(Debug, Clone)]
pub struct ShareDetails {
    pub isin: String,
    pub id_strumento: Option<Decimal>,
    pub codice_alfanumerico: Option<String>,
    pub updated_at: DateTime,
}

/// Sector, segment, capitalization and lot size.
#[derive(Debug, Clone)]
pub struct MarketInformation {
    pub isin: String,
    pub super_sector: Option<String>,
    pub mercato_segmento: Option<String>,
    pub capitalizzazione_di_mercato: Option<Decimal>,
    pub lotto_minimo: Option<Decimal>,
    pub updated_at: DateTime,
}

/// Live pricing: last trade, highs and lows, reference prices, volumes.
#[derive(Debug, Clone)]
pub struct PriceData {
    pub isin: String,
    pub fase_di_mercato: Option<String>,
    pub prezzo_ultimo_contratto: Option<Decimal>,
    pub var_percentuale: Option<Decimal>,
    pub var_assoluta: Option<Decimal>,
    pub pr_medio_progr: Option<Decimal>,
    pub data_ora_ultimo_contratto: Option<DateTime>,
    pub quantita_ultimo: Option<Decimal>,
    pub quantita_totale: Option<Decimal>,
    pub numero_contratti: Option<u64>,
    pub controvalore: Option<Decimal>,
    pub max_oggi: Option<Decimal>,
    pub max_anno: Option<PriceDateReference>,
    pub min_oggi: Option<Decimal>,
    pub min_anno: Option<PriceDateReference>,
    pub chiusura_precedente: Option<Decimal>,
    pub prezzo_riferimento: Option<PriceDateTimeReference>,
    pub prezzo_ufficiale: Option<PriceDateReference>,
    pub apertura_odierna: Option<Decimal>,
    pub updated_at: DateTime,
}

/// Percentage returns over one month, six months and one year.
#[derive(Debug, Clone)]
pub struct PerformanceMetrics {
    pub isin: String,
    pub performance_1_mese: Option<Decimal>,
    pub performance_6_mesi: Option<Decimal>,
    pub performance_1_anno: Option<Decimal>,
    pub updated_at: DateTime,
}

/// `r` holds exactly what the extractor yields for the detail fields.
pub open spec fn details_models(
    r: ShareDetails,
    isin_s: Seq<char>,
    get: spec_fn(Field) -> Option<Seq<char>>,
) -> bool {
    &&& r.isin@ == isin_s
    &&& r.id_strumento == spec_decimal_cell(get(Field::IdStrumento))
    &&& r.codice_alfanumerico.deep_view() == get(Field::CodiceAlfanumerico)
    &&& r.updated_at.wf()
}

/// `r` is the identity-only detail record.
pub open spec fn details_empty(r: ShareDetails, isin_s: Seq<char>) -> bool {
    &&& r.isin@ == isin_s
    &&& r.id_strumento is None
    &&& r.codice_alfanumerico is None
    &&& r.updated_at.wf()
}

pub open spec fn market_models(
    r: MarketInformation,
    isin_s: Seq<char>,
    get: spec_fn(Field) -> Option<Seq<char>>,
) -> bool {
    &&& r.isin@ == isin_s
    &&& r.super_sector.deep_view() == get(Field::SuperSector)
    &&& r.mercato_segmento.deep_view() == get(Field::MercatoSegmento)
    &&& r.capitalizzazione_di_mercato == spec_decimal_cell(
        get(Field::CapitalizzazioneDiMercato),
    )
    &&& r.lotto_minimo == spec_decimal_cell(get(Field::LottoMinimo))
    &&& r.updated_at.wf()
}

pub open spec fn market_empty(r: MarketInformation, isin_s: Seq<char>) -> bool {
    &&& r.isin@ == isin_s
    &&& r.super_sector is None
    &&& r.mercato_segmento is None
    &&& r.capitalizzazione_di_mercato is None
    &&& r.lotto_minimo is None
    &&& r.updated_at.wf()
}

pub open spec fn price_models(
    r: PriceData,
    isin_s: Seq<char>,
    get: spec_fn(Field) -> Option<Seq<char>>,
) -> bool {
    &&& r.isin@ == isin_s
    &&& r.fase_di_mercato.deep_view() == get(Field::FaseDiMercato)
    &&& r.prezzo_ultimo_contratto == spec_decimal_cell(get(Field::PrezzoUltimoContratto))
    &&& r.var_percentuale == spec_decimal_cell(get(Field::VarPercentuale))
    &&& r.var_assoluta == spec_decimal_cell(get(Field::VarAssoluta))
    &&& r.pr_medio_progr == spec_decimal_cell(get(Field::PrMedioProgr))
    &&& r.data_ora_ultimo_contratto == spec_datetime_cell(
        get(Field::DataOraUltimoContratto),
    )
    &&& r.quantita_ultimo == spec_decimal_cell(get(Field::QuantitaUltimo))
    &&& r.quantita_totale == spec_decimal_cell(get(Field::QuantitaTotale))
    &&& r.numero_contratti == spec_u64_cell(get(Field::NumeroContratti))
    &&& r.controvalore == spec_decimal_cell(get(Field::Controvalore))
    &&& r.max_oggi == spec_decimal_cell(get(Field::MaxOggi))
    &&& r.max_anno == spec_price_date_cell(get(Field::MaxAnno))
    &&& r.min_oggi == spec_decimal_cell(get(Field::MinOggi))
    &&& r.min_anno == spec_price_date_cell(get(Field::MinAnno))
    &&& r.chiusura_precedente == spec_decimal_cell(get(Field::ChiusuraPrecedente))
    &&& r.prezzo_riferimento == spec_price_datetime_cell(get(Field::PrezzoRiferimento))
    &&& r.prezzo_ufficiale == spec_price_date_cell(get(Field::PrezzoUfficiale))
    &&& r.apertura_odierna == spec_decimal_cell(get(Field::AperturaOdierna))
    &&& r.updated_at.wf()
}

pub open spec fn price_empty(r: PriceData, isin_s: Seq<char>) -> bool {
    &&& r.isin@ == isin_s
    &&& r.fase_di_mercato is None
    &&& r.prezzo_ultimo_contratto is None
    &&& r.var_percentuale is None
    &&& r.var_assoluta is None
    &&& r.pr_medio_progr is None
    &&& r.data_ora_ultimo_contratto is None
    &&& r.quantita_ultimo is None
    &&& r.quantita_totale is None
    &&& r.numero_contratti is None
    &&& r.controvalore is None
    &&& r.max_oggi is None
    &&& r.max_anno is None
    &&& r.min_oggi is None
    &&& r.min_anno is None
    &&& r.chiusura_precedente is None
    &&& r.prezzo_riferimento is None
    &&& r.prezzo_ufficiale is None
    &&& r.apertura_odierna is None
    &&& r.updated_at.wf()
}

pub open spec fn performance_models(
    r: PerformanceMetrics,
    isin_s: Seq<char>,
    get: spec_fn(Field) -> Option<Seq<char>>,
) -> bool {
    &&& r.isin@ == isin_s
    &&& r.performance_1_mese == spec_decimal_cell(get(Field::Performance1Mese))
    &&& r.performance_6_mesi == spec_decimal_cell(get(Field::Performance6Mesi))
    &&& r.performance_1_anno == spec_decimal_cell(get(Field::Performance1Anno))
    &&& r.updated_at.wf()
}

pub open spec fn performance_empty(r: PerformanceMetrics, isin_s: Seq<char>) -> bool {
    &&& r.isin@ == isin_s
    &&& r.performance_1_mese is None
    &&& r.performance_6_mesi is None
    &&& r.performance_1_anno is None
    &&& r.updated_at.wf()
}

impl ShareDetails {
    /// Extracts the detail fields, stamped with the identifier and now.
    pub fn from_selector(share_isin: &ShareIsin, ex: &FieldExtractor) -> (r: Self)
        requires
            share_isin.isin.check <= 9,
        ensures
            details_models(r, share_isin.isin.isin_str(), |f: Field| ex.spec_get(f)),
    {
        ShareDetails {
            isin: share_isin.isin.get_str(),
            id_strumento: decimal_cell(&ex.get(Field::IdStrumento)),
            codice_alfanumerico: clone_cell(&ex.get(Field::CodiceAlfanumerico)),
            updated_at: now_utc(),
        }
    }

    /// The identity-only detail record.
    pub fn with_isin(share_isin: &ShareIsin) -> (r: Self)
        requires
            share_isin.isin.check <= 9,
        ensures
            details_empty(r, share_isin.isin.isin_str()),
    {
        ShareDetails {
            isin: share_isin.isin.get_str(),
            id_strumento: None,
            codice_alfanumerico: None,
            updated_at: now_utc(),
        }
    }
}

impl MarketInformation {
    /// Extracts the market fields, stamped with the identifier and now.
    pub fn from_selector(share_isin: &ShareIsin, ex: &FieldExtractor) -> (r: Self)
        requires
            share_isin.isin.check <= 9,
        ensures
            market_models(r, share_isin.isin.isin_str(), |f: Field| ex.spec_get(f)),
    {
        MarketInformation {
            isin: share_isin.isin.get_str(),
            super_sector: clone_cell(&ex.get(Field::SuperSector)),
            mercato_segmento: clone_cell(&ex.get(Field::MercatoSegmento)),
            capitalizzazione_di_mercato: decimal_cell(
                &ex.get(Field::CapitalizzazioneDiMercato),
            ),
            lotto_minimo: decimal_cell(&ex.get(Field::LottoMinimo)),
            updated_at: now_utc(),
        }
    }

    /// The identity-only market record.
    pub fn with_isin(share_isin: &ShareIsin) -> (r: Self)
        requires
            share_isin.isin.check <= 9,
        ensures
            market_empty(r, share_isin.isin.isin_str()),
    {
        MarketInformation {
            isin: share_isin.isin.get_str(),
            super_sector: None,
            mercato_segmento: None,
            capitalizzazione_di_mercato: None,
            lotto_minimo: None,
            updated_at: now_utc(),
        }
    }
}

impl PriceData {
    /// Extracts the pricing fields, stamped with the identifier and now.
    pub fn from_selector(share_isin: &ShareIsin, ex: &FieldExtractor) -> (r: Self)
        requires
            share_isin.isin.check <= 9,
        ensures
            price_models(r, share_isin.isin.isin_str(), |f: Field| ex.spec_get(f)),
    {
        PriceData {
            isin: share_isin.isin.get_str(),
            fase_di_mercato: clone_cell(&ex.get(Field::FaseDiMercato)),
            prezzo_ultimo_contratto: decimal_cell(&ex.get(Field::PrezzoUltimoContratto)),
            var_percentuale: decimal_cell(&ex.get(Field::VarPercentuale)),
            var_assoluta: decimal_cell(&ex.get(Field::VarAssoluta)),
            pr_medio_progr: decimal_cell(&ex.get(Field::PrMedioProgr)),
            data_ora_ultimo_contratto: datetime_cell(&ex.get(Field::DataOraUltimoContratto)),
            quantita_ultimo: decimal_cell(&ex.get(Field::QuantitaUltimo)),
            quantita_totale: decimal_cell(&ex.get(Field::QuantitaTotale)),
            numero_contratti: u64_cell(&ex.get(Field::NumeroContratti)),
            controvalore: decimal_cell(&ex.get(Field::Controvalore)),
            max_oggi: decimal_cell(&ex.get(Field::MaxOggi)),
            max_anno: price_date_cell(&ex.get(Field::MaxAnno)),
            min_oggi: decimal_cell(&ex.get(Field::MinOggi)),
            min_anno: price_date_cell(&ex.get(Field::MinAnno)),
            chiusura_precedente: decimal_cell(&ex.get(Field::ChiusuraPrecedente)),
            prezzo_riferimento: price_datetime_cell(&ex.get(Field::PrezzoRiferimento)),
            prezzo_ufficiale: price_date_cell(&ex.get(Field::PrezzoUfficiale)),
            apertura_odierna: decimal_cell(&ex.get(Field::AperturaOdierna)),
            updated_at: now_utc(),
        }
    }

    /// The identity-only pricing record.
    pub fn with_isin(share_isin: &ShareIsin) -> (r: Self)
        requires
            share_isin.isin.check <= 9,
        ensures
            price_empty(r, share_isin.isin.isin_str()),
    {
        PriceData {
            isin: share_isin.isin.get_str(),
            fase_di_mercato: None,
            prezzo_ultimo_contratto: None,
            var_percentuale: None,
            var_assoluta: None,
            pr_medio_progr: None,
            data_ora_ultimo_contratto: None,
            quantita_ultimo: None,
            quantita_totale: None,
            numero_contratti: None,
            controvalore: None,
            max_oggi: None,
            max_anno: None,
            min_oggi: None,
            min_anno: None,
            chiusura_precedente: None,
            prezzo_riferimento: None,
            prezzo_ufficiale: None,
            apertura_odierna: None,
            updated_at: now_utc(),
        }
    }
}

impl PerformanceMetrics {
    /// Extracts the performance fields, stamped with the identifier and now.
    pub fn from_selector(share_isin: &ShareIsin, ex: &FieldExtractor) -> (r: Self)
        requires
            share_isin.isin.check <= 9,
        ensures
            performance_models(r, share_isin.isin.isin_str(), |f: Field| ex.spec_get(f)),
    {
        PerformanceMetrics {
            isin: share_isin.isin.get_str(),
            performance_1_mese: decimal_cell(&ex.get(Field::Performance1Mese)),
            performance_6_mesi: decimal_cell(&ex.get(Field::Performance6Mesi)),
            performance_1_anno: decimal_cell(&ex.get(Field::Performance1Anno)),
            updated_at: now_utc(),
        }
    }

    /// The identity-only performance record.
    pub fn with_isin(share_isin: &ShareIsin) -> (r: Self)
        requires
            share_isin.isin.check <= 9,
        ensures
            performance_empty(r, share_isin.isin.isin_str()),
    {
        PerformanceMetrics {
            isin: share_isin.isin.get_str(),
            performance_1_mese: None,
            performance_6_mesi: None,
            performance_1_anno: None,
            updated_at: now_utc(),
        }
    }
}

/// The aggregate record of one security.
#[derive(Debug, Clone)]
pub struct Share {
    pub share_id: ShareIsin,
    pub share_details: ShareDetails,
    pub market_information: MarketInformation,
    pub price_data: PriceData,
    pub performance_metrics: PerformanceMetrics,
    pub updated_at: DateTime,
}

/// `r` is the aggregate the extractor yields for this security: every
/// sub-record keyed by the same identifier and filled from the page.
pub open spec fn share_models(
    r: Share,
    si: ShareIsin,
    get: spec_fn(Field) -> Option<Seq<char>>,
) -> bool {
    &&& r.share_id == si
    &&& details_models(r.share_details, si.isin.isin_str(), get)
    &&& market_models(r.market_information, si.isin.isin_str(), get)
    &&& price_models(r.price_data, si.isin.isin_str(), get)
    &&& performance_models(r.performance_metrics, si.isin.isin_str(), get)
    &&& r.updated_at.wf()
}

/// `r` is the identity-only aggregate: identifier populated, every other
/// field absent.
pub open spec fn share_empty(r: Share, si: ShareIsin) -> bool {
    &&& r.share_id == si
    &&& details_empty(r.share_details, si.isin.isin_str())
    &&& market_empty(r.market_information, si.isin.isin_str())
    &&& price_empty(r.price_data, si.isin.isin_str())
    &&& performance_empty(r.performance_metrics, si.isin.isin_str())
    &&& r.updated_at.wf()
}

impl Share {
    /// Assembles the full aggregate from an extractor over a parsed page.
    pub fn from_selector(share_isin: &ShareIsin, ex: &FieldExtractor) -> (r: Self)
        requires
            share_isin.isin.check <= 9,
        ensures
            share_models(r, *share_isin, |f: Field| ex.spec_get(f)),
    {
        Share {
            share_id: share_isin.duplicate(),
            share_details: ShareDetails::from_selector(share_isin, ex),
            market_information: MarketInformation::from_selector(share_isin, ex),
            price_data: PriceData::from_selector(share_isin, ex),
            performance_metrics: PerformanceMetrics::from_selector(share_isin, ex),
            updated_at: now_utc(),
        }
    }

    /// The identity-only aggregate for a security whose page never came.
    pub fn with_isin(share_isin: &ShareIsin) -> (r: Self)
        requires
            share_isin.isin.check <= 9,
        ensures
            share_empty(r, *share_isin),
    {
        Share {
            share_id: share_isin.duplicate(),
            share_details: ShareDetails::with_isin(share_isin),
            market_information: MarketInformation::with_isin(share_isin),
            price_data: PriceData::with_isin(share_isin),
            performance_metrics: PerformanceMetrics::with_isin(share_isin),
            updated_at: now_utc(),
        }
    }
}

} // verus!
