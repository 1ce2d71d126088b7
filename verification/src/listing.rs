//! Listing-page harvesting.
//!
//! A listing page carries anchors whose link ends in `IDENTIFIER.html`
//! and whose label span holds the display name.  Each anchor becomes a
//! named security or a counted failure; securities repeat across pages
//! (the grid overshoots the last page of each letter), so results are
//! deduplicated by identity, first occurrence kept.

use vstd::prelude::*;
use crate::errors::ScrapingError;
use crate::isin::{Isin, ShareIsin, sec_key, lemma_sec_key_eq, digit_char, digit_char_exec};
use crate::metrics::{
    ScrapingMetrics, WithMetrics, spec_record_success, spec_record_failure, spec_zero_metrics,
    spec_merge_all,
};
use crate::text::{
    rfind_char, find_char, str_chars, chars_to_string, copy_range, find_last_char,
    find_first_char, push_char,
};

verus! {

/// For each listing anchor of the page, in document order: its link
/// target (`href`), and the first text of its name label span.  The
/// result of parsing `html` with the HTML crate depends on that text
/// alone.
pub uninterp spec fn anchors_of(html: Seq<char>) -> Seq<(Option<Seq<char>>, Option<Seq<char>>)>;

/// Relies on the scraper crate: one entry per anchor matched by the
/// listing selector (`div[data-bb-view="list-aZ-stream"]
/// table.m-table.-firstlevel a.u-hidden.-xs`), with its `href` attribute
/// and the first text node of its first `span.t-text` descendant.
#[verifier::external_body]
pub(crate) fn listing_anchors(html: &str) -> (r: Vec<(Option<String>, Option<String>)>)
    ensures
        r.deep_view() == anchors_of(html@),
{
    let doc = scraper::Html::parse_document(html);
    let a = scraper::Selector::parse(
        "div[data-bb-view=\"list-aZ-stream\"] table.m-table.-firstlevel a.u-hidden.-xs",
    ).unwrap();
    let s = scraper::Selector::parse("span.t-text").unwrap();
    doc.select(&a)
        .map(|e| (
            e.value().attr("href").map(String::from),
            e.select(&s).next().and_then(|el| el.text().next()).map(String::from),
        ))
        .collect()
}

/// The identifier string an anchor's link denotes: the text after the
/// last `/`, up to the first `.` (the `IDENTIFIER` of `IDENTIFIER.html`).
pub open spec fn spec_isin_from_href(h: Seq<char>) -> Seq<char> {
    let after = match rfind_char(h, '/') {
        None => h,
        Some(i) => h.subrange(i + 1, h.len() as int),
    };
    match find_char(after, '.') {
        None => after,
        Some(j) => after.subrange(0, j),
    }
}

/// Cuts the identifier string out of a link target.
pub fn isin_str_from_href(href: &str) -> (r: Vec<char>)
    ensures
        r@ == spec_isin_from_href(href@),
{
    let v = str_chars(href);
    let n = v.len();
    let after = match find_last_char(&v, '/') {
        None => v,
        Some(i) => copy_range(&v, i + 1, n),
    };
    match find_first_char(&after, '.') {
        None => after,
        Some(j) => copy_range(&after, 0, j),
    }
}

/// What one anchor yields: the security's name and identifier string, or
/// the failure it counts as.  A missing link or missing name text is an
/// invalid page; an empty name or an identifier that does not validate is
/// a parse failure.
pub open spec fn spec_anchor_outcome(a: (Option<Seq<char>>, Option<Seq<char>>)) -> Result<
    (Seq<char>, Seq<char>),
    ScrapingError,
> {
    match a.0 {
        None => Err(ScrapingError::InvalidPage),
        Some(h) => match a.1 {
            None => Err(ScrapingError::InvalidPage),
            Some(nm) => {
                let istr = spec_isin_from_href(h);
                if nm.len() > 0 && Isin::parse_ok(istr) {
                    Ok((nm, istr))
                } else {
                    Err(ScrapingError::ParsingErr)
                }
            },
        },
    }
}

/// Builds a named security from one listing anchor.
pub fn share_isin_from_anchor(href: &Option<String>, name: &Option<String>) -> (r: Result<
    ShareIsin,
    ScrapingError,
>)
    ensures
        match r {
            Ok(si) => spec_anchor_outcome((href.deep_view(), name.deep_view()))
                == Ok::<_, ScrapingError>((si.share_name@, si.isin.isin_str())) && si.wf(),
            Err(e) => spec_anchor_outcome((href.deep_view(), name.deep_view())) == Err::<
                (Seq<char>, Seq<char>),
                _,
            >(e),
        },
{
    let h = match href {
        None => {
            return Err(ScrapingError::InvalidPage);
        },
        Some(h) => h,
    };
    let nm = match name {
        None => {
            return Err(ScrapingError::InvalidPage);
        },
        Some(nm) => nm,
    };
    let istr = isin_str_from_href(h.as_str());
    match ShareIsin::new(nm.clone(), chars_to_string(&istr)) {
        Some(si) => Ok(si),
        None => Err(ScrapingError::ParsingErr),
    }
}

/// Metrics and dedup keys after the first `i` anchors of a page: every
/// anchor counts once, successes append their key unless already seen.
pub open spec fn spec_listing_scan(
    anchors: Seq<(Option<Seq<char>>, Option<Seq<char>>)>,
    i: int,
) -> (ScrapingMetrics, Seq<(Seq<char>, Seq<char>)>)
    decreases i,
{
    if i <= 0 {
        (spec_zero_metrics(), Seq::empty())
    } else {
        let prev = spec_listing_scan(anchors, i - 1);
        match spec_anchor_outcome(anchors[i - 1]) {
            Ok(k) => (
                spec_record_success(prev.0),
                if prev.1.contains(k) {
                    prev.1
                } else {
                    prev.1.push(k)
                },
            ),
            Err(e) => (spec_record_failure(prev.0, e), prev.1),
        }
    }
}

/// Whether a security with the same identity is already collected.
#[verifier::loop_isolation(false)]
pub fn contains_security(res: &Vec<ShareIsin>, si: &ShareIsin) -> (r: bool)
    requires
        si.isin.wf(),
        forall|k: int| 0 <= k < res@.len() ==> (#[trigger] res@[k]).isin.wf(),
    ensures
        r == res@.map_values(|x: ShareIsin| sec_key(x)).contains(sec_key(*si)),
{
    let mut j: usize = 0;
    while j < res.len()
        invariant
            j <= res@.len(),
            forall|k: int| 0 <= k < j ==> sec_key(#[trigger] res@[k]) != sec_key(*si),
        decreases res@.len() - j,
    {
        let same = res[j] == *si;
        proof {
            lemma_sec_key_eq(res@[j as int], *si);
        }
        if same {
            proof {
                assert(res@.map_values(|x: ShareIsin| sec_key(x))[j as int] == sec_key(*si));
            }
            return true;
        }
        j = j + 1;
    }
    proof {
        let keys = res@.map_values(|x: ShareIsin| sec_key(x));
        if keys.contains(sec_key(*si)) {
            let k = choose|k: int| 0 <= k < keys.len() && keys[k] == sec_key(*si);
            assert(keys[k] == sec_key(res@[k]));
            assert(false);
        }
    }
    false
}

/// Parses one listing page into named securities, deduplicated within
/// the page, with one metrics outcome per anchor.
#[verifier::loop_isolation(false)]
pub fn parse_listing_page(text: &str) -> (r: WithMetrics<Vec<ShareIsin>>)
    ensures
        r.result is Some,
        r.metrics == spec_listing_scan(anchors_of(text@), anchors_of(text@).len() as int).0,
        r.result->Some_0@.map_values(|si: ShareIsin| sec_key(si)) == spec_listing_scan(
            anchors_of(text@),
            anchors_of(text@).len() as int,
        ).1,
        forall|k: int| 0 <= k < r.result->Some_0@.len() ==> (#[trigger] r.result->Some_0@[k]).wf(),
{
    let anchors = listing_anchors(text);
    let ghost aseq = anchors_of(text@);
    proof {
        assert(aseq.len() == anchors@.len());
    }
    let mut metrics = ScrapingMetrics::empty();
    let mut res: Vec<ShareIsin> = Vec::new();
    let mut i: usize = 0;
    while i < anchors.len()
        invariant
            i <= anchors@.len(),
            metrics == spec_listing_scan(aseq, i as int).0,
            res@.map_values(|si: ShareIsin| sec_key(si)) == spec_listing_scan(aseq, i as int).1,
            forall|k: int| 0 <= k < res@.len() ==> (#[trigger] res@[k]).wf(),
        decreases anchors@.len() - i,
    {
        let a = &anchors[i];
        proof {
            assert(aseq[i as int] == (a.0.deep_view(), a.1.deep_view()));
        }
        match share_isin_from_anchor(&a.0, &a.1) {
            Ok(si) => {
                metrics.record_success();
                if !contains_security(&res, &si) {
                    let ghost old_keys = res@.map_values(|x: ShareIsin| sec_key(x));
                    res.push(si);
                    proof {
                        assert(res@.map_values(|x: ShareIsin| sec_key(x)) =~= old_keys.push(
                            sec_key(res@.last()),
                        ));
                    }
                }
            },
            Err(e) => {
                metrics.record_failure(e);
            },
        }
        i = i + 1;
    }
    proof {
        assert(i as int == aseq.len());
    }
    WithMetrics::new(res, metrics)
}

/// Turns one grid slot's fetch outcome into securities and a one-slot
/// metrics record: a fetched page counts one success and contributes its
/// parsed securities; a failed fetch counts its failure and contributes
/// nothing — it never fails the batch.
pub fn listing_page_outcome(fetch: Result<String, ScrapingError>) -> (r: WithMetrics<
    Vec<ShareIsin>,
>)
    ensures
        r.result is Some,
        match fetch {
            Ok(text) => {
                &&& r.metrics == spec_record_success(spec_zero_metrics())
                &&& r.result->Some_0@.map_values(|si: ShareIsin| sec_key(si))
                    == spec_listing_scan(anchors_of(text@), anchors_of(text@).len() as int).1
            },
            Err(e) => r.metrics == spec_record_failure(spec_zero_metrics(), e)
                && r.result->Some_0@.len() == 0,
        },
        forall|k: int| 0 <= k < r.result->Some_0@.len() ==> (#[trigger] r.result->Some_0@[k]).wf(),
{
    let mut metrics = ScrapingMetrics::empty();
    match fetch {
        Ok(text) => {
            let mut page = parse_listing_page(text.as_str());
            let shares = page.unmetric();
            metrics.record_success();
            WithMetrics::new(shares, metrics)
        },
        Err(e) => {
            metrics.record_failure(e);
            WithMetrics::new(Vec::new(), metrics)
        },
    }
}

/// The keys of all pages laid end to end, in page order.
pub open spec fn spec_concat_keys(pages: Seq<Seq<(Seq<char>, Seq<char>)>>) -> Seq<
    (Seq<char>, Seq<char>),
>
    decreases pages.len(),
{
    if pages.len() == 0 {
        Seq::empty()
    } else {
        spec_concat_keys(pages.drop_last()) + pages.last()
    }
}

/// First-wins deduplication of a key sequence.
pub open spec fn spec_dedup_keys(ks: Seq<(Seq<char>, Seq<char>)>) -> Seq<(Seq<char>, Seq<char>)>
    decreases ks.len(),
{
    if ks.len() == 0 {
        Seq::empty()
    } else {
        let p = spec_dedup_keys(ks.drop_last());
        if p.contains(ks.last()) {
            p
        } else {
            p.push(ks.last())
        }
    }
}

/// Deduplication really leaves a set: no two entries of the result share
/// a key, so re-discovering a security never creates a duplicate.
pub proof fn lemma_dedup_keys_distinct(ks: Seq<(Seq<char>, Seq<char>)>)
    ensures
        forall|i: int, j: int|
            0 <= i < j < spec_dedup_keys(ks).len() ==> spec_dedup_keys(ks)[i] != spec_dedup_keys(
                ks,
            )[j],
    decreases ks.len(),
{
    if ks.len() > 0 {
        lemma_dedup_keys_distinct(ks.drop_last());
        let p = spec_dedup_keys(ks.drop_last());
        if !p.contains(ks.last()) {
            assert forall|i: int, j: int|
                0 <= i < j < spec_dedup_keys(ks).len() implies spec_dedup_keys(ks)[i]
                != spec_dedup_keys(ks)[j] by {
                if j == p.len() {
                    assert(spec_dedup_keys(ks)[i] == p[i]);
                    assert(!p.contains(ks.last()));
                }
            }
        }
    }
}

/// Merges per-page results in completion order: metrics are folded with
/// the metrics merge, securities concatenated and deduplicated by
/// identity with the first occurrence kept.
#[verifier::loop_isolation(false)]
pub fn merge_listing_results(pages: Vec<WithMetrics<Vec<ShareIsin>>>) -> (r: WithMetrics<
    Vec<ShareIsin>,
>)
    requires
        forall|k: int| 0 <= k < pages@.len() ==> (#[trigger] pages@[k]).result is Some,
        forall|k: int, t: int|
            0 <= k < pages@.len() && 0 <= t < pages@[k].result->Some_0@.len() ==> (
            #[trigger] pages@[k].result->Some_0@[t]).wf(),
    ensures
        r.result is Some,
        r.metrics == spec_merge_all(
            pages@.map_values(|p: WithMetrics<Vec<ShareIsin>>| p.metrics),
        ),
        r.result->Some_0@.map_values(|si: ShareIsin| sec_key(si)) == spec_dedup_keys(
            spec_concat_keys(
                pages@.map_values(
                    |p: WithMetrics<Vec<ShareIsin>>|
                        p.result->Some_0@.map_values(|si: ShareIsin| sec_key(si)),
                ),
            ),
        ),
        forall|k: int| 0 <= k < r.result->Some_0@.len() ==> (#[trigger] r.result->Some_0@[k]).wf(),
{
    let ghost pm = pages@.map_values(|p: WithMetrics<Vec<ShareIsin>>| p.metrics);
    let ghost pk = pages@.map_values(
        |p: WithMetrics<Vec<ShareIsin>>| p.result->Some_0@.map_values(
            |si: ShareIsin| sec_key(si),
        ),
    );
    let mut metrics = ScrapingMetrics::empty();
    let mut res: Vec<ShareIsin> = Vec::new();
    let mut i: usize = 0;
    proof {
        assert(pm.take(0) =~= Seq::<ScrapingMetrics>::empty());
        assert(pk.take(0) =~= Seq::<Seq<(Seq<char>, Seq<char>)>>::empty());
    }
    while i < pages.len()
        invariant
            i <= pages@.len(),
            metrics == spec_merge_all(pm.take(i as int)),
            res@.map_values(|si: ShareIsin| sec_key(si)) == spec_dedup_keys(
                spec_concat_keys(pk.take(i as int)),
            ),
            forall|k: int| 0 <= k < res@.len() ==> (#[trigger] res@[k]).wf(),
        decreases pages@.len() - i,
    {
        let page = &pages[i];
        let shares = page.result.as_ref().unwrap();
        proof {
            assert(pm[i as int] == page.metrics);
            assert(pk[i as int] == shares@.map_values(|si: ShareIsin| sec_key(si)));
            assert(pm.take(i + 1).drop_last() =~= pm.take(i as int));
            assert(pm.take(i + 1).last() == pm[i as int]);
        }
        metrics = metrics.merge(page.metrics);
        let mut j: usize = 0;
        proof {
            assert(pk[i as int].take(0) =~= Seq::<(Seq<char>, Seq<char>)>::empty());
            assert(spec_concat_keys(pk.take(i as int)) + pk[i as int].take(0)
                =~= spec_concat_keys(pk.take(i as int)));
        }
        while j < shares.len()
            invariant
                j <= shares@.len(),
                i < pages@.len(),
                shares@ == pages@[i as int].result->Some_0@,
                res@.map_values(|si: ShareIsin| sec_key(si)) == spec_dedup_keys(
                    spec_concat_keys(pk.take(i as int)) + pk[i as int].take(j as int),
                ),
                forall|k: int| 0 <= k < res@.len() ==> (#[trigger] res@[k]).wf(),
            decreases shares@.len() - j,
        {
            let si = &shares[j];
            let ghost flat = spec_concat_keys(pk.take(i as int)) + pk[i as int].take(j as int);
            proof {
                assert(pk[i as int][j as int] == sec_key(shares@[j as int]));
                assert(pk[i as int].take(j + 1).drop_last() =~= pk[i as int].take(j as int));
                assert((spec_concat_keys(pk.take(i as int)) + pk[i as int].take(j + 1)).drop_last()
                    =~= flat);
                assert((spec_concat_keys(pk.take(i as int)) + pk[i as int].take(j + 1)).last()
                    == sec_key(shares@[j as int]));
            }
            if !contains_security(&res, si) {
                let ghost old_keys = res@.map_values(|x: ShareIsin| sec_key(x));
                res.push(si.duplicate());
                proof {
                    assert(res@.map_values(|x: ShareIsin| sec_key(x)) =~= old_keys.push(
                        sec_key(res@.last()),
                    ));
                }
            }
            j = j + 1;
        }
        proof {
            assert(pk[i as int].take(shares@.len() as int) =~= pk[i as int]);
            assert(pk.take(i + 1).drop_last() =~= pk.take(i as int));
            assert(pk.take(i + 1).last() == pk[i as int]);
            assert(spec_concat_keys(pk.take(i + 1)) =~= spec_concat_keys(pk.take(i as int))
                + pk[i as int]);
        }
        i = i + 1;
    }
    proof {
        assert(pm.take(pages@.len() as int) =~= pm);
        assert(pk.take(pages@.len() as int) =~= pk);
    }
    WithMetrics::new(res, metrics)
}

/// The letter a grid slot belongs to: slots come in runs of five pages
/// per letter, `A` through `Z`.
pub open spec fn grid_letter(i: int) -> char {
    "ABCDEFGHIJKLMNOPQRSTUVWXYZ"@[i / 5]
}

/// The fixed listing grid: five pages for each of the 26 letters, in
/// order.  The grid knowingly overshoots the real page count per letter;
/// duplicates collapse at merge time.
#[verifier::loop_isolation(false)]
pub fn listing_grid() -> (r: Vec<(char, u8)>)
    ensures
        r@.len() == 130,
        forall|i: int|
            0 <= i < 130 ==> (#[trigger] r@[i]).0 == grid_letter(i) && r@[i].1 as int == 1 + (
            i % 5),
{
    let letters = "ABCDEFGHIJKLMNOPQRSTUVWXYZ";
    proof {
        reveal_strlit("ABCDEFGHIJKLMNOPQRSTUVWXYZ");
    }
    let mut r: Vec<(char, u8)> = Vec::new();
    let mut li: usize = 0;
    while li < 26
        invariant
            letters@.len() == 26,
            li <= 26,
            r@.len() == 5 * li,
            forall|i: int|
                0 <= i < r@.len() ==> (#[trigger] r@[i]).0 == grid_letter(i) && r@[i].1 as int
                    == 1 + (i % 5),
        decreases 26 - li,
    {
        let c = letters.get_char(li);
        let mut p: u8 = 1;
        while p <= 5
            invariant
                letters@.len() == 26,
                1 <= p <= 6,
                li < 26,
                c == letters@[li as int],
                r@.len() == 5 * li + (p - 1),
                forall|i: int|
                    0 <= i < r@.len() ==> (#[trigger] r@[i]).0 == grid_letter(i) && r@[i].1 as int
                        == 1 + (i % 5),
            decreases 6 - p,
        {
            r.push((c, p));
            proof {
                let n = r@.len() - 1;
                assert(n / 5 == li && n % 5 == p - 1) by (nonlinear_arith)
                    requires
                        n == 5 * li + (p - 1),
                        1 <= p <= 5,
                        0 <= li,
                ;
                assert(r@[n].0 == c);
                assert(letters@ == "ABCDEFGHIJKLMNOPQRSTUVWXYZ"@);
                assert(grid_letter(n) == letters@[li as int]);
            }
            p = p + 1;
        }
        li = li + 1;
    }
    r
}

/// The listing URL of one grid slot.
pub open spec fn spec_listing_url(letter: char, page: u8) -> Seq<char> {
    "https://www.borsaitaliana.it/borsa/azioni/listino-a-z.html?initial="@ + seq![letter]
        + "&page="@ + seq![digit_char(page as int)] + "&lang=it"@
}

/// Builds the listing URL of one grid slot.
pub fn listing_url(letter: char, page: u8) -> (r: String)
    requires
        1 <= page <= 9,
    ensures
        r@ == spec_listing_url(letter, page),
{
    let mut r = String::from_str(
        "https://www.borsaitaliana.it/borsa/azioni/listino-a-z.html?initial=",
    );
    push_char(&mut r, letter);
    r.append("&page=");
    push_char(&mut r, digit_char_exec(page));
    r.append("&lang=it");
    proof {
        assert(r@ =~= spec_listing_url(letter, page));
    }
    r
}

} // verus!
