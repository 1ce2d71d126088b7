//! Read-API query shapes.
//!
//! A share query filters by exact identifier, name substring, or
//! identifier prefix (the `lang` field).  The decision of which filter a
//! query denotes is fixed here; executing it against storage is the
//! collaborator's business.

use vstd::prelude::*;

verus! {

/// A filter over stored shares; empty fields do not filter.
#[derive(Debug, Clone)]
pub struct ShareQuery {
    pub name: Option<String>,
    pub isin: Option<String>,
    pub lang: Option<String>,
}

impl ShareQuery {
    pub fn new(isin: Option<String>, name: Option<String>, lang: Option<String>) -> (r: Self)
        ensures
            r.isin == isin,
            r.name == name,
            r.lang == lang,
    {
        ShareQuery { isin, name, lang }
    }

    /// The query that matches everything.
    pub fn empty() -> (r: Self)
        ensures
            r.isin is None,
            r.name is None,
            r.lang is None,
    {
        ShareQuery { isin: None, name: None, lang: None }
    }

    pub fn from_isin(isin: String) -> (r: Self)
        ensures
            r.isin == Some(isin),
            r.name is None,
            r.lang is None,
    {
        ShareQuery { isin: Some(isin), name: None, lang: None }
    }

    pub fn from_name(name: String) -> (r: Self)
        ensures
            r.isin is None,
            r.name == Some(name),
            r.lang is None,
    {
        ShareQuery { isin: None, name: Some(name), lang: None }
    }

    pub fn from_lang(lang: String) -> (r: Self)
        ensures
            r.isin is None,
            r.name is None,
            r.lang == Some(lang),
    {
        ShareQuery { isin: None, name: None, lang: Some(lang) }
    }

    pub fn builder() -> (r: ShareQueryBuilder)
        ensures
            r.isin is None,
            r.name is None,
            r.lang is None,
    {
        ShareQueryBuilder { name: None, isin: None, lang: None }
    }
}

impl Default for ShareQuery {
    fn default() -> (r: Self)
        ensures
            r.isin is None,
            r.name is None,
            r.lang is None,
    {
        ShareQuery::empty()
    }
}

/// Builds a [`ShareQuery`] field by field.
#[derive(Debug, Clone)]
pub struct ShareQueryBuilder {
    pub name: Option<String>,
    pub isin: Option<String>,
    pub lang: Option<String>,
}

impl ShareQueryBuilder {
    pub fn name(self, name: String) -> (r: ShareQueryBuilder)
        ensures
            r.name == Some(name),
            r.isin == self.isin,
            r.lang == self.lang,
    {
        ShareQueryBuilder { name: Some(name), ..self }
    }

    pub fn isin(self, isin: String) -> (r: ShareQueryBuilder)
        ensures
            r.isin == Some(isin),
            r.name == self.name,
            r.lang == self.lang,
    {
        ShareQueryBuilder { isin: Some(isin), ..self }
    }

    pub fn lang(self, lang: String) -> (r: ShareQueryBuilder)
        ensures
            r.lang == Some(lang),
            r.name == self.name,
            r.isin == self.isin,
    {
        ShareQueryBuilder { lang: Some(lang), ..self }
    }

    pub fn build(self) -> (r: ShareQuery)
        ensures
            r.name == self.name,
            r.isin == self.isin,
            r.lang == self.lang,
    {
        ShareQuery { name: self.name, isin: self.isin, lang: self.lang }
    }
}

impl Default for ShareQueryBuilder {
    fn default() -> (r: Self)
        ensures
            r.isin is None,
            r.name is None,
            r.lang is None,
    {
        ShareQueryBuilder { name: None, isin: None, lang: None }
    }
}

/// The filter a query denotes.
#[derive(Debug, Clone)]
pub enum QueryPlan {
    /// Exact identifier match; wins over every other field.
    ByIsin(String),
    /// Identifier-prefix match.
    ByLangPrefix(String),
    /// Identifier-prefix and name-substring match together.
    ByNameAndLang(String, String),
    /// Name-substring match.
    ByName(String),
    /// No filter.
    All,
}

/// The fixed query-dispatch rule: an identifier filter wins outright;
/// otherwise name and prefix combine; an empty query matches everything.
pub open spec fn spec_query_plan(q: ShareQuery) -> QueryPlan {
    if q.isin is Some {
        QueryPlan::ByIsin(q.isin->0)
    } else if q.name is None && q.lang is Some {
        QueryPlan::ByLangPrefix(q.lang->0)
    } else if q.name is Some && q.lang is Some {
        QueryPlan::ByNameAndLang(q.name->0, q.lang->0)
    } else if q.name is Some {
        QueryPlan::ByName(q.name->0)
    } else {
        QueryPlan::All
    }
}

/// Decides which filter a query runs as.
pub fn query_plan(q: ShareQuery) -> (r: QueryPlan)
    ensures
        r == spec_query_plan(q),
{
    match (q.name, q.isin, q.lang) {
        (_, Some(isin), _) => QueryPlan::ByIsin(isin),
        (None, None, Some(lang)) => QueryPlan::ByLangPrefix(lang),
        (Some(name), None, Some(lang)) => QueryPlan::ByNameAndLang(name, lang),
        (Some(name), None, None) => QueryPlan::ByName(name),
        (None, None, None) => QueryPlan::All,
    }
}

} // verus!
