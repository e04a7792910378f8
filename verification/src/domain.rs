//! Domain shapes of the candidate listing: the filter a caller supplies,
//! the candidate entity handed back, the page object that bundles a slice
//! of candidates with the full match-set size, and the two error kinds a
//! store failure is classified into.

use vstd::prelude::*;

verus! {

/// The text of an optional string, when there is one.
pub open spec fn opt_text(o: Option<String>) -> Option<Seq<char>> {
    match o {
        Some(s) => Some(s@),
        None => None,
    }
}

/// Client-supplied match criteria plus raw pagination inputs. Built fresh
/// for each request; `page` and `limit` are 1-based and default elsewhere.
#[derive(Clone, Debug)]
pub struct CandidateFilter {
    pub id: Option<String>,
    pub page: Option<u32>,
    pub limit: Option<u32>,
}

/// One candidate as callers see it. The identifier is the store-native
/// UUID rendered to its canonical string form; timestamps are instants in
/// microseconds since the Unix epoch.
#[derive(Clone, Debug)]
pub struct Candidate {
    pub id: String,
    pub vote_number: i32,
    pub president_name: String,
    pub vice_president_name: String,
    pub president_nim: String,
    pub vice_president_nim: String,
    pub president_photo: String,
    pub vice_president_photo: String,
    pub status: bool,
    pub created_by: String,
    pub created_at: i64,
    pub updated_at: Option<i64>,
}

/// One page of results: `total` is the number of rows matching the filter
/// across the whole data set (ignoring pagination), `candidates` the slice
/// selected by limit and offset.
#[derive(Clone, Debug)]
pub struct CandidateListPage {
    pub total: usize,
    pub candidates: Vec<Candidate>,
}

/// The two failure kinds a store error is classified into: `NotFound` when
/// the store reports that no matching row exists for a query expected to
/// return one, `UnknownError` for every other store-layer failure. Both
/// carry the underlying human-readable message.
#[derive(Clone, Debug, PartialEq)]
pub enum CandidateError {
    NotFound(String),
    UnknownError(String),
}

} // verus!
