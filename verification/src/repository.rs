//! The find-all query layer: builds the data and count statements for one
//! request, and turns the two store outcomes into a page or a classified
//! error.
//!
//! The store itself is an external collaborator. Planning (pagination
//! resolution and statement construction) happens before any round-trip;
//! completion takes whatever the two round-trips produced and never sees a
//! connection. No partial result exists: a failed round-trip fails the
//! whole call.

use vstd::prelude::*;
use vstd::seq_lib::*;
use crate::domain::{CandidateError, CandidateFilter, CandidateListPage};
use crate::model;
use crate::model::{candidate_of_row, transform_candidate, uuid_hyphenated};
use crate::pagination::{resolve_pagination, resolved_limit, resolved_page, spec_offset};
use crate::query::{binds_view, placeholder_view, QueryBuilder, SqlValue, Statement};

verus! {

/// Fixed projection and table clause of the data statement.
pub open spec fn data_base_sql() -> Seq<char> {
    "SELECT id, vote_number, president_name, vice_president_name, president_nim, vice_president_nim, president_photo, vice_president_photo, status, created_by, created_at, updated_at FROM candidates"@
}

fn data_base() -> (r: &'static str)
    ensures
        r@ == data_base_sql(),
{
    "SELECT id, vote_number, president_name, vice_president_name, president_nim, vice_president_nim, president_photo, vice_president_photo, status, created_by, created_at, updated_at FROM candidates"
}

/// Fixed counting clause over the same table.
pub open spec fn count_base_sql() -> Seq<char> {
    "SELECT COUNT(*)::BIGINT FROM candidates"@
}

fn count_base() -> (r: &'static str)
    ensures
        r@ == count_base_sql(),
{
    "SELECT COUNT(*)::BIGINT FROM candidates"
}

/// The filter's identifier criterion, as a mathematical value.
pub open spec fn filter_id(f: CandidateFilter) -> Option<Seq<char>> {
    match f.id {
        Some(s) => Some(s@),
        None => None,
    }
}

/// How many predicates the filter contributes.
pub open spec fn predicate_count(fid: Option<Seq<char>>) -> int {
    match fid {
        Some(_) => 1,
        None => 0,
    }
}

/// The predicate text shared by the data and the count statement: empty
/// without a filter, ` WHERE id = $1` with one. The filter value never
/// appears here; it is bound as the parameter `$1`.
pub open spec fn where_sql(fid: Option<Seq<char>>) -> Seq<char> {
    match fid {
        Some(_) => " WHERE "@ + "id"@ + " = "@ + placeholder_view(1),
        None => Seq::<char>::empty(),
    }
}

/// The bound predicate values shared by the data and the count statement.
pub open spec fn pred_binds(fid: Option<Seq<char>>) -> Seq<SqlValue> {
    match fid {
        Some(s) => seq![SqlValue::Text(s)],
        None => Seq::<SqlValue>::empty(),
    }
}

/// The trailing pagination clause of the data statement; its placeholder
/// numbers follow the predicate parameters.
pub open spec fn limit_offset_sql(n_predicates: int) -> Seq<char> {
    " LIMIT "@ + placeholder_view(n_predicates + 1) + " OFFSET "@ + placeholder_view(
        n_predicates + 2,
    )
}

/// Complete text of the data statement for a filter.
pub open spec fn data_sql(fid: Option<Seq<char>>) -> Seq<char> {
    data_base_sql() + where_sql(fid) + limit_offset_sql(predicate_count(fid))
}

/// Complete text of the count statement for a filter: the same predicates,
/// and never a `LIMIT`/`OFFSET`, so it reflects the full matching set.
pub open spec fn count_sql(fid: Option<Seq<char>>) -> Seq<char> {
    count_base_sql() + where_sql(fid)
}

/// All bound values of the data statement: the shared predicate values,
/// then the resolved limit and offset.
pub open spec fn data_binds(fid: Option<Seq<char>>, limit: int, offset: int) -> Seq<SqlValue> {
    pred_binds(fid) + seq![SqlValue::Int(limit), SqlValue::Int(offset)]
}

/// Everything one `find_all` call sends to the store: the two statements
/// and the resolved pagination that the response will echo.
#[derive(Debug)]
pub struct FindAllPlan {
    pub data: Statement,
    pub count: Statement,
    pub page: u32,
    pub limit: u32,
    pub offset: u64,
}

/// Resolves pagination and builds both statements for a filter.
///
/// The data statement is the fixed projection, the filter's predicates and
/// a bound `LIMIT`/`OFFSET`; the count statement is the fixed `COUNT(*)`
/// clause and the identical predicates with the identical bound values.
/// The offset must fit the store's signed 64-bit `OFFSET` parameter.
pub fn plan_find_all(filter: &CandidateFilter) -> (plan: FindAllPlan)
    requires
        spec_offset(resolved_page(filter.page), resolved_limit(filter.limit)) <= i64::MAX,
    ensures
        plan.page == resolved_page(filter.page),
        plan.limit == resolved_limit(filter.limit),
        plan.offset == spec_offset(plan.page, plan.limit),
        plan.data.sql@ == data_sql(filter_id(*filter)),
        binds_view(plan.data.binds@) == data_binds(
            filter_id(*filter),
            plan.limit as int,
            plan.offset as int,
        ),
        plan.count.sql@ == count_sql(filter_id(*filter)),
        binds_view(plan.count.binds@) == pred_binds(filter_id(*filter)),
{
    let pagination = resolve_pagination(filter.page, filter.limit);
    let mut data_qb = QueryBuilder::new(data_base());
    let mut count_qb = QueryBuilder::new(count_base());
    match &filter.id {
        Some(id) => {
            data_qb.push_eq_text("id", id.as_str());
            count_qb.push_eq_text("id", id.as_str());
        },
        None => {},
    }
    data_qb.push_limit_offset(pagination.limit as i64, pagination.offset as i64);
    let data = data_qb.into_statement();
    let count = count_qb.into_statement();
    proof {
        let fid = filter_id(*filter);
        assert(data.sql@ =~= data_sql(fid));
        assert(binds_view(data.binds@) =~= data_binds(
            fid,
            pagination.limit as int,
            pagination.offset as int,
        ));
        assert(count.sql@ =~= count_sql(fid));
        assert(binds_view(count.binds@) =~= pred_binds(fid));
    }
    FindAllPlan {
        data,
        count,
        page: pagination.page,
        limit: pagination.limit,
        offset: pagination.offset,
    }
}

/// A store-layer failure, as the store client reports it: either the
/// distinguished "no matching row" condition or anything else, each with
/// the underlying human-readable message.
#[derive(Clone, Debug, PartialEq)]
pub enum StoreError {
    RowNotFound(String),
    Other(String),
}

/// The message carried by a store failure.
pub open spec fn store_error_message(e: StoreError) -> Seq<char> {
    match e {
        StoreError::RowNotFound(m) => m@,
        StoreError::Other(m) => m@,
    }
}

/// The call failed as `UnknownError` carrying exactly this message.
pub open spec fn is_unknown_error(r: Result<CandidateListPage, CandidateError>, msg: Seq<char>) -> bool {
    match r {
        Err(CandidateError::UnknownError(m)) => m@ == msg,
        _ => false,
    }
}

/// The call failed as `NotFound` carrying exactly this message.
pub open spec fn is_not_found_error(r: Result<CandidateListPage, CandidateError>, msg: Seq<char>) -> bool {
    match r {
        Err(CandidateError::NotFound(m)) => m@ == msg,
        _ => false,
    }
}

/// The call succeeded with this total and with the mapped image of
/// exactly these rows, in order.
pub open spec fn is_page_of(
    r: Result<CandidateListPage, CandidateError>,
    total: int,
    rows: Seq<model::Candidate>,
) -> bool {
    match r {
        Ok(page) => {
            &&& page.total == total
            &&& page.candidates@.len() == rows.len()
            &&& forall|i: int|
                0 <= i < rows.len() ==> candidate_of_row(#[trigger] page.candidates@[i], rows[i])
        },
        _ => false,
    }
}

/// Turns the two store outcomes of one `find_all` call into its result.
///
/// A count failure is always classified `UnknownError`; a data failure is
/// `NotFound` for the store's "no matching row" condition and
/// `UnknownError` otherwise, each passing the store's message through
/// unchanged. Only when both round-trips succeeded is a page assembled:
/// the counted total together with every returned row mapped to the
/// domain entity. A failure never yields a page, not even an empty one.
pub fn complete_find_all(
    count_result: Result<i64, StoreError>,
    rows_result: Result<Vec<model::Candidate>, StoreError>,
) -> (r: Result<CandidateListPage, CandidateError>)
    requires
        count_result matches Ok(c) ==> 0 <= c <= usize::MAX,
    ensures
        match count_result {
            Err(e) => is_unknown_error(r, store_error_message(e)),
            Ok(c) => match rows_result {
                Err(StoreError::RowNotFound(m)) => is_not_found_error(r, m@),
                Err(StoreError::Other(m)) => is_unknown_error(r, m@),
                Ok(rows) => is_page_of(r, c as int, rows@),
            },
        },
{
    match count_result {
        Err(e) => {
            let m = match e {
                StoreError::RowNotFound(m) => m,
                StoreError::Other(m) => m,
            };
            Err(CandidateError::UnknownError(m))
        },
        Ok(total) => match rows_result {
            Err(StoreError::RowNotFound(m)) => Err(CandidateError::NotFound(m)),
            Err(StoreError::Other(m)) => Err(CandidateError::UnknownError(m)),
            Ok(rows) => {
                let candidates = transform_candidate(&rows);
                Ok(CandidateListPage { total: total as usize, candidates })
            },
        },
    }
}

// What the two statements mean against an abstract table: the count
// statement counts the rows matching the predicates, the data statement
// returns the slice of those rows selected by offset and limit. The
// store executes them; these spec functions state the row set both
// describe, and the lemmas below hold the layer to it.

/// Whether a row satisfies the filter's predicates: no criterion matches
/// every row, an identifier criterion matches the rows whose identifier
/// renders to that text.
pub open spec fn row_matches(fid: Option<Seq<char>>, row: model::Candidate) -> bool {
    match fid {
        None => true,
        Some(s) => uuid_hyphenated(row.id) == s,
    }
}

/// The rows of a table matching the filter, in table order: the set both
/// statements range over.
pub open spec fn selected_rows(
    table: Seq<model::Candidate>,
    fid: Option<Seq<char>>,
) -> Seq<model::Candidate> {
    table.filter(|row: model::Candidate| row_matches(fid, row))
}

/// The slice of the matching rows that the data statement returns: skip
/// `offset` rows, then at most `limit`.
pub open spec fn page_slice(
    sel: Seq<model::Candidate>,
    offset: int,
    limit: int,
) -> Seq<model::Candidate> {
    if offset >= sel.len() {
        Seq::<model::Candidate>::empty()
    } else if offset + limit >= sel.len() {
        sel.subrange(offset, sel.len() as int)
    } else {
        sel.subrange(offset, offset + limit)
    }
}

/// For every valid pagination input (page and limit at least 1), the row
/// offset is `(page - 1) * limit`, and the slice the data statement
/// returns never holds more than `limit` rows, whatever the table and the
/// filter.
pub proof fn lemma_offset_and_page_bound(
    table: Seq<model::Candidate>,
    fid: Option<Seq<char>>,
    page: u32,
    limit: u32,
)
    requires
        page >= 1,
        limit >= 1,
    ensures
        spec_offset(page, limit) == (page - 1) * limit,
        page_slice(selected_rows(table, fid), spec_offset(page, limit), limit as int).len()
            <= limit,
{
    assert(spec_offset(page, limit) >= 0) by (nonlinear_arith)
        requires
            page >= 1,
    ;
}

/// The count statement and the data statement can never see different row
/// sets: both texts extend their base clause with the same predicate text
/// over the same bound values (the count statement receiving nothing
/// more, the data statement only the trailing pagination parameters), and
/// against any table the counted total is the size of exactly the row set
/// the data slice is cut from: a filter matching `n` rows yields total
/// `n` and a first page of `min(n, limit)` rows.
pub proof fn lemma_count_and_data_agree(
    table: Seq<model::Candidate>,
    fid: Option<Seq<char>>,
    limit: int,
)
    requires
        limit >= 0,
    ensures
        count_sql(fid) == count_base_sql() + where_sql(fid),
        data_sql(fid) == data_base_sql() + where_sql(fid) + limit_offset_sql(predicate_count(fid)),
        data_binds(fid, limit, 0).take(pred_binds(fid).len() as int) == pred_binds(fid),
        page_slice(selected_rows(table, fid), 0, limit).len() == if selected_rows(table, fid).len()
            <= limit {
            selected_rows(table, fid).len() as int
        } else {
            limit
        },
{
    assert(data_binds(fid, limit, 0).take(pred_binds(fid).len() as int) =~= pred_binds(fid));
}

/// An identifier criterion that exactly one row matches selects exactly
/// that row: any first page with room for at least one row holds one
/// single candidate row, and its identifier renders to the filter value.
pub proof fn lemma_single_match(table: Seq<model::Candidate>, id: Seq<char>, limit: int)
    requires
        limit >= 1,
        selected_rows(table, Some(id)).len() == 1,
    ensures
        page_slice(selected_rows(table, Some(id)), 0, limit) == selected_rows(table, Some(id)),
        uuid_hyphenated(page_slice(selected_rows(table, Some(id)), 0, limit)[0].id) == id,
{
    let sel = selected_rows(table, Some(id));
    assert(page_slice(sel, 0, limit) =~= sel);
    table.lemma_filter_pred(|row: model::Candidate| row_matches(Some(id), row), 0);
}

/// An identifier criterion that no row matches yields an empty slice for
/// every pagination input, and a total of zero; the call is still a
/// success, not an error.
pub proof fn lemma_no_match(table: Seq<model::Candidate>, id: Seq<char>, offset: int, limit: int)
    requires
        offset >= 0,
        selected_rows(table, Some(id)).len() == 0,
    ensures
        page_slice(selected_rows(table, Some(id)), offset, limit) == Seq::<model::Candidate>::empty(),
{
}

} // verus!
