use vote_svc::domain::CandidateFilter;
use vote_svc::pagination::resolve_pagination;
use vote_svc::query::BindValue;
use vote_svc::repository::plan_find_all;

const DATA_BASE: &str = "SELECT id, vote_number, president_name, vice_president_name, president_nim, vice_president_nim, president_photo, vice_president_photo, status, created_by, created_at, updated_at FROM candidates";
const COUNT_BASE: &str = "SELECT COUNT(*)::BIGINT FROM candidates";

#[test]
fn defaults_when_absent() {
    let p = resolve_pagination(None, None);
    assert_eq!(p.page, 1);
    assert_eq!(p.limit, 10);
    assert_eq!(p.offset, 0);
}

#[test]
fn offset_formula() {
    let p = resolve_pagination(Some(4), Some(25));
    assert_eq!(p.page, 4);
    assert_eq!(p.limit, 25);
    assert_eq!(p.offset, 75);
}

#[test]
fn zero_inputs_fall_back_to_defaults() {
    let p = resolve_pagination(Some(0), Some(0));
    assert_eq!(p.page, 1);
    assert_eq!(p.limit, 10);
    assert_eq!(p.offset, 0);
}

#[test]
fn partial_defaults() {
    let p = resolve_pagination(None, Some(5));
    assert_eq!(p.page, 1);
    assert_eq!(p.limit, 5);
    assert_eq!(p.offset, 0);

    let q = resolve_pagination(Some(3), None);
    assert_eq!(q.page, 3);
    assert_eq!(q.limit, 10);
    assert_eq!(q.offset, 20);
}

#[test]
fn statements_without_filter() {
    let filter = CandidateFilter { id: None, page: None, limit: None };
    let plan = plan_find_all(&filter);

    assert_eq!(plan.data.sql, format!("{} LIMIT $1 OFFSET $2", DATA_BASE));
    assert_eq!(plan.data.binds, vec![BindValue::Int(10), BindValue::Int(0)]);

    assert_eq!(plan.count.sql, COUNT_BASE);
    assert_eq!(plan.count.binds, vec![]);
}

#[test]
fn statements_with_filter_share_predicates() {
    let filter = CandidateFilter {
        id: Some("2b0e0df1-6a46-4f7d-9fd4-01a37a2b28c5".to_string()),
        page: Some(2),
        limit: Some(5),
    };
    let plan = plan_find_all(&filter);

    assert_eq!(
        plan.data.sql,
        format!("{} WHERE id = $1 LIMIT $2 OFFSET $3", DATA_BASE)
    );
    assert_eq!(
        plan.data.binds,
        vec![
            BindValue::Text("2b0e0df1-6a46-4f7d-9fd4-01a37a2b28c5".to_string()),
            BindValue::Int(5),
            BindValue::Int(5),
        ]
    );

    assert_eq!(plan.count.sql, format!("{} WHERE id = $1", COUNT_BASE));
    assert_eq!(
        plan.count.binds,
        vec![BindValue::Text("2b0e0df1-6a46-4f7d-9fd4-01a37a2b28c5".to_string())]
    );

    // The count statement carries the same predicate text and the same
    // bound values as the data statement, and never a LIMIT/OFFSET.
    let where_clause = " WHERE id = $1";
    assert!(plan.data.sql.contains(where_clause));
    assert!(plan.count.sql.ends_with(where_clause));
    assert!(!plan.count.sql.contains("LIMIT"));
    assert!(!plan.count.sql.contains("OFFSET"));
    assert_eq!(plan.data.binds[..1], plan.count.binds[..]);
}

#[test]
fn filter_value_never_lands_in_text() {
    let filter = CandidateFilter {
        id: Some("'; DROP TABLE candidates; --".to_string()),
        page: Some(1),
        limit: Some(10),
    };
    let plan = plan_find_all(&filter);
    assert!(!plan.data.sql.contains("DROP"));
    assert!(!plan.count.sql.contains("DROP"));
    assert_eq!(
        plan.data.binds[0],
        BindValue::Text("'; DROP TABLE candidates; --".to_string())
    );
}
