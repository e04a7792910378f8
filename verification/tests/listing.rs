use vote_svc::domain::{Candidate, CandidateError, CandidateListPage};
use vote_svc::model;
use vote_svc::repository::{complete_find_all, plan_find_all, StoreError};
use vote_svc::usecase::{build_filter, build_response, Response};
use vote_svc::delivery::{candidate_list_envelope, request_of_query, CandidateListQuery};
use vote_svc::domain::CandidateFilter;

fn sample_candidate() -> Candidate {
    Candidate {
        id: "1".to_string(),
        vote_number: 1,
        president_name: "Alice".to_string(),
        vice_president_name: "Bob".to_string(),
        president_nim: "123".to_string(),
        vice_president_nim: "456".to_string(),
        president_photo: "alice.jpg".to_string(),
        vice_president_photo: "bob.jpg".to_string(),
        status: true,
        created_by: "admin".to_string(),
        created_at: 1_700_000_000_000_000,
        updated_at: Some(1_700_000_000_000_000),
    }
}

fn sample_row(id: u128, vote_number: i32) -> model::Candidate {
    model::Candidate {
        id,
        vote_number,
        president_name: "Alice".to_string(),
        vice_president_name: "Bob".to_string(),
        president_nim: "123".to_string(),
        vice_president_nim: "456".to_string(),
        president_photo: "alice.jpg".to_string(),
        vice_president_photo: "bob.jpg".to_string(),
        status: true,
        created_by: "admin".to_string(),
        created_at: 1_700_000_000_000_000,
        updated_at: None,
    }
}

#[test]
fn test_get() {
    struct TestCase {
        name: &'static str,
        outcome: Result<CandidateListPage, CandidateError>,
        ret_val: Option<Vec<Candidate>>,
        ret_err: Option<CandidateError>,
    }

    let candidates_ret_ok = vec![sample_candidate()];

    let cases = [
        TestCase {
            name: "success",
            outcome: Ok(CandidateListPage { total: 1, candidates: vec![sample_candidate()] }),
            ret_val: Some(candidates_ret_ok.clone()),
            ret_err: None,
        },
        TestCase {
            name: "failure - repository error",
            outcome: Err(CandidateError::UnknownError("Database connection error".to_string())),
            ret_val: None,
            ret_err: Some(CandidateError::UnknownError(
                "Database connection error".to_string(),
            )),
        },
        TestCase {
            name: "failure - not found error",
            outcome: Err(CandidateError::NotFound("candidate not found".to_string())),
            ret_val: None,
            ret_err: Some(CandidateError::NotFound("candidate not found".to_string())),
        },
    ];

    for tc in cases {
        println!("Running test case: {}", tc.name);
        let result = build_response(tc.outcome, 1, 10);
        let result_clone = result.clone();

        if let Some(ret_val) = &tc.ret_val {
            assert!(result.is_ok(), "expected success but got error");
            let res = result.ok().unwrap();
            assert_eq!(res.candidates.len(), ret_val.len(), "candidates length mismatch");
            assert_eq!(res.candidates[0].id, ret_val[0].id, "candidate id mismatch");
        }

        if let Some(expected_err) = &tc.ret_err {
            assert!(result_clone.is_err(), "expected error but got success");
            let err = result_clone.err().unwrap();
            assert_eq!(format!("{:?}", err), format!("{:?}", expected_err), "error mismatch");
        }
    }
}

#[test]
fn test_get_candidate_success() {
    let response = Response {
        candidates: vec![sample_candidate()],
        total: 10,
        limit: 10,
        page: 1,
    };

    let body = candidate_list_envelope(Ok(response));

    assert!(body.status);
    assert!(body.data.is_some(), "expected `data` key in response");
}

#[test]
fn test_get_candidate_failure() {
    let body = candidate_list_envelope(Err(CandidateError::NotFound(
        "Candidates not found".to_string(),
    )));

    assert!(!body.status, "expected status to be false in error response");
    assert!(
        !body.error_code.is_empty() || !body.message.is_empty(),
        "expected error_code and message is not empty in error response"
    );
    assert!(body.data.is_none());
    assert_eq!(body.message, "failed process data");
    assert_eq!(body.error_code, "-1");
}

#[test]
fn fifteen_rows_second_page() {
    // A table of 15 matching rows, no filter, page 2 with limit 10: the
    // resolved offset is 10, the store hands back the 5 remaining rows,
    // and the page reports the full total of 15.
    let filter = CandidateFilter { id: None, page: Some(2), limit: Some(10) };
    let plan = plan_find_all(&filter);
    assert_eq!(plan.offset, 10);
    assert_eq!(plan.limit, 10);
    assert_eq!(plan.page, 2);

    let remaining: Vec<model::Candidate> = (10u128..15u128)
        .map(|n| sample_row(n, n as i32))
        .collect();
    let result = complete_find_all(Ok(15), Ok(remaining)).expect("expected a page");
    assert_eq!(result.total, 15);
    assert_eq!(result.candidates.len(), 5);
}

#[test]
fn single_match_by_id() {
    // Three rows in the table, the filter matches exactly one: total 1
    // and a single-element page whose id equals the filter value.
    let wanted = "00000000-0000-0000-0000-00000000000a";
    let filter = CandidateFilter {
        id: Some(wanted.to_string()),
        page: Some(1),
        limit: Some(10),
    };
    let plan = plan_find_all(&filter);
    assert_eq!(plan.offset, 0);

    let matching = vec![sample_row(0xa, 2)];
    let result = complete_find_all(Ok(1), Ok(matching)).expect("expected a page");
    assert_eq!(result.total, 1);
    assert_eq!(result.candidates.len(), 1);
    assert_eq!(result.candidates[0].id, wanted);
}

#[test]
fn zero_matches_is_success() {
    // An id matching no row yields an empty page with total 0, never an
    // error.
    let result = complete_find_all(Ok(0), Ok(Vec::new())).expect("expected a page");
    assert_eq!(result.total, 0);
    assert!(result.candidates.is_empty());
}

#[test]
fn data_failure_yields_unknown_and_no_page() {
    let outcome = complete_find_all(
        Ok(3),
        Err(StoreError::Other("connection reset".to_string())),
    );
    match outcome {
        Err(CandidateError::UnknownError(m)) => assert_eq!(m, "connection reset"),
        other => panic!("expected UnknownError, got {:?}", other),
    }
}

#[test]
fn data_row_not_found_yields_not_found() {
    let outcome = complete_find_all(
        Ok(3),
        Err(StoreError::RowNotFound("no rows returned".to_string())),
    );
    match outcome {
        Err(CandidateError::NotFound(m)) => assert_eq!(m, "no rows returned"),
        other => panic!("expected NotFound, got {:?}", other),
    }
}

#[test]
fn count_failure_yields_unknown() {
    let rows = vec![sample_row(1, 1)];
    let outcome = complete_find_all(
        Err(StoreError::Other("count exploded".to_string())),
        Ok(rows),
    );
    match outcome {
        Err(CandidateError::UnknownError(m)) => assert_eq!(m, "count exploded"),
        other => panic!("expected UnknownError, got {:?}", other),
    }
}

#[test]
fn mapper_renders_identifier() {
    let rows = vec![
        sample_row(1, 1),
        sample_row(0x00010203_0405_0607_0809_0a0b0c0d0e0f, 2),
    ];
    let mapped = vote_svc::model::transform_candidate(&rows);
    assert_eq!(mapped.len(), 2);
    assert_eq!(mapped[0].id, "00000000-0000-0000-0000-000000000001");
    assert_eq!(mapped[1].id, "00010203-0405-0607-0809-0a0b0c0d0e0f");
    assert_eq!(mapped[1].vote_number, 2);
    assert_eq!(mapped[1].president_name, "Alice");
    assert_eq!(mapped[1].status, true);
    assert_eq!(mapped[1].created_at, 1_700_000_000_000_000);
    assert_eq!(mapped[1].updated_at, None);
}

#[test]
fn request_and_filter_pass_through() {
    let query = CandidateListQuery { id: Some("abc".to_string()), page: None, limit: Some(3) };
    let request = request_of_query(query);
    assert_eq!(request.id.as_deref(), Some("abc"));
    assert_eq!(request.page, None);
    assert_eq!(request.limit, Some(3));

    let filter = build_filter(request);
    assert_eq!(filter.id.as_deref(), Some("abc"));
    assert_eq!(filter.page, None);
    assert_eq!(filter.limit, Some(3));
}

#[test]
fn response_echoes_resolved_pagination() {
    let page = CandidateListPage { total: 42, candidates: vec![sample_candidate()] };
    let response = build_response(Ok(page), 3, 7).expect("expected a response");
    assert_eq!(response.total, 42);
    assert_eq!(response.page, 3);
    assert_eq!(response.limit, 7);
    assert_eq!(response.candidates.len(), 1);
}

#[test]
fn error_passes_through_interactor_unchanged() {
    let err = build_response(
        Err(CandidateError::UnknownError("boom".to_string())),
        1,
        10,
    )
    .expect_err("expected the error to propagate");
    assert_eq!(err, CandidateError::UnknownError("boom".to_string()));
}

#[test]
fn envelope_hides_store_message() {
    let body = candidate_list_envelope(Err(CandidateError::UnknownError(
        "password authentication failed for user".to_string(),
    )));
    assert!(!body.message.contains("password"));
    assert_eq!(body.message, "failed process data");
}
