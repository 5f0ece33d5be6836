use nautilus::errors::PaginationError;
use nautilus::pagination::Paginate;
use nautilus::pagination::PaginatedResponse;
use nautilus::pagination::PaginationOptions;
use nautilus::pagination::PaginationParams;
use nautilus::pagination::WithCount;
use nautilus::pagination::WithCountExtension;
use nautilus::pagination::execute_windowed;
use nautilus::pagination::params_from_query;
use nautilus::pagination::windowed_sql;

fn plan(page: Option<i64>, per_page: Option<i64>) -> Result<PaginationOptions, PaginationError> {
    PaginationOptions::new(PaginationParams { page, per_page })
}

#[test]
fn per_page_outside_window_is_invalid() {
    assert_eq!(plan(None, Some(0)), Err(PaginationError::InvalidPerPage));
    assert_eq!(plan(None, Some(26)), Err(PaginationError::InvalidPerPage));
    assert_eq!(plan(None, Some(-3)), Err(PaginationError::InvalidPerPage));
}

#[test]
fn per_page_bounds_are_inclusive() {
    assert_eq!(plan(None, Some(1)).unwrap().per_page, 1);
    assert_eq!(plan(None, Some(25)).unwrap().per_page, 25);
}

#[test]
fn page_below_one_is_invalid() {
    assert_eq!(plan(Some(0), None), Err(PaginationError::InvalidPage));
    assert_eq!(plan(Some(-1), Some(10)), Err(PaginationError::InvalidPage));
}

#[test]
fn per_page_is_checked_before_page() {
    assert_eq!(plan(Some(0), Some(0)), Err(PaginationError::InvalidPerPage));
}

#[test]
fn page_three_of_ten_starts_at_twenty() {
    let options = plan(Some(3), Some(10)).unwrap();
    assert_eq!(options.offset(), Some(20));
    assert_eq!(options.per_page, 10);
}

#[test]
fn defaults_are_first_page_of_ten() {
    let options = plan(None, None).unwrap();
    assert_eq!(options.page, 1);
    assert_eq!(options.per_page, 10);
    assert_eq!(options.offset(), Some(0));
}

#[test]
fn huge_page_is_accepted() {
    let options = plan(Some(1_000_000), None).unwrap();
    assert_eq!(options.offset(), Some(9_999_990));
}

#[test]
fn query_params_are_read_by_name() {
    let pairs = vec![
        ("other".to_string(), "x".to_string()),
        ("page".to_string(), "3".to_string()),
        ("per_page".to_string(), "10".to_string()),
    ];
    let params = params_from_query(&pairs).unwrap();
    assert_eq!(params.page, Some(3));
    assert_eq!(params.per_page, Some(10));
}

#[test]
fn absent_query_params_stay_absent() {
    let pairs: Vec<(String, String)> = Vec::new();
    let params = params_from_query(&pairs).unwrap();
    assert_eq!(params.page, None);
    assert_eq!(params.per_page, None);
}

#[test]
fn non_numeric_query_param_rejects_the_query() {
    let pairs = vec![("page".to_string(), "abc".to_string())];
    assert!(params_from_query(&pairs).is_none());
    let pairs = vec![("per_page".to_string(), "1e3".to_string())];
    assert!(params_from_query(&pairs).is_none());
}

#[test]
fn decoded_query_string_supplies_pagination() {
    let query = nautilus::pagination::QueryHmExt(vec![
        ("per_page".to_string(), "25".to_string()),
    ]);
    let params = query.pagination().unwrap();
    assert_eq!(params.page, None);
    assert_eq!(params.per_page, Some(25));
}

#[test]
fn negative_query_param_parses_and_fails_validation() {
    let pairs = vec![("page".to_string(), "-2".to_string())];
    let params = params_from_query(&pairs).unwrap();
    assert_eq!(params.page, Some(-2));
    assert_eq!(
        PaginationOptions::new(params),
        Err(PaginationError::InvalidPage)
    );
}

#[test]
fn windowed_sql_wraps_the_inner_query() {
    let q = windowed_sql("SELECT id FROM workouts ORDER BY id", 10, 20);
    assert_eq!(
        q,
        "SELECT *, COUNT(*) OVER () FROM (SELECT id FROM workouts ORDER BY id) t LIMIT 10 OFFSET 20"
    );
}

#[test]
fn zero_matching_rows_report_total_zero() {
    let rows: Vec<u64> = Vec::new();
    let options = plan(None, None).unwrap();
    let page = execute_windowed(rows, &options);
    assert_eq!(page.total(), 0);
    assert!(page.records().is_empty());
}

#[test]
fn every_page_reports_the_unwindowed_total() {
    let rows: Vec<u64> = vec![10, 20, 30, 40, 50];
    let options = plan(Some(1), Some(2)).unwrap();
    let page = execute_windowed(rows.clone(), &options);
    assert_eq!(page.total(), 5);
    assert_eq!(page.records(), vec![10, 20]);

    let options = plan(Some(2), Some(2)).unwrap();
    let page = execute_windowed(rows.clone(), &options);
    assert_eq!(page.total(), 5);
    assert_eq!(page.records(), vec![30, 40]);

    let options = plan(Some(3), Some(2)).unwrap();
    let page = execute_windowed(rows.clone(), &options);
    assert_eq!(page.total(), 5);
    assert_eq!(page.records(), vec![50]);
}

#[test]
fn page_past_the_data_is_empty_with_total_zero() {
    let rows: Vec<u64> = vec![10, 20, 30];
    let options = plan(Some(4), Some(2)).unwrap();
    let page = execute_windowed(rows, &options);
    assert_eq!(page.total(), 0);
    assert!(page.records().is_empty());
}

#[test]
fn any_query_value_takes_the_decorator() {
    let rows: Vec<u64> = vec![1, 2, 3, 4, 5];
    let options = plan(Some(2), Some(2)).unwrap();
    let page = rows.pages_pagination(options).load();
    assert_eq!(page.total(), 5);
    assert_eq!(page.records(), vec![3, 4]);
}

#[test]
fn raw_rows_split_into_records_and_total() {
    let rows = vec![
        WithCount { record: "a".to_string(), total: 2 },
        WithCount { record: "b".to_string(), total: 2 },
    ];
    let (records, total) = rows.records_and_total();
    assert_eq!(records, vec!["a".to_string(), "b".to_string()]);
    assert_eq!(total, 2);

    let empty: Vec<WithCount<String>> = Vec::new();
    let (records, total) = empty.records_and_total();
    assert!(records.is_empty());
    assert_eq!(total, 0);
}

#[test]
fn response_envelope_carries_data_and_total() {
    let response = PaginatedResponse::new(vec![1u32, 2, 3], 7);
    assert_eq!(response.data, vec![1, 2, 3]);
    assert_eq!(response.meta.total, 7);

    let rows: Vec<i32> = vec![5, 6];
    let options = plan(None, None).unwrap();
    let envelope = execute_windowed(rows, &options).into_response();
    assert_eq!(envelope.data, vec![5, 6]);
    assert_eq!(envelope.meta.total, 2);
}
