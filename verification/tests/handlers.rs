use table_api::codec::{DbRow, RowValue};
use table_api::errors::{classify, status_of, DbFailure, ErrorKind};
use table_api::handlers::{
    finish_page_request, finish_row_request, heartbeat, list_tables, page_request_failure,
    plan_row_request, plan_table_page, row_request_failure, HeartbeatEvent, PagePlan, PageStage,
    RowPlan,
};
use table_api::json::JsonValue;
use table_api::logging::Logger;
use table_api::pagination::normalize;
use table_api::registry::{TableName, TableRegistry};

fn sample_registry() -> TableRegistry {
    TableRegistry::new(vec!["orders".to_string(), "users".to_string()])
}

fn orders() -> TableName {
    sample_registry().validate(&"orders".to_string()).unwrap()
}

fn sample_id() -> uuid::Uuid {
    uuid::Uuid::parse_str("67e55044-10b1-426f-9247-bb680e5fe0c8").unwrap()
}

#[test]
fn unknown_table_is_rejected_before_any_statement_exists() {
    let reg = sample_registry();
    let plan = plan_table_page(&reg, &"unknown_table".to_string(), Some(1), Some(10));
    match plan {
        PagePlan::Reject(e) => {
            assert_eq!(e.kind, ErrorKind::UnknownTable);
            assert_eq!(e.message, "Table 'unknown_table' not found");
            assert_eq!(status_of(e.kind), 404);
        }
        PagePlan::Run(_) => panic!("an unknown table must not produce statements"),
    }
}

#[test]
fn page_plan_embeds_only_the_table_name() {
    let reg = sample_registry();
    // Hostile page and limit values: they may move the window, but the
    // statement text never changes — they are bound parameters.
    let a = plan_table_page(&reg, &"orders".to_string(), Some(1), Some(10));
    let b = plan_table_page(&reg, &"orders".to_string(), Some(987654), Some(-99999));
    let (qa, qb) = match (a, b) {
        (PagePlan::Run(qa), PagePlan::Run(qb)) => (qa, qb),
        _ => panic!("a registry member must produce statements"),
    };
    assert_eq!(qa.count_text, "SELECT COUNT(*) FROM orders");
    assert_eq!(qa.page_text, "SELECT * FROM orders LIMIT $1 OFFSET $2");
    assert_eq!(qa.count_text, qb.count_text);
    assert_eq!(qa.page_text, qb.page_text);
    assert!(!qa.page_text.contains("10"));
    assert!(!qb.page_text.contains("987654"));
    assert_eq!(qb.window.limit, 1);
    assert_eq!(qb.window.offset, 987653);
}

#[test]
fn finished_page_assembles_counts_columns_and_rows() {
    let window = normalize(Some(2), Some(10));
    let rows = vec![
        DbRow {
            cells: vec![
                ("id".to_string(), RowValue::Int(11)),
                ("name".to_string(), RowValue::Text("a".to_string())),
            ],
        },
        DbRow {
            cells: vec![
                ("id".to_string(), RowValue::Int(12)),
                ("name".to_string(), RowValue::Text("b".to_string())),
            ],
        },
    ];
    let res = finish_page_request(orders(), window, 25, rows);
    assert_eq!(res.table, "orders");
    assert_eq!(res.total_count, 25);
    assert_eq!(res.page, 2);
    assert_eq!(res.limit, 10);
    assert_eq!(res.total_pages, 3);
    assert_eq!(res.columns, vec!["id".to_string(), "name".to_string()]);
    assert_eq!(res.data.len(), 2);
    match &res.data[0] {
        JsonValue::Object(m) => assert_eq!(m[0], ("id".to_string(), JsonValue::Int(11))),
        other => panic!("expected an object, got {:?}", other),
    }
}

#[test]
fn row_plan_validates_and_builds_lookup() {
    let reg = sample_registry();
    match plan_row_request(&reg, &"orders".to_string()) {
        RowPlan::Run(q) => assert_eq!(q.lookup_text, "SELECT * FROM orders WHERE id = $1"),
        RowPlan::Reject(_) => panic!("a registry member must produce a statement"),
    }
    match plan_row_request(&reg, &"nope".to_string()) {
        RowPlan::Reject(e) => {
            assert_eq!(e.kind, ErrorKind::UnknownTable);
            assert_eq!(e.message, "Table 'nope' not found");
        }
        RowPlan::Run(_) => panic!("an unknown table must not produce a statement"),
    }
}

#[test]
fn missing_row_is_row_not_found() {
    let id = sample_id();
    let r = finish_row_request(&orders(), &id, vec![]);
    let e = r.expect_err("zero rows must be an error");
    assert_eq!(e.kind, ErrorKind::RowNotFound);
    assert_eq!(
        e.message,
        "No row found with id '67e55044-10b1-426f-9247-bb680e5fe0c8' in table 'orders'"
    );
    assert_eq!(status_of(e.kind), 404);
}

#[test]
fn existing_row_converts_to_exactly_one_object() {
    let id = sample_id();
    let rows = vec![DbRow {
        cells: vec![
            ("id".to_string(), RowValue::Uuid(id)),
            ("total".to_string(), RowValue::BigInt(99)),
        ],
    }];
    let v = finish_row_request(&orders(), &id, rows).expect("one row must succeed");
    match v {
        JsonValue::Object(m) => {
            assert_eq!(m.len(), 2);
            assert_eq!(
                m[0],
                (
                    "id".to_string(),
                    JsonValue::Text("67e55044-10b1-426f-9247-bb680e5fe0c8".to_string())
                )
            );
            assert_eq!(m[1], ("total".to_string(), JsonValue::Int(99)));
        }
        other => panic!("expected an object, got {:?}", other),
    }
}

#[test]
fn classifier_maps_sqlstates() {
    let q = |code: &str| DbFailure::Query { sqlstate: Some(code.to_string()) };
    assert_eq!(classify(&q("42P01")), ErrorKind::UnknownTable);
    assert_eq!(classify(&q("P0002")), ErrorKind::RowNotFound);
    assert_eq!(classify(&q("23505")), ErrorKind::QueryFailed);
    assert_eq!(classify(&DbFailure::Query { sqlstate: None }), ErrorKind::QueryFailed);
    assert_eq!(classify(&DbFailure::Unavailable), ErrorKind::ConnectionUnavailable);
}

#[test]
fn statuses_of_error_kinds() {
    assert_eq!(status_of(ErrorKind::UnknownTable), 404);
    assert_eq!(status_of(ErrorKind::RowNotFound), 404);
    assert_eq!(status_of(ErrorKind::QueryFailed), 500);
    assert_eq!(status_of(ErrorKind::ConnectionUnavailable), 500);
}

#[test]
fn row_failure_keeps_classification_and_messages() {
    let id = sample_id();
    let t = orders();
    let e = row_request_failure(&t, &id, &DbFailure::Query { sqlstate: Some("42P01".to_string()) });
    assert_eq!(e.kind, ErrorKind::UnknownTable);
    assert_eq!(e.message, "Table 'orders' not found");
    let e = row_request_failure(&t, &id, &DbFailure::Query { sqlstate: Some("P0002".to_string()) });
    assert_eq!(e.kind, ErrorKind::RowNotFound);
    let e = row_request_failure(&t, &id, &DbFailure::Query { sqlstate: Some("57014".to_string()) });
    assert_eq!(e.kind, ErrorKind::QueryFailed);
    assert_eq!(e.message, "An error occurred while querying the database");
    let e = row_request_failure(&t, &id, &DbFailure::Unavailable);
    assert_eq!(e.kind, ErrorKind::ConnectionUnavailable);
}

#[test]
fn page_failure_messages_by_stage() {
    let f = DbFailure::Query { sqlstate: None };
    let e = page_request_failure(PageStage::Counting, &f);
    assert_eq!(e.kind, ErrorKind::QueryFailed);
    assert_eq!(e.message, "An error occurred while counting rows in the database");
    let e = page_request_failure(PageStage::Fetching, &f);
    assert_eq!(e.message, "An error occurred while querying the database");
    let e = page_request_failure(PageStage::Fetching, &DbFailure::Unavailable);
    assert_eq!(e.kind, ErrorKind::ConnectionUnavailable);
    assert_eq!(e.message, "Failed to get database connection");
}

#[test]
fn heartbeat_replies() {
    let (s, b) = heartbeat(&HeartbeatEvent::QuerySucceeded);
    assert_eq!((s, b.as_str()), (200, "OK - Database connection is healthy"));
    let (s, b) = heartbeat(&HeartbeatEvent::QueryFailed);
    assert_eq!((s, b.as_str()), (500, "Database query failed"));
    let (s, b) = heartbeat(&HeartbeatEvent::ConnectionFailed);
    assert_eq!((s, b.as_str()), (500, "Failed to get database connection"));
}

#[test]
fn list_tables_returns_names_in_order() {
    let reg = sample_registry();
    match list_tables(&reg) {
        JsonValue::Array(items) => {
            assert_eq!(
                items,
                vec![
                    JsonValue::Text("orders".to_string()),
                    JsonValue::Text("users".to_string())
                ]
            );
        }
        other => panic!("expected an array, got {:?}", other),
    }
}

#[test]
fn access_log_pattern_is_fixed() {
    assert_eq!(
        Logger::format_pattern(),
        "%a '%r' %s %b '%{Referer}i' '%{User-Agent}i' %T"
    );
}
