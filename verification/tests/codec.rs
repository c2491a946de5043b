use table_api::codec::{get_column_names, rows_to_json, DbRow, RowValue};
use table_api::json::JsonValue;

fn sample_timestamp() -> chrono::NaiveDateTime {
    chrono::NaiveDate::from_ymd_opt(2021, 3, 14)
        .unwrap()
        .and_hms_opt(1, 2, 3)
        .unwrap()
}

#[test]
fn one_column_of_each_supported_type() {
    let ts = sample_timestamp();
    let date = chrono::NaiveDate::from_ymd_opt(1999, 12, 31).unwrap();
    let id = uuid::Uuid::parse_str("67E55044-10B1-426F-9247-BB680E5FE0C8").unwrap();
    let doc = JsonValue::Array(vec![JsonValue::Int(1), JsonValue::Null]);
    let row = DbRow {
        cells: vec![
            ("small".to_string(), RowValue::SmallInt(-7)),
            ("int".to_string(), RowValue::Int(40000)),
            ("big".to_string(), RowValue::BigInt(1 << 40)),
            ("real".to_string(), RowValue::Real(1.5f32.to_bits())),
            ("double".to_string(), RowValue::Double(2.5f64.to_bits())),
            ("flag".to_string(), RowValue::Bool(true)),
            ("name".to_string(), RowValue::Text("hello".to_string())),
            ("created".to_string(), RowValue::Timestamp(ts)),
            ("updated".to_string(), RowValue::TimestampTz(ts)),
            ("born".to_string(), RowValue::Date(date)),
            ("payload".to_string(), RowValue::Json(doc)),
            ("id".to_string(), RowValue::Uuid(id)),
        ],
    };
    let out = rows_to_json(vec![row]);
    assert_eq!(out.len(), 1);
    let members = match &out[0] {
        JsonValue::Object(m) => m,
        other => panic!("expected an object, got {:?}", other),
    };
    let keys: Vec<&str> = members.iter().map(|(k, _)| k.as_str()).collect();
    assert_eq!(
        keys,
        vec![
            "small", "int", "big", "real", "double", "flag", "name", "created", "updated",
            "born", "payload", "id"
        ]
    );
    assert_eq!(members[0].1, JsonValue::Int(-7));
    assert_eq!(members[1].1, JsonValue::Int(40000));
    assert_eq!(members[2].1, JsonValue::Int(1 << 40));
    assert_eq!(members[3].1, JsonValue::Float32(1.5f32.to_bits()));
    assert_eq!(members[4].1, JsonValue::Float64(2.5f64.to_bits()));
    assert_eq!(members[5].1, JsonValue::Bool(true));
    assert_eq!(members[6].1, JsonValue::Text("hello".to_string()));
    assert_eq!(members[7].1, JsonValue::Text("2021-03-14 01:02:03".to_string()));
    assert_eq!(members[8].1, JsonValue::Text("2021-03-14T01:02:03+00:00".to_string()));
    assert_eq!(members[9].1, JsonValue::Text("1999-12-31".to_string()));
    assert_eq!(
        members[10].1,
        JsonValue::Array(vec![JsonValue::Int(1), JsonValue::Null])
    );
    assert_eq!(
        members[11].1,
        JsonValue::Text("67e55044-10b1-426f-9247-bb680e5fe0c8".to_string())
    );
}

#[test]
fn unsupported_column_degrades_to_null_without_touching_siblings() {
    let row = DbRow {
        cells: vec![
            ("x".to_string(), RowValue::SmallInt(1)),
            ("y".to_string(), RowValue::Unsupported),
            ("z".to_string(), RowValue::Bool(false)),
        ],
    };
    let out = rows_to_json(vec![row]);
    let members = match &out[0] {
        JsonValue::Object(m) => m,
        other => panic!("expected an object, got {:?}", other),
    };
    assert_eq!(members[0], ("x".to_string(), JsonValue::Int(1)));
    assert_eq!(members[1], ("y".to_string(), JsonValue::Null));
    assert_eq!(members[2], ("z".to_string(), JsonValue::Bool(false)));
}

#[test]
fn column_names_come_from_the_first_row() {
    let rows = vec![
        DbRow {
            cells: vec![
                ("a".to_string(), RowValue::Int(1)),
                ("b".to_string(), RowValue::Int(2)),
            ],
        },
        DbRow {
            cells: vec![
                ("a".to_string(), RowValue::Int(3)),
                ("b".to_string(), RowValue::Int(4)),
            ],
        },
    ];
    assert_eq!(get_column_names(&rows), vec!["a".to_string(), "b".to_string()]);
}

#[test]
fn column_names_of_empty_result_set_are_empty() {
    let rows: Vec<DbRow> = vec![];
    assert_eq!(get_column_names(&rows), Vec::<String>::new());
    assert_eq!(rows_to_json(rows).len(), 0);
}

#[test]
fn rows_convert_in_order() {
    let rows = vec![
        DbRow { cells: vec![("n".to_string(), RowValue::Int(1))] },
        DbRow { cells: vec![("n".to_string(), RowValue::Int(2))] },
        DbRow { cells: vec![("n".to_string(), RowValue::Int(3))] },
    ];
    let out = rows_to_json(rows);
    assert_eq!(out.len(), 3);
    for (i, v) in out.iter().enumerate() {
        match v {
            JsonValue::Object(m) => assert_eq!(m[0].1, JsonValue::Int(i as i64 + 1)),
            other => panic!("expected an object, got {:?}", other),
        }
    }
}
