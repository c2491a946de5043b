//! Request handlers, as decision functions: each endpoint's logic is a pure
//! step from the request's plain values (and, later, from what the database
//! returned) to either the next statement to run or the finished response.
//! The front door runs the statements and feeds the results back in; no
//! statement is ever planned for a table that the registry does not hold.

use vstd::prelude::*;

use crate::codec::{get_column_names, row_json, row_to_json, rows_to_json, DbRow};
use crate::errors::{
    classify, classify_spec, connection_failed_message, count_failed_message, query_failed_message,
    row_not_found_error, row_not_found_message, unknown_table_error, unknown_table_message,
    DbFailure, ErrorBody, ErrorKind,
};
use crate::foreign::{render_uuid, uuid_text};
use crate::json::JsonValue;
use crate::pagination::{norm_limit, norm_page, normalize, total_pages, total_pages_spec, window_of, PageWindow};
use crate::planner::{count_sql, lookup_sql, page_sql, plan_count, plan_lookup, plan_page};
use crate::registry::{TableName, TableRegistry};

verus! {

/// The assembled body of a successful paged-list response.
pub struct PaginatedResult {
    pub table: String,
    pub total_count: i64,
    pub page: i64,
    pub limit: i64,
    pub total_pages: i64,
    pub columns: Vec<String>,
    pub data: Vec<JsonValue>,
}

/// The statements of one paged-list request. `limit` and `offset` live in
/// `window` as typed values for binding; the statement texts hold only the
/// validated table name and fixed fragments.
pub struct PageQueries {
    pub table: TableName,
    pub window: PageWindow,
    pub count_text: String,
    pub page_text: String,
}

/// The first step of a paged-list request: either a rejection carrying no
/// statement at all, or the two statements to run.
pub enum PagePlan {
    /// The table is not in the registry: answer at once, with zero database
    /// work. No statement text exists in this arm.
    Reject(ErrorBody),
    Run(PageQueries),
}

/// Plan a paged-list request: validate the table against the registry,
/// short-circuiting before any statement is built when it is absent, then
/// normalize pagination and build the count and page statements.
pub fn plan_table_page(
    reg: &TableRegistry,
    table: &String,
    page: Option<i64>,
    limit: Option<i64>,
) -> (r: PagePlan)
    requires
        (norm_page(page) - 1) * norm_limit(limit) <= i64::MAX,
    ensures
        !reg@.contains(table@) ==> (r matches PagePlan::Reject(e) && e.kind
            == ErrorKind::UnknownTable && e.message@ == unknown_table_message(table@)),
        reg@.contains(table@) ==> (r matches PagePlan::Run(q) && q.table@ == table@ && window_of(
            page,
            limit,
            q.window,
        ) && q.count_text@ == count_sql(table@) && q.page_text@ == page_sql(table@)),
        r matches PagePlan::Run(q) ==> reg@.contains(q.table@),
{
    match reg.validate(table) {
        Some(t) => {
            let window = normalize(page, limit);
            let count_text = plan_count(&t);
            let page_text = plan_page(&t);
            PagePlan::Run(PageQueries { table: t, window, count_text, page_text })
        },
        None => PagePlan::Reject(unknown_table_error(table.as_str())),
    }
}

/// Assemble the paged-list response from the window, the counted total and
/// the fetched rows: the page count is the exact ceiling of the total over
/// the limit, the column names come from the first row, and every row is
/// converted by the codec's dispatch table.
pub fn finish_page_request(table: TableName, window: PageWindow, total_count: i64, rows: Vec<
    DbRow,
>) -> (r: PaginatedResult)
    requires
        0 <= total_count,
        1 <= window.limit,
    ensures
        r.table@ == table@,
        r.total_count == total_count,
        r.page == window.page,
        r.limit == window.limit,
        r.total_pages == total_pages_spec(total_count as int, window.limit as int),
        rows@.len() == 0 ==> r.columns@.len() == 0,
        rows@.len() > 0 ==> r.columns@.len() == rows@[0].cells@.len() && forall|i: int|
            0 <= i < r.columns@.len() ==> (#[trigger] r.columns@[i])@ == rows@[0].cells@[i].0@,
        r.data@.len() == rows@.len(),
        forall|i: int| 0 <= i < rows@.len() ==> row_json(rows@[i], #[trigger] r.data@[i]),
{
    let pages = total_pages(total_count, window.limit);
    let columns = get_column_names(&rows);
    let data = rows_to_json(rows);
    PaginatedResult {
        table: table.into_string(),
        total_count,
        page: window.page,
        limit: window.limit,
        total_pages: pages,
        columns,
        data,
    }
}

/// Which step of a paged-list request was running when the database failed.
#[derive(Clone, Copy, Debug, PartialEq, Eq, Structural)]
pub enum PageStage {
    Counting,
    Fetching,
}

/// The error body for a failed paged-list request. On this path a database
/// report is a plain query failure; only a pool failure is kept distinct as
/// infrastructure. No database detail reaches the message.
pub fn page_request_failure(stage: PageStage, f: &DbFailure) -> (e: ErrorBody)
    ensures
        *f is Unavailable ==> e.kind == ErrorKind::ConnectionUnavailable && e.message@
            == connection_failed_message(),
        *f is Query ==> e.kind == ErrorKind::QueryFailed && e.message@ == (
        if stage == PageStage::Counting {
            count_failed_message()
        } else {
            query_failed_message()
        }),
{
    match f {
        DbFailure::Unavailable => ErrorBody {
            kind: ErrorKind::ConnectionUnavailable,
            message: String::from_str("Failed to get database connection"),
        },
        DbFailure::Query { .. } => match stage {
            PageStage::Counting => ErrorBody {
                kind: ErrorKind::QueryFailed,
                message: String::from_str("An error occurred while counting rows in the database"),
            },
            PageStage::Fetching => ErrorBody {
                kind: ErrorKind::QueryFailed,
                message: String::from_str("An error occurred while querying the database"),
            },
        },
    }
}

/// The one statement of a lookup-by-id request. The id is bound as a typed
/// parameter beside the text and never enters it.
pub struct RowQuery {
    pub table: TableName,
    pub lookup_text: String,
}

/// The first step of a lookup-by-id request.
pub enum RowPlan {
    /// The table is not in the registry: answer at once, with zero database
    /// work. No statement text exists in this arm.
    Reject(ErrorBody),
    Run(RowQuery),
}

/// Plan a lookup-by-id request: validate the table against the registry,
/// short-circuiting when it is absent, then build the lookup statement.
pub fn plan_row_request(reg: &TableRegistry, table: &String) -> (r: RowPlan)
    ensures
        !reg@.contains(table@) ==> (r matches RowPlan::Reject(e) && e.kind
            == ErrorKind::UnknownTable && e.message@ == unknown_table_message(table@)),
        reg@.contains(table@) ==> (r matches RowPlan::Run(q) && q.table@ == table@
            && q.lookup_text@ == lookup_sql(table@)),
        r matches RowPlan::Run(q) ==> reg@.contains(q.table@),
{
    match reg.validate(table) {
        Some(t) => {
            let lookup_text = plan_lookup(&t);
            RowPlan::Run(RowQuery { table: t, lookup_text })
        },
        None => RowPlan::Reject(unknown_table_error(table.as_str())),
    }
}

/// Finish a lookup-by-id whose statement ran: zero rows is `RowNotFound`,
/// otherwise the first row converts to exactly one JSON object.
pub fn finish_row_request(table: &TableName, id: &uuid::Uuid, rows: Vec<DbRow>) -> (r: Result<
    JsonValue,
    ErrorBody,
>)
    ensures
        rows@.len() == 0 ==> (r matches Err(e) && e.kind == ErrorKind::RowNotFound && e.message@
            == row_not_found_message(uuid_text(*id), table@)),
        rows@.len() > 0 ==> (r matches Ok(j) && row_json(rows@[0], j)),
{
    let mut rows = rows;
    if rows.len() == 0 {
        let id_text = render_uuid(id);
        Err(row_not_found_error(id_text.as_str(), table.as_str()))
    } else {
        let first = rows.remove(0);
        Ok(row_to_json(first))
    }
}

/// The error body for a lookup-by-id whose statement failed: the failure is
/// classified, and the body's message matches its kind. A vanished relation
/// is `UnknownTable` (the stale-registry race), SQLSTATE `P0002` is
/// `RowNotFound`, anything else a generic query failure.
pub fn row_request_failure(table: &TableName, id: &uuid::Uuid, f: &DbFailure) -> (e: ErrorBody)
    ensures
        e.kind == classify_spec(*f),
        e.kind == ErrorKind::UnknownTable ==> e.message@ == unknown_table_message(table@),
        e.kind == ErrorKind::RowNotFound ==> e.message@ == row_not_found_message(
            uuid_text(*id),
            table@,
        ),
        e.kind == ErrorKind::QueryFailed ==> e.message@ == query_failed_message(),
        e.kind == ErrorKind::ConnectionUnavailable ==> e.message@ == connection_failed_message(),
{
    let kind = classify(f);
    match kind {
        ErrorKind::UnknownTable => unknown_table_error(table.as_str()),
        ErrorKind::RowNotFound => {
            let id_text = render_uuid(id);
            row_not_found_error(id_text.as_str(), table.as_str())
        },
        ErrorKind::QueryFailed => ErrorBody {
            kind: ErrorKind::QueryFailed,
            message: String::from_str("An error occurred while querying the database"),
        },
        ErrorKind::ConnectionUnavailable => ErrorBody {
            kind: ErrorKind::ConnectionUnavailable,
            message: String::from_str("Failed to get database connection"),
        },
    }
}

/// What the front door observed while probing the database for liveness.
pub enum HeartbeatEvent {
    /// A connection was acquired and the trivial query succeeded.
    QuerySucceeded,
    /// A connection was acquired but the trivial query failed.
    QueryFailed,
    /// No connection could be acquired.
    ConnectionFailed,
}

/// The liveness reply: healthy only when both acquiring a connection and the
/// trivial query succeeded.
pub fn heartbeat(ev: &HeartbeatEvent) -> (r: (u16, String))
    ensures
        *ev is QuerySucceeded ==> r.0 == 200 && r.1@ == "OK - Database connection is healthy"@,
        *ev is QueryFailed ==> r.0 == 500 && r.1@ == "Database query failed"@,
        *ev is ConnectionFailed ==> r.0 == 500 && r.1@ == "Failed to get database connection"@,
{
    match ev {
        HeartbeatEvent::QuerySucceeded => (
            200,
            String::from_str("OK - Database connection is healthy"),
        ),
        HeartbeatEvent::QueryFailed => (500, String::from_str("Database query failed")),
        HeartbeatEvent::ConnectionFailed => (
            500,
            String::from_str("Failed to get database connection"),
        ),
    }
}

/// The registry contents as a JSON array of strings, ordered as built.
pub fn list_tables(reg: &TableRegistry) -> (j: JsonValue)
    ensures
        j matches JsonValue::Array(items) && items@.len() == reg@.len() && (forall|i: int|
            0 <= i < reg@.len() ==> ((#[trigger] items@[i]) matches JsonValue::Text(s) && s@
                == reg@[i])),
{
    let names = reg.names();
    let n = names.len();
    let mut items: Vec<JsonValue> = Vec::new();
    let mut i: usize = 0;
    while i < n
        invariant
            n == names@.len(),
            names.deep_view() == reg@,
            i <= n,
            items@.len() == i,
            forall|k: int|
                0 <= k < i ==> ((#[trigger] items@[k]) matches JsonValue::Text(s) && s@ == reg@[k]),
        decreases n - i,
    {
        items.push(JsonValue::Text(names[i].clone()));
        i = i + 1;
    }
    JsonValue::Array(items)
}

} // verus!
