//! Query planner: builds the three statement shapes — row count, one page of
//! rows, lookup by id — for a table name already validated against the
//! registry. The validated table name is the only request-derived string that
//! ever reaches statement text; `limit`, `offset` and `id` travel beside the
//! text as typed bound-parameter values and never appear in it.

use vstd::prelude::*;

use crate::registry::TableName;

verus! {

/// The text of the count statement for a table: it holds the table name and
/// fixed fragments only, and binds no parameters.
pub open spec fn count_sql(table: Seq<char>) -> Seq<char> {
    "SELECT COUNT(*) FROM "@ + table
}

/// The text of the paged-list statement for a table: it holds the table name
/// and fixed fragments only; `limit` and `offset` are bound as `$1` and `$2`.
pub open spec fn page_sql(table: Seq<char>) -> Seq<char> {
    "SELECT * FROM "@ + table + " LIMIT $1 OFFSET $2"@
}

/// The text of the lookup-by-id statement for a table: it holds the table
/// name and fixed fragments only; the id is bound as `$1`.
pub open spec fn lookup_sql(table: Seq<char>) -> Seq<char> {
    "SELECT * FROM "@ + table + " WHERE id = $1"@
}

/// Build the count statement's text.
pub fn plan_count(table: &TableName) -> (s: String)
    ensures
        s@ == count_sql(table@),
{
    let s = String::from_str("SELECT COUNT(*) FROM ");
    s.concat(table.as_str())
}

/// Build the paged-list statement's text.
pub fn plan_page(table: &TableName) -> (s: String)
    ensures
        s@ == page_sql(table@),
{
    let s = String::from_str("SELECT * FROM ");
    let s = s.concat(table.as_str());
    s.concat(" LIMIT $1 OFFSET $2")
}

/// Build the lookup-by-id statement's text.
pub fn plan_lookup(table: &TableName) -> (s: String)
    ensures
        s@ == lookup_sql(table@),
{
    let s = String::from_str("SELECT * FROM ");
    let s = s.concat(table.as_str());
    s.concat(" WHERE id = $1")
}

/// Injection safety of the planner: every statement text is a function of the
/// validated table name alone. Caller-supplied page, limit and id values have
/// no way into the text — the planner does not take them, and this lemma
/// pins each text to a concatenation of fixed fragments around the one
/// validated name.
pub proof fn lemma_statement_text_from_table_alone(table: Seq<char>)
    ensures
        count_sql(table) == "SELECT COUNT(*) FROM "@ + table,
        page_sql(table) == "SELECT * FROM "@ + table + " LIMIT $1 OFFSET $2"@,
        lookup_sql(table) == "SELECT * FROM "@ + table + " WHERE id = $1"@,
{
}

/// The paged-list statement text determines the table name: the fixed
/// fragments around the name never vary, so two equal texts can only have
/// come from one table. Together with the lemma above, the table name is
/// exactly the variable content of the text.
pub proof fn lemma_page_text_determines_table(a: Seq<char>, b: Seq<char>)
    requires
        page_sql(a) == page_sql(b),
    ensures
        a == b,
{
    let p = "SELECT * FROM "@;
    let s = " LIMIT $1 OFFSET $2"@;
    assert(page_sql(a).len() == p.len() + a.len() + s.len());
    assert(page_sql(b).len() == p.len() + b.len() + s.len());
    assert(a.len() == b.len());
    assert forall|i: int| 0 <= i < a.len() implies a[i] == b[i] by {
        assert(page_sql(a)[p.len() + i] == a[i]);
        assert(page_sql(b)[p.len() + i] == b[i]);
    }
    assert(a =~= b);
}

} // verus!
