//! Table registry: an immutable snapshot of the queryable table names, built
//! once at startup from the database catalog and used as an allowlist. The
//! only way to obtain a `TableName` is to validate a candidate string against
//! a registry, so query text can only ever embed an allowlisted name.

use vstd::prelude::*;

verus! {

/// The startup-built allowlist of table names, in catalog order. The field is
/// private and no mutating method exists: the snapshot is immutable after
/// construction.
pub struct TableRegistry {
    names: Vec<String>,
}

impl View for TableRegistry {
    type V = Seq<Seq<char>>;

    closed spec fn view(&self) -> Seq<Seq<char>> {
        self.names.deep_view()
    }
}

/// A table name that was validated against a registry snapshot. The field is
/// private: values exist only through `TableRegistry::validate`.
pub struct TableName {
    name: String,
}

impl View for TableName {
    type V = Seq<char>;

    closed spec fn view(&self) -> Seq<char> {
        self.name@
    }
}

impl TableName {
    /// The validated name, for embedding into statement text.
    pub fn as_str(&self) -> (r: &str)
        ensures
            r@ == self@,
    {
        self.name.as_str()
    }

    /// Surrender the validated name as a plain string.
    pub fn into_string(self) -> (r: String)
        ensures
            r@ == self@,
    {
        self.name
    }
}

impl TableRegistry {
    /// Build the registry from the catalog's table names, kept in the order
    /// the catalog returned them.
    pub fn new(names: Vec<String>) -> (r: TableRegistry)
        ensures
            r@ == names.deep_view(),
    {
        TableRegistry { names }
    }

    /// How many tables the snapshot holds.
    pub fn len(&self) -> (n: usize)
        ensures
            n == self@.len(),
    {
        self.names.len()
    }

    /// The registry contents, ordered as built.
    pub fn names(&self) -> (r: &Vec<String>)
        ensures
            r.deep_view() == self@,
    {
        &self.names
    }

    /// Pure membership test against the snapshot.
    pub fn contains(&self, candidate: &String) -> (r: bool)
        ensures
            r == self@.contains(candidate@),
    {
        let n = self.names.len();
        let mut i: usize = 0;
        while i < n
            invariant
                n == self.names@.len(),
                i <= n,
                forall|k: int| 0 <= k < i ==> self@[k] != candidate@,
            decreases n - i,
        {
            if self.names[i] == *candidate {
                assert(self@[i as int] == candidate@);
                return true;
            }
            i = i + 1;
        }
        false
    }

    /// Validate a candidate string: `Some` exactly when the candidate is in
    /// the snapshot, and the returned `TableName` carries that candidate.
    pub fn validate(&self, candidate: &String) -> (r: Option<TableName>)
        ensures
            r is Some <==> self@.contains(candidate@),
            r matches Some(t) ==> t@ == candidate@,
    {
        if self.contains(candidate) {
            Some(TableName { name: candidate.clone() })
        } else {
            None
        }
    }
}

} // verus!
