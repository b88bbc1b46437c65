//! Data returned by the Metabase API, as plain values.
use vstd::prelude::*;
use crate::dup::{Duplicate, same_seq};

verus! {

/// A collection reference embedded in a question.
#[derive(Debug, Clone, PartialEq)]
pub struct Collection {
    pub id: Option<u32>,
    pub name: String,
}

/// A saved question (card).
#[derive(Debug, Clone, PartialEq)]
pub struct Question {
    pub id: u32,
    pub name: String,
    pub description: Option<String>,
    pub collection_id: Option<u32>,
    pub collection: Option<Collection>,
}

/// A collection as the collection listing returns it.
#[derive(Debug, Clone, PartialEq)]
pub struct CollectionItem {
    pub id: Option<u32>,
    pub name: String,
    pub description: Option<String>,
    pub location: Option<String>,
    pub personal_owner_id: Option<u32>,
    pub archived: bool,
}

/// A database connection.
#[derive(Debug, Clone, PartialEq)]
pub struct Database {
    pub id: u32,
    pub name: String,
    pub engine: Option<String>,
    pub description: Option<String>,
    pub is_sample: bool,
    pub is_saved_questions: bool,
}

/// A table of a database schema.
#[derive(Debug, Clone, PartialEq)]
pub struct TableInfo {
    pub id: u32,
    pub name: String,
    pub schema: Option<String>,
    pub display_name: Option<String>,
    pub description: Option<String>,
}

/// A result column.
#[derive(Debug, Clone, PartialEq)]
pub struct Column {
    pub name: String,
    pub display_name: String,
    pub base_type: String,
}

/// A JSON value of a result cell.  A number is held by its JSON rendering.
#[derive(Debug, PartialEq)]
pub enum JsonValue {
    Null,
    Bool(bool),
    Number(String),
    String(String),
    Array(Vec<JsonValue>),
    Object(Vec<(String, JsonValue)>),
}

/// Columns and rows of a query result.
#[derive(Debug, PartialEq)]
pub struct QueryData {
    pub cols: Vec<Column>,
    pub rows: Vec<Vec<JsonValue>>,
}

/// A query result.
#[derive(Debug, PartialEq)]
pub struct QueryResult {
    pub data: QueryData,
}

/// The authenticated user.
#[derive(Debug, Clone, PartialEq)]
pub struct CurrentUser {
    pub id: u32,
    pub email: String,
    pub first_name: Option<String>,
    pub last_name: Option<String>,
    pub common_name: Option<String>,
    pub is_superuser: Option<bool>,
}

/// A collection reference inside a search result.
#[derive(Debug, Clone, PartialEq)]
pub struct SearchCollection {
    pub id: Option<u32>,
    pub name: String,
}

/// One search hit.
#[derive(Debug, Clone, PartialEq)]
pub struct SearchResultItem {
    pub id: u32,
    pub name: String,
    pub description: Option<String>,
    pub collection_id: Option<u32>,
    pub collection: Option<SearchCollection>,
    pub model: String,
}

/// The search endpoint's reply.
#[derive(Debug, Clone, PartialEq)]
pub struct SearchResponse {
    pub data: Vec<SearchResultItem>,
}

impl Duplicate for Collection {
    open spec fn same(&self, other: &Self) -> bool {
        *self == *other
    }

    fn duplicate(&self) -> (r: Self) {
        Collection { id: self.id, name: self.name.clone() }
    }
}

impl Duplicate for Question {
    open spec fn same(&self, other: &Self) -> bool {
        *self == *other
    }

    fn duplicate(&self) -> (r: Self) {
        Question {
            id: self.id,
            name: self.name.clone(),
            description: self.description.duplicate(),
            collection_id: self.collection_id,
            collection: self.collection.duplicate(),
        }
    }
}

impl Duplicate for CollectionItem {
    open spec fn same(&self, other: &Self) -> bool {
        *self == *other
    }

    fn duplicate(&self) -> (r: Self) {
        CollectionItem {
            id: self.id,
            name: self.name.clone(),
            description: self.description.duplicate(),
            location: self.location.duplicate(),
            personal_owner_id: self.personal_owner_id,
            archived: self.archived,
        }
    }
}

impl Duplicate for Database {
    open spec fn same(&self, other: &Self) -> bool {
        *self == *other
    }

    fn duplicate(&self) -> (r: Self) {
        Database {
            id: self.id,
            name: self.name.clone(),
            engine: self.engine.duplicate(),
            description: self.description.duplicate(),
            is_sample: self.is_sample,
            is_saved_questions: self.is_saved_questions,
        }
    }
}

impl Duplicate for TableInfo {
    open spec fn same(&self, other: &Self) -> bool {
        *self == *other
    }

    fn duplicate(&self) -> (r: Self) {
        TableInfo {
            id: self.id,
            name: self.name.clone(),
            schema: self.schema.duplicate(),
            display_name: self.display_name.duplicate(),
            description: self.description.duplicate(),
        }
    }
}

impl Duplicate for Column {
    open spec fn same(&self, other: &Self) -> bool {
        *self == *other
    }

    fn duplicate(&self) -> (r: Self) {
        Column {
            name: self.name.clone(),
            display_name: self.display_name.clone(),
            base_type: self.base_type.clone(),
        }
    }
}

/// Two JSON values hold the same data.
pub open spec fn json_same(a: JsonValue, b: JsonValue) -> bool
    decreases a,
{
    match (a, b) {
        (JsonValue::Null, JsonValue::Null) => true,
        (JsonValue::Bool(x), JsonValue::Bool(y)) => x == y,
        (JsonValue::Number(x), JsonValue::Number(y)) => x == y,
        (JsonValue::String(x), JsonValue::String(y)) => x == y,
        (JsonValue::Array(xs), JsonValue::Array(ys)) => xs@.len() == ys@.len() && forall|i: int|
            0 <= i < xs@.len() ==> json_same(#[trigger] xs@[i], ys@[i]),
        (JsonValue::Object(xs), JsonValue::Object(ys)) => xs@.len() == ys@.len() && forall|i: int|
            0 <= i < xs@.len() ==> (#[trigger] xs@[i]).0 == ys@[i].0 && json_same(xs@[i].1, ys@[i].1),
        _ => false,
    }
}

broadcast use vstd::std_specs::vec::group_vec_axioms;

impl JsonValue {
    /// A copy of a JSON value.
    pub fn copy(&self) -> (r: JsonValue)
        ensures
            json_same(r, *self),
        decreases self,
    {
        match self {
            JsonValue::Null => JsonValue::Null,
            JsonValue::Bool(b) => JsonValue::Bool(*b),
            JsonValue::Number(n) => JsonValue::Number(n.clone()),
            JsonValue::String(s) => JsonValue::String(s.clone()),
            JsonValue::Array(xs) => {
                let mut out: Vec<JsonValue> = Vec::new();
                let mut i: usize = 0;
                assert forall|k: int| 0 <= k < xs.len() implies decreases_to!(*self => xs[k]) by {}
                while i < xs.len()
                    invariant
                        forall|k: int| 0 <= k < xs.len() ==> decreases_to!(*self => xs[k]),
                        0 <= i <= xs@.len(),
                        out@.len() == i,
                        forall|j: int| 0 <= j < i ==> json_same(#[trigger] out@[j], xs@[j]),
                    decreases xs@.len() - i,
                {
                    assert(decreases_to!(*self => xs[i as int]));
                    out.push(xs[i].copy());
                    i = i + 1;
                }
                JsonValue::Array(out)
            },
            JsonValue::Object(xs) => {
                let mut out: Vec<(String, JsonValue)> = Vec::new();
                let mut i: usize = 0;
                assert forall|k: int| 0 <= k < xs.len() implies decreases_to!(*self => xs[k].1) by {}
                while i < xs.len()
                    invariant
                        forall|k: int| 0 <= k < xs.len() ==> decreases_to!(*self => xs[k].1),
                        0 <= i <= xs@.len(),
                        out@.len() == i,
                        forall|j: int|
                            0 <= j < i ==> (#[trigger] out@[j]).0 == xs@[j].0 && json_same(
                                out@[j].1,
                                xs@[j].1,
                            ),
                    decreases xs@.len() - i,
                {
                    assert(decreases_to!(*self => xs[i as int].1));
                    let pair = &xs[i];
                    let key = pair.0.clone();
                    let val = pair.1.copy();
                    out.push((key, val));
                    i = i + 1;
                }
                JsonValue::Object(out)
            },
        }
    }
}

impl Duplicate for JsonValue {
    open spec fn same(&self, other: &Self) -> bool {
        json_same(*self, *other)
    }

    fn duplicate(&self) -> (r: Self) {
        self.copy()
    }
}

impl Duplicate for QueryData {
    open spec fn same(&self, other: &Self) -> bool {
        self.cols.same(&other.cols) && self.rows.same(&other.rows)
    }

    fn duplicate(&self) -> (r: Self) {
        QueryData { cols: self.cols.duplicate(), rows: self.rows.duplicate() }
    }
}

impl Duplicate for QueryResult {
    open spec fn same(&self, other: &Self) -> bool {
        self.data.same(&other.data)
    }

    fn duplicate(&self) -> (r: Self) {
        QueryResult { data: self.data.duplicate() }
    }
}

} // verus!
