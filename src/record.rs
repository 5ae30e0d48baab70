//! Columns of a flat record and the mapping of one JSON element to a row.
use vstd::prelude::*;
use crate::json::{Json, texts};

verus! {

/// How a column renders the value found at its path.
#[derive(Clone, Copy, Debug, PartialEq, Eq, Structural)]
pub enum FieldKind {
    /// A JSON string, taken as it is; anything else gives the empty text.
    Text,
    /// A JSON number, in its decimal rendering; anything else gives `0`.
    Number,
}

/// One column of a record: its header name, the member path read from each
/// element, and how the value found there is rendered.
pub struct Column {
    pub name: String,
    pub path: Vec<String>,
    pub kind: FieldKind,
}

/// A column as plain values.
pub struct ColumnView {
    pub name: Seq<char>,
    pub path: Seq<Seq<char>>,
    pub kind: FieldKind,
}

impl View for Column {
    type V = ColumnView;

    open spec fn view(&self) -> ColumnView {
        ColumnView { name: self.name@, path: texts(self.path@), kind: self.kind }
    }
}

/// The views of a sequence of columns.
pub open spec fn column_views(columns: Seq<Column>) -> Seq<ColumnView> {
    columns.map_values(|c: Column| c@)
}

/// The header names of a sequence of columns, in order.
pub open spec fn header_of(columns: Seq<ColumnView>) -> Seq<Seq<char>> {
    columns.map_values(|c: ColumnView| c.name)
}

/// What a column reads from one element: the value at its path when that value
/// is of the column's kind, else the kind's default.
pub open spec fn field_value(column: ColumnView, element: Json) -> Seq<char> {
    match column.kind {
        FieldKind::Text => match element.at_path(column.path) {
            Some(Json::Text(s)) => s@,
            _ => Seq::empty(),
        },
        FieldKind::Number => match element.at_path(column.path) {
            Some(Json::Number(t)) => t@,
            _ => "0"@,
        },
    }
}

/// The row of one element: one field per column, in column order.
pub open spec fn row_of(columns: Seq<ColumnView>, element: Json) -> Seq<Seq<char>> {
    Seq::new(columns.len(), |i: int| field_value(columns[i], element))
}

/// The rows of a sequence of elements, one per element, in order.
pub open spec fn rows_of(columns: Seq<ColumnView>, elements: Seq<Json>) -> Seq<Seq<Seq<char>>> {
    elements.map_values(|e: Json| row_of(columns, e))
}

/// The text views of a sequence of rows.
pub open spec fn row_texts(rows: Seq<Vec<String>>) -> Seq<Seq<Seq<char>>> {
    rows.map_values(|r: Vec<String>| texts(r@))
}

/// Reads the field of `column` from `element`.
pub fn read_field(column: &Column, element: &Json) -> (r: String)
    ensures
        r@ == field_value(column@, *element),
{
    let found = element.find(&column.path);
    match column.kind {
        FieldKind::Text => match found {
            Some(Json::Text(s)) => s.clone(),
            _ => String::new(),
        },
        FieldKind::Number => match found {
            Some(Json::Number(t)) => t.clone(),
            _ => "0".to_owned(),
        },
    }
}

/// Maps one element to its row.
pub fn map_row(columns: &Vec<Column>, element: &Json) -> (r: Vec<String>)
    ensures
        texts(r@) == row_of(column_views(columns@), *element),
{
    let mut row: Vec<String> = Vec::new();
    let mut i: usize = 0;
    while i < columns.len()
        invariant
            i <= columns@.len(),
            row@.len() == i,
            forall|j: int| 0 <= j < i ==> #[trigger] row@[j]@ == field_value(columns@[j]@, *element),
        decreases columns@.len() - i,
    {
        let field = read_field(&columns[i], element);
        row.push(field);
        i = i + 1;
    }
    assert(texts(row@) =~= row_of(column_views(columns@), *element));
    row
}

/// Maps each element to its row, keeping the elements' order.
pub fn map_rows(columns: &Vec<Column>, elements: &Vec<Json>) -> (r: Vec<Vec<String>>)
    ensures
        r@.len() == elements@.len(),
        row_texts(r@) == rows_of(column_views(columns@), elements@),
{
    let mut rows: Vec<Vec<String>> = Vec::new();
    let mut i: usize = 0;
    while i < elements.len()
        invariant
            i <= elements@.len(),
            rows@.len() == i,
            forall|j: int| 0 <= j < i ==> #[trigger] texts(rows@[j]@) == row_of(column_views(columns@), elements@[j]),
        decreases elements@.len() - i,
    {
        let row = map_row(columns, &elements[i]);
        rows.push(row);
        i = i + 1;
    }
    assert(row_texts(rows@) =~= rows_of(column_views(columns@), elements@));
    rows
}

} // verus!

verus! {

/// A column whose path leads nowhere in an element reads as its kind's
/// default: the empty text for text, `0` for numbers.
pub proof fn lemma_absent_field_defaults(column: ColumnView, element: Json)
    requires
        element.at_path(column.path) is None,
    ensures
        column.kind == FieldKind::Text ==> field_value(column, element) == Seq::<char>::empty(),
        column.kind == FieldKind::Number ==> field_value(column, element) == "0"@,
{
}

/// An element with no member `key` has nothing at any path that starts with
/// `key` (an element without `centroide` has no `centroide.lat`).
pub proof fn lemma_absent_member_absent_path(element: Json, key: Seq<char>, rest: Seq<Seq<char>>)
    requires
        element.get_spec(key) is None,
    ensures
        element.at_path(seq![key] + rest) is None,
{
    assert((seq![key] + rest)[0] == key);
}

} // verus!
