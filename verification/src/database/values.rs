//! Values as they cross to the store and back.
//!
//! A statement takes its parameters as a list of values, bound in the order
//! of the list, and a row is read as a list of values, one for each column in
//! the order of the columns. Both lists are plain data, so that which value
//! goes where is fixed by contracts on the functions that make and take them.

use vstd::prelude::*;
use crate::database::entities::copy_bytes;

verus! {

/// The four kinds of value that the library binds and reads.
#[derive(Debug, Clone, Copy, PartialEq, Eq, Structural)]
pub enum SqlKind {
    Text,
    Unsigned,
    Integer,
    Blob,
}

/// What a [`SqlValue`] holds.
pub enum SqlValueView {
    Text(Seq<char>),
    Unsigned(u64),
    Integer(i64),
    Blob(Seq<u8>),
}

impl SqlValueView {
    /// The kind of the value.
    pub open spec fn kind(self) -> SqlKind {
        match self {
            SqlValueView::Text(_) => SqlKind::Text,
            SqlValueView::Unsigned(_) => SqlKind::Unsigned,
            SqlValueView::Integer(_) => SqlKind::Integer,
            SqlValueView::Blob(_) => SqlKind::Blob,
        }
    }
}

/// One value of a parameter or of a column.
#[derive(Debug, PartialEq)]
pub enum SqlValue {
    Text(String),
    Unsigned(u64),
    Integer(i64),
    Blob(Vec<u8>),
}

impl View for SqlValue {
    type V = SqlValueView;

    open spec fn view(&self) -> SqlValueView {
        match *self {
            SqlValue::Text(text) => SqlValueView::Text(text@),
            SqlValue::Unsigned(number) => SqlValueView::Unsigned(number),
            SqlValue::Integer(number) => SqlValueView::Integer(number),
            SqlValue::Blob(bytes) => SqlValueView::Blob(bytes@),
        }
    }
}

/// The values of `values`, each as what it holds.
pub open spec fn value_views(values: Seq<SqlValue>) -> Seq<SqlValueView> {
    values.map_values(|value: SqlValue| value@)
}

/// The kinds of `values`, in order.
pub open spec fn kinds_of(values: Seq<SqlValueView>) -> Seq<SqlKind> {
    values.map_values(|value: SqlValueView| value.kind())
}

/// The text at `index`, where there is a value at `index` and it is a text.
pub open spec fn text_in(values: Seq<SqlValueView>, index: int) -> Option<Seq<char>> {
    if 0 <= index < values.len() && values[index] is Text {
        Some(values[index]->Text_0)
    } else {
        None
    }
}

/// The unsigned number at `index`, where there is a value at `index` and it
/// is an unsigned number.
pub open spec fn unsigned_in(values: Seq<SqlValueView>, index: int) -> Option<u64> {
    if 0 <= index < values.len() && values[index] is Unsigned {
        Some(values[index]->Unsigned_0)
    } else {
        None
    }
}

/// The signed number at `index`, where there is a value at `index` and it is
/// a signed number.
pub open spec fn integer_in(values: Seq<SqlValueView>, index: int) -> Option<i64> {
    if 0 <= index < values.len() && values[index] is Integer {
        Some(values[index]->Integer_0)
    } else {
        None
    }
}

/// The bytes at `index`, where there is a value at `index` and it is a byte
/// string.
pub open spec fn blob_in(values: Seq<SqlValueView>, index: int) -> Option<Seq<u8>> {
    if 0 <= index < values.len() && values[index] is Blob {
        Some(values[index]->Blob_0)
    } else {
        None
    }
}

/// The text at `index` of `values`, if there is one.
pub fn text_at(values: &Vec<SqlValue>, index: usize) -> (r: Option<String>)
    ensures
        match text_in(value_views(values@), index as int) {
            Some(text) => r is Some && r->Some_0@ == text,
            None => r is None,
        },
{
    if index >= values.len() {
        return None;
    }
    assert(value_views(values@)[index as int] == values@[index as int]@);
    match &values[index] {
        SqlValue::Text(text) => Some(text.clone()),
        _ => None,
    }
}

/// The unsigned number at `index` of `values`, if there is one.
pub fn unsigned_at(values: &Vec<SqlValue>, index: usize) -> (r: Option<u64>)
    ensures
        r == unsigned_in(value_views(values@), index as int),
{
    if index >= values.len() {
        return None;
    }
    assert(value_views(values@)[index as int] == values@[index as int]@);
    match &values[index] {
        SqlValue::Unsigned(number) => Some(*number),
        _ => None,
    }
}

/// The signed number at `index` of `values`, if there is one.
pub fn integer_at(values: &Vec<SqlValue>, index: usize) -> (r: Option<i64>)
    ensures
        r == integer_in(value_views(values@), index as int),
{
    if index >= values.len() {
        return None;
    }
    assert(value_views(values@)[index as int] == values@[index as int]@);
    match &values[index] {
        SqlValue::Integer(number) => Some(*number),
        _ => None,
    }
}

/// The bytes at `index` of `values`, if there are any.
pub fn blob_at(values: &Vec<SqlValue>, index: usize) -> (r: Option<Vec<u8>>)
    ensures
        match blob_in(value_views(values@), index as int) {
            Some(bytes) => r is Some && r->Some_0@ == bytes,
            None => r is None,
        },
{
    if index >= values.len() {
        return None;
    }
    assert(value_views(values@)[index as int] == values@[index as int]@);
    match &values[index] {
        SqlValue::Blob(bytes) => Some(copy_bytes(bytes)),
        _ => None,
    }
}

} // verus!
