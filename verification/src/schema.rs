//! The fixed five-column layout of the manifest.

use crate::columns::{schema_columns, schema_new};
use vstd::prelude::*;
use vstd::string::StringExecFns;

verus! {

/// The kind of value that a manifest column holds.
#[derive(Clone, Copy, Debug, PartialEq, Eq, Structural)]
pub enum ColumnKind {
    /// UTF-8 text.
    Text,
    /// An unsigned 64-bit integer.
    Unsigned,
    /// Milliseconds since the epoch, with no time zone stored.
    Millis,
}

/// One column of the layout.
#[derive(Debug)]
pub struct ColumnSpec {
    pub name: String,
    pub kind: ColumnKind,
    pub nullable: bool,
}

/// The mathematical content of a [`ColumnSpec`].
pub ghost struct ColumnView {
    pub name: Seq<char>,
    pub kind: ColumnKind,
    pub nullable: bool,
}

impl View for ColumnSpec {
    type V = ColumnView;

    open spec fn view(&self) -> ColumnView {
        ColumnView { name: self.name@, kind: self.kind, nullable: self.nullable }
    }
}

/// The contents of a list of columns.
pub open spec fn column_views(columns: Seq<ColumnSpec>) -> Seq<ColumnView> {
    Seq::new(columns.len(), |i: int| columns[i]@)
}

/// The kinds of the manifest's columns, left to right.
pub open spec fn manifest_kinds() -> Seq<ColumnKind> {
    seq![
        ColumnKind::Text,
        ColumnKind::Text,
        ColumnKind::Text,
        ColumnKind::Unsigned,
        ColumnKind::Millis,
    ]
}

/// The names of the manifest's columns, left to right.
pub open spec fn manifest_names() -> Seq<Seq<char>> {
    seq!["Bucket"@, "Key"@, "FileName"@, "Size"@, "LastModified"@]
}

/// `layout` is the manifest's: five columns of the fixed names and kinds, none
/// of them nullable.
pub open spec fn is_manifest_layout(layout: Seq<ColumnView>) -> bool {
    &&& layout.len() == 5
    &&& forall|i: int|
        0 <= i < 5 ==> {
            &&& (#[trigger] layout[i]).name == manifest_names()[i]
            &&& layout[i].kind == manifest_kinds()[i]
            &&& !layout[i].nullable
        }
}

/// A column that admits no null.
pub fn required_column(name: &str, kind: ColumnKind) -> (c: ColumnSpec)
    ensures
        c@ == (ColumnView { name: name@, kind, nullable: false }),
{
    ColumnSpec { name: String::from_str(name), kind, nullable: false }
}

/// The manifest's columns, left to right.
pub fn manifest_columns() -> (columns: Vec<ColumnSpec>)
    ensures
        is_manifest_layout(column_views(columns@)),
{
    let mut columns: Vec<ColumnSpec> = Vec::new();
    columns.push(required_column("Bucket", ColumnKind::Text));
    columns.push(required_column("Key", ColumnKind::Text));
    columns.push(required_column("FileName", ColumnKind::Text));
    columns.push(required_column("Size", ColumnKind::Unsigned));
    columns.push(required_column("LastModified", ColumnKind::Millis));
    columns
}

/// The manifest's schema, as the columnar library holds it.
pub fn manifest_schema() -> (schema: arrow::datatypes::Schema)
    ensures
        is_manifest_layout(schema_columns(schema)),
{
    let columns = manifest_columns();
    schema_new(&columns)
}

} // verus!
