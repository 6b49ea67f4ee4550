//! Schema objects (UDTs, tables and materialized views) as read from code or from the database.

use vstd::prelude::*;
use vstd::string::*;
use crate::text::{join, join_strings, owned, strs};

verus! {

/// The kind of object a schema describes.
#[derive(Debug, Clone, Copy, PartialEq, Eq, Structural)]
pub enum ModelType {
    Udt,
    Table,
    MaterializedView,
}

/// The name under which a kind of object is shown and written into `ALTER` statements.
pub open spec fn model_type_name(t: ModelType) -> Seq<char> {
    match t {
        ModelType::Udt => "UDT"@,
        ModelType::Table => "Table"@,
        ModelType::MaterializedView => "Materialized View"@,
    }
}

impl ModelType {
    /// The display name of this kind of object.
    pub fn display_name(&self) -> (res: String)
        ensures
            res@ == model_type_name(*self),
    {
        match self {
            ModelType::Udt => owned("UDT"),
            ModelType::Table => owned("Table"),
            ModelType::MaterializedView => owned("Materialized View"),
        }
    }
}

/// A column: its name, its CQL type and whether it is static.
#[derive(Debug)]
pub struct Column {
    pub name: String,
    pub cql_type: String,
    pub is_static: bool,
}

/// The view of a column.
pub struct ColumnView {
    pub name: Seq<char>,
    pub cql_type: Seq<char>,
    pub is_static: bool,
}

impl View for Column {
    type V = ColumnView;

    open spec fn view(&self) -> ColumnView {
        ColumnView { name: self.name@, cql_type: self.cql_type@, is_static: self.is_static }
    }
}

/// A secondary index: its name and the column (or local target) it indexes.
#[derive(Debug)]
pub struct SecondaryIndex {
    pub name: String,
    pub target: String,
}

/// The view of a secondary index.
pub struct IndexView {
    pub name: Seq<char>,
    pub target: Seq<char>,
}

impl View for SecondaryIndex {
    type V = IndexView;

    open spec fn view(&self) -> IndexView {
        IndexView { name: self.name@, target: self.target@ }
    }
}

/// The definition of a UDT, a table or a materialized view.
#[derive(Debug)]
pub struct SchemaObject {
    pub fields: Vec<Column>,
    pub partition_keys: Vec<String>,
    pub clustering_keys: Vec<String>,
    pub global_secondary_indexes: Vec<SecondaryIndex>,
    pub local_secondary_indexes: Vec<SecondaryIndex>,
    pub table_options: Option<String>,
    pub base_table: String,
}

/// The view of a schema object.
pub struct SchemaView {
    pub fields: Seq<ColumnView>,
    pub partition_keys: Seq<Seq<char>>,
    pub clustering_keys: Seq<Seq<char>>,
    pub global_secondary_indexes: Seq<IndexView>,
    pub local_secondary_indexes: Seq<IndexView>,
    pub table_options: Option<Seq<char>>,
    pub base_table: Seq<char>,
}

/// The views of a sequence of columns.
pub open spec fn columns(v: Seq<Column>) -> Seq<ColumnView> {
    v.map_values(|c: Column| c@)
}

/// The views of a sequence of indexes.
pub open spec fn indexes(v: Seq<SecondaryIndex>) -> Seq<IndexView> {
    v.map_values(|i: SecondaryIndex| i@)
}

/// The view of an optional string.
pub open spec fn opt_str(o: Option<String>) -> Option<Seq<char>> {
    match o {
        Some(s) => Some(s@),
        None => None,
    }
}

impl View for SchemaObject {
    type V = SchemaView;

    open spec fn view(&self) -> SchemaView {
        SchemaView {
            fields: columns(self.fields@),
            partition_keys: strs(self.partition_keys@),
            clustering_keys: strs(self.clustering_keys@),
            global_secondary_indexes: indexes(self.global_secondary_indexes@),
            local_secondary_indexes: indexes(self.local_secondary_indexes@),
            table_options: opt_str(self.table_options),
            base_table: self.base_table@,
        }
    }
}

/// The names of a sequence of columns.
pub open spec fn column_names(cols: Seq<ColumnView>) -> Seq<Seq<char>> {
    cols.map_values(|c: ColumnView| c.name)
}

/// The targets of a sequence of indexes.
pub open spec fn index_targets(ixs: Seq<IndexView>) -> Seq<Seq<char>> {
    ixs.map_values(|i: IndexView| i.target)
}

/// The names of a sequence of indexes.
pub open spec fn index_names(ixs: Seq<IndexView>) -> Seq<Seq<char>> {
    ixs.map_values(|i: IndexView| i.name)
}

/// The line that declares a column in `CREATE TYPE` and `CREATE TABLE`.
pub open spec fn column_definition(c: ColumnView) -> Seq<char> {
    "    "@ + c.name + " "@ + c.cql_type + if c.is_static { " STATIC"@ } else { Seq::empty() }
}

/// The column declarations of a schema object, one per line.
pub open spec fn fields_clause(cols: Seq<ColumnView>) -> Seq<char> {
    join(cols.map_values(|c: ColumnView| column_definition(c)), ",\n"@)
}

/// A schema object is well formed when no two of its columns share a name.
pub open spec fn distinct_column_names(s: SchemaView) -> bool {
    forall|i: int, j: int|
        0 <= i < s.fields.len() && 0 <= j < s.fields.len() && i != j
            ==> s.fields[i].name != s.fields[j].name
}

fn column_definition_string(c: &Column) -> (res: String)
    ensures
        res@ == column_definition(c@),
{
    let mut res = owned("    ");
    res.append(c.name.as_str());
    res.append(" ");
    res.append(c.cql_type.as_str());
    if c.is_static {
        res.append(" STATIC");
    } else {
        assert(res@ + Seq::<char>::empty() =~= res@);
    }
    res
}

impl SchemaObject {
    /// Whether this schema object is valid: its column names are distinct, as in a table of the
    /// database. Schemas read from elsewhere are checked with it before they are compared.
    pub fn has_distinct_column_names(&self) -> (res: bool)
        ensures
            res == distinct_column_names(self@),
    {
        let n = self.fields.len();
        let mut i: usize = 0;
        while i < n
            invariant
                n == self.fields.len(),
                n == self@.fields.len(),
                i <= n,
                forall|a: int, b: int| 0 <= a < i && 0 <= b < n && a != b ==> self@.fields[a].name != self@.fields[b].name,
            decreases n - i,
        {
            let mut j: usize = 0;
            while j < n
                invariant
                    n == self.fields.len(),
                    n == self@.fields.len(),
                    i < n,
                    j <= n,
                    forall|a: int, b: int| 0 <= a < i && 0 <= b < n && a != b ==> self@.fields[a].name != self@.fields[b].name,
                    forall|b: int| 0 <= b < j && b != i ==> self@.fields[i as int].name != self@.fields[b].name,
                decreases n - j,
            {
                if j != i && self.fields[i].name == self.fields[j].name {
                    assert(self@.fields[i as int].name == self@.fields[j as int].name);
                    return false;
                }
                j = j + 1;
            }
            i = i + 1;
        }
        true
    }

    /// A schema object with no columns, keys, indexes or options.
    pub fn empty() -> (res: SchemaObject)
        ensures
            res@.fields.len() == 0,
            res@.partition_keys.len() == 0,
            res@.clustering_keys.len() == 0,
            res@.global_secondary_indexes.len() == 0,
            res@.local_secondary_indexes.len() == 0,
            res@.table_options is None,
            res@.base_table.len() == 0,
            distinct_column_names(res@),
    {
        SchemaObject {
            fields: Vec::new(),
            partition_keys: Vec::new(),
            clustering_keys: Vec::new(),
            global_secondary_indexes: Vec::new(),
            local_secondary_indexes: Vec::new(),
            table_options: None,
            base_table: String::new(),
        }
    }

    /// The column declarations used by `CREATE TYPE` and `CREATE TABLE`:
    /// `    <name> <type>` (followed by ` STATIC` for a static column), joined by `,\n`.
    pub fn create_fields_clause(&self) -> (res: String)
        ensures
            res@ == fields_clause(self@.fields),
    {
        let mut defs: Vec<String> = Vec::new();
        let n = self.fields.len();
        let mut i: usize = 0;
        while i < n
            invariant
                n == self.fields.len(),
                i <= n,
                defs.len() == i,
                forall|j: int| 0 <= j < i ==> #[trigger] defs@[j]@ == column_definition(self.fields@[j]@),
            decreases n - i,
        {
            defs.push(column_definition_string(&self.fields[i]));
            i = i + 1;
        }
        assert(strs(defs@) =~= self@.fields.map_values(|c: ColumnView| column_definition(c)));
        join_strings(&defs, ",\n")
    }

    /// The names of the columns, in order.
    pub fn field_names(&self) -> (res: Vec<String>)
        ensures
            strs(res@) == column_names(self@.fields),
    {
        let mut res: Vec<String> = Vec::new();
        let n = self.fields.len();
        let mut i: usize = 0;
        while i < n
            invariant
                n == self.fields.len(),
                i <= n,
                res.len() == i,
                forall|j: int| 0 <= j < i ==> #[trigger] res@[j]@ == self.fields@[j].name@,
            decreases n - i,
        {
            res.push(self.fields[i].name.clone());
            i = i + 1;
        }
        assert(strs(res@) =~= column_names(self@.fields));
        res
    }
}

} // verus!
