//! The differences between the code definition of a schema object and its definition in the
//! database: what a migration has to add, remove or change.

use vstd::prelude::*;
use vstd::string::*;
use crate::keys::{key_lists_differ, keys_differ};
use crate::schema::{
    column_names, columns, index_names, index_targets, indexes, Column, ColumnView, IndexView,
    ModelType, SchemaObject, SchemaView, SecondaryIndex,
};
use crate::text::{normalize_type, normalized_type, owned, strs};

verus! {

/// A column to add: its name and its CQL type.
#[derive(Debug)]
pub struct TypedField {
    pub name: String,
    pub cql_type: String,
}

/// The view of a column to add.
pub struct TypedFieldView {
    pub name: Seq<char>,
    pub cql_type: Seq<char>,
}

impl View for TypedField {
    type V = TypedFieldView;

    open spec fn view(&self) -> TypedFieldView {
        TypedFieldView { name: self.name@, cql_type: self.cql_type@ }
    }
}

/// A column whose type differs between the database and the code.
#[derive(Debug)]
pub struct TypeChange {
    pub name: String,
    pub db_type: String,
    pub code_type: String,
}

/// The view of a type change.
pub struct TypeChangeView {
    pub name: Seq<char>,
    pub db_type: Seq<char>,
    pub code_type: Seq<char>,
}

impl View for TypeChange {
    type V = TypeChangeView;

    open spec fn view(&self) -> TypeChangeView {
        TypeChangeView { name: self.name@, db_type: self.db_type@, code_type: self.code_type@ }
    }
}

/// The views of a sequence of columns to add.
pub open spec fn typed_fields(v: Seq<TypedField>) -> Seq<TypedFieldView> {
    v.map_values(|f: TypedField| f@)
}

/// The views of a sequence of type changes.
pub open spec fn type_changes(v: Seq<TypeChange>) -> Seq<TypeChangeView> {
    v.map_values(|c: TypeChange| c@)
}

/// Keeps the columns whose name is not among `names`.
pub open spec fn column_absent_from(names: Seq<Seq<char>>) -> spec_fn(ColumnView) -> bool {
    |c: ColumnView| !names.contains(c.name)
}

/// Keeps the indexes whose target is not among `targets`.
pub open spec fn index_absent_from(targets: Seq<Seq<char>>) -> spec_fn(IndexView) -> bool {
    |i: IndexView| !targets.contains(i.target)
}

/// The name and type of a column.
pub open spec fn typed(c: ColumnView) -> TypedFieldView {
    TypedFieldView { name: c.name, cql_type: c.cql_type }
}

/// The code columns that the database does not have, in code order.
pub open spec fn new_fields_of(code: SchemaView, db: SchemaView) -> Seq<TypedFieldView> {
    code.fields.filter(column_absent_from(column_names(db.fields))).map_values(|c: ColumnView| typed(c))
}

/// The database columns that the code does not have, in database order.
pub open spec fn removed_fields_of(code: SchemaView, db: SchemaView) -> Seq<Seq<char>> {
    column_names(db.fields.filter(column_absent_from(column_names(code.fields))))
}

/// The type of the first column named `name`, if any.
pub open spec fn lookup_type(cols: Seq<ColumnView>, name: Seq<char>) -> Option<Seq<char>>
    decreases cols.len(),
{
    if cols.len() == 0 {
        None
    } else if cols[0].name == name {
        Some(cols[0].cql_type)
    } else {
        lookup_type(cols.drop_first(), name)
    }
}

/// The code columns that the database also has, under a type that differs once both types are
/// lowercased and stripped of spaces; in code order.
pub open spec fn changed_types_of(code: Seq<ColumnView>, db: Seq<ColumnView>) -> Seq<TypeChangeView>
    decreases code.len(),
{
    if code.len() == 0 {
        Seq::empty()
    } else {
        let prev = changed_types_of(code.drop_last(), db);
        let c = code.last();
        match lookup_type(db, c.name) {
            Some(t) => if normalized_type(t) != normalized_type(c.cql_type) {
                prev.push(TypeChangeView { name: c.name, db_type: t, code_type: c.cql_type })
            } else {
                prev
            },
            None => prev,
        }
    }
}

/// The targets of the `code` indexes that no `db` index has, in code order.
pub open spec fn new_index_targets(code: Seq<IndexView>, db: Seq<IndexView>) -> Seq<Seq<char>> {
    index_targets(code.filter(index_absent_from(index_targets(db))))
}

/// The names of the `db` indexes whose target no `code` index has, in database order.
pub open spec fn removed_index_names(code: Seq<IndexView>, db: Seq<IndexView>) -> Seq<Seq<char>> {
    index_names(db.filter(index_absent_from(index_targets(code))))
}

/// Everything a migration of one schema object is decided from.
pub struct DiffView {
    pub object_name: Seq<char>,
    pub object_type: ModelType,
    pub code: SchemaView,
    pub db: SchemaView,
    pub new_fields: Seq<TypedFieldView>,
    pub removed_fields: Seq<Seq<char>>,
    pub changed_field_types: Seq<TypeChangeView>,
    pub new_global_secondary_indexes: Seq<Seq<char>>,
    pub new_local_secondary_indexes: Seq<Seq<char>>,
    pub removed_global_secondary_indexes: Seq<Seq<char>>,
    pub removed_local_secondary_indexes: Seq<Seq<char>>,
}

/// The differences between the code definition `code` and the database definition `db`.
pub open spec fn schema_diff(name: Seq<char>, t: ModelType, code: SchemaView, db: SchemaView) -> DiffView {
    DiffView {
        object_name: name,
        object_type: t,
        code,
        db,
        new_fields: new_fields_of(code, db),
        removed_fields: removed_fields_of(code, db),
        changed_field_types: changed_types_of(code.fields, db.fields),
        new_global_secondary_indexes: new_index_targets(code.global_secondary_indexes, db.global_secondary_indexes),
        new_local_secondary_indexes: new_index_targets(code.local_secondary_indexes, db.local_secondary_indexes),
        removed_global_secondary_indexes: removed_index_names(code.global_secondary_indexes, db.global_secondary_indexes),
        removed_local_secondary_indexes: removed_index_names(code.local_secondary_indexes, db.local_secondary_indexes),
    }
}

impl DiffView {
    /// The database has no columns of this object yet.
    pub open spec fn is_first_migration(self) -> bool {
        self.db.fields.len() == 0
    }

    pub open spec fn has_new_fields(self) -> bool {
        self.new_fields.len() > 0
    }

    pub open spec fn has_removed_fields(self) -> bool {
        self.removed_fields.len() > 0
    }

    pub open spec fn has_changed_type_fields(self) -> bool {
        self.changed_field_types.len() > 0
    }

    pub open spec fn has_new_global_secondary_indexes(self) -> bool {
        self.new_global_secondary_indexes.len() > 0
    }

    pub open spec fn has_new_local_secondary_indexes(self) -> bool {
        self.new_local_secondary_indexes.len() > 0
    }

    pub open spec fn has_removed_global_secondary_indexes(self) -> bool {
        self.removed_global_secondary_indexes.len() > 0
    }

    pub open spec fn has_removed_local_secondary_indexes(self) -> bool {
        self.removed_local_secondary_indexes.len() > 0
    }

    /// The partition keys differ as collections (their order is ignored).
    pub open spec fn partition_key_changed(self) -> bool {
        keys_differ(self.code.partition_keys, self.db.partition_keys)
    }

    /// The clustering keys differ as collections (their order is ignored).
    pub open spec fn clustering_key_changed(self) -> bool {
        keys_differ(self.code.clustering_keys, self.db.clustering_keys)
    }
}

/// The comparison of the code definition of a schema object with its database definition.
pub struct MigrationUnitData<'a> {
    pub migration_object_name: &'a String,
    pub migration_object_type: ModelType,
    pub current_code_schema: &'a SchemaObject,
    pub current_db_schema: &'a SchemaObject,
    pub new_fields: Vec<TypedField>,
    pub removed_fields: Vec<String>,
    pub changed_field_types: Vec<TypeChange>,
    pub new_global_secondary_indexes: Vec<String>,
    pub new_local_secondary_indexes: Vec<String>,
    pub removed_global_secondary_indexes: Vec<String>,
    pub removed_local_secondary_indexes: Vec<String>,
}

/// Whether some column of `cols` is named `name`.
fn has_column(cols: &Vec<Column>, name: &String) -> (res: bool)
    ensures
        res == column_names(columns(cols@)).contains(name@),
{
    let n = cols.len();
    let mut i: usize = 0;
    while i < n
        invariant
            n == cols.len(),
            i <= n,
            forall|k: int| 0 <= k < i ==> cols@[k].name@ != name@,
        decreases n - i,
    {
        if cols[i].name == *name {
            assert(column_names(columns(cols@))[i as int] == name@);
            return true;
        }
        i = i + 1;
    }
    false
}

/// Whether some index of `ixs` has the target `target`.
fn has_index_target(ixs: &Vec<SecondaryIndex>, target: &String) -> (res: bool)
    ensures
        res == index_targets(indexes(ixs@)).contains(target@),
{
    let n = ixs.len();
    let mut i: usize = 0;
    while i < n
        invariant
            n == ixs.len(),
            i <= n,
            forall|k: int| 0 <= k < i ==> ixs@[k].target@ != target@,
        decreases n - i,
    {
        if ixs[i].target == *target {
            assert(index_targets(indexes(ixs@))[i as int] == target@);
            return true;
        }
        i = i + 1;
    }
    false
}

/// The index of the first column of `cols` named `name`, and the type it gives.
fn find_type(cols: &Vec<Column>, name: &String) -> (res: Option<usize>)
    ensures
        match res {
            Some(j) => j < cols.len() && lookup_type(columns(cols@), name@) == Some(cols@[j as int].cql_type@),
            None => lookup_type(columns(cols@), name@) is None,
        },
{
    let n = cols.len();
    let mut i: usize = 0;
    assert(columns(cols@).skip(0) =~= columns(cols@));
    while i < n
        invariant
            n == cols.len(),
            i <= n,
            lookup_type(columns(cols@), name@) == lookup_type(columns(cols@).skip(i as int), name@),
        decreases n - i,
    {
        assert(columns(cols@).skip(i as int).drop_first() =~= columns(cols@).skip(i + 1));
        if cols[i].name == *name {
            return Some(i);
        }
        i = i + 1;
    }
    None
}

fn new_fields_between(code: &Vec<Column>, db: &Vec<Column>) -> (res: Vec<TypedField>)
    ensures
        typed_fields(res@) == columns(code@).filter(column_absent_from(column_names(columns(db@)))).map_values(|c: ColumnView| typed(c)),
{
    let ghost p = column_absent_from(column_names(columns(db@)));
    let mut res: Vec<TypedField> = Vec::new();
    let n = code.len();
    let mut i: usize = 0;
    proof {
        reveal_with_fuel(Seq::filter, 1);
        assert(columns(code@).take(0) =~= Seq::<ColumnView>::empty());
    }
    while i < n
        invariant
            n == code.len(),
            i <= n,
            p == column_absent_from(column_names(columns(db@))),
            typed_fields(res@) == columns(code@).take(i as int).filter(p).map_values(|c: ColumnView| typed(c)),
        decreases n - i,
    {
        let ghost prev = columns(code@).take(i as int);
        assert(columns(code@).take(i + 1) =~= prev.push(code@[i as int]@));
        proof { prev.lemma_filter_push(code@[i as int]@, p); }
        if !has_column(db, &code[i].name) {
            let ghost old_res = res@;
            let f = TypedField { name: code[i].name.clone(), cql_type: code[i].cql_type.clone() };
            res.push(f);
            assert(typed_fields(res@) =~= typed_fields(old_res).push(f@));
            assert(prev.filter(p).push(code@[i as int]@).map_values(|c: ColumnView| typed(c))
                =~= prev.filter(p).map_values(|c: ColumnView| typed(c)).push(typed(code@[i as int]@)));
        }
        i = i + 1;
    }
    assert(columns(code@).take(n as int) =~= columns(code@));
    res
}

fn removed_fields_between(code: &Vec<Column>, db: &Vec<Column>) -> (res: Vec<String>)
    ensures
        strs(res@) == column_names(columns(db@).filter(column_absent_from(column_names(columns(code@))))),
{
    let ghost p = column_absent_from(column_names(columns(code@)));
    let mut res: Vec<String> = Vec::new();
    let n = db.len();
    let mut i: usize = 0;
    proof {
        reveal_with_fuel(Seq::filter, 1);
        assert(columns(db@).take(0) =~= Seq::<ColumnView>::empty());
    }
    while i < n
        invariant
            n == db.len(),
            i <= n,
            p == column_absent_from(column_names(columns(code@))),
            strs(res@) == column_names(columns(db@).take(i as int).filter(p)),
        decreases n - i,
    {
        let ghost prev = columns(db@).take(i as int);
        assert(columns(db@).take(i + 1) =~= prev.push(db@[i as int]@));
        proof { prev.lemma_filter_push(db@[i as int]@, p); }
        if !has_column(code, &db[i].name) {
            let ghost old_res = res@;
            let nm = db[i].name.clone();
            res.push(nm);
            assert(strs(res@) =~= strs(old_res).push(nm@));
            assert(column_names(prev.filter(p).push(db@[i as int]@)) =~= column_names(prev.filter(p)).push(db@[i as int].name@));
        }
        i = i + 1;
    }
    assert(columns(db@).take(n as int) =~= columns(db@));
    res
}

fn changed_types_between(code: &Vec<Column>, db: &Vec<Column>) -> (res: Vec<TypeChange>)
    ensures
        type_changes(res@) == changed_types_of(columns(code@), columns(db@)),
{
    let mut res: Vec<TypeChange> = Vec::new();
    let n = code.len();
    let mut i: usize = 0;
    assert(columns(code@).take(0) =~= Seq::<ColumnView>::empty());
    while i < n
        invariant
            n == code.len(),
            i <= n,
            type_changes(res@) == changed_types_of(columns(code@).take(i as int), columns(db@)),
        decreases n - i,
    {
        assert(columns(code@).take(i + 1).drop_last() =~= columns(code@).take(i as int));
        let c = &code[i];
        match find_type(db, &c.name) {
            Some(j) => {
                let db_type = &db[j].cql_type;
                let a = normalize_type(db_type.as_str());
                let b = normalize_type(c.cql_type.as_str());
                if a != b {
                    res.push(TypeChange { name: c.name.clone(), db_type: db_type.clone(), code_type: c.cql_type.clone() });
                    assert(type_changes(res@) =~= changed_types_of(columns(code@).take(i as int), columns(db@)).push(res@.last()@));
                }
            },
            None => {},
        }
        i = i + 1;
    }
    assert(columns(code@).take(n as int) =~= columns(code@));
    res
}

fn new_targets_between(code: &Vec<SecondaryIndex>, db: &Vec<SecondaryIndex>) -> (res: Vec<String>)
    ensures
        strs(res@) == new_index_targets(indexes(code@), indexes(db@)),
{
    let ghost p = index_absent_from(index_targets(indexes(db@)));
    let mut res: Vec<String> = Vec::new();
    let n = code.len();
    let mut i: usize = 0;
    proof {
        reveal_with_fuel(Seq::filter, 1);
        assert(indexes(code@).take(0) =~= Seq::<IndexView>::empty());
    }
    while i < n
        invariant
            n == code.len(),
            i <= n,
            p == index_absent_from(index_targets(indexes(db@))),
            strs(res@) == index_targets(indexes(code@).take(i as int).filter(p)),
        decreases n - i,
    {
        let ghost prev = indexes(code@).take(i as int);
        assert(indexes(code@).take(i + 1) =~= prev.push(code@[i as int]@));
        proof { prev.lemma_filter_push(code@[i as int]@, p); }
        if !has_index_target(db, &code[i].target) {
            let ghost old_res = res@;
            let t = code[i].target.clone();
            res.push(t);
            assert(strs(res@) =~= strs(old_res).push(t@));
            assert(index_targets(prev.filter(p).push(code@[i as int]@)) =~= index_targets(prev.filter(p)).push(code@[i as int].target@));
        }
        i = i + 1;
    }
    assert(indexes(code@).take(n as int) =~= indexes(code@));
    res
}

fn removed_names_between(code: &Vec<SecondaryIndex>, db: &Vec<SecondaryIndex>) -> (res: Vec<String>)
    ensures
        strs(res@) == removed_index_names(indexes(code@), indexes(db@)),
{
    let ghost p = index_absent_from(index_targets(indexes(code@)));
    let mut res: Vec<String> = Vec::new();
    let n = db.len();
    let mut i: usize = 0;
    proof {
        reveal_with_fuel(Seq::filter, 1);
        assert(indexes(db@).take(0) =~= Seq::<IndexView>::empty());
    }
    while i < n
        invariant
            n == db.len(),
            i <= n,
            p == index_absent_from(index_targets(indexes(code@))),
            strs(res@) == index_names(indexes(db@).take(i as int).filter(p)),
        decreases n - i,
    {
        let ghost prev = indexes(db@).take(i as int);
        assert(indexes(db@).take(i + 1) =~= prev.push(db@[i as int]@));
        proof { prev.lemma_filter_push(db@[i as int]@, p); }
        if !has_index_target(code, &db[i].target) {
            let ghost old_res = res@;
            let nm = db[i].name.clone();
            res.push(nm);
            assert(strs(res@) =~= strs(old_res).push(nm@));
            assert(index_names(prev.filter(p).push(db@[i as int]@)) =~= index_names(prev.filter(p)).push(db@[i as int].name@));
        }
        i = i + 1;
    }
    assert(indexes(db@).take(n as int) =~= indexes(db@));
    res
}

impl<'a> MigrationUnitData<'a> {
    /// What this comparison holds, as a view.
    pub open spec fn diff(&self) -> DiffView {
        DiffView {
            object_name: self.migration_object_name@,
            object_type: self.migration_object_type,
            code: self.current_code_schema@,
            db: self.current_db_schema@,
            new_fields: typed_fields(self.new_fields@),
            removed_fields: strs(self.removed_fields@),
            changed_field_types: type_changes(self.changed_field_types@),
            new_global_secondary_indexes: strs(self.new_global_secondary_indexes@),
            new_local_secondary_indexes: strs(self.new_local_secondary_indexes@),
            removed_global_secondary_indexes: strs(self.removed_global_secondary_indexes@),
            removed_local_secondary_indexes: strs(self.removed_local_secondary_indexes@),
        }
    }

    /// Compares the code definition of an object with its database definition.
    pub fn new(
        migration_object_name: &'a String,
        migration_object_type: ModelType,
        current_code_schema: &'a SchemaObject,
        current_db_schema: &'a SchemaObject,
    ) -> (res: MigrationUnitData<'a>)
        ensures
            res.migration_object_name == migration_object_name,
            res.current_code_schema == current_code_schema,
            res.current_db_schema == current_db_schema,
            res.diff() == schema_diff(
                migration_object_name@,
                migration_object_type,
                current_code_schema@,
                current_db_schema@,
            ),
    {
        let code = current_code_schema;
        let db = current_db_schema;
        let new_fields = new_fields_between(&code.fields, &db.fields);
        let removed_fields = removed_fields_between(&code.fields, &db.fields);
        let changed_field_types = changed_types_between(&code.fields, &db.fields);
        let new_global_secondary_indexes = new_targets_between(&code.global_secondary_indexes, &db.global_secondary_indexes);
        let removed_global_secondary_indexes = removed_names_between(&code.global_secondary_indexes, &db.global_secondary_indexes);
        let new_local_secondary_indexes = new_targets_between(&code.local_secondary_indexes, &db.local_secondary_indexes);
        let removed_local_secondary_indexes = removed_names_between(&code.local_secondary_indexes, &db.local_secondary_indexes);
        let res = MigrationUnitData {
            migration_object_name,
            migration_object_type,
            current_code_schema,
            current_db_schema,
            new_fields,
            removed_fields,
            changed_field_types,
            new_global_secondary_indexes,
            new_local_secondary_indexes,
            removed_global_secondary_indexes,
            removed_local_secondary_indexes,
        };
        assert(res.diff() =~= schema_diff(migration_object_name@, migration_object_type, code@, db@));
        res
    }

    /// The name of the index on `column_name`: `<object>_<column>_idx`.
    pub fn construct_index_name(&self, column_name: &String) -> (res: String)
        ensures
            res@ == index_name(self.migration_object_name@, column_name@),
    {
        let mut res = self.migration_object_name.clone();
        res.append("_");
        res.append(column_name.as_str());
        res.append("_");
        res.append("idx");
        res
    }

    pub fn is_first_migration(&self) -> (res: bool)
        ensures
            res == self.diff().is_first_migration(),
    {
        self.current_db_schema.fields.len() == 0
    }

    pub fn has_new_global_secondary_indexes(&self) -> (res: bool)
        ensures
            res == self.diff().has_new_global_secondary_indexes(),
    {
        self.new_global_secondary_indexes.len() > 0
    }

    pub fn has_removed_global_secondary_indexes(&self) -> (res: bool)
        ensures
            res == self.diff().has_removed_global_secondary_indexes(),
    {
        self.removed_global_secondary_indexes.len() > 0
    }

    pub fn has_new_local_secondary_indexes(&self) -> (res: bool)
        ensures
            res == self.diff().has_new_local_secondary_indexes(),
    {
        self.new_local_secondary_indexes.len() > 0
    }

    pub fn has_removed_local_secondary_indexes(&self) -> (res: bool)
        ensures
            res == self.diff().has_removed_local_secondary_indexes(),
    {
        self.removed_local_secondary_indexes.len() > 0
    }

    pub fn has_new_fields(&self) -> (res: bool)
        ensures
            res == self.diff().has_new_fields(),
    {
        self.new_fields.len() > 0
    }

    pub fn has_removed_fields(&self) -> (res: bool)
        ensures
            res == self.diff().has_removed_fields(),
    {
        self.removed_fields.len() > 0
    }

    pub fn has_changed_type_fields(&self) -> (res: bool)
        ensures
            res == self.diff().has_changed_type_fields(),
    {
        self.changed_field_types.len() > 0
    }

    /// Whether some column present in both definitions has a different type in the code
    /// (types compared lowercased and without spaces).
    pub fn field_type_changed(&self) -> (res: bool)
        ensures
            res == self.diff().has_changed_type_fields(),
    {
        self.changed_field_types.len() > 0
    }

    /// Whether the partition keys differ, their order ignored.
    pub fn partition_key_changed(&self) -> (res: bool)
        ensures
            res == self.diff().partition_key_changed(),
    {
        key_lists_differ(&self.current_code_schema.partition_keys, &self.current_db_schema.partition_keys)
    }

    /// Whether the clustering keys differ, their order ignored.
    pub fn clustering_key_changed(&self) -> (res: bool)
        ensures
            res == self.diff().clustering_key_changed(),
    {
        key_lists_differ(&self.current_code_schema.clustering_keys, &self.current_db_schema.clustering_keys)
    }
}

/// The name of the index on `column` of `object`.
pub open spec fn index_name(object: Seq<char>, column: Seq<char>) -> Seq<char> {
    object + "_"@ + column + "_"@ + "idx"@
}

} // verus!
