//! A migration of a whole keyspace: every UDT, table and materialized view of the code,
//! each compared with the database object of the same name.

use vstd::prelude::*;
use crate::schema::{ModelType, SchemaObject, SchemaView};

verus! {

/// A named schema object.
#[derive(Debug)]
pub struct NamedSchema {
    pub name: String,
    pub schema: SchemaObject,
}

/// The UDTs, tables and materialized views of a keyspace, in the code or in the database.
#[derive(Debug)]
pub struct SchemaSet {
    pub udts: Vec<NamedSchema>,
    pub tables: Vec<NamedSchema>,
    pub materialized_views: Vec<NamedSchema>,
}

/// The names of a sequence of named objects.
pub open spec fn object_names(v: Seq<NamedSchema>) -> Seq<Seq<char>> {
    v.map_values(|o: NamedSchema| o.name@)
}

/// The index of the first object named `name`.
pub open spec fn first_named(names: Seq<Seq<char>>, name: Seq<char>) -> Option<int>
    decreases names.len(),
{
    if names.len() == 0 {
        None
    } else if names[0] == name {
        Some(0)
    } else {
        match first_named(names.drop_first(), name) {
            Some(i) => Some(i + 1),
            None => None,
        }
    }
}

/// An optional position as a `usize`.
pub open spec fn as_position(o: Option<int>) -> Option<usize> {
    match o {
        Some(i) => Some(i as usize),
        None => None,
    }
}

/// One object to migrate: its kind, its position among the code objects of that kind, and the
/// position of the database object of the same name, if there is one.
#[derive(Debug, Clone, Copy, PartialEq, Eq, Structural)]
pub struct MigrationTarget {
    pub kind: ModelType,
    pub code_index: usize,
    pub db_index: Option<usize>,
}

/// The targets of one kind, in code order.
pub open spec fn kind_targets(kind: ModelType, code: Seq<Seq<char>>, db: Seq<Seq<char>>) -> Seq<MigrationTarget> {
    Seq::new(code.len(), |i: int| MigrationTarget { kind, code_index: i as usize, db_index: as_position(first_named(db, code[i])) })
}

/// The objects of a migration: UDTs first, then tables, then materialized views; within a kind,
/// in code order. Each is compared with the first database object of its kind and name, or
/// with an empty definition when there is none.
pub open spec fn migration_targets(code: SchemaSet, db: SchemaSet) -> Seq<MigrationTarget> {
    kind_targets(ModelType::Udt, object_names(code.udts@), object_names(db.udts@))
        + kind_targets(ModelType::Table, object_names(code.tables@), object_names(db.tables@))
        + kind_targets(ModelType::MaterializedView, object_names(code.materialized_views@), object_names(db.materialized_views@))
}

/// Finds the first object of `objects` named `name`.
pub fn find_named(objects: &Vec<NamedSchema>, name: &String) -> (res: Option<usize>)
    ensures
        res == as_position(first_named(object_names(objects@), name@)),
        res matches Some(i) ==> i < objects.len() && objects@[i as int].name@ == name@,
{
    let n = objects.len();
    let mut i: usize = 0;
    assert(object_names(objects@).skip(0) =~= object_names(objects@));
    while i < n
        invariant
            n == objects.len(),
            i <= n,
            forall|k: int| 0 <= k < i ==> objects@[k].name@ != name@,
            first_named(object_names(objects@), name@) == (match first_named(object_names(objects@).skip(i as int), name@) {
                Some(j) => Some(j + i),
                None => None,
            }),
        decreases n - i,
    {
        let ghost rest = object_names(objects@).skip(i as int);
        assert(rest.drop_first() =~= object_names(objects@).skip(i + 1));
        if objects[i].name == *name {
            return Some(i);
        }
        i = i + 1;
    }
    None
}

fn kind_targets_of(kind: ModelType, code: &Vec<NamedSchema>, db: &Vec<NamedSchema>) -> (res: Vec<MigrationTarget>)
    ensures
        res@ == kind_targets(kind, object_names(code@), object_names(db@)),
{
    let n = code.len();
    let mut res: Vec<MigrationTarget> = Vec::new();
    let mut i: usize = 0;
    while i < n
        invariant
            n == code.len(),
            i <= n,
            res.len() == i,
            forall|j: int| 0 <= j < i ==> #[trigger] res@[j] == kind_targets(kind, object_names(code@), object_names(db@))[j],
        decreases n - i,
    {
        let db_index = find_named(db, &code[i].name);
        res.push(MigrationTarget { kind, code_index: i, db_index });
        i = i + 1;
    }
    assert(res@ =~= kind_targets(kind, object_names(code@), object_names(db@)));
    res
}

/// A migration from the database schema to the code schema.
pub struct Migration {
    current_db_schema: SchemaSet,
    current_code_schema: SchemaSet,
}

impl Migration {
    pub fn new(current_db_schema: SchemaSet, current_code_schema: SchemaSet) -> (res: Migration)
        ensures
            res.db() == current_db_schema,
            res.code() == current_code_schema,
    {
        Migration { current_db_schema, current_code_schema }
    }

    pub closed spec fn db(&self) -> SchemaSet {
        self.current_db_schema
    }

    pub closed spec fn code(&self) -> SchemaSet {
        self.current_code_schema
    }

    pub fn get_code_schema(&self) -> (res: &SchemaSet)
        ensures
            *res == self.code(),
    {
        &self.current_code_schema
    }

    pub fn get_db_schema(&self) -> (res: &SchemaSet)
        ensures
            *res == self.db(),
    {
        &self.current_db_schema
    }

    /// The objects this migration compares, in the order in which it migrates them.
    pub fn targets(&self) -> (res: Vec<MigrationTarget>)
        ensures
            res@ == migration_targets(self.code(), self.db()),
    {
        let mut res = kind_targets_of(ModelType::Udt, &self.current_code_schema.udts, &self.current_db_schema.udts);
        let mut tables = kind_targets_of(ModelType::Table, &self.current_code_schema.tables, &self.current_db_schema.tables);
        let mut views = kind_targets_of(
            ModelType::MaterializedView,
            &self.current_code_schema.materialized_views,
            &self.current_db_schema.materialized_views,
        );
        res.append(&mut tables);
        res.append(&mut views);
        res
    }
}

} // verus!
