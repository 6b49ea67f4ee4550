//! The CQL statements that carry out each action of a migration.

use vstd::prelude::*;
use vstd::string::*;
use crate::args::Args;
use crate::clause::{name_and_type, piece, pieces, render, render_joined, render_name_and_type, Piece};
use crate::data::{index_name, DiffView, MigrationUnitData, TypeChangeView, TypedFieldView};
use crate::options::{alterable_options, extract_alter_table_options, PatternError};
use crate::plan::MigrationAction;
use crate::schema::{column_names, fields_clause, model_type_name, ModelType};
use crate::text::{join, join_strings, owned, strs};

verus! {

/// A statement to execute, and whether it is printed before it runs.
#[derive(Debug)]
pub struct CqlStatement {
    pub cql: String,
    pub print: bool,
}

/// The view of a statement.
pub struct CqlStatementView {
    pub cql: Seq<char>,
    pub print: bool,
}

impl View for CqlStatement {
    type V = CqlStatementView;

    open spec fn view(&self) -> CqlStatementView {
        CqlStatementView { cql: self.cql@, print: self.print }
    }
}

/// Names what `strip_ansi_escapes::strip_str` returns: the text with its ANSI escape sequences
/// (terminal colours) removed.
pub uninterp spec fn ansi_stripped(s: Seq<char>) -> Seq<char>;

/// Calls `strip_ansi_escapes::strip_str`; the contract only ties the result to the argument
/// through the name `ansi_stripped`: the escape-sequence grammar is not restated here.
#[verifier::external_body]
fn strip_ansi(s: &str) -> (res: String)
    ensures
        res@ == ansi_stripped(s@),
{
    strip_ansi_escapes::strip_str(s)
}

impl CqlStatement {
    /// The text sent to the database for this statement: its CQL without colour escapes.
    pub fn executable_cql(&self) -> (res: String)
        ensures
            res@ == ansi_stripped(self.cql@),
    {
        strip_ansi(self.cql.as_str())
    }
}

/// The views of a sequence of statements.
pub open spec fn statements(v: Seq<CqlStatement>) -> Seq<CqlStatementView> {
    v.map_values(|s: CqlStatement| s@)
}

/// Statements that are all printed.
pub open spec fn printed(cqls: Seq<Seq<char>>) -> Seq<CqlStatementView> {
    cqls.map_values(|c: Seq<char>| CqlStatementView { cql: c, print: true })
}

/// `WITH <options>` when the object has table options.
pub open spec fn options_clause(o: Option<Seq<char>>) -> Seq<char> {
    match o {
        Some(t) => "WITH "@ + t,
        None => Seq::empty(),
    }
}

/// `,<clustering keys>` when the clustering keys are not empty.
pub open spec fn clustering_keys_clause(ck: Seq<Seq<char>>) -> Seq<char> {
    if join(ck, ", "@).len() > 0 { ","@ + join(ck, ", "@) } else { Seq::empty() }
}

pub open spec fn create_type_cql(d: DiffView) -> Seq<char> {
    "CREATE TYPE IF NOT EXISTS "@ + d.object_name + "\n(\n"@ + fields_clause(d.code.fields) + "\n);\n"@
}

pub open spec fn create_table_cql(d: DiffView) -> Seq<char> {
    "CREATE TABLE IF NOT EXISTS "@ + d.object_name + "\n(\n"@ + fields_clause(d.code.fields)
        + ", \n    PRIMARY KEY (("@ + join(d.code.partition_keys, ", "@) + ") "@
        + clustering_keys_clause(d.code.clustering_keys) + ")\n) \n "@ + options_clause(d.code.table_options)
}

/// `SELECT <columns> \nFROM <base table>\nWHERE <key> IS NOT NULL AND ...`
pub open spec fn view_select_clause(d: DiffView) -> Seq<char> {
    "SELECT "@ + join(column_names(d.code.fields), ", "@) + " \nFROM "@ + d.code.base_table + "\n"@
        + "WHERE "@ + join(pieces(Piece::NotNull, d.code.partition_keys + d.code.clustering_keys), " AND "@)
}

/// The partition key as the first item of a primary key: the column itself when there is one
/// partition key column, `(<a>, <b>)` when there are several.
pub open spec fn partition_key_item(pk: Seq<Seq<char>>) -> Seq<char> {
    if pk.len() == 1 {
        pk[0]
    } else {
        "("@ + join(pk, ", "@) + ")"@
    }
}

/// `PRIMARY KEY (<partition key>, <clustering keys>)\n`, as in `PRIMARY KEY (email, id)`.
pub open spec fn view_primary_key_clause(d: DiffView) -> Seq<char> {
    "PRIMARY KEY ("@ + join(seq![partition_key_item(d.code.partition_keys)] + d.code.clustering_keys, ", "@) + ")\n"@
}

pub open spec fn create_view_cql(d: DiffView) -> Seq<char> {
    "CREATE MATERIALIZED VIEW IF NOT EXISTS "@ + d.object_name + "\nAS "@ + view_select_clause(d) + "\n"@
        + view_primary_key_clause(d) + "\n"@ + options_clause(d.code.table_options)
}

/// The statement that creates the object.
pub open spec fn first_migration_cql(d: DiffView) -> Seq<char> {
    match d.object_type {
        ModelType::Udt => create_type_cql(d),
        ModelType::Table => create_table_cql(d),
        ModelType::MaterializedView => create_view_cql(d),
    }
}

/// `ALTER <kind> <object> <verb> (<list>)`
pub open spec fn alter_cql(d: DiffView, verb: Seq<char>, list: Seq<char>) -> Seq<char> {
    "ALTER "@ + model_type_name(d.object_type) + " "@ + d.object_name + verb + list + ")"@
}

/// `name type` of each new column.
pub open spec fn new_field_definitions(fs: Seq<TypedFieldView>) -> Seq<Seq<char>> {
    fs.map_values(|f: TypedFieldView| name_and_type(f.name, f.cql_type))
}

/// The statements that add the new columns: one `ALTER <kind> ... ADD (...)` for a table, one
/// `ALTER TYPE ... ADD` per column otherwise.
pub open spec fn field_added_cql(d: DiffView) -> Seq<Seq<char>> {
    if d.object_type == ModelType::Table {
        seq![alter_cql(d, " ADD ("@, join(new_field_definitions(d.new_fields), ", "@))]
    } else {
        d.new_fields.map_values(|f: TypedFieldView| "ALTER TYPE "@ + d.object_name + " ADD "@ + f.name + " "@ + f.cql_type)
    }
}

pub open spec fn field_removed_cql(d: DiffView) -> Seq<char> {
    alter_cql(d, " DROP ("@, join(d.removed_fields, ", "@))
}

/// Drops the columns whose type changed, then adds them with their new type.
pub open spec fn field_type_changed_cql(d: DiffView) -> Seq<Seq<char>> {
    seq![
        alter_cql(d, " DROP ("@, join(d.changed_field_types.map_values(|c: TypeChangeView| c.name), ", "@)),
        alter_cql(d, " ADD ("@, join(d.changed_field_types.map_values(|c: TypeChangeView| name_and_type(c.name, c.code_type)), ", "@)),
    ]
}

pub open spec fn create_global_index_cql(object: Seq<char>, column: Seq<char>) -> Seq<char> {
    "CREATE INDEX IF NOT EXISTS "@ + index_name(object, column) + " ON "@ + object + " ("@ + column + ")"@
}

pub open spec fn global_index_added_cql(d: DiffView) -> Seq<Seq<char>> {
    d.new_global_secondary_indexes.map_values(|c: Seq<char>| create_global_index_cql(d.object_name, c))
}

/// A local index on `target` is named after the partition keys and the target.
pub open spec fn create_local_index_cql(object: Seq<char>, partition_keys: Seq<Seq<char>>, target: Seq<char>) -> Seq<char> {
    "CREATE INDEX IF NOT EXISTS "@ + index_name(object, join(partition_keys, "_"@) + "_"@ + target) + " ON "@
        + object + " (("@ + join(partition_keys, ", "@) + "), "@ + target + ")"@
}

pub open spec fn local_index_added_cql(d: DiffView) -> Seq<Seq<char>> {
    d.new_local_secondary_indexes.map_values(|t: Seq<char>| create_local_index_cql(d.object_name, d.code.partition_keys, t))
}

/// `\n ALTER TABLE <object> WITH <options>`
pub open spec fn alter_table_options_cql(object: Seq<char>, options: Seq<char>) -> Seq<char> {
    "\n ALTER TABLE "@ + object + " WITH "@ + options
}

/// The statements of the table-options step: for a table or a view whose options leave something
/// that `ALTER TABLE` accepts, one statement, printed only in verbose mode.
pub open spec fn table_options_cql(d: DiffView, verbose: bool) -> Result<Seq<CqlStatementView>, PatternError> {
    if d.object_type == ModelType::Table || d.object_type == ModelType::MaterializedView {
        match alterable_options(d.code.table_options) {
            Ok(Some(o)) => Ok(seq![CqlStatementView { cql: alter_table_options_cql(d.object_name, o), print: verbose }]),
            Ok(None) => Ok(Seq::empty()),
            Err(e) => Err(e),
        }
    } else {
        Ok(Seq::empty())
    }
}

/// The statements that carry out `action`.
pub open spec fn action_cql(d: DiffView, verbose: bool, action: MigrationAction) -> Result<Seq<CqlStatementView>, PatternError> {
    match action {
        MigrationAction::FirstMigration => Ok(printed(seq![first_migration_cql(d)])),
        MigrationAction::ChangeTableOptions => table_options_cql(d, verbose),
        MigrationAction::ChangeFieldTypes => Ok(printed(field_type_changed_cql(d))),
        MigrationAction::AddFields => Ok(printed(field_added_cql(d))),
        MigrationAction::AddGlobalIndexes => Ok(printed(global_index_added_cql(d))),
        MigrationAction::AddLocalIndexes => Ok(printed(local_index_added_cql(d))),
        MigrationAction::RemoveLocalIndexes => Ok(printed(pieces(Piece::DropIndex, d.removed_local_secondary_indexes))),
        MigrationAction::RemoveGlobalIndexes => Ok(printed(pieces(Piece::DropIndex, d.removed_global_secondary_indexes))),
        MigrationAction::RemoveFields => Ok(printed(seq![field_removed_cql(d)])),
        MigrationAction::ReportNoFieldChanges => Ok(Seq::empty()),
        MigrationAction::Abort(_) => Ok(Seq::empty()),
    }
}

/// Builds the statements of a migration of one object.
pub struct ModelRunner<'a> {
    pub data: &'a MigrationUnitData<'a>,
    pub args: &'a Args,
}

fn options_clause_string(o: &Option<String>) -> (res: String)
    ensures
        res@ == options_clause(match o { Some(s) => Some(s@), None => None }),
{
    match o {
        Some(t) => {
            let mut s = owned("WITH ");
            s.append(t.as_str());
            s
        },
        None => String::new(),
    }
}

fn print_all(cqls: Vec<String>) -> (res: Vec<CqlStatement>)
    ensures
        statements(res@) == printed(strs(cqls@)),
{
    let mut res: Vec<CqlStatement> = Vec::new();
    let n = cqls.len();
    let mut i: usize = 0;
    while i < n
        invariant
            n == cqls.len(),
            i <= n,
            res.len() == i,
            forall|j: int| 0 <= j < i ==> #[trigger] res@[j]@ == (CqlStatementView { cql: cqls@[j]@, print: true }),
        decreases n - i,
    {
        res.push(CqlStatement { cql: cqls[i].clone(), print: true });
        i = i + 1;
    }
    assert(statements(res@) =~= printed(strs(cqls@)));
    res
}

impl<'a> ModelRunner<'a> {
    pub fn new(data: &'a MigrationUnitData<'a>, args: &'a Args) -> (res: ModelRunner<'a>)
        ensures
            res.data == data,
            res.args == args,
    {
        ModelRunner { data, args }
    }

    fn create_type(&self) -> (res: String)
        ensures
            res@ == create_type_cql(self.data.diff()),
    {
        let code = self.data.current_code_schema;
        let mut s = owned("CREATE TYPE IF NOT EXISTS ");
        s.append(self.data.migration_object_name.as_str());
        s.append("\n(\n");
        s.append(code.create_fields_clause().as_str());
        s.append("\n);\n");
        s
    }

    fn create_table(&self) -> (res: String)
        ensures
            res@ == create_table_cql(self.data.diff()),
    {
        let code = self.data.current_code_schema;
        let clustering_keys = join_strings(&code.clustering_keys, ", ");
        let clustering_keys_clause = if !clustering_keys.as_str().is_empty() {
            let mut c = owned(",");
            c.append(clustering_keys.as_str());
            c
        } else {
            String::new()
        };
        let mut s = owned("CREATE TABLE IF NOT EXISTS ");
        s.append(self.data.migration_object_name.as_str());
        s.append("\n(\n");
        s.append(code.create_fields_clause().as_str());
        s.append(", \n    PRIMARY KEY ((");
        s.append(join_strings(&code.partition_keys, ", ").as_str());
        s.append(") ");
        s.append(clustering_keys_clause.as_str());
        s.append(")\n) \n ");
        s.append(options_clause_string(&code.table_options).as_str());
        s
    }

    fn create_view(&self) -> (res: String)
        ensures
            res@ == create_view_cql(self.data.diff()),
    {
        let code = self.data.current_code_schema;
        let mut primary_key: Vec<String> = code.partition_keys.clone();
        let mut cks = code.clustering_keys.clone();
        let ghost pk0 = primary_key@;
        let ghost ck0 = cks@;
        primary_key.append(&mut cks);
        assert(strs(primary_key@) =~= strs(code.partition_keys@) + strs(code.clustering_keys@));
        let mut select = owned("SELECT ");
        select.append(join_strings(&code.field_names(), ", ").as_str());
        select.append(" \nFROM ");
        select.append(code.base_table.as_str());
        select.append("\n");
        select.append("WHERE ");
        select.append(render_joined(Piece::NotNull, &primary_key, " AND ").as_str());
        let first = if code.partition_keys.len() == 1 {
            code.partition_keys[0].clone()
        } else {
            let mut p = owned("(");
            p.append(join_strings(&code.partition_keys, ", ").as_str());
            p.append(")");
            p
        };
        let ghost first_view = first@;
        let mut items: Vec<String> = Vec::new();
        items.push(first);
        let mut cks2 = code.clustering_keys.clone();
        items.append(&mut cks2);
        assert(strs(items@) =~= seq![first_view] + strs(code.clustering_keys@));
        assert(first_view == partition_key_item(strs(code.partition_keys@)));
        let mut key = owned("PRIMARY KEY (");
        key.append(join_strings(&items, ", ").as_str());
        key.append(")\n");
        let mut s = owned("CREATE MATERIALIZED VIEW IF NOT EXISTS ");
        s.append(self.data.migration_object_name.as_str());
        s.append("\nAS ");
        s.append(select.as_str());
        s.append("\n");
        s.append(key.as_str());
        s.append("\n");
        s.append(options_clause_string(&code.table_options).as_str());
        s
    }

    /// The statement that creates the object in the database.
    pub fn first_migration_cql(&self) -> (res: String)
        ensures
            res@ == first_migration_cql(self.data.diff()),
    {
        match self.data.migration_object_type {
            ModelType::Udt => self.create_type(),
            ModelType::Table => self.create_table(),
            ModelType::MaterializedView => self.create_view(),
        }
    }

    fn alter(&self, verb: &str, list: &str) -> (res: String)
        ensures
            res@ == alter_cql(self.data.diff(), verb@, list@),
    {
        let mut s = owned("ALTER ");
        s.append(self.data.migration_object_type.display_name().as_str());
        s.append(" ");
        s.append(self.data.migration_object_name.as_str());
        s.append(verb);
        s.append(list);
        s.append(")");
        s
    }

    /// The statements that add the new columns.
    pub fn field_added_cql(&self) -> (res: Vec<String>)
        ensures
            strs(res@) == field_added_cql(self.data.diff()),
    {
        let fields = &self.data.new_fields;
        let n = fields.len();
        let mut res: Vec<String> = Vec::new();
        if self.data.migration_object_type == ModelType::Table {
            let mut defs: Vec<String> = Vec::new();
            let mut i: usize = 0;
            while i < n
                invariant
                    n == fields.len(),
                    i <= n,
                    defs.len() == i,
                    forall|j: int| 0 <= j < i ==> #[trigger] defs@[j]@ == name_and_type(fields@[j].name@, fields@[j].cql_type@),
                decreases n - i,
            {
                defs.push(render_name_and_type(fields[i].name.as_str(), fields[i].cql_type.as_str()));
                i = i + 1;
            }
            assert(strs(defs@) =~= new_field_definitions(self.data.diff().new_fields));
            let list = join_strings(&defs, ", ");
            res.push(self.alter(" ADD (", list.as_str()));
            assert(strs(res@) =~= field_added_cql(self.data.diff()));
        } else {
            let mut i: usize = 0;
            while i < n
                invariant
                    n == fields.len(),
                    i <= n,
                    res.len() == i,
                    forall|j: int| 0 <= j < i ==> #[trigger] res@[j]@ == "ALTER TYPE "@ + self.data.migration_object_name@ + " ADD "@ + fields@[j].name@ + " "@ + fields@[j].cql_type@,
                decreases n - i,
            {
                let mut s = owned("ALTER TYPE ");
                s.append(self.data.migration_object_name.as_str());
                s.append(" ADD ");
                s.append(fields[i].name.as_str());
                s.append(" ");
                s.append(fields[i].cql_type.as_str());
                res.push(s);
                i = i + 1;
            }
            assert(strs(res@) =~= field_added_cql(self.data.diff()));
        }
        res
    }

    /// The statement that drops the removed columns.
    pub fn field_removed_cql(&self) -> (res: String)
        ensures
            res@ == field_removed_cql(self.data.diff()),
    {
        let list = join_strings(&self.data.removed_fields, ", ");
        self.alter(" DROP (", list.as_str())
    }

    /// The statements that drop the columns whose type changed and add them again.
    pub fn field_type_changed_cql(&self) -> (res: Vec<String>)
        ensures
            strs(res@) == field_type_changed_cql(self.data.diff()),
    {
        let changes = &self.data.changed_field_types;
        let n = changes.len();
        let mut names: Vec<String> = Vec::new();
        let mut defs: Vec<String> = Vec::new();
        let mut i: usize = 0;
        while i < n
            invariant
                n == changes.len(),
                i <= n,
                names.len() == i,
                defs.len() == i,
                forall|j: int| 0 <= j < i ==> #[trigger] names@[j]@ == changes@[j].name@,
                forall|j: int| 0 <= j < i ==> #[trigger] defs@[j]@ == name_and_type(changes@[j].name@, changes@[j].code_type@),
            decreases n - i,
        {
            names.push(changes[i].name.clone());
            defs.push(render_name_and_type(changes[i].name.as_str(), changes[i].code_type.as_str()));
            i = i + 1;
        }
        assert(strs(names@) =~= self.data.diff().changed_field_types.map_values(|c: TypeChangeView| c.name));
        assert(strs(defs@) =~= self.data.diff().changed_field_types.map_values(|c: TypeChangeView| name_and_type(c.name, c.code_type)));
        let drop_list = join_strings(&names, ", ");
        let add_list = join_strings(&defs, ", ");
        let mut res: Vec<String> = Vec::new();
        res.push(self.alter(" DROP (", drop_list.as_str()));
        res.push(self.alter(" ADD (", add_list.as_str()));
        assert(strs(res@) =~= field_type_changed_cql(self.data.diff()));
        res
    }

    /// The statements that create the new global indexes.
    pub fn global_index_added_cql(&self) -> (res: Vec<String>)
        ensures
            strs(res@) == global_index_added_cql(self.data.diff()),
    {
        let cols = &self.data.new_global_secondary_indexes;
        let n = cols.len();
        let mut res: Vec<String> = Vec::new();
        let mut i: usize = 0;
        while i < n
            invariant
                n == cols.len(),
                i <= n,
                res.len() == i,
                forall|j: int| 0 <= j < i ==> #[trigger] res@[j]@ == create_global_index_cql(self.data.migration_object_name@, cols@[j]@),
            decreases n - i,
        {
            let index_name = self.data.construct_index_name(&cols[i]);
            let mut s = owned("CREATE INDEX IF NOT EXISTS ");
            s.append(index_name.as_str());
            s.append(" ON ");
            s.append(self.data.migration_object_name.as_str());
            s.append(" (");
            s.append(cols[i].as_str());
            s.append(")");
            res.push(s);
            i = i + 1;
        }
        assert(strs(res@) =~= global_index_added_cql(self.data.diff()));
        res
    }

    /// The statements that create the new local indexes.
    pub fn local_index_added_cql(&self) -> (res: Vec<String>)
        ensures
            strs(res@) == local_index_added_cql(self.data.diff()),
    {
        let targets = &self.data.new_local_secondary_indexes;
        let partition_keys = &self.data.current_code_schema.partition_keys;
        let n = targets.len();
        let mut res: Vec<String> = Vec::new();
        let mut i: usize = 0;
        while i < n
            invariant
                n == targets.len(),
                partition_keys == &self.data.current_code_schema.partition_keys,
                i <= n,
                res.len() == i,
                forall|j: int| 0 <= j < i ==> #[trigger] res@[j]@ == create_local_index_cql(
                    self.data.migration_object_name@, strs(partition_keys@), targets@[j]@),
            decreases n - i,
        {
            let mut idx_name = join_strings(partition_keys, "_");
            idx_name.append("_");
            idx_name.append(targets[i].as_str());
            let index_name = self.data.construct_index_name(&idx_name);
            let mut s = owned("CREATE INDEX IF NOT EXISTS ");
            s.append(index_name.as_str());
            s.append(" ON ");
            s.append(self.data.migration_object_name.as_str());
            s.append(" ((");
            s.append(join_strings(partition_keys, ", ").as_str());
            s.append("), ");
            s.append(targets[i].as_str());
            s.append(")");
            res.push(s);
            i = i + 1;
        }
        assert(strs(res@) =~= local_index_added_cql(self.data.diff()));
        res
    }

    /// The statement of the table-options step, if any.
    pub fn table_options_change_cql(&self) -> (res: Result<Vec<CqlStatement>, PatternError>)
        ensures
            match res {
                Ok(v) => table_options_cql(self.data.diff(), self.args.verbose) == Ok::<Seq<CqlStatementView>, PatternError>(statements(v@)),
                Err(e) => table_options_cql(self.data.diff(), self.args.verbose) == Err::<Seq<CqlStatementView>, PatternError>(e),
            },
    {
        let mut res: Vec<CqlStatement> = Vec::new();
        let t = self.data.migration_object_type;
        if t == ModelType::Table || t == ModelType::MaterializedView {
            match extract_alter_table_options(&self.data.current_code_schema.table_options) {
                Ok(Some(options)) => {
                    let mut s = owned("\n ALTER TABLE ");
                    s.append(self.data.migration_object_name.as_str());
                    s.append(" WITH ");
                    s.append(options.as_str());
                    res.push(CqlStatement { cql: s, print: self.args.verbose });
                },
                Ok(None) => {},
                Err(e) => {
                    return Err(e);
                },
            }
        }
        assert(statements(res@) =~= table_options_cql(self.data.diff(), self.args.verbose)->Ok_0);
        Ok(res)
    }

    /// The statements that carry out `action`, in order.
    pub fn action_cql(&self, action: MigrationAction) -> (res: Result<Vec<CqlStatement>, PatternError>)
        ensures
            match res {
                Ok(v) => action_cql(self.data.diff(), self.args.verbose, action) == Ok::<Seq<CqlStatementView>, PatternError>(statements(v@)),
                Err(e) => action_cql(self.data.diff(), self.args.verbose, action) == Err::<Seq<CqlStatementView>, PatternError>(e),
            },
    {
        let ghost d = self.data.diff();
        match action {
            MigrationAction::FirstMigration => {
                let mut v: Vec<String> = Vec::new();
                v.push(self.first_migration_cql());
                let res = print_all(v);
                assert(strs(v@) =~= seq![first_migration_cql(d)]);
                Ok(res)
            },
            MigrationAction::ChangeTableOptions => self.table_options_change_cql(),
            MigrationAction::ChangeFieldTypes => Ok(print_all(self.field_type_changed_cql())),
            MigrationAction::AddFields => Ok(print_all(self.field_added_cql())),
            MigrationAction::AddGlobalIndexes => Ok(print_all(self.global_index_added_cql())),
            MigrationAction::AddLocalIndexes => Ok(print_all(self.local_index_added_cql())),
            MigrationAction::RemoveLocalIndexes => {
                let v = crate::clause::render_each(Piece::DropIndex, &self.data.removed_local_secondary_indexes);
                Ok(print_all(v))
            },
            MigrationAction::RemoveGlobalIndexes => {
                let v = crate::clause::render_each(Piece::DropIndex, &self.data.removed_global_secondary_indexes);
                Ok(print_all(v))
            },
            MigrationAction::RemoveFields => {
                let mut v: Vec<String> = Vec::new();
                v.push(self.field_removed_cql());
                assert(strs(v@) =~= seq![field_removed_cql(d)]);
                Ok(print_all(v))
            },
            MigrationAction::ReportNoFieldChanges => {
                let v: Vec<CqlStatement> = Vec::new();
                assert(statements(v@) =~= Seq::<CqlStatementView>::empty());
                Ok(v)
            },
            MigrationAction::Abort(_) => {
                let v: Vec<CqlStatement> = Vec::new();
                assert(statements(v@) =~= Seq::<CqlStatementView>::empty());
                Ok(v)
            },
        }
    }
}

} // verus!
