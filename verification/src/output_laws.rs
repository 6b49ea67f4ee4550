//! Properties of what the migration plans and writes, stated over its inputs: which actions a
//! new object gets, which columns a statement names, which keys a finder takes, and which Rust
//! type a column is modelled with.

use vstd::prelude::*;
use vstd::string::*;
use crate::clause::{pieces, Piece};
use crate::cql::{action_cql, CqlStatementView};
use crate::data::DiffView;
use crate::fields::{names_of, ModelFields};
use crate::modelize::scalar_rust_type;
use crate::native::find_by_local_indexes;
use crate::plan::{model_plan, unit_plan, MigrationAction};
use crate::schema::ModelType;
use crate::text::{ascii_lower, has_substring, join, occurs_at};

verus! {

/// `pat` occurs in `a + pat + b`.
proof fn lemma_occurs_between(a: Seq<char>, pat: Seq<char>, b: Seq<char>)
    ensures
        has_substring(a + pat + b, pat),
{
    let s = a + pat + b;
    assert(s.subrange(a.len() as int, (a.len() + pat.len()) as int) =~= pat);
    assert(occurs_at(s, pat, a.len() as int));
}

/// The first migration of an object creates it first, then creates exactly the indexes the
/// code defines and the database lacks: the plan holds `AddGlobalIndexes` exactly when there is
/// a new global index, `AddLocalIndexes` exactly when there is a new local index, and nothing
/// else; for the migration and for the command-line migration unit alike.
pub proof fn lemma_first_migration_creates_every_new_index(d: DiffView, drop_and_replace: bool)
    requires
        d.is_first_migration(),
    ensures
        ({
            let p = model_plan(d, drop_and_replace);
            &&& p.len() > 0 && p[0] == MigrationAction::FirstMigration
            &&& p.contains(MigrationAction::AddGlobalIndexes) <==> d.has_new_global_secondary_indexes()
            &&& p.contains(MigrationAction::AddLocalIndexes) <==> d.has_new_local_secondary_indexes()
            &&& forall|i: int| 0 <= i < p.len() ==> (#[trigger] p[i] is FirstMigration || p[i] is AddGlobalIndexes
                || p[i] is AddLocalIndexes)
            &&& unit_plan(d) == p
        }),
{
    let p = model_plan(d, drop_and_replace);
    let f = MigrationAction::FirstMigration;
    let g = MigrationAction::AddGlobalIndexes;
    let l = MigrationAction::AddLocalIndexes;
    let gl = d.has_new_global_secondary_indexes();
    let lo = d.has_new_local_secondary_indexes();
    if gl && lo {
        assert(p =~= seq![f, g, l]);
        assert(p[1] == g && p[2] == l);
    } else if gl {
        assert(p =~= seq![f, g]);
        assert(p[1] == g);
        assert(!p.contains(l)) by {
            if p.contains(l) {
                let i = choose|i: int| 0 <= i < p.len() && p[i] == l;
            }
        }
    } else if lo {
        assert(p =~= seq![f, l]);
        assert(p[1] == l);
        assert(!p.contains(g)) by {
            if p.contains(g) {
                let i = choose|i: int| 0 <= i < p.len() && p[i] == g;
            }
        }
    } else {
        assert(p =~= seq![f]);
        assert(!p.contains(g)) by {
            if p.contains(g) {
                let i = choose|i: int| 0 <= i < p.len() && p[i] == g;
            }
        }
        assert(!p.contains(l)) by {
            if p.contains(l) {
                let i = choose|i: int| 0 <= i < p.len() && p[i] == l;
            }
        }
    }
}

/// The `CREATE TABLE` statement of a new table names its whole primary key: every partition key
/// column, in order, inside `((...))`, then every clustering key column.
pub proof fn lemma_create_table_names_every_key(d: DiffView, verbose: bool)
    requires
        d.object_type == ModelType::Table,
    ensures
        action_cql(d, verbose, MigrationAction::FirstMigration) matches Ok(v) && v.len() == 1 && v[0].print && {
            let pk = join(d.code.partition_keys, ", "@);
            let ck = join(d.code.clustering_keys, ", "@);
            &&& has_substring(v[0].cql, "PRIMARY KEY (("@ + pk + ")"@)
            &&& has_substring(v[0].cql, "PRIMARY KEY (("@ + pk + ") "@ + (if ck.len() > 0 { ","@ + ck } else { Seq::empty() }) + ")"@)
        },
{
    let pk = join(d.code.partition_keys, ", "@);
    let ck = join(d.code.clustering_keys, ", "@);
    let ckc = if ck.len() > 0 { ","@ + ck } else { Seq::empty() };
    let v = action_cql(d, verbose, MigrationAction::FirstMigration)->Ok_0;
    assert(crate::cql::first_migration_cql(d) == crate::cql::create_table_cql(d));
    assert(v[0].cql == crate::cql::create_table_cql(d));
    let cql = v[0].cql;
    reveal_strlit(", \n    PRIMARY KEY ((");
    reveal_strlit(", \n    ");
    reveal_strlit("PRIMARY KEY ((");
    reveal_strlit(") ");
    reveal_strlit(")");
    reveal_strlit(" ");
    reveal_strlit(")\n) \n ");
    reveal_strlit("\n) \n ");
    let head = "CREATE TABLE IF NOT EXISTS "@ + d.object_name + "\n(\n"@ + crate::schema::fields_clause(d.code.fields) + ", \n    "@;
    let tail = ")\n) \n "@ + crate::cql::options_clause(d.code.table_options);
    assert(cql =~= head + ("PRIMARY KEY (("@ + pk + ")"@) + (" "@ + ckc + tail));
    lemma_occurs_between(head, "PRIMARY KEY (("@ + pk + ")"@, " "@ + ckc + tail);
    assert(cql =~= head + ("PRIMARY KEY (("@ + pk + ") "@ + ckc + ")"@) + ("\n) \n "@ + crate::cql::options_clause(d.code.table_options)));
    lemma_occurs_between(head, "PRIMARY KEY (("@ + pk + ") "@ + ckc + ")"@, "\n) \n "@ + crate::cql::options_clause(d.code.table_options));
}

/// Removing columns is one statement, printed, that drops every column the database has and
/// the code lacks: its list is all the removed columns of the comparison, in order.
pub proof fn lemma_drop_names_every_removed_column(d: DiffView, verbose: bool)
    ensures
        action_cql(d, verbose, MigrationAction::RemoveFields) matches Ok(v) && v.len() == 1 && v[0].print
            && has_substring(v[0].cql, " DROP ("@ + join(d.removed_fields, ", "@) + ")"@),
{
    let v = action_cql(d, verbose, MigrationAction::RemoveFields)->Ok_0;
    let head = "ALTER "@ + crate::schema::model_type_name(d.object_type) + " "@ + d.object_name;
    let pat = " DROP ("@ + join(d.removed_fields, ", "@) + ")"@;
    assert(v[0].cql =~= head + pat + Seq::<char>::empty());
    lemma_occurs_between(head, pat, Seq::empty());
}

/// Each finder by local secondary index takes the whole partition key and then the index field:
/// there is one per index field, its arity is the number of partition key fields plus one, and
/// its query conditions bind every partition key column, in order, before the index column.
pub proof fn lemma_local_index_finders_take_the_whole_partition_key(table: Seq<char>, f: ModelFields)
    ensures
        find_by_local_indexes(table, f).len() == f.local_secondary_index_fields@.len(),
        forall|j: int| 0 <= j < f.local_secondary_index_fields@.len() ==> {
            let g = #[trigger] find_by_local_indexes(table, f)[j];
            let key = names_of(f.partition_key_fields@).push(f.local_secondary_index_fields@[j].name@);
            &&& g.arity == f.partition_key_fields@.len() + 1
            &&& !g.single_row
            &&& has_substring(g.query, " WHERE "@ + join(pieces(Piece::Placeholder, key), " AND "@))
        },
{
    assert forall|j: int| 0 <= j < f.local_secondary_index_fields@.len() implies {
        let g = #[trigger] find_by_local_indexes(table, f)[j];
        let key = names_of(f.partition_key_fields@).push(f.local_secondary_index_fields@[j].name@);
        &&& g.arity == f.partition_key_fields@.len() + 1
        &&& !g.single_row
        &&& has_substring(g.query, " WHERE "@ + join(pieces(Piece::Placeholder, key), " AND "@))
    } by {
        let g = find_by_local_indexes(table, f)[j];
        let lsi = names_of(f.local_secondary_index_fields@);
        assert(lsi[j] == f.local_secondary_index_fields@[j].name@);
        let key = names_of(f.partition_key_fields@).push(lsi[j]);
        let head = "SELECT "@ + crate::fields::quoted_columns(f.db_fields@) + " FROM "@ + table;
        let pat = " WHERE "@ + join(pieces(Piece::Placeholder, key), " AND "@);
        assert(g.query =~= head + pat + Seq::<char>::empty());
        lemma_occurs_between(head, pat, Seq::empty());
    }
}

/// `s` with its ASCII capital letters made small.
pub open spec fn ascii_lowercase(s: Seq<char>) -> Seq<char> {
    s.map_values(|c: char| ascii_lower(c))
}

/// A CQL scalar column is modelled with the `charybdis::types` type of the same name, case
/// aside (`timestamp` with `Timestamp`, `time` with `Time`, `bigint` with `BigInt`); `varchar`,
/// another name of `text`, with `Text`. So two different scalar types (other than those two
/// names of one type) are never modelled with the same Rust type.
pub proof fn lemma_scalar_types_keep_their_names(t: Seq<char>)
    ensures
        scalar_rust_type(t) matches Some(r) ==> (t == "varchar"@ && r == "Text"@) || ascii_lowercase(r) == t,
{
    if scalar_rust_type(t) is Some {
        let r = scalar_rust_type(t)->Some_0;
        reveal_strlit("varchar");
        reveal_strlit("ascii"); reveal_strlit("bigint"); reveal_strlit("blob"); reveal_strlit("boolean");
        reveal_strlit("counter"); reveal_strlit("date"); reveal_strlit("decimal"); reveal_strlit("double");
        reveal_strlit("duration"); reveal_strlit("float"); reveal_strlit("inet"); reveal_strlit("int");
        reveal_strlit("smallint"); reveal_strlit("text"); reveal_strlit("time"); reveal_strlit("timestamp");
        reveal_strlit("timeuuid"); reveal_strlit("tinyint"); reveal_strlit("uuid"); reveal_strlit("varint");
        lemma_literal_names();
    }
}

/// The scalar types and their Rust names agree, case aside.
proof fn lemma_literal_names()
    ensures
        ascii_lowercase("Ascii"@) == "ascii"@,
        ascii_lowercase("BigInt"@) == "bigint"@,
        ascii_lowercase("Blob"@) == "blob"@,
        ascii_lowercase("Boolean"@) == "boolean"@,
        ascii_lowercase("Counter"@) == "counter"@,
        ascii_lowercase("Date"@) == "date"@,
        ascii_lowercase("Decimal"@) == "decimal"@,
        ascii_lowercase("Double"@) == "double"@,
        ascii_lowercase("Duration"@) == "duration"@,
        ascii_lowercase("Float"@) == "float"@,
        ascii_lowercase("Inet"@) == "inet"@,
        ascii_lowercase("Int"@) == "int"@,
        ascii_lowercase("SmallInt"@) == "smallint"@,
        ascii_lowercase("Text"@) == "text"@,
        ascii_lowercase("Time"@) == "time"@,
        ascii_lowercase("Timestamp"@) == "timestamp"@,
        ascii_lowercase("Timeuuid"@) == "timeuuid"@,
        ascii_lowercase("TinyInt"@) == "tinyint"@,
        ascii_lowercase("Uuid"@) == "uuid"@,
        ascii_lowercase("Varint"@) == "varint"@,
{
    reveal_strlit("Ascii"); reveal_strlit("ascii");
    reveal_strlit("BigInt"); reveal_strlit("bigint");
    reveal_strlit("Blob"); reveal_strlit("blob");
    reveal_strlit("Boolean"); reveal_strlit("boolean");
    reveal_strlit("Counter"); reveal_strlit("counter");
    reveal_strlit("Date"); reveal_strlit("date");
    reveal_strlit("Decimal"); reveal_strlit("decimal");
    reveal_strlit("Double"); reveal_strlit("double");
    reveal_strlit("Duration"); reveal_strlit("duration");
    reveal_strlit("Float"); reveal_strlit("float");
    reveal_strlit("Inet"); reveal_strlit("inet");
    reveal_strlit("Int"); reveal_strlit("int");
    reveal_strlit("SmallInt"); reveal_strlit("smallint");
    reveal_strlit("Text"); reveal_strlit("text");
    reveal_strlit("Time"); reveal_strlit("time");
    reveal_strlit("Timestamp"); reveal_strlit("timestamp");
    reveal_strlit("Timeuuid"); reveal_strlit("timeuuid");
    reveal_strlit("TinyInt"); reveal_strlit("tinyint");
    reveal_strlit("Uuid"); reveal_strlit("uuid");
    reveal_strlit("Varint"); reveal_strlit("varint");
    assert(ascii_lowercase("Ascii"@) =~= "ascii"@);
    assert(ascii_lowercase("BigInt"@) =~= "bigint"@);
    assert(ascii_lowercase("Blob"@) =~= "blob"@);
    assert(ascii_lowercase("Boolean"@) =~= "boolean"@);
    assert(ascii_lowercase("Counter"@) =~= "counter"@);
    assert(ascii_lowercase("Date"@) =~= "date"@);
    assert(ascii_lowercase("Decimal"@) =~= "decimal"@);
    assert(ascii_lowercase("Double"@) =~= "double"@);
    assert(ascii_lowercase("Duration"@) =~= "duration"@);
    assert(ascii_lowercase("Float"@) =~= "float"@);
    assert(ascii_lowercase("Inet"@) =~= "inet"@);
    assert(ascii_lowercase("Int"@) =~= "int"@);
    assert(ascii_lowercase("SmallInt"@) =~= "smallint"@);
    assert(ascii_lowercase("Text"@) =~= "text"@);
    assert(ascii_lowercase("Time"@) =~= "time"@);
    assert(ascii_lowercase("Timestamp"@) =~= "timestamp"@);
    assert(ascii_lowercase("Timeuuid"@) =~= "timeuuid"@);
    assert(ascii_lowercase("TinyInt"@) =~= "tinyint"@);
    assert(ascii_lowercase("Uuid"@) =~= "uuid"@);
    assert(ascii_lowercase("Varint"@) =~= "varint"@);
}

} // verus!
