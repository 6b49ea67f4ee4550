//! Properties that hold across the functions of the library.

use vstd::prelude::*;
use crate::data::{
    changed_types_of, column_absent_from, index_absent_from, lookup_type, new_fields_of, new_index_targets,
    removed_fields_of, removed_index_names, schema_diff, typed, TypedFieldView,
};
use crate::clause::{piece, pieces, Piece};
use crate::fields::{names_of, where_clause, ModelField};
use crate::keys::keys_differ;
use crate::native::add_to_column;
use crate::model_impls::{not_among, update_by_keys};
use crate::text::{count_char, join};
use crate::plan::{
    first_migration_plan, migration_steps, model_plan, step_outcome, steps_plan, unit_plan, MigrationAction,
    MigrationError, MigrationStep, StepOutcome,
};
use crate::schema::{column_names, distinct_column_names, index_targets, ColumnView, IndexView, ModelType, SchemaView};

verus! {

/// Every action of a plan of `steps` is a refusal, the final report, or the action that one of
/// the steps runs; so what `ok` holds of all of these, it holds of every action.
proof fn lemma_steps_plan_runs_only(
    d: crate::data::DiffView,
    dr: bool,
    steps: Seq<MigrationStep>,
    changed: bool,
    ok: spec_fn(MigrationAction) -> bool,
)
    requires
        forall|k: int| 0 <= k < steps.len() ==> match #[trigger] step_outcome(d, dr, steps[k]) {
            StepOutcome::Run(a, _) => ok(a),
            _ => true,
        },
        ok(MigrationAction::ReportNoFieldChanges),
        forall|e: MigrationError| #[trigger] ok(MigrationAction::Abort(e)),
    ensures
        forall|i: int| 0 <= i < steps_plan(d, dr, steps, changed).len() ==> ok(#[trigger] steps_plan(d, dr, steps, changed)[i]),
    decreases steps.len(),
{
    if steps.len() > 0 {
        let rest = steps.drop_first();
        assert forall|k: int| 0 <= k < rest.len() implies match #[trigger] step_outcome(d, dr, rest[k]) {
            StepOutcome::Run(a, _) => ok(a),
            _ => true,
        } by {
            assert(rest[k] == steps[k + 1]);
            assert(match step_outcome(d, dr, steps[k + 1]) {
                StepOutcome::Run(a, _) => ok(a),
                _ => true,
            });
        }
        assert(match step_outcome(d, dr, steps[0]) {
            StepOutcome::Run(a, _) => ok(a),
            _ => true,
        });
        match step_outcome(d, dr, steps[0]) {
            StepOutcome::Skip => {
                lemma_steps_plan_runs_only(d, dr, rest, changed, ok);
                assert(steps_plan(d, dr, steps, changed) == steps_plan(d, dr, rest, changed));
            },
            StepOutcome::Run(a, c) => {
                lemma_steps_plan_runs_only(d, dr, rest, changed || c, ok);
                let tail = steps_plan(d, dr, rest, changed || c);
                assert forall|i: int| 0 <= i < steps_plan(d, dr, steps, changed).len()
                    implies ok(#[trigger] steps_plan(d, dr, steps, changed)[i]) by {
                    assert(steps_plan(d, dr, steps, changed) == seq![a] + tail);
                    if i > 0 {
                        assert((seq![a] + tail)[i] == tail[i - 1]);
                    }
                }
            },
            StepOutcome::Fail(e) => {
                assert(ok(MigrationAction::Abort(e)));
                assert(steps_plan(d, dr, steps, changed) == seq![MigrationAction::Abort(e)]);
            },
        }
    } else {
        assert(ok(MigrationAction::ReportNoFieldChanges));
        if !changed {
            assert(steps_plan(d, dr, steps, changed) == seq![MigrationAction::ReportNoFieldChanges]);
        }
    }
}

/// Whether an action adds, drops or retypes columns.
pub open spec fn is_column_action(a: MigrationAction) -> bool {
    a is AddFields || a is RemoveFields || a is ChangeFieldTypes
}

/// The column changes that a migration refuses never run: a materialized view never has a
/// column added, dropped or retyped, and a UDT never has a column dropped or retyped; such a
/// change ends the plan with a refusal instead.
pub proof fn lemma_refused_column_changes_never_run(d: crate::data::DiffView, drop_and_replace: bool)
    ensures
        d.object_type == ModelType::MaterializedView ==> forall|i: int| 0 <= i < model_plan(d, drop_and_replace).len()
            ==> !is_column_action(#[trigger] model_plan(d, drop_and_replace)[i]),
        d.object_type == ModelType::Udt ==> forall|i: int| 0 <= i < model_plan(d, drop_and_replace).len()
            ==> !(#[trigger] model_plan(d, drop_and_replace)[i] is RemoveFields || model_plan(d, drop_and_replace)[i] is ChangeFieldTypes),
{
    let all = migration_steps();
    let p = model_plan(d, drop_and_replace);
    if d.object_type == ModelType::MaterializedView {
        let ok = |a: MigrationAction| !is_column_action(a);
        assert forall|k: int| 0 <= k < all.len() implies match #[trigger] step_outcome(d, drop_and_replace, all[k]) {
            StepOutcome::Run(a, _) => ok(a),
            _ => true,
        } by {
            reveal_with_fuel(step_outcome, 1);
        }
        lemma_steps_plan_runs_only(d, drop_and_replace, all, false, ok);
        if d.is_first_migration() {
            assert forall|i: int| 0 <= i < p.len() implies !is_column_action(#[trigger] p[i]) by {
                assert(p == first_migration_plan(d));
            }
        }
    }
    if d.object_type == ModelType::Udt {
        let ok = |a: MigrationAction| !(a is RemoveFields || a is ChangeFieldTypes);
        assert forall|k: int| 0 <= k < all.len() implies match #[trigger] step_outcome(d, drop_and_replace, all[k]) {
            StepOutcome::Run(a, _) => ok(a),
            _ => true,
        } by {
            reveal_with_fuel(step_outcome, 1);
        }
        lemma_steps_plan_runs_only(d, drop_and_replace, all, false, ok);
        if d.is_first_migration() {
            assert forall|i: int| 0 <= i < p.len() implies !(#[trigger] p[i] is RemoveFields || p[i] is ChangeFieldTypes) by {
                assert(p == first_migration_plan(d));
            }
        }
    }
}

/// How the plan of an existing object answers a change it refuses: a changed partition or
/// clustering key of a table or view is refused before anything else; a retyped column without
/// drop-and-replace is refused right after the table options; and the command-line migration
/// unit refuses any retyped column right after the table options.
pub proof fn lemma_refusals_stop_the_plan(d: crate::data::DiffView, drop_and_replace: bool)
    requires
        !d.is_first_migration(),
    ensures
        d.object_type != ModelType::Udt && d.partition_key_changed()
            ==> model_plan(d, drop_and_replace) == seq![MigrationAction::Abort(MigrationError::PartitionKeyChange)],
        d.object_type != ModelType::Udt && !d.partition_key_changed() && d.clustering_key_changed()
            ==> model_plan(d, drop_and_replace) == seq![MigrationAction::Abort(MigrationError::ClusteringKeyChange)],
        (d.object_type == ModelType::Udt || (!d.partition_key_changed() && !d.clustering_key_changed()))
            && d.has_changed_type_fields() && !drop_and_replace
            ==> model_plan(d, drop_and_replace)
                == seq![MigrationAction::ChangeTableOptions, MigrationAction::Abort(MigrationError::FieldTypeChange)],
        d.has_changed_type_fields()
            ==> unit_plan(d) == seq![MigrationAction::ChangeTableOptions, MigrationAction::Abort(MigrationError::FieldTypeChangeUnsupported)],
{
    let all = migration_steps();
    if (d.object_type == ModelType::Udt || (!d.partition_key_changed() && !d.clustering_key_changed()))
        && d.has_changed_type_fields() && !drop_and_replace {
        reveal_with_fuel(steps_plan, 3);
        assert(all.drop_first()[0] == MigrationStep::ChangeFieldTypes);
        assert(steps_plan(d, drop_and_replace, all, false)
            =~= seq![MigrationAction::ChangeTableOptions, MigrationAction::Abort(MigrationError::FieldTypeChange)]);
    }
}


/// A filter that keeps none of the elements is empty.
proof fn lemma_filter_keeps_none<A>(s: Seq<A>, p: spec_fn(A) -> bool)
    requires
        forall|i: int| 0 <= i < s.len() ==> !p(#[trigger] s[i]),
    ensures
        s.filter(p).len() == 0,
{
    if s.filter(p).len() > 0 {
        let e = s.filter(p)[0];
        s.lemma_filter_pred(p, 0);
        assert(s.filter(p).contains(e));
        s.lemma_filter_contains_rev(p, e);
        let i = choose|i: int| 0 <= i < s.len() && s[i] == e;
        assert(!p(s[i]));
    }
}

/// In a schema whose column names are distinct, looking a column up by its name finds its type.
proof fn lemma_lookup_own_column(cols: Seq<ColumnView>, i: int)
    requires
        0 <= i < cols.len(),
        forall|a: int, b: int| 0 <= a < cols.len() && 0 <= b < cols.len() && a != b ==> cols[a].name != cols[b].name,
    ensures
        lookup_type(cols, cols[i].name) == Some(cols[i].cql_type),
    decreases cols.len(),
{
    if i > 0 {
        let rest = cols.drop_first();
        assert(cols[0].name != cols[i].name);
        assert(rest[i - 1] == cols[i]);
        lemma_lookup_own_column(rest, i - 1);
    }
}

/// Comparing the columns of a schema with themselves finds no type change.
proof fn lemma_no_type_change_with_itself(code: Seq<ColumnView>, db: Seq<ColumnView>)
    requires
        forall|i: int| 0 <= i < code.len() ==> lookup_type(db, #[trigger] code[i].name) == Some(code[i].cql_type),
    ensures
        changed_types_of(code, db).len() == 0,
    decreases code.len(),
{
    if code.len() > 0 {
        let prefix = code.drop_last();
        assert forall|i: int| 0 <= i < prefix.len() implies lookup_type(db, #[trigger] prefix[i].name) == Some(prefix[i].cql_type) by {
            assert(prefix[i] == code[i]);
        }
        lemma_no_type_change_with_itself(prefix, db);
        assert(lookup_type(db, code[code.len() - 1].name) == Some(code.last().cql_type));
    }
}

/// Comparing indexes with themselves finds nothing new and nothing removed.
proof fn lemma_same_indexes(ixs: Seq<IndexView>)
    ensures
        new_index_targets(ixs, ixs).len() == 0,
        removed_index_names(ixs, ixs).len() == 0,
{
    let p = index_absent_from(index_targets(ixs));
    assert forall|i: int| 0 <= i < ixs.len() implies !p(#[trigger] ixs[i]) by {
        assert(index_targets(ixs)[i] == ixs[i].target);
    }
    lemma_filter_keeps_none(ixs, p);
}

/// Comparing the columns of a schema with themselves finds nothing new and nothing removed.
proof fn lemma_same_columns(s: SchemaView)
    ensures
        new_fields_of(s, s).len() == 0,
        removed_fields_of(s, s).len() == 0,
{
    let p = column_absent_from(column_names(s.fields));
    assert forall|i: int| 0 <= i < s.fields.len() implies !p(#[trigger] s.fields[i]) by {
        assert(column_names(s.fields)[i] == s.fields[i].name);
    }
    lemma_filter_keeps_none(s.fields, p);
}

/// Comparing a schema object with itself finds no difference: no column is new, removed or
/// retyped, no index is new or removed, and neither key changed. Requires a valid schema, with
/// distinct column names (`SchemaObject::has_distinct_column_names` checks it; a repeated name
/// with two types would be seen as a type change).
pub proof fn lemma_identical_schemas_differ_in_nothing(name: Seq<char>, t: ModelType, s: SchemaView)
    requires
        distinct_column_names(s),
    ensures
        ({
            let d = schema_diff(name, t, s, s);
            &&& d.new_fields.len() == 0
            &&& d.removed_fields.len() == 0
            &&& d.changed_field_types.len() == 0
            &&& d.new_global_secondary_indexes.len() == 0
            &&& d.new_local_secondary_indexes.len() == 0
            &&& d.removed_global_secondary_indexes.len() == 0
            &&& d.removed_local_secondary_indexes.len() == 0
            &&& !d.partition_key_changed()
            &&& !d.clustering_key_changed()
        }),
{
    lemma_same_columns(s);
    lemma_same_indexes(s.global_secondary_indexes);
    lemma_same_indexes(s.local_secondary_indexes);
    assert forall|i: int| 0 <= i < s.fields.len() implies lookup_type(s.fields, #[trigger] s.fields[i].name) == Some(s.fields[i].cql_type) by {
        lemma_lookup_own_column(s.fields, i);
    }
    lemma_no_type_change_with_itself(s.fields, s.fields);
    assert(!keys_differ(s.partition_keys, s.partition_keys));
    assert(!keys_differ(s.clustering_keys, s.clustering_keys));
}

/// A schema object that matches the database exactly needs no migration: its plan only
/// refreshes the table options and reports that no column or index changed (for both the
/// migration and the command-line migration unit). Requires the columns to have distinct names
/// and the object to exist in the database.
pub proof fn lemma_matching_schema_changes_nothing(name: Seq<char>, t: ModelType, s: SchemaView, drop_and_replace: bool)
    requires
        distinct_column_names(s),
        s.fields.len() > 0,
    ensures
        model_plan(schema_diff(name, t, s, s), drop_and_replace)
            == seq![MigrationAction::ChangeTableOptions, MigrationAction::ReportNoFieldChanges],
        unit_plan(schema_diff(name, t, s, s))
            == seq![MigrationAction::ChangeTableOptions, MigrationAction::ReportNoFieldChanges],
{
    let d = schema_diff(name, t, s, s);
    lemma_identical_schemas_differ_in_nothing(name, t, s);
    let all = migration_steps();
    reveal_with_fuel(steps_plan, 10);
    assert(all.drop_first() =~= all.skip(1));
    assert(steps_plan(d, drop_and_replace, all, false)
        =~= seq![MigrationAction::ChangeTableOptions, MigrationAction::ReportNoFieldChanges]);
    assert(unit_plan(d) =~= seq![MigrationAction::ChangeTableOptions, MigrationAction::ReportNoFieldChanges]);
}

/// What a comparison in one direction finds new, the comparison in the other direction finds
/// removed: the columns removed from `db` to reach `code` are, in order, the columns that
/// `db` adds to `code`.
pub proof fn lemma_removed_fields_are_new_fields_reversed(code: SchemaView, db: SchemaView)
    ensures
        removed_fields_of(code, db) == new_fields_of(db, code).map_values(|f: TypedFieldView| f.name),
{
    assert(removed_fields_of(code, db) =~= new_fields_of(db, code).map_values(|f: TypedFieldView| f.name));
}

/// A column the migration adds is a code column the database lacks, and a column it drops is a
/// database column the code lacks; so no column is both added and dropped.
pub proof fn lemma_added_and_dropped_columns_are_disjoint(code: SchemaView, db: SchemaView)
    ensures
        forall|i: int| 0 <= i < new_fields_of(code, db).len() ==> {
            let n = #[trigger] new_fields_of(code, db)[i].name;
            column_names(code.fields).contains(n) && !column_names(db.fields).contains(n)
        },
        forall|j: int| 0 <= j < removed_fields_of(code, db).len() ==> {
            let n = #[trigger] removed_fields_of(code, db)[j];
            column_names(db.fields).contains(n) && !column_names(code.fields).contains(n)
        },
        forall|i: int, j: int| 0 <= i < new_fields_of(code, db).len() && 0 <= j < removed_fields_of(code, db).len()
            ==> #[trigger] new_fields_of(code, db)[i].name != #[trigger] removed_fields_of(code, db)[j],
{
    let added = code.fields.filter(column_absent_from(column_names(db.fields)));
    let dropped = db.fields.filter(column_absent_from(column_names(code.fields)));
    assert forall|i: int| 0 <= i < new_fields_of(code, db).len() implies {
        let n = #[trigger] new_fields_of(code, db)[i].name;
        column_names(code.fields).contains(n) && !column_names(db.fields).contains(n)
    } by {
        code.fields.lemma_filter_pred(column_absent_from(column_names(db.fields)), i);
        assert(added.contains(added[i]));
        code.fields.lemma_filter_contains_rev(column_absent_from(column_names(db.fields)), added[i]);
        let k = choose|k: int| 0 <= k < code.fields.len() && code.fields[k] == added[i];
        assert(column_names(code.fields)[k] == added[i].name);
    }
    assert forall|j: int| 0 <= j < removed_fields_of(code, db).len() implies {
        let n = #[trigger] removed_fields_of(code, db)[j];
        column_names(db.fields).contains(n) && !column_names(code.fields).contains(n)
    } by {
        db.fields.lemma_filter_pred(column_absent_from(column_names(code.fields)), j);
        assert(dropped.contains(dropped[j]));
        db.fields.lemma_filter_contains_rev(column_absent_from(column_names(code.fields)), dropped[j]);
        let k = choose|k: int| 0 <= k < db.fields.len() && db.fields[k] == dropped[j];
        assert(column_names(db.fields)[k] == dropped[j].name);
    }
}

/// Key lists are compared without regard to order: listing the same keys in another order is
/// never seen as a key change.
pub proof fn lemma_reordered_keys_are_unchanged(a: Seq<Seq<char>>, b: Seq<Seq<char>>)
    requires
        a.to_multiset() == b.to_multiset(),
    ensures
        !keys_differ(a, b),
        !keys_differ(b, a),
{
}

/// In the plan of the steps of a migration, a refusal is the last action.
proof fn lemma_steps_plan_abort_is_last(d: crate::data::DiffView, dr: bool, steps: Seq<MigrationStep>, changed: bool)
    ensures
        forall|i: int| 0 <= i < steps_plan(d, dr, steps, changed).len() - 1
            ==> !(#[trigger] steps_plan(d, dr, steps, changed)[i] is Abort),
    decreases steps.len(),
{
    if steps.len() > 0 {
        lemma_steps_plan_abort_is_last(d, dr, steps.drop_first(), changed);
        match step_outcome(d, dr, steps[0]) {
            StepOutcome::Run(a, c) => {
                lemma_steps_plan_abort_is_last(d, dr, steps.drop_first(), changed || c);
                let rest = steps_plan(d, dr, steps.drop_first(), changed || c);
                assert(step_outcome(d, dr, steps[0]) matches StepOutcome::Run(a, _) && !(a is Abort)) by {
                    reveal_with_fuel(step_outcome, 1);
                }
                assert forall|i: int| 0 <= i < steps_plan(d, dr, steps, changed).len() - 1
                    implies !(#[trigger] steps_plan(d, dr, steps, changed)[i] is Abort) by {
                    assert(steps_plan(d, dr, steps, changed) == seq![a] + rest);
                    if i > 0 {
                        assert((seq![a] + rest)[i] == rest[i - 1]);
                    }
                }
            },
            _ => {},
        }
    }
}

/// A migration stops at a refused change: `Abort` can only be the last action of a plan, so no
/// statement runs after a refusal.
pub proof fn lemma_abort_is_last(d: crate::data::DiffView, drop_and_replace: bool)
    ensures
        forall|i: int| 0 <= i < model_plan(d, drop_and_replace).len() - 1
            ==> !(#[trigger] model_plan(d, drop_and_replace)[i] is Abort),
        forall|i: int| 0 <= i < unit_plan(d).len() - 1 ==> !(#[trigger] unit_plan(d)[i] is Abort),
{
    lemma_steps_plan_abort_is_last(d, drop_and_replace, migration_steps(), false);
    let u = unit_plan(d);
    assert forall|i: int| 0 <= i < u.len() - 1 implies !(#[trigger] u[i] is Abort) by {
        if !d.is_first_migration() {
            assert(u == seq![MigrationAction::ChangeTableOptions] + crate::plan::unit_changes(d));
        }
    }
}


proof fn lemma_count_concat(a: Seq<char>, b: Seq<char>, c: char)
    ensures
        count_char(a + b, c) == count_char(a, c) + count_char(b, c),
    decreases b.len(),
{
    if b.len() == 0 {
        assert(a + b =~= a);
    } else {
        lemma_count_concat(a, b.drop_last(), c);
        assert((a + b).drop_last() =~= a + b.drop_last());
    }
}

proof fn lemma_count_no_occurrence(s: Seq<char>, c: char)
    requires
        !s.contains(c),
    ensures
        count_char(s, c) == 0,
    decreases s.len(),
{
    if s.len() > 0 {
        assert(s.drop_last().len() == s.len() - 1);
        assert forall|i: int| 0 <= i < s.drop_last().len() implies s.drop_last()[i] != c by {
            assert(s.drop_last()[i] == s[i]);
        }
        lemma_count_no_occurrence(s.drop_last(), c);
        assert(s.last() == s[s.len() - 1]);
    }
}

proof fn lemma_count_literals()
    ensures
        count_char(" = ?"@, '?') == 1,
        count_char(" + ?"@, '?') == 1,
        count_char(" - ?"@, '?') == 1,
        count_char(" AND "@, '?') == 0,
        count_char("UPDATE "@, '?') == 0,
        count_char(" SET "@, '?') == 0,
        count_char(" = "@, '?') == 0,
        count_char(" WHERE "@, '?') == 0,
        count_char(", "@, '?') == 0,
{
    reveal_strlit(" = ?");
    reveal_strlit(" + ?");
    reveal_strlit(" - ?");
    reveal_strlit(" AND ");
    reveal_strlit("UPDATE ");
    reveal_strlit(" SET ");
    reveal_strlit(" = ");
    reveal_strlit(" WHERE ");
    reveal_strlit(", ");
    reveal_with_fuel(count_char, 8);
}

/// The names in `names` hold no `?`.
pub open spec fn no_placeholder_in(names: Seq<Seq<char>>) -> bool {
    forall|i: int| 0 <= i < names.len() ==> !(#[trigger] names[i]).contains('?')
}

/// Placeholders `name = ?` joined by a separator without `?` hold one `?` per name.
proof fn lemma_placeholders_counted(names: Seq<Seq<char>>, sep: Seq<char>)
    requires
        no_placeholder_in(names),
        !sep.contains('?'),
    ensures
        count_char(join(pieces(Piece::Placeholder, names), sep), '?') == names.len(),
    decreases names.len(),
{
    lemma_count_literals();
    lemma_count_no_occurrence(sep, '?');
    if names.len() == 1 {
        lemma_count_no_occurrence(names[0], '?');
        lemma_count_concat(names[0], " = ?"@, '?');
    } else if names.len() > 1 {
        let init = names.drop_last();
        assert(no_placeholder_in(init)) by {
            assert forall|i: int| 0 <= i < init.len() implies !(#[trigger] init[i]).contains('?') by {
                assert(init[i] == names[i]);
            }
        }
        lemma_placeholders_counted(init, sep);
        assert(pieces(Piece::Placeholder, names).drop_last() =~= pieces(Piece::Placeholder, init));
        let last = piece(Piece::Placeholder, names.last());
        lemma_count_no_occurrence(names.last(), '?');
        lemma_count_concat(names.last(), " = ?"@, '?');
        let j = join(pieces(Piece::Placeholder, init), sep);
        lemma_count_concat(j, sep, '?');
        lemma_count_concat(j + sep, last, '?');
    }
}

/// A positional `WHERE` clause has one placeholder per key field, when no field name holds a
/// `?`.
pub proof fn lemma_where_clause_binds_each_key(names: Seq<Seq<char>>)
    requires
        no_placeholder_in(names),
    ensures
        count_char(join(pieces(Piece::Placeholder, names), " AND "@), '?') == names.len(),
{
    lemma_count_literals();
    lemma_count_no_occurrence_of_zero(" AND "@);
    lemma_placeholders_counted(names, " AND "@);
}

/// A text in which `?` is counted zero times holds no `?`.
proof fn lemma_count_no_occurrence_of_zero(s: Seq<char>)
    requires
        count_char(s, '?') == 0,
    ensures
        !s.contains('?'),
    decreases s.len(),
{
    if s.len() > 0 {
        lemma_count_no_occurrence_of_zero(s.drop_last());
        assert forall|i: int| 0 <= i < s.len() implies s[i] != '?' by {
            if i < s.len() - 1 {
                assert(s.drop_last()[i] == s[i]);
            }
        }
    }
}

/// `a = ? <sep> b = ?` is the names joined by ` = ?<sep>`, followed by ` = ?`.
proof fn lemma_placeholder_join(names: Seq<Seq<char>>, sep: Seq<char>)
    requires
        names.len() > 0,
    ensures
        join(names, " = ?"@ + sep) + " = ?"@ == join(pieces(Piece::Placeholder, names), sep),
    decreases names.len(),
{
    if names.len() > 1 {
        let init = names.drop_last();
        lemma_placeholder_join(init, sep);
        assert(pieces(Piece::Placeholder, names).drop_last() =~= pieces(Piece::Placeholder, init));
        assert(join(names, " = ?"@ + sep) + " = ?"@ =~= (join(init, " = ?"@ + sep) + " = ?"@) + sep + (names.last() + " = ?"@));
    }
}

/// Filters that agree on every element of `s` keep the same elements.
proof fn lemma_filter_congruent(s: Seq<Seq<char>>, p: spec_fn(Seq<char>) -> bool, q: spec_fn(Seq<char>) -> bool)
    requires
        forall|i: int| 0 <= i < s.len() ==> p(#[trigger] s[i]) == q(s[i]),
    ensures
        s.filter(p) == s.filter(q),
    decreases s.len(),
{
    if s.len() > 0 {
        let init = s.drop_last();
        assert forall|i: int| 0 <= i < init.len() implies p(#[trigger] init[i]) == q(init[i]) by {
            assert(init[i] == s[i]);
        }
        lemma_filter_congruent(init, p, q);
        assert(s =~= init.push(s.last()));
        init.lemma_filter_push(s.last(), p);
        init.lemma_filter_push(s.last(), q);
        assert(p(s[s.len() - 1]) == q(s[s.len() - 1]));
    }
}

/// Leaving out of `names` the distinct keys `keys`, all among the distinct `names`, leaves
/// `names.len() - keys.len()` names.
proof fn lemma_filter_out_keys_len(names: Seq<Seq<char>>, keys: Seq<Seq<char>>)
    requires
        names.no_duplicates(),
        keys.no_duplicates(),
        forall|i: int| 0 <= i < keys.len() ==> names.contains(#[trigger] keys[i]),
    ensures
        names.filter(not_among(keys)).len() + keys.len() == names.len(),
    decreases names.len(),
{
    if names.len() == 0 {
        if keys.len() > 0 {
            assert(names.contains(keys[0]));
        }
        reveal_with_fuel(Seq::filter, 1);
    } else {
        let init = names.drop_last();
        let x = names.last();
        assert(names =~= init.push(x));
        init.lemma_filter_push(x, not_among(keys));
        assert(init.no_duplicates()) by {
            assert forall|i: int, j: int| 0 <= i < init.len() && 0 <= j < init.len() && i != j implies init[i] != init[j] by {
                assert(init[i] == names[i] && init[j] == names[j]);
            }
        }
        assert(!init.contains(x)) by {
            if init.contains(x) {
                let j = choose|j: int| 0 <= j < init.len() && init[j] == x;
                assert(names[j] == names[names.len() - 1]);
            }
        }
        if !keys.contains(x) {
            assert forall|i: int| 0 <= i < keys.len() implies init.contains(#[trigger] keys[i]) by {
                assert(names.contains(keys[i]));
                let j = choose|j: int| 0 <= j < names.len() && names[j] == keys[i];
                if j == names.len() - 1 {
                    assert(keys.contains(x));
                } else {
                    assert(init[j] == keys[i]);
                }
            }
            lemma_filter_out_keys_len(init, keys);
        } else {
            let k = choose|k: int| 0 <= k < keys.len() && keys[k] == x;
            let rest = keys.remove(k);
            keys.remove_ensures(k);
            assert(rest.no_duplicates()) by {
                assert forall|i: int, j: int| 0 <= i < rest.len() && 0 <= j < rest.len() && i != j implies rest[i] != rest[j] by {
                    let a = if i < k { i } else { i + 1 };
                    let b = if j < k { j } else { j + 1 };
                    assert(rest[i] == keys[a] && rest[j] == keys[b]);
                }
            }
            assert forall|i: int| 0 <= i < rest.len() implies init.contains(#[trigger] rest[i]) by {
                let a = if i < k { i } else { i + 1 };
                assert(rest[i] == keys[a]);
                assert(keys[a] != x);
                assert(names.contains(keys[a]));
                let j = choose|j: int| 0 <= j < names.len() && names[j] == keys[a];
                assert(j != names.len() - 1);
                assert(init[j] == keys[a]);
            }
            lemma_filter_out_keys_len(init, rest);
            assert forall|i: int| 0 <= i < init.len() implies not_among(keys)(#[trigger] init[i]) == not_among(rest)(init[i]) by {
                let y = init[i];
                assert(y != x);
                if keys.contains(y) {
                    let a = choose|a: int| 0 <= a < keys.len() && keys[a] == y;
                    assert(a != k);
                    let r = if a < k { a } else { a - 1 };
                    assert(rest[r] == y);
                }
                if rest.contains(y) {
                    let r = choose|r: int| 0 <= r < rest.len() && rest[r] == y;
                    let a = if r < k { r } else { r + 1 };
                    assert(keys[a] == y);
                }
            }
            lemma_filter_congruent(init, not_among(keys), not_among(rest));
            assert(!not_among(keys)(x));
        }
    }
}

/// The values that `update_values` serializes match the placeholders of the positional
/// `UPDATE_QUERY`, in order: with `vals` the fields outside the key followed by the key, the
/// query sets `vals[0] = ?, ...` for the first part of `vals` and tests `... = ? AND ...` for the
/// rest; and it holds exactly `vals.len()` placeholders when no name and not the table hold a
/// `?`; and when the field names are distinct and the keys are distinct fields, `vals` has one
/// value per field. Requires at least one field outside the key and a non-empty key.
pub proof fn lemma_update_values_match_update_query(table: Seq<char>, fields: Seq<ModelField>, keys: Seq<Seq<char>>)
    requires
        names_of(fields).filter(not_among(keys)).len() > 0,
        keys.len() > 0,
    ensures
        ({
            let set = names_of(fields).filter(not_among(keys));
            let vals = set + keys;
            &&& update_by_keys(table, fields, keys) == "UPDATE "@ + table + " SET "@
                + join(pieces(Piece::Placeholder, vals.take(set.len() as int)), ", "@) + " WHERE "@
                + join(pieces(Piece::Placeholder, vals.skip(set.len() as int)), " AND "@)
            &&& (!table.contains('?') && no_placeholder_in(vals)) ==> count_char(update_by_keys(table, fields, keys), '?') == vals.len()
            &&& (names_of(fields).no_duplicates() && keys.no_duplicates()
                && forall|i: int| 0 <= i < keys.len() ==> names_of(fields).contains(#[trigger] keys[i]))
                ==> vals.len() == fields.len()
        }),
{
    if names_of(fields).no_duplicates() && keys.no_duplicates()
        && forall|i: int| 0 <= i < keys.len() ==> names_of(fields).contains(#[trigger] keys[i]) {
        lemma_filter_out_keys_len(names_of(fields), keys);
    }
    let set = names_of(fields).filter(not_among(keys));
    let vals = set + keys;
    assert(vals.take(set.len() as int) =~= set);
    assert(vals.skip(set.len() as int) =~= keys);
    reveal_strlit(" = ?, ");
    reveal_strlit(" = ? AND ");
    reveal_strlit(" = ?");
    reveal_strlit(", ");
    reveal_strlit(" AND ");
    assert(" = ?, "@ =~= " = ?"@ + ", "@);
    assert(" = ? AND "@ =~= " = ?"@ + " AND "@);
    lemma_placeholder_join(set, ", "@);
    lemma_placeholder_join(keys, " AND "@);
    let sets = join(pieces(Piece::Placeholder, set), ", "@);
    let conds = join(pieces(Piece::Placeholder, keys), " AND "@);
    assert(update_by_keys(table, fields, keys) =~= "UPDATE "@ + table + " SET "@ + sets + " WHERE "@ + conds);
    if !table.contains('?') && no_placeholder_in(vals) {
        assert(no_placeholder_in(set)) by {
            assert forall|i: int| 0 <= i < set.len() implies !(#[trigger] set[i]).contains('?') by {
                assert(vals[i] == set[i]);
            }
        }
        assert(no_placeholder_in(keys)) by {
            assert forall|i: int| 0 <= i < keys.len() implies !(#[trigger] keys[i]).contains('?') by {
                assert(vals[set.len() + i] == keys[i]);
            }
        }
        lemma_count_literals();
        lemma_count_no_occurrence_of_zero(", "@);
        lemma_count_no_occurrence_of_zero(" AND "@);
        lemma_placeholders_counted(set, ", "@);
        lemma_placeholders_counted(keys, " AND "@);
        lemma_count_no_occurrence(table, '?');
        let a = "UPDATE "@ + table;
        lemma_count_concat("UPDATE "@, table, '?');
        lemma_count_concat(a, " SET "@, '?');
        lemma_count_concat(a + " SET "@, sets, '?');
        lemma_count_concat(a + " SET "@ + sets, " WHERE "@, '?');
        lemma_count_concat(a + " SET "@ + sets + " WHERE "@, conds, '?');
    }
}

/// A collection or counter update binds the value first and then one placeholder per primary
/// key field: its query holds exactly `1 + <primary key length>` placeholders, when neither the
/// table nor the field names hold a `?`.
pub proof fn lemma_add_to_column_binds(table: Seq<char>, name: Seq<char>, op: Seq<char>, key: Seq<ModelField>)
    requires
        op == " + ?"@ || op == " - ?"@,
        !table.contains('?'),
        !name.contains('?'),
        no_placeholder_in(names_of(key)),
    ensures
        count_char(add_to_column(table, name, op, key), '?') == 1 + key.len(),
{
    lemma_count_literals();
    lemma_count_no_occurrence(table, '?');
    lemma_count_no_occurrence(name, '?');
    lemma_where_clause_binds_each_key(names_of(key));
    let w = where_clause(key);
    let a = "UPDATE "@ + table;
    lemma_count_concat("UPDATE "@, table, '?');
    lemma_count_concat(a, " SET "@, '?');
    lemma_count_concat(a + " SET "@, name, '?');
    lemma_count_concat(a + " SET "@ + name, " = "@, '?');
    lemma_count_concat(a + " SET "@ + name + " = "@, name, '?');
    lemma_count_concat(a + " SET "@ + name + " = "@ + name, op, '?');
    lemma_count_concat(a + " SET "@ + name + " = "@ + name + op, " WHERE "@, '?');
    lemma_count_concat(a + " SET "@ + name + " = "@ + name + op + " WHERE "@, w, '?');
}

} // verus!
