//! The functions that a model declaration generates: finders and deleters by key prefix,
//! counter updates and collection updates.

use vstd::prelude::*;
use vstd::string::*;
use crate::clause::{pieces, render_joined, Piece};
use crate::fields::{comma_sep_cols, field_kind, names, names_of, quoted_columns, where_clause, FieldKind, ModelField, ModelFields};
use crate::queries::MacroArgs;
use crate::text::{join, join_strings, owned, strs, to_uppercase, uppercase};

verus! {

/// The most key fields that generated finders and deleters take.
pub const MAX_FIND_BY_FIELDS: usize = 3;

/// A generated function (or constant) and the query it runs.
#[derive(Debug)]
pub struct GeneratedQuery {
    pub fn_name: String,
    pub query: String,
    /// The fields the function takes as arguments, in order; each argument is named and typed
    /// as the field. Empty for a method on `self` and for a constant.
    pub params: Vec<String>,
    /// The expressions bound to the `?` markers of the query, in order. Empty for a constant.
    pub binds: Vec<String>,
}

/// The view of a generated function.
pub struct GeneratedQueryView {
    pub fn_name: Seq<char>,
    pub query: Seq<char>,
    pub params: Seq<Seq<char>>,
    pub binds: Seq<Seq<char>>,
}

impl View for GeneratedQuery {
    type V = GeneratedQueryView;

    open spec fn view(&self) -> GeneratedQueryView {
        GeneratedQueryView { fn_name: self.fn_name@, query: self.query@, params: strs(self.params@), binds: strs(self.binds@) }
    }
}

/// The views of a sequence of generated functions.
pub open spec fn generated(v: Seq<GeneratedQuery>) -> Seq<GeneratedQueryView> {
    v.map_values(|g: GeneratedQuery| g@)
}

/// The three finders generated for a list of key fields, and their query.
#[derive(Debug)]
pub struct FindFunctions {
    /// `find_by_<a>_and_<b>`
    pub find_by: String,
    /// `find_first_by_<a>_and_<b>`
    pub find_first_by: String,
    /// `maybe_find_first_by_<a>_and_<b>`
    pub maybe_find_first_by: String,
    pub query: String,
    /// Whether `find_by` returns one row (the whole primary key is given) rather than a stream.
    pub single_row: bool,
    /// How many key fields the finders take.
    pub arity: usize,
}

/// The view of the finders of a key list.
pub struct FindFunctionsView {
    pub find_by: Seq<char>,
    pub find_first_by: Seq<char>,
    pub maybe_find_first_by: Seq<char>,
    pub query: Seq<char>,
    pub single_row: bool,
    pub arity: nat,
}

impl View for FindFunctions {
    type V = FindFunctionsView;

    open spec fn view(&self) -> FindFunctionsView {
        FindFunctionsView {
            find_by: self.find_by@,
            find_first_by: self.find_first_by@,
            maybe_find_first_by: self.maybe_find_first_by@,
            query: self.query@,
            single_row: self.single_row,
            arity: self.arity as nat,
        }
    }
}

/// The views of a sequence of finders.
pub open spec fn finders(v: Seq<FindFunctions>) -> Seq<FindFunctionsView> {
    v.map_values(|f: FindFunctions| f@)
}

/// `a_and_b_and_c`
pub open spec fn and_names(names: Seq<Seq<char>>) -> Seq<char> {
    join(names, "_and_"@)
}

/// The finders of the key names `key`, running `query`.
pub open spec fn find_functions(key: Seq<Seq<char>>, query: Seq<char>, single_row: bool) -> FindFunctionsView {
    FindFunctionsView {
        find_by: "find_by_"@ + and_names(key),
        find_first_by: "find_first_by_"@ + and_names(key),
        maybe_find_first_by: "maybe_find_first_by_"@ + and_names(key),
        query,
        single_row,
        arity: key.len(),
    }
}

/// `SELECT <columns> FROM <table> WHERE <a> = ? AND ...` for the key names `key`.
pub open spec fn select_by(table: Seq<char>, f: ModelFields, key: Seq<Seq<char>>) -> Seq<char> {
    "SELECT "@ + quoted_columns(f.db_fields@) + " FROM "@ + table + " WHERE "@ + join(pieces(Piece::Placeholder, key), " AND "@)
}

/// The smaller of two numbers.
pub open spec fn min_nat(a: nat, b: nat) -> nat {
    if a <= b { a } else { b }
}

/// The finders by primary key prefix: one set for each prefix of one to three key fields; the
/// finder by the whole primary key returns one row, the others a stream.
pub open spec fn find_by_primary_keys(table: Seq<char>, f: ModelFields) -> Seq<FindFunctionsView> {
    let key = names_of(f.primary_key_fields@);
    Seq::new(min_nat(key.len(), 3), |j: int| find_functions(key.take(j + 1), select_by(table, f, key.take(j + 1)), j + 1 == key.len()))
}

/// The finders by local secondary index: for each index field, the partition key followed by
/// that field; they all return streams.
pub open spec fn find_by_local_indexes(table: Seq<char>, f: ModelFields) -> Seq<FindFunctionsView> {
    let pk = names_of(f.partition_key_fields@);
    let lsi = names_of(f.local_secondary_index_fields@);
    Seq::new(lsi.len(), |j: int| find_functions(pk.push(lsi[j]), select_by(table, f, pk.push(lsi[j])), false))
}

/// The deleters by primary key prefix: one for each prefix of one to three key fields that
/// holds the whole partition key.
pub open spec fn delete_by_primary_keys(table: Seq<char>, f: ModelFields) -> Seq<GeneratedQueryView> {
    let key = names_of(f.primary_key_fields@);
    let lo: nat = if f.partition_key_fields@.len() >= 1 { f.partition_key_fields@.len() } else { 1 };
    let hi = min_nat(key.len(), 3);
    let count: nat = if hi >= lo { (hi - lo + 1) as nat } else { 0 };
    Seq::new(count, |j: int| GeneratedQueryView {
        fn_name: "delete_by_"@ + and_names(key.take(lo + j)),
        query: "DELETE FROM "@ + table + " WHERE "@ + join(pieces(Piece::Placeholder, key.take(lo + j)), " AND "@),
        params: key.take(lo + j),
        binds: key.take(lo + j),
    })
}

/// The first `k` strings of `v`.
fn take_strings(v: &Vec<String>, k: usize) -> (res: Vec<String>)
    requires
        k <= v.len(),
    ensures
        strs(res@) == strs(v@).take(k as int),
{
    let mut res: Vec<String> = Vec::new();
    let mut i: usize = 0;
    while i < k
        invariant
            k <= v.len(),
            i <= k,
            res.len() == i,
            forall|j: int| 0 <= j < i ==> #[trigger] res@[j]@ == v@[j]@,
        decreases k - i,
    {
        res.push(v[i].clone());
        i = i + 1;
    }
    assert(strs(res@) =~= strs(v@).take(k as int));
    res
}

fn select_by_string(table: &String, fields: &ModelFields, key: &Vec<String>) -> (res: String)
    ensures
        res@ == select_by(table@, *fields, strs(key@)),
{
    let mut s = owned("SELECT ");
    s.append(comma_sep_cols(&fields.db_fields).as_str());
    s.append(" FROM ");
    s.append(table.as_str());
    s.append(" WHERE ");
    s.append(render_joined(Piece::Placeholder, key, " AND ").as_str());
    s
}

fn prefixed(prefix: &str, key: &Vec<String>) -> (res: String)
    ensures
        res@ == prefix@ + and_names(strs(key@)),
{
    let mut s = owned(prefix);
    s.append(join_strings(key, "_and_").as_str());
    s
}

fn find_functions_of(key: &Vec<String>, query: String, single_row: bool) -> (res: FindFunctions)
    ensures
        res@ == find_functions(strs(key@), query@, single_row),
{
    FindFunctions {
        find_by: prefixed("find_by_", key),
        find_first_by: prefixed("find_first_by_", key),
        maybe_find_first_by: prefixed("maybe_find_first_by_", key),
        query,
        single_row,
        arity: key.len(),
    }
}

/// `find_by_<a>_and_<b>` for the fields `fields`.
pub fn find_by_fn_name(fields: &Vec<ModelField>) -> (res: String)
    ensures
        res@ == "find_by_"@ + and_names(names_of(fields@)),
{
    prefixed("find_by_", &names(fields))
}

/// `find_first_by_<a>_and_<b>` for the fields `fields`.
pub fn find_first_by_fn_name(fields: &Vec<ModelField>) -> (res: String)
    ensures
        res@ == "find_first_by_"@ + and_names(names_of(fields@)),
{
    prefixed("find_first_by_", &names(fields))
}

/// `maybe_find_first_by_<a>_and_<b>` for the fields `fields`.
pub fn maybe_find_first_by_fn_name(fields: &Vec<ModelField>) -> (res: String)
    ensures
        res@ == "maybe_find_first_by_"@ + and_names(names_of(fields@)),
{
    prefixed("maybe_find_first_by_", &names(fields))
}

/// The finders by primary key prefix (see `find_by_primary_keys`).
pub fn find_by_primary_keys_functions(ch_args: &MacroArgs, fields: &ModelFields) -> (res: Vec<FindFunctions>)
    ensures
        finders(res@) == find_by_primary_keys(ch_args.table_name@, *fields),
{
    let key = names(&fields.primary_key_fields);
    let n = if key.len() < MAX_FIND_BY_FIELDS { key.len() } else { MAX_FIND_BY_FIELDS };
    let mut res: Vec<FindFunctions> = Vec::new();
    let mut i: usize = 0;
    while i < n
        invariant
            strs(key@) == names_of(fields.primary_key_fields@),
            n == min_nat(key.len() as nat, 3),
            n <= key.len(),
            i <= n,
            res.len() == i,
            forall|j: int| 0 <= j < i ==> #[trigger] res@[j]@ == find_by_primary_keys(ch_args.table_name@, *fields)[j],
        decreases n - i,
    {
        let prefix = take_strings(&key, i + 1);
        let query = select_by_string(&ch_args.table_name, fields, &prefix);
        res.push(find_functions_of(&prefix, query, i + 1 == key.len()));
        i = i + 1;
    }
    assert(finders(res@) =~= find_by_primary_keys(ch_args.table_name@, *fields));
    res
}

/// The finders by local secondary index (see `find_by_local_indexes`).
pub fn find_by_local_secondary_index(ch_args: &MacroArgs, fields: &ModelFields) -> (res: Vec<FindFunctions>)
    ensures
        finders(res@) == find_by_local_indexes(ch_args.table_name@, *fields),
{
    let pk = names(&fields.partition_key_fields);
    let lsi = names(&fields.local_secondary_index_fields);
    let n = lsi.len();
    let mut res: Vec<FindFunctions> = Vec::new();
    let mut i: usize = 0;
    while i < n
        invariant
            strs(pk@) == names_of(fields.partition_key_fields@),
            strs(lsi@) == names_of(fields.local_secondary_index_fields@),
            n == lsi.len(),
            i <= n,
            res.len() == i,
            forall|j: int| 0 <= j < i ==> #[trigger] res@[j]@ == find_by_local_indexes(ch_args.table_name@, *fields)[j],
        decreases n - i,
    {
        let mut key = pk.clone();
        key.push(lsi[i].clone());
        assert(strs(key@) =~= strs(pk@).push(strs(lsi@)[i as int]));
        let query = select_by_string(&ch_args.table_name, fields, &key);
        res.push(find_functions_of(&key, query, false));
        i = i + 1;
    }
    assert(finders(res@) =~= find_by_local_indexes(ch_args.table_name@, *fields));
    res
}

/// The deleters by primary key prefix (see `delete_by_primary_keys`).
pub fn delete_by_primary_key_functions(ch_args: &MacroArgs, fields: &ModelFields) -> (res: Vec<GeneratedQuery>)
    ensures
        generated(res@) == delete_by_primary_keys(ch_args.table_name@, *fields),
{
    let ghost spec = delete_by_primary_keys(ch_args.table_name@, *fields);
    let key = names(&fields.primary_key_fields);
    let lo = if fields.partition_key_fields.len() >= 1 { fields.partition_key_fields.len() } else { 1 };
    let hi = if key.len() < MAX_FIND_BY_FIELDS { key.len() } else { MAX_FIND_BY_FIELDS };
    let mut res: Vec<GeneratedQuery> = Vec::new();
    let mut k: usize = lo;
    while k <= hi
        invariant
            strs(key@) == names_of(fields.primary_key_fields@),
            spec == delete_by_primary_keys(ch_args.table_name@, *fields),
            lo >= 1,
            lo == (if fields.partition_key_fields@.len() >= 1 { fields.partition_key_fields@.len() } else { 1 }),
            hi == min_nat(key.len() as nat, 3),
            hi <= key.len(),
            hi <= 3,
            lo <= k,
            k <= hi + 1 || k == lo,
            res.len() == k - lo,
            forall|j: int| 0 <= j < res.len() ==> #[trigger] res@[j]@ == spec[j],
        decreases hi + 1 - k,
    {
        let prefix = take_strings(&key, k);
        let fn_name = prefixed("delete_by_", &prefix);
        let mut query = owned("DELETE FROM ");
        query.append(ch_args.table_name.as_str());
        query.append(" WHERE ");
        query.append(render_joined(Piece::Placeholder, &prefix, " AND ").as_str());
        let params = take_strings(&key, k);
        let binds = take_strings(&key, k);
        res.push(GeneratedQuery { fn_name, query, params, binds });
        k = k + 1;
    }
    assert(generated(res@) =~= spec);
    res
}

/// `UPDATE <table> SET <n> = <n> <op> ? WHERE <key> = ? AND ...`
pub open spec fn add_to_column(table: Seq<char>, name: Seq<char>, op: Seq<char>, key: Seq<ModelField>) -> Seq<char> {
    "UPDATE "@ + table + " SET "@ + name + " = "@ + name + op + " WHERE "@ + where_clause(key)
}

/// Keeps the counter fields.
pub open spec fn is_counter_field() -> spec_fn(ModelField) -> bool {
    |f: ModelField| f.kind() == FieldKind::Counter
}

/// The values a counter method binds: `charybdis::types::Counter(<arg>)` for the `?` of the
/// change, then `self.<k>.clone()` for each primary key field `k`.
pub open spec fn counter_binds(arg: Seq<char>, key: Seq<ModelField>) -> Seq<Seq<char>> {
    seq!["charybdis::types::Counter("@ + arg + ")"@] + pieces(Piece::SelfClone, names_of(key))
}

/// The counter methods: for each counter field, `<prefix><field>(&self, <arg>: i64)` running
/// `UPDATE <table> SET <field> = <field> <op> ? WHERE <primary key>` with the values
/// `counter_binds(arg, <primary key>)`.
pub open spec fn counter_methods(table: Seq<char>, f: ModelFields, prefix: Seq<char>, op: Seq<char>, arg: Seq<char>) -> Seq<GeneratedQueryView> {
    f.db_fields@.filter(is_counter_field()).map_values(|c: ModelField| GeneratedQueryView {
        fn_name: prefix + c.name@,
        query: add_to_column(table, c.name@, op, f.primary_key_fields@),
        params: Seq::empty(),
        binds: counter_binds(arg, f.primary_key_fields@),
    })
}

fn counter_binds_of(arg: &str, key: &Vec<ModelField>) -> (res: Vec<String>)
    ensures
        strs(res@) == counter_binds(arg@, key@),
{
    let mut first = owned("charybdis::types::Counter(");
    first.append(arg);
    first.append(")");
    let ghost f = first@;
    let mut res: Vec<String> = Vec::new();
    res.push(first);
    let mut rest = crate::clause::render_each(Piece::SelfClone, &names(key));
    res.append(&mut rest);
    assert(strs(res@) =~= seq![f] + pieces(Piece::SelfClone, names_of(key@)));
    res
}

fn add_to_column_string(table: &String, name: &String, op: &str, key: &Vec<ModelField>) -> (res: String)
    ensures
        res@ == add_to_column(table@, name@, op@, key@),
{
    let mut s = owned("UPDATE ");
    s.append(table.as_str());
    s.append(" SET ");
    s.append(name.as_str());
    s.append(" = ");
    s.append(name.as_str());
    s.append(op);
    s.append(" WHERE ");
    s.append(crate::fields::where_placeholders(key).as_str());
    s
}

fn counter_methods_of(ch_args: &MacroArgs, fields: &ModelFields, prefix: &str, op: &str, arg: &str) -> (res: Vec<GeneratedQuery>)
    ensures
        generated(res@) == counter_methods(ch_args.table_name@, *fields, prefix@, op@, arg@),
{
    let ghost p = is_counter_field();
    let ghost t = ch_args.table_name@;
    let ghost f = *fields;
    let db = &fields.db_fields;
    let n = db.len();
    let mut res: Vec<GeneratedQuery> = Vec::new();
    let mut i: usize = 0;
    proof {
        reveal_with_fuel(Seq::filter, 1);
        assert(db@.take(0) =~= Seq::<ModelField>::empty());
    }
    while i < n
        invariant
            n == db.len(),
            db == &fields.db_fields,
            p == is_counter_field(),
            f == *fields,
            t == ch_args.table_name@,
            i <= n,
            generated(res@) == db@.take(i as int).filter(p).map_values(|c: ModelField| GeneratedQueryView {
                fn_name: prefix@ + c.name@,
                query: add_to_column(t, c.name@, op@, f.primary_key_fields@),
                params: Seq::empty(),
                binds: counter_binds(arg@, f.primary_key_fields@),
            }),
        decreases n - i,
    {
        let ghost prev = db@.take(i as int);
        assert(db@.take(i + 1) =~= prev.push(db@[i as int]));
        proof { prev.lemma_filter_push(db@[i as int], p); }
        if field_kind(db[i].type_text.as_str()) == FieldKind::Counter {
            let ghost old = res@;
            let mut fn_name = owned(prefix);
            fn_name.append(db[i].name.as_str());
            let query = add_to_column_string(&ch_args.table_name, &db[i].name, op, &fields.primary_key_fields);
            let binds = counter_binds_of(arg, &fields.primary_key_fields);
            let params: Vec<String> = Vec::new();
            assert(strs(params@) =~= Seq::<Seq<char>>::empty());
            let g = GeneratedQuery { fn_name, query, params, binds };
            res.push(g);
            assert(generated(res@) =~= generated(old).push(g@));
            assert(prev.filter(p).push(db@[i as int]).map_values(|c: ModelField| GeneratedQueryView {
                fn_name: prefix@ + c.name@,
                query: add_to_column(t, c.name@, op@, f.primary_key_fields@),
                params: Seq::empty(),
                binds: counter_binds(arg@, f.primary_key_fields@),
            }) =~= prev.filter(p).map_values(|c: ModelField| GeneratedQueryView {
                fn_name: prefix@ + c.name@,
                query: add_to_column(t, c.name@, op@, f.primary_key_fields@),
                params: Seq::empty(),
                binds: counter_binds(arg@, f.primary_key_fields@),
            }).push(g@));
        }
        i = i + 1;
    }
    assert(db@.take(n as int) =~= db@);
    res
}

/// `increment_<counter>` methods, adding to the counter of one row.
pub fn increment_counter_methods(ch_args: &MacroArgs, fields: &ModelFields) -> (res: Vec<GeneratedQuery>)
    ensures
        generated(res@) == counter_methods(ch_args.table_name@, *fields, "increment_"@, " + ?"@, "increment"@),
{
    counter_methods_of(ch_args, fields, "increment_", " + ?", "increment")
}

/// `decrement_<counter>` methods, subtracting from the counter of one row.
pub fn decrement_counter_methods(ch_args: &MacroArgs, fields: &ModelFields) -> (res: Vec<GeneratedQuery>)
    ensures
        generated(res@) == counter_methods(ch_args.table_name@, *fields, "decrement_"@, " - ?"@, "decrement"@),
{
    counter_methods_of(ch_args, fields, "decrement_", " - ?", "decrement")
}

/// The name of a collection query constant: `PUSH_TAGS_QUERY` for `push` and `tags`.
pub open spec fn collection_const_name(op_name: Seq<char>, field: Seq<char>) -> Seq<char> {
    op_name + "_"@ + uppercase(field) + "_QUERY"@
}

/// Keeps the list and set fields.
pub open spec fn is_list_or_set_field() -> spec_fn(ModelField) -> bool {
    |f: ModelField| f.kind() == FieldKind::ListCollection || f.kind() == FieldKind::SetCollection
}

/// The collection query constants: for each list or set field, a constant named
/// `<OP>_<FIELD>_QUERY` holding `UPDATE <table> SET <field> = <field> <+ or -> ? WHERE <key>`.
pub open spec fn collection_consts(table: Seq<char>, f: ModelFields, op_name: Seq<char>, op: Seq<char>) -> Seq<GeneratedQueryView> {
    f.db_fields@.filter(is_list_or_set_field()).map_values(|c: ModelField| GeneratedQueryView {
        fn_name: collection_const_name(op_name, c.name@),
        query: add_to_column(table, c.name@, op, f.primary_key_fields@),
        params: Seq::empty(),
        binds: Seq::empty(),
    })
}

fn collection_consts_of(ch_args: &MacroArgs, fields: &ModelFields, op_name: &str, op: &str) -> (res: Vec<GeneratedQuery>)
    ensures
        generated(res@) == collection_consts(ch_args.table_name@, *fields, op_name@, op@),
{
    let ghost p = is_list_or_set_field();
    let ghost t = ch_args.table_name@;
    let ghost f = *fields;
    let db = &fields.db_fields;
    let n = db.len();
    let mut res: Vec<GeneratedQuery> = Vec::new();
    let mut i: usize = 0;
    proof {
        reveal_with_fuel(Seq::filter, 1);
        assert(db@.take(0) =~= Seq::<ModelField>::empty());
    }
    while i < n
        invariant
            n == db.len(),
            db == &fields.db_fields,
            p == is_list_or_set_field(),
            f == *fields,
            t == ch_args.table_name@,
            i <= n,
            generated(res@) == db@.take(i as int).filter(p).map_values(|c: ModelField| GeneratedQueryView {
                fn_name: collection_const_name(op_name@, c.name@),
                query: add_to_column(t, c.name@, op@, f.primary_key_fields@),
                params: Seq::empty(),
                binds: Seq::empty(),
            }),
        decreases n - i,
    {
        let ghost prev = db@.take(i as int);
        assert(db@.take(i + 1) =~= prev.push(db@[i as int]));
        proof { prev.lemma_filter_push(db@[i as int], p); }
        let kind = field_kind(db[i].type_text.as_str());
        if kind == FieldKind::ListCollection || kind == FieldKind::SetCollection {
            let ghost old = res@;
            let mut fn_name = owned(op_name);
            fn_name.append("_");
            fn_name.append(to_uppercase(db[i].name.as_str()).as_str());
            fn_name.append("_QUERY");
            let query = add_to_column_string(&ch_args.table_name, &db[i].name, op, &fields.primary_key_fields);
            let params: Vec<String> = Vec::new();
            let binds: Vec<String> = Vec::new();
            assert(strs(params@) =~= Seq::<Seq<char>>::empty());
            assert(strs(binds@) =~= Seq::<Seq<char>>::empty());
            let g = GeneratedQuery { fn_name, query, params, binds };
            res.push(g);
            assert(generated(res@) =~= generated(old).push(g@));
            assert(prev.filter(p).push(db@[i as int]).map_values(|c: ModelField| GeneratedQueryView {
                fn_name: collection_const_name(op_name@, c.name@),
                query: add_to_column(t, c.name@, op@, f.primary_key_fields@),
                params: Seq::empty(),
                binds: Seq::empty(),
            }) =~= prev.filter(p).map_values(|c: ModelField| GeneratedQueryView {
                fn_name: collection_const_name(op_name@, c.name@),
                query: add_to_column(t, c.name@, op@, f.primary_key_fields@),
                params: Seq::empty(),
                binds: Seq::empty(),
            }).push(g@));
        }
        i = i + 1;
    }
    assert(db@.take(n as int) =~= db@);
    res
}

/// `PUSH_<FIELD>_QUERY` constants, adding values to a list or set of one row.
pub fn push_to_collection_consts(ch_args: &MacroArgs, fields: &ModelFields) -> (res: Vec<GeneratedQuery>)
    ensures
        generated(res@) == collection_consts(ch_args.table_name@, *fields, "PUSH"@, " + ?"@),
{
    collection_consts_of(ch_args, fields, "PUSH", " + ?")
}

/// `PULL_<FIELD>_QUERY` constants, removing values from a list or set of one row.
pub fn pull_from_collection_consts(ch_args: &MacroArgs, fields: &ModelFields) -> (res: Vec<GeneratedQuery>)
    ensures
        generated(res@) == collection_consts(ch_args.table_name@, *fields, "PULL"@, " - ?"@),
{
    collection_consts_of(ch_args, fields, "PULL", " - ?")
}

} // verus!
