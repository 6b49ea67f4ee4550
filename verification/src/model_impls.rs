//! Query constants and value lists written from the key names of the model arguments
//! (positional `?` placeholders), and the collection update functions built on them.

use vstd::prelude::*;
use vstd::string::*;
use crate::clause::{pieces, render_joined, Piece};
use crate::fields::{field_kind, kind_of_type, names, names_of, FieldKind, ModelField};
use crate::queries::MacroArgs;
use crate::text::{join, join_strings, owned, strs, to_uppercase, uppercase};

verus! {

/// The key names joined as positional conditions: `a = ? AND b = ?`.
pub open spec fn key_conditions(keys: Seq<Seq<char>>) -> Seq<char> {
    join(keys, " = ? AND "@) + " = ?"@
}

fn key_conditions_string(keys: &Vec<String>) -> (res: String)
    ensures
        res@ == key_conditions(strs(keys@)),
{
    let mut s = join_strings(keys, " = ? AND ");
    s.append(" = ?");
    s
}

/// Whether `x` is one of `v`.
pub fn contains_string(v: &Vec<String>, x: &String) -> (res: bool)
    ensures
        res == strs(v@).contains(x@),
{
    let n = v.len();
    let mut i: usize = 0;
    while i < n
        invariant
            n == v.len(),
            i <= n,
            forall|k: int| 0 <= k < i ==> v@[k]@ != x@,
        decreases n - i,
    {
        if v[i] == *x {
            assert(strs(v@)[i as int] == x@);
            return true;
        }
        i = i + 1;
    }
    false
}

/// Keeps the names that are not among `keys`.
pub open spec fn not_among(keys: Seq<Seq<char>>) -> spec_fn(Seq<char>) -> bool {
    |n: Seq<char>| !keys.contains(n)
}

/// The names of `names` that are not among `keys`, in order.
pub fn names_not_among(names: &Vec<String>, keys: &Vec<String>) -> (res: Vec<String>)
    ensures
        strs(res@) == strs(names@).filter(not_among(strs(keys@))),
{
    let ghost p = not_among(strs(keys@));
    let mut res: Vec<String> = Vec::new();
    let n = names.len();
    let mut i: usize = 0;
    proof {
        reveal_with_fuel(Seq::filter, 1);
        assert(strs(names@).take(0) =~= Seq::<Seq<char>>::empty());
    }
    while i < n
        invariant
            n == names.len(),
            p == not_among(strs(keys@)),
            i <= n,
            strs(res@) == strs(names@).take(i as int).filter(p),
        decreases n - i,
    {
        let ghost prev = strs(names@).take(i as int);
        assert(strs(names@).take(i + 1) =~= prev.push(names@[i as int]@));
        proof { prev.lemma_filter_push(names@[i as int]@, p); }
        if !contains_string(keys, &names[i]) {
            let ghost old = res@;
            let x = names[i].clone();
            res.push(x);
            assert(strs(res@) =~= strs(old).push(x@));
        }
        i = i + 1;
    }
    assert(strs(names@).take(n as int) =~= strs(names@));
    res
}

/// `DB_MODEL_NAME`: the table name.
pub fn db_model_name_const(ch_args: &MacroArgs) -> (res: String)
    ensures
        res@ == ch_args.table_name@,
{
    ch_args.table_name.clone()
}

/// `PRIMARY_KEY`: the partition keys, then the clustering keys.
pub fn primary_key_const(ch_args: &MacroArgs) -> (res: Vec<String>)
    ensures
        strs(res@) == strs(ch_args.partition_keys@) + strs(ch_args.clustering_keys@),
{
    ch_args.primary_key()
}

/// `SELECT a, b FROM <table> WHERE <key> = ? AND ...`
pub open spec fn select_by_keys(table: Seq<char>, fields: Seq<ModelField>, keys: Seq<Seq<char>>) -> Seq<char> {
    "SELECT "@ + join(names_of(fields), ", "@) + " FROM "@ + table + " WHERE "@ + key_conditions(keys)
}

fn select_by_keys_string(table: &String, fields: &Vec<ModelField>, keys: &Vec<String>) -> (res: String)
    ensures
        res@ == select_by_keys(table@, fields@, strs(keys@)),
{
    let mut s = owned("SELECT ");
    s.append(join_strings(&names(fields), ", ").as_str());
    s.append(" FROM ");
    s.append(table.as_str());
    s.append(" WHERE ");
    s.append(key_conditions_string(keys).as_str());
    s
}

/// `FIND_BY_PRIMARY_KEY_QUERY` with positional placeholders.
pub fn find_by_primary_key_query_const(ch_args: &MacroArgs, fields: &Vec<ModelField>) -> (res: String)
    ensures
        res@ == select_by_keys(ch_args.table_name@, fields@, strs(ch_args.partition_keys@) + strs(ch_args.clustering_keys@)),
{
    let primary_key = ch_args.primary_key();
    select_by_keys_string(&ch_args.table_name, fields, &primary_key)
}

/// `FIND_BY_PARTITION_KEY_QUERY` with positional placeholders.
pub fn find_by_partition_key_query_const(ch_args: &MacroArgs, fields: &Vec<ModelField>) -> (res: String)
    ensures
        res@ == select_by_keys(ch_args.table_name@, fields@, strs(ch_args.partition_keys@)),
{
    select_by_keys_string(&ch_args.table_name, fields, &ch_args.partition_keys)
}

/// `UPDATE <table> SET x = ?, y = ? WHERE <key> = ? AND ...`: every field outside the primary key
/// is set.
pub open spec fn update_by_keys(table: Seq<char>, fields: Seq<ModelField>, keys: Seq<Seq<char>>) -> Seq<char> {
    "UPDATE "@ + table + " SET "@ + join(names_of(fields).filter(not_among(keys)), " = ?, "@) + " = ?"@
        + " WHERE "@ + key_conditions(keys)
}

/// `UPDATE_QUERY` with positional placeholders.
pub fn update_query_const(ch_args: &MacroArgs, fields: &Vec<ModelField>) -> (res: String)
    ensures
        res@ == update_by_keys(ch_args.table_name@, fields@, strs(ch_args.partition_keys@) + strs(ch_args.clustering_keys@)),
{
    let primary_key = ch_args.primary_key();
    let set_fields = names_not_among(&names(fields), &primary_key);
    let mut s = owned("UPDATE ");
    s.append(ch_args.table_name.as_str());
    s.append(" SET ");
    s.append(join_strings(&set_fields, " = ?, ").as_str());
    s.append(" = ?");
    s.append(" WHERE ");
    s.append(key_conditions_string(&primary_key).as_str());
    s
}

/// The statements that add the values of the fields `keys` of `self` to `serialized`, one per
/// line.
pub open spec fn field_value_adder(keys: Seq<Seq<char>>) -> Seq<char> {
    join(pieces(Piece::SerializedFieldValue, keys), "\n"@)
}

/// The statements that add the values `values` to `serialized`, one per line.
pub open spec fn value_adder(values: Seq<Seq<char>>) -> Seq<char> {
    join(pieces(Piece::SerializedValue, values), "\n"@)
}

/// `serialized.add_value(&self.<field>)?;` for each field, one per line.
pub fn serialized_field_value_adder(fields: &Vec<String>) -> (res: String)
    ensures
        res@ == field_value_adder(strs(fields@)),
{
    render_joined(Piece::SerializedFieldValue, fields, "\n")
}

/// `serialized.add_value(&<value>)?;` for each value, one per line.
pub fn serialized_value_adder(values: &Vec<String>) -> (res: String)
    ensures
        res@ == value_adder(strs(values@)),
{
    render_joined(Piece::SerializedValue, values, "\n")
}

/// The values a generated method serializes: which fields, in which order, and how many.
#[derive(Debug)]
pub struct SerializedValues {
    pub fields: Vec<String>,
    pub adder: String,
    pub capacity: usize,
}

fn serialized_values_of(fields: Vec<String>) -> (res: SerializedValues)
    ensures
        strs(res.fields@) == strs(fields@),
        res.adder@ == field_value_adder(strs(fields@)),
        res.capacity == fields.len(),
{
    let adder = serialized_field_value_adder(&fields);
    let capacity = fields.len();
    SerializedValues { fields, adder, capacity }
}

/// `primary_key_values`: the primary key fields, in key order.
pub fn primary_key_values(ch_args: &MacroArgs) -> (res: SerializedValues)
    ensures
        strs(res.fields@) == strs(ch_args.partition_keys@) + strs(ch_args.clustering_keys@),
        res.adder@ == field_value_adder(strs(ch_args.partition_keys@) + strs(ch_args.clustering_keys@)),
        res.capacity == ch_args.partition_keys.len() + ch_args.clustering_keys.len(),
{
    serialized_values_of(ch_args.primary_key())
}

/// `partition_key_values`: the partition key fields.
pub fn partition_key_values(ch_args: &MacroArgs) -> (res: SerializedValues)
    ensures
        strs(res.fields@) == strs(ch_args.partition_keys@),
        res.adder@ == field_value_adder(strs(ch_args.partition_keys@)),
        res.capacity == ch_args.partition_keys.len(),
{
    serialized_values_of(ch_args.partition_keys.clone())
}

/// `clustering_key_values`: the clustering key fields.
pub fn clustering_key_values(ch_args: &MacroArgs) -> (res: SerializedValues)
    ensures
        strs(res.fields@) == strs(ch_args.clustering_keys@),
        res.adder@ == field_value_adder(strs(ch_args.clustering_keys@)),
        res.capacity == ch_args.clustering_keys.len(),
{
    serialized_values_of(ch_args.clustering_keys.clone())
}

/// `update_values`: the fields outside the primary key, in declaration order, then the primary
/// key fields, matching the placeholders of `update_query_const` in order and in number (see
/// `lemma_update_values_match_update_query`).
pub fn update_values(ch_args: &MacroArgs, fields: &Vec<ModelField>) -> (res: SerializedValues)
    ensures
        strs(res.fields@) == names_of(fields@).filter(not_among(strs(ch_args.partition_keys@) + strs(ch_args.clustering_keys@)))
            + strs(ch_args.partition_keys@) + strs(ch_args.clustering_keys@),
        res.adder@ == field_value_adder(strs(res.fields@)),
        res.capacity == res.fields.len(),
{
    let mut primary_key = ch_args.primary_key();
    let mut values = names_not_among(&names(fields), &primary_key);
    let ghost a = strs(values@);
    let ghost b = strs(primary_key@);
    values.append(&mut primary_key);
    assert(strs(values@) =~= a + b);
    serialized_values_of(values)
}

/// A generated collection update function:
///
/// ```text
/// pub async fn <fn_name>(&self, session: &charybdis::CachingSession, value: &impl charybdis::Value)
///     -> Result<(), charybdis::errors::CharybdisError>
/// {
///     let mut serialized = charybdis::SerializedValues::with_capacity(<values_capacity>);
///     <body>
/// }
/// ```
#[derive(Debug)]
pub struct CollectionFn {
    /// `push_<field>` or `pull_<field>`
    pub fn_name: String,
    /// `Self::PUSH_<FIELD>_QUERY` or `Self::PULL_<FIELD>_QUERY`
    pub query_const: String,
    /// The value, then the primary key.
    pub values_capacity: usize,
    /// The statements after the declaration of `serialized`: the value is serialized first,
    /// then each primary key field of `self`; the query runs once; every error is returned.
    pub body: String,
}

/// The view of a collection update function.
pub struct CollectionFnView {
    pub fn_name: Seq<char>,
    pub query_const: Seq<char>,
    pub values_capacity: nat,
    pub body: Seq<char>,
}

impl View for CollectionFn {
    type V = CollectionFnView;

    open spec fn view(&self) -> CollectionFnView {
        CollectionFnView {
            fn_name: self.fn_name@,
            query_const: self.query_const@,
            values_capacity: self.values_capacity as nat,
            body: self.body@,
        }
    }
}

/// Whether a field is declared as a `List<T>` or a `Set<T>` (possibly inside an `Option`).
pub open spec fn is_list_or_set_type() -> spec_fn(ModelField) -> bool {
    |f: ModelField| f.kind() == FieldKind::ListCollection || f.kind() == FieldKind::SetCollection
}

/// The body of a collection update function that runs `query_const` with the value and then
/// the primary key fields `key` of `self`:
///
/// ```text
/// serialized.add_value(value)?;
/// serialized.add_value(&self.<k1>)?;
/// ...
/// charybdis::operations::execute(session, <query_const>, serialized).await?;
/// Ok(())
/// ```
pub open spec fn collection_body(query_const: Seq<char>, key: Seq<Seq<char>>) -> Seq<char> {
    "serialized.add_value(value)?;\n"@ + field_value_adder(key) + "\ncharybdis::operations::execute(session, "@
        + query_const + ", serialized).await?;\nOk(())"@
}

/// The collection update functions `<op>_<field>` for the fields declared as lists or sets,
/// each running `Self::<OP>_<FIELD>_QUERY` with the value and then the primary key `key`.
pub open spec fn collection_fns(fields: Seq<ModelField>, op: Seq<char>, op_upper: Seq<char>, key: Seq<Seq<char>>) -> Seq<CollectionFnView> {
    fields.filter(is_list_or_set_type()).map_values(|f: ModelField| {
        let query_const = "Self::"@ + op_upper + "_"@ + uppercase(f.name@) + "_QUERY"@;
        CollectionFnView {
            fn_name: op + "_"@ + f.name@,
            query_const,
            values_capacity: key.len() + 1,
            body: collection_body(query_const, key),
        }
    })
}

fn collection_body_string(query_const: &String, adder: &String) -> (res: String)
    ensures
        res@ == "serialized.add_value(value)?;\n"@ + adder@ + "\ncharybdis::operations::execute(session, "@
            + query_const@ + ", serialized).await?;\nOk(())"@,
{
    let mut s = owned("serialized.add_value(value)?;\n");
    s.append(adder.as_str());
    s.append("\ncharybdis::operations::execute(session, ");
    s.append(query_const.as_str());
    s.append(", serialized).await?;\nOk(())");
    s
}

fn collection_fns_of(ch_args: &MacroArgs, fields: &Vec<ModelField>, op: &str, op_upper: &str) -> (res: Vec<CollectionFn>)
    requires
        ch_args.partition_keys.len() + ch_args.clustering_keys.len() < usize::MAX,
    ensures
        res@.map_values(|c: CollectionFn| c@) == collection_fns(fields@, op@, op_upper@,
            strs(ch_args.partition_keys@) + strs(ch_args.clustering_keys@)),
{
    let primary_key = ch_args.primary_key();
    let ghost key = strs(primary_key@);
    proof {
        assert(key.len() == primary_key@.len());
    }
    let adder = serialized_field_value_adder(&primary_key);
    let values_capacity = primary_key.len() + 1;
    let ghost p = is_list_or_set_type();
    let mut res: Vec<CollectionFn> = Vec::new();
    let n = fields.len();
    let mut i: usize = 0;
    proof {
        reveal_with_fuel(Seq::filter, 1);
        assert(fields@.take(0) =~= Seq::<ModelField>::empty());
    }
    while i < n
        invariant
            n == fields.len(),
            p == is_list_or_set_type(),
            key == strs(ch_args.partition_keys@) + strs(ch_args.clustering_keys@),
            adder@ == field_value_adder(key),
            values_capacity == key.len() + 1,
            i <= n,
            res@.map_values(|c: CollectionFn| c@) == collection_fns(fields@.take(i as int), op@, op_upper@, key),
        decreases n - i,
    {
        let ghost prev = fields@.take(i as int);
        assert(fields@.take(i + 1) =~= prev.push(fields@[i as int]));
        proof { prev.lemma_filter_push(fields@[i as int], p); }
        let kind = field_kind(fields[i].type_text.as_str());
        if kind == FieldKind::ListCollection || kind == FieldKind::SetCollection {
            let ghost old = res@;
            let mut fn_name = owned(op);
            fn_name.append("_");
            fn_name.append(fields[i].name.as_str());
            let mut query_const = owned("Self::");
            query_const.append(op_upper);
            query_const.append("_");
            query_const.append(to_uppercase(fields[i].name.as_str()).as_str());
            query_const.append("_QUERY");
            let body = collection_body_string(&query_const, &adder);
            let c = CollectionFn { fn_name, query_const, values_capacity, body };
            res.push(c);
            assert(res@.map_values(|c: CollectionFn| c@) =~= old.map_values(|c: CollectionFn| c@).push(c@));
            assert(collection_fns(fields@.take(i + 1), op@, op_upper@, key)
                =~= collection_fns(prev, op@, op_upper@, key).push(c@));
        } else {
            assert(collection_fns(fields@.take(i + 1), op@, op_upper@, key)
                =~= collection_fns(prev, op@, op_upper@, key));
        }
        i = i + 1;
    }
    assert(fields@.take(n as int) =~= fields@);
    res
}

/// `push_<field>` functions for the list and set fields, with the statements that serialize
/// the primary key after the pushed value.
pub fn push_to_collection_funs(ch_args: &MacroArgs, fields: &Vec<ModelField>) -> (res: (Vec<CollectionFn>, String))
    requires
        ch_args.partition_keys.len() + ch_args.clustering_keys.len() < usize::MAX,
    ensures
        res.0@.map_values(|c: CollectionFn| c@) == collection_fns(fields@, "push"@, "PUSH"@,
            strs(ch_args.partition_keys@) + strs(ch_args.clustering_keys@)),
        res.1@ == field_value_adder(strs(ch_args.partition_keys@) + strs(ch_args.clustering_keys@)),
{
    let fns = collection_fns_of(ch_args, fields, "push", "PUSH");
    let adder = serialized_field_value_adder(&ch_args.primary_key());
    (fns, adder)
}

/// `pull_<field>` functions for the list and set fields, with the statements that serialize
/// the primary key after the pulled value.
pub fn pull_from_collection_funs(ch_args: &MacroArgs, fields: &Vec<ModelField>) -> (res: (Vec<CollectionFn>, String))
    requires
        ch_args.partition_keys.len() + ch_args.clustering_keys.len() < usize::MAX,
    ensures
        res.0@.map_values(|c: CollectionFn| c@) == collection_fns(fields@, "pull"@, "PULL"@,
            strs(ch_args.partition_keys@) + strs(ch_args.clustering_keys@)),
        res.1@ == field_value_adder(strs(ch_args.partition_keys@) + strs(ch_args.clustering_keys@)),
{
    let fns = collection_fns_of(ch_args, fields, "pull", "PULL");
    let adder = serialized_field_value_adder(&ch_args.primary_key());
    (fns, adder)
}

} // verus!
