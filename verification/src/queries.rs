//! The query strings of a model: insert, update, delete and find by key.

use vstd::prelude::*;
use vstd::string::*;
use crate::clause::{pieces, render_joined, Piece};
use crate::fields::{
    comma_sep_cols, lemma_same_names, names, names_of, non_primary_key_fields, quoted_columns, same_fields,
    where_clause, where_placeholders, ModelField, ModelFields,
};
use crate::text::{join, join_strings, owned, strs};

verus! {

/// The arguments of a model declaration that the queries use.
#[derive(Debug)]
pub struct MacroArgs {
    pub table_name: String,
    pub partition_keys: Vec<String>,
    pub clustering_keys: Vec<String>,
    /// The fields of the local secondary indexes (each queried after the partition key).
    pub local_secondary_indexes: Vec<String>,
}

impl MacroArgs {
    /// The name of the table.
    pub fn table_name(&self) -> (res: String)
        ensures
            res@ == self.table_name@,
    {
        self.table_name.clone()
    }

    /// The primary key: the partition keys, then the clustering keys.
    pub fn primary_key(&self) -> (res: Vec<String>)
        ensures
            strs(res@) == strs(self.partition_keys@) + strs(self.clustering_keys@),
    {
        let mut res = self.partition_keys.clone();
        let mut cks = self.clustering_keys.clone();
        res.append(&mut cks);
        assert(strs(res@) =~= strs(self.partition_keys@) + strs(self.clustering_keys@));
        res
    }
}

/// `SELECT <columns> FROM <table>`
pub open spec fn select_all(table: Seq<char>, f: ModelFields) -> Seq<char> {
    "SELECT "@ + quoted_columns(f.db_fields@) + " FROM "@ + table
}

/// `SELECT <columns> FROM <table> WHERE <key> = ? AND ...`
pub open spec fn select_where(table: Seq<char>, f: ModelFields, key: Seq<ModelField>) -> Seq<char> {
    select_all(table, f) + " WHERE "@ + where_clause(key)
}

/// `DELETE FROM <table> WHERE <key> = ? AND ...`
pub open spec fn delete_where(table: Seq<char>, key: Seq<ModelField>) -> Seq<char> {
    "DELETE FROM "@ + table + " WHERE "@ + where_clause(key)
}

/// `INSERT INTO <table> (<a>, <b>) VALUES (?, ?)`: every database field, with one positional
/// marker per field.
pub open spec fn insert_query(table: Seq<char>, f: ModelFields) -> Seq<char> {
    "INSERT INTO "@ + table + " ("@ + join(names_of(f.db_fields@), ", "@) + ") VALUES ("@
        + join(pieces(Piece::Marker, names_of(f.db_fields@)), ", "@) + ")"@
}

/// `UPDATE <table> SET <non-key field> = ?, ... WHERE <key> = ? AND ...`
pub open spec fn update_query(table: Seq<char>, f: ModelFields) -> Seq<char> {
    "UPDATE "@ + table + " SET "@ + join(pieces(Piece::Placeholder, names_of(non_primary_key_fields(f))), ", "@)
        + " WHERE "@ + where_clause(f.primary_key_fields@)
}

fn select_all_string(table: &String, fields: &ModelFields) -> (res: String)
    ensures
        res@ == select_all(table@, *fields),
{
    let mut s = owned("SELECT ");
    s.append(comma_sep_cols(&fields.db_fields).as_str());
    s.append(" FROM ");
    s.append(table.as_str());
    s
}

fn select_where_string(table: &String, fields: &ModelFields, key: &Vec<ModelField>) -> (res: String)
    ensures
        res@ == select_where(table@, *fields, key@),
{
    let mut s = select_all_string(table, fields);
    s.append(" WHERE ");
    s.append(where_placeholders(key).as_str());
    s
}

fn delete_where_string(table: &String, key: &Vec<ModelField>) -> (res: String)
    ensures
        res@ == delete_where(table@, key@),
{
    let mut s = owned("DELETE FROM ");
    s.append(table.as_str());
    s.append(" WHERE ");
    s.append(where_placeholders(key).as_str());
    s
}

/// `DELETE_QUERY`: deletes one row by its primary key.
pub fn delete_query_const(ch_args: &MacroArgs, fields: &ModelFields) -> (res: String)
    ensures
        res@ == delete_where(ch_args.table_name@, fields.primary_key_fields@),
{
    delete_where_string(&ch_args.table_name, &fields.primary_key_fields)
}

/// `DELETE_BY_PARTITION_KEY_QUERY`: deletes a partition.
pub fn delete_by_partition_key_query_const(ch_args: &MacroArgs, fields: &ModelFields) -> (res: String)
    ensures
        res@ == delete_where(ch_args.table_name@, fields.partition_key_fields@),
{
    delete_where_string(&ch_args.table_name, &fields.partition_key_fields)
}

/// `FIND_ALL_QUERY`: selects every row.
pub fn find_all_query_const(ch_args: &MacroArgs, fields: &ModelFields) -> (res: String)
    ensures
        res@ == select_all(ch_args.table_name@, *fields),
{
    select_all_string(&ch_args.table_name, fields)
}

/// `FIND_BY_PRIMARY_KEY_QUERY`: selects one row by its primary key.
pub fn find_by_primary_key_query_const(ch_args: &MacroArgs, fields: &ModelFields) -> (res: String)
    ensures
        res@ == select_where(ch_args.table_name@, *fields, fields.primary_key_fields@),
{
    select_where_string(&ch_args.table_name, fields, &fields.primary_key_fields)
}

/// `FIND_BY_PARTITION_KEY_QUERY`: selects the rows of a partition.
pub fn find_by_partition_key_query_consts(ch_args: &MacroArgs, fields: &ModelFields) -> (res: String)
    ensures
        res@ == select_where(ch_args.table_name@, *fields, fields.partition_key_fields@),
{
    select_where_string(&ch_args.table_name, fields, &fields.partition_key_fields)
}

/// `FIND_FIRST_BY_PARTITION_KEY_QUERY`: selects the first row of a partition.
pub fn find_first_by_partition_key_query_const(ch_args: &MacroArgs, fields: &ModelFields) -> (res: String)
    ensures
        res@ == select_where(ch_args.table_name@, *fields, fields.partition_key_fields@) + " LIMIT 1"@,
{
    let mut s = select_where_string(&ch_args.table_name, fields, &fields.partition_key_fields);
    s.append(" LIMIT 1");
    s
}

/// `INSERT_QUERY`: inserts a row with every database field.
pub fn insert_query_const(ch_args: &MacroArgs, fields: &ModelFields) -> (res: String)
    ensures
        res@ == insert_query(ch_args.table_name@, *fields),
{
    let mut s = owned("INSERT INTO ");
    s.append(ch_args.table_name.as_str());
    let cols = names(&fields.db_fields);
    s.append(" (");
    s.append(join_strings(&cols, ", ").as_str());
    s.append(") VALUES (");
    s.append(render_joined(Piece::Marker, &cols, ", ").as_str());
    s.append(")");
    s
}

/// `INSERT_IF_NOT_EXIST_QUERY`: inserts a row unless one with the same key exists.
pub fn insert_if_not_exists_query_const(ch_args: &MacroArgs, fields: &ModelFields) -> (res: String)
    ensures
        res@ == insert_query(ch_args.table_name@, *fields) + " IF NOT EXISTS"@,
{
    let mut s = insert_query_const(ch_args, fields);
    s.append(" IF NOT EXISTS");
    s
}

/// `UPDATE_QUERY`: sets every database field outside the primary key of one row.
pub fn update_query_const(ch_args: &MacroArgs, fields: &ModelFields) -> (res: String)
    ensures
        res@ == update_query(ch_args.table_name@, *fields),
{
    let non_key = fields.non_primary_key_db_fields();
    proof {
        lemma_same_names(non_key@, non_primary_key_fields(*fields));
    }
    let mut s = owned("UPDATE ");
    s.append(ch_args.table_name.as_str());
    s.append(" SET ");
    s.append(render_joined(Piece::Placeholder, &names(&non_key), ", ").as_str());
    s.append(" WHERE ");
    s.append(where_placeholders(&fields.primary_key_fields).as_str());
    s
}

} // verus!
