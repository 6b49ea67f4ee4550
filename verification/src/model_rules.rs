//! The query macros written from the field names and key names of the model arguments:
//! unquoted columns and positional key conditions. The finder macros take the query and its values.

use vstd::prelude::*;
use vstd::string::*;
use crate::fields::{names, names_of, ModelField};
use crate::model_impls::key_conditions;
use crate::queries::MacroArgs;
use crate::rules::{operation_call, operation_call_string, rule_name, MacroRule, MacroRuleView};
use crate::text::{join, join_strings, owned, strs, to_snake_case};

verus! {

/// The field names separated by commas, unquoted.
pub fn comma_sep_cols(fields: &Vec<ModelField>) -> (res: String)
    ensures
        res@ == join(names_of(fields@), ", "@),
{
    join_strings(&names(fields), ", ")
}

/// `SELECT a, b FROM <table> WHERE `
pub open spec fn plain_select_prefix(table: Seq<char>, fields: Seq<ModelField>) -> Seq<char> {
    "SELECT "@ + join(names_of(fields), ", "@) + " FROM "@ + table + " WHERE "@
}

fn plain_select_prefix_string(table: &String, fields: &Vec<ModelField>) -> (res: String)
    ensures
        res@ == plain_select_prefix(table@, fields@),
{
    let mut s = owned("SELECT ");
    s.append(comma_sep_cols(fields).as_str());
    s.append(" FROM ");
    s.append(table.as_str());
    s.append(" WHERE ");
    s
}

fn named(before: &str, struct_name: &str, after: &str) -> (res: String)
    ensures
        res@ == rule_name(before@, struct_name@, after@),
{
    let mut s = owned(before);
    s.append(to_snake_case(struct_name).as_str());
    s.append(after);
    s
}

/// `find_<model>_query!`
pub fn find_model_query_rule(args: &MacroArgs, fields: &Vec<ModelField>, struct_name: &str) -> (res: MacroRule)
    ensures
        res@ == (MacroRuleView {
            macro_name: rule_name("find_"@, struct_name@, "_query"@),
            query_prefix: plain_select_prefix(args.table_name@, fields@),
            query_suffix: Seq::empty(),
            call: Seq::empty(),
            takes_values: true,
        }),
{
    MacroRule {
        macro_name: named("find_", struct_name, "_query"),
        query_prefix: plain_select_prefix_string(&args.table_name, fields),
        query_suffix: String::new(),
        call: String::new(),
        takes_values: true,
    }
}

/// `find_<model>!`
pub fn find_model_rule(args: &MacroArgs, fields: &Vec<ModelField>, struct_name: &str) -> (res: MacroRule)
    ensures
        res@ == (MacroRuleView {
            macro_name: rule_name("find_"@, struct_name@, ""@),
            query_prefix: plain_select_prefix(args.table_name@, fields@),
            query_suffix: Seq::empty(),
            call: operation_call(struct_name@, "charybdis::operations::Find"@, "find"@),
            takes_values: true,
        }),
{
    MacroRule {
        macro_name: named("find_", struct_name, ""),
        query_prefix: plain_select_prefix_string(&args.table_name, fields),
        query_suffix: String::new(),
        call: operation_call_string(struct_name, "charybdis::operations::Find", "find"),
        takes_values: true,
    }
}

/// `find_first_<model>!`
pub fn find_first_model_rule(args: &MacroArgs, fields: &Vec<ModelField>, struct_name: &str) -> (res: MacroRule)
    ensures
        res@ == (MacroRuleView {
            macro_name: rule_name("find_first_"@, struct_name@, ""@),
            query_prefix: plain_select_prefix(args.table_name@, fields@),
            query_suffix: Seq::empty(),
            call: operation_call(struct_name@, "charybdis::operations::Find"@, "find_first"@),
            takes_values: true,
        }),
{
    MacroRule {
        macro_name: named("find_first_", struct_name, ""),
        query_prefix: plain_select_prefix_string(&args.table_name, fields),
        query_suffix: String::new(),
        call: operation_call_string(struct_name, "charybdis::operations::Find", "find_first"),
        takes_values: true,
    }
}

/// `update_<model>_query!`: the caller's assignments on the row of the primary key.
pub fn update_model_query_rule(args: &MacroArgs, struct_name: &str) -> (res: MacroRule)
    ensures
        res@ == (MacroRuleView {
            macro_name: rule_name("update_"@, struct_name@, "_query"@),
            query_prefix: "UPDATE "@ + args.table_name@ + " SET "@,
            query_suffix: " WHERE "@ + key_conditions(strs(args.partition_keys@) + strs(args.clustering_keys@)),
            call: Seq::empty(),
            takes_values: false,
        }),
{
    let primary_key = args.primary_key();
    let mut prefix = owned("UPDATE ");
    prefix.append(args.table_name.as_str());
    prefix.append(" SET ");
    let mut suffix = owned(" WHERE ");
    suffix.append(join_strings(&primary_key, " = ? AND ").as_str());
    suffix.append(" = ?");
    assert(suffix@ =~= " WHERE "@ + key_conditions(strs(args.partition_keys@) + strs(args.clustering_keys@)));
    MacroRule {
        macro_name: named("update_", struct_name, "_query"),
        query_prefix: prefix,
        query_suffix: suffix,
        call: String::new(),
        takes_values: false,
    }
}

} // verus!
