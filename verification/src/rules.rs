//! The `macro_rules!` a model declaration generates for hand-written queries: their names and
//! the query text they put around the caller's literal.

use vstd::prelude::*;
use vstd::string::*;
use crate::fields::{comma_sep_cols, quoted_columns, where_clause, where_placeholders, ModelFields};
use crate::queries::MacroArgs;
use crate::text::{owned, snake_case, to_snake_case};

verus! {

/// A generated `macro_rules! <macro_name>`. With `q` the query
/// `concat!("<query_prefix>", $query, "<query_suffix>")`, it expands as follows:
/// - `call` empty: `($query: literal) => { q }`, the query text itself; when `takes_values`,
///   also `($query: literal, $values: expr) => { q }`, so that the caller may write the values
///   beside the query (`find_post_query!("date = ?", (date,))`);
/// - `call` given (`takes_values` is then true): `($query: literal, $values: expr) => { <call>(q, $values) }`,
///   as in `find_post!("category_id in ? AND date > ?", (categories, date))`.
#[derive(Debug)]
pub struct MacroRule {
    pub macro_name: String,
    pub query_prefix: String,
    pub query_suffix: String,
    /// The function the expansion calls with the query (empty for a macro that gives the query).
    pub call: String,
    pub takes_values: bool,
}

/// The view of a generated macro.
pub struct MacroRuleView {
    pub macro_name: Seq<char>,
    pub query_prefix: Seq<char>,
    pub query_suffix: Seq<char>,
    pub call: Seq<char>,
    pub takes_values: bool,
}

impl View for MacroRule {
    type V = MacroRuleView;

    open spec fn view(&self) -> MacroRuleView {
        MacroRuleView {
            macro_name: self.macro_name@,
            query_prefix: self.query_prefix@,
            query_suffix: self.query_suffix@,
            call: self.call@,
            takes_values: self.takes_values,
        }
    }
}

/// `<<struct> as <operation trait>>::<method>`, as in `<User as charybdis::operations::Find>::find`.
pub open spec fn operation_call(struct_name: Seq<char>, operation_trait: Seq<char>, method: Seq<char>) -> Seq<char> {
    "<"@ + struct_name + " as "@ + operation_trait + ">::"@ + method
}

/// Writes `operation_call(struct_name, operation_trait, method)`.
pub fn operation_call_string(struct_name: &str, operation_trait: &str, method: &str) -> (res: String)
    ensures
        res@ == operation_call(struct_name@, operation_trait@, method@),
{
    let mut s = owned("<");
    s.append(struct_name);
    s.append(" as ");
    s.append(operation_trait);
    s.append(">::");
    s.append(method);
    s
}

/// `<before><struct in snake case><after>`
pub open spec fn rule_name(before: Seq<char>, struct_name: Seq<char>, after: Seq<char>) -> Seq<char> {
    before + snake_case(struct_name) + after
}

/// `SELECT <quoted columns> FROM <table> WHERE `
pub open spec fn select_prefix(table: Seq<char>, f: ModelFields) -> Seq<char> {
    "SELECT "@ + quoted_columns(f.db_fields@) + " FROM "@ + table + " WHERE "@
}

/// `DELETE FROM <table> WHERE `
pub open spec fn delete_prefix(table: Seq<char>) -> Seq<char> {
    "DELETE FROM "@ + table + " WHERE "@
}

fn rule_name_string(before: &str, struct_name: &str, after: &str) -> (res: String)
    ensures
        res@ == rule_name(before@, struct_name@, after@),
{
    let mut s = owned(before);
    s.append(to_snake_case(struct_name).as_str());
    s.append(after);
    s
}

fn select_prefix_string(table: &String, fields: &ModelFields) -> (res: String)
    ensures
        res@ == select_prefix(table@, *fields),
{
    let mut s = owned("SELECT ");
    s.append(comma_sep_cols(&fields.db_fields).as_str());
    s.append(" FROM ");
    s.append(table.as_str());
    s.append(" WHERE ");
    s
}

fn delete_prefix_string(table: &String) -> (res: String)
    ensures
        res@ == delete_prefix(table@),
{
    let mut s = owned("DELETE FROM ");
    s.append(table.as_str());
    s.append(" WHERE ");
    s
}

/// `find_<model>_query!`: the select query with the caller's conditions.
pub fn find_model_query_rule(struct_name: &str, args: &MacroArgs, fields: &ModelFields) -> (res: MacroRule)
    ensures
        res@ == (MacroRuleView {
            macro_name: rule_name("find_"@, struct_name@, "_query"@),
            query_prefix: select_prefix(args.table_name@, *fields),
            query_suffix: Seq::empty(),
            call: Seq::empty(),
            takes_values: true,
        }),
{
    MacroRule {
        macro_name: rule_name_string("find_", struct_name, "_query"),
        query_prefix: select_prefix_string(&args.table_name, fields),
        query_suffix: String::new(),
        call: String::new(),
        takes_values: true,
    }
}

/// `find_<model>!`: finds the rows matching the caller's conditions.
pub fn find_model_rule(struct_name: &str, args: &MacroArgs, fields: &ModelFields) -> (res: MacroRule)
    ensures
        res@ == (MacroRuleView {
            macro_name: rule_name("find_"@, struct_name@, ""@),
            query_prefix: select_prefix(args.table_name@, *fields),
            query_suffix: Seq::empty(),
            call: operation_call(struct_name@, "charybdis::operations::Find"@, "find"@),
            takes_values: true,
        }),
{
    MacroRule {
        macro_name: rule_name_string("find_", struct_name, ""),
        query_prefix: select_prefix_string(&args.table_name, fields),
        query_suffix: String::new(),
        call: operation_call_string(struct_name, "charybdis::operations::Find", "find"),
        takes_values: true,
    }
}

/// `find_first_<model>!`: finds the first row matching the caller's conditions.
pub fn find_first_model_rule(struct_name: &str, args: &MacroArgs, fields: &ModelFields) -> (res: MacroRule)
    ensures
        res@ == (MacroRuleView {
            macro_name: rule_name("find_first_"@, struct_name@, ""@),
            query_prefix: select_prefix(args.table_name@, *fields),
            query_suffix: Seq::empty(),
            call: operation_call(struct_name@, "charybdis::operations::Find"@, "find_first"@),
            takes_values: true,
        }),
{
    MacroRule {
        macro_name: rule_name_string("find_first_", struct_name, ""),
        query_prefix: select_prefix_string(&args.table_name, fields),
        query_suffix: String::new(),
        call: operation_call_string(struct_name, "charybdis::operations::Find", "find_first"),
        takes_values: true,
    }
}

/// `update_<model>_query!`: the caller's assignments on the row of the primary key.
pub fn update_model_query_rule(struct_name: &str, args: &MacroArgs, fields: &ModelFields) -> (res: MacroRule)
    ensures
        res@ == (MacroRuleView {
            macro_name: rule_name("update_"@, struct_name@, "_query"@),
            query_prefix: "UPDATE "@ + args.table_name@ + " SET "@,
            query_suffix: " WHERE "@ + where_clause(fields.primary_key_fields@),
            call: Seq::empty(),
            takes_values: false,
        }),
{
    let mut prefix = owned("UPDATE ");
    prefix.append(args.table_name.as_str());
    prefix.append(" SET ");
    let mut suffix = owned(" WHERE ");
    suffix.append(where_placeholders(&fields.primary_key_fields).as_str());
    MacroRule {
        macro_name: rule_name_string("update_", struct_name, "_query"),
        query_prefix: prefix,
        query_suffix: suffix,
        call: String::new(),
        takes_values: false,
    }
}

/// `delete_<model>_query!`: the delete query with the caller's conditions.
pub fn delete_model_query_rule(struct_name: &str, args: &MacroArgs) -> (res: MacroRule)
    ensures
        res@ == (MacroRuleView {
            macro_name: rule_name("delete_"@, struct_name@, "_query"@),
            query_prefix: delete_prefix(args.table_name@),
            query_suffix: Seq::empty(),
            call: Seq::empty(),
            takes_values: false,
        }),
{
    MacroRule {
        macro_name: rule_name_string("delete_", struct_name, "_query"),
        query_prefix: delete_prefix_string(&args.table_name),
        query_suffix: String::new(),
        call: String::new(),
        takes_values: false,
    }
}

/// `delete_<model>!`: deletes the rows matching the caller's conditions.
pub fn delete_model_rule(struct_name: &str, args: &MacroArgs) -> (res: MacroRule)
    ensures
        res@ == (MacroRuleView {
            macro_name: rule_name("delete_"@, struct_name@, ""@),
            query_prefix: delete_prefix(args.table_name@),
            query_suffix: Seq::empty(),
            call: operation_call(struct_name@, "charybdis::operations::Delete"@, "delete_by_query"@),
            takes_values: true,
        }),
{
    MacroRule {
        macro_name: rule_name_string("delete_", struct_name, ""),
        query_prefix: delete_prefix_string(&args.table_name),
        query_suffix: String::new(),
        call: operation_call_string(struct_name, "charybdis::operations::Delete", "delete_by_query"),
        takes_values: true,
    }
}

} // verus!
