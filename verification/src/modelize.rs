//! Generating model files from the database schema (work in progress): what is reported for
//! each object.

use vstd::prelude::*;
use vstd::string::*;
use crate::fields::spells;
use crate::schema::{ColumnView, ModelType, SchemaObject};
use crate::text::{ascii_upper, chars_of, owned, push_char, upper_ascii_char};

verus! {

/// The lines reported while an object is modelized (the kind written in lowercase): only UDTs
/// are modelized so far.
pub open spec fn modelization_messages(t: ModelType, name: Seq<char>) -> Seq<Seq<char>> {
    if t == ModelType::Udt {
        seq![
            "Modelizing udt "@ + name + "..."@,
            "Modelized udt "@ + name + " successfully!"@,
        ]
    } else {
        Seq::empty()
    }
}

/// The `charybdis::types` name of a CQL scalar type, `None` for any other name.
pub open spec fn scalar_rust_type(t: Seq<char>) -> Option<Seq<char>> {
    if t == "ascii"@ {
        Some("Ascii"@)
    } else if t == "bigint"@ {
        Some("BigInt"@)
    } else if t == "blob"@ {
        Some("Blob"@)
    } else if t == "boolean"@ {
        Some("Boolean"@)
    } else if t == "counter"@ {
        Some("Counter"@)
    } else if t == "date"@ {
        Some("Date"@)
    } else if t == "decimal"@ {
        Some("Decimal"@)
    } else if t == "double"@ {
        Some("Double"@)
    } else if t == "duration"@ {
        Some("Duration"@)
    } else if t == "float"@ {
        Some("Float"@)
    } else if t == "inet"@ {
        Some("Inet"@)
    } else if t == "int"@ {
        Some("Int"@)
    } else if t == "smallint"@ {
        Some("SmallInt"@)
    } else if t == "text"@ {
        Some("Text"@)
    } else if t == "varchar"@ {
        Some("Text"@)
    } else if t == "time"@ {
        Some("Time"@)
    } else if t == "timestamp"@ {
        Some("Timestamp"@)
    } else if t == "timeuuid"@ {
        Some("Timeuuid"@)
    } else if t == "tinyint"@ {
        Some("TinyInt"@)
    } else if t == "uuid"@ {
        Some("Uuid"@)
    } else if t == "varint"@ {
        Some("Varint"@)
    } else {
        None
    }
}

/// Whether `c` may stand in a CQL type name.
pub open spec fn is_name_char(c: char) -> bool {
    ('a' <= c && c <= 'z') || ('A' <= c && c <= 'Z') || ('0' <= c && c <= '9') || c == '_'
}

/// The Rust spelling of one name of a CQL type: the scalar type it names, or the name with its
/// first letter capitalized (`set` gives `Set`, `frozen` gives `Frozen`, `address` gives
/// `Address`).
pub open spec fn rust_type_name(tok: Seq<char>) -> Seq<char> {
    match scalar_rust_type(tok) {
        Some(r) => r,
        None => if tok.len() == 0 { tok } else { seq![ascii_upper(tok[0])] + tok.drop_first() },
    }
}

/// Reads a CQL type left to right: the text written so far, and the name being read.
pub open spec fn type_scan(t: Seq<char>) -> (Seq<char>, Seq<char>)
    decreases t.len(),
{
    if t.len() == 0 {
        (Seq::empty(), Seq::empty())
    } else {
        let (out, tok) = type_scan(t.drop_last());
        let c = t.last();
        if is_name_char(c) {
            (out, tok.push(c))
        } else {
            (out + rust_type_name(tok) + seq![c], Seq::empty())
        }
    }
}

/// The Rust type of a CQL type: each name in it spelled by `rust_type_name`, the rest kept
/// (`map<text, int>` gives `Map<Text, Int>`, `frozen<address>` gives `Frozen<Address>`).
pub open spec fn rust_type(t: Seq<char>) -> Seq<char> {
    type_scan(t).0 + rust_type_name(type_scan(t).1)
}

/// The struct name of an object name: each `_`-separated part with its first letter
/// capitalized, the `_` removed (`user_profile` gives `UserProfile`).
pub open spec fn pascal_case(s: Seq<char>) -> Seq<char>
    decreases s.len(),
{
    if s.len() == 0 {
        Seq::empty()
    } else {
        let prev = s.drop_last();
        let c = s.last();
        if c == '_' {
            pascal_case(prev)
        } else if prev.len() == 0 || prev.last() == '_' {
            pascal_case(prev).push(ascii_upper(c))
        } else {
            pascal_case(prev).push(c)
        }
    }
}

/// `    pub <name>: <Rust type>,\n` for each column, in order.
pub open spec fn struct_fields(cols: Seq<ColumnView>) -> Seq<char>
    decreases cols.len(),
{
    if cols.len() == 0 {
        Seq::empty()
    } else {
        struct_fields(cols.drop_last()) + "    pub "@ + cols.last().name + ": "@ + rust_type(cols.last().cql_type) + ",\n"@
    }
}

/// The header of a UDT model file: the macro and the `charybdis::types` names it may use.
pub open spec fn udt_file_header() -> Seq<char> {
    "use charybdis::macros::charybdis_udt_model;\nuse charybdis::types::{Ascii, BigInt, Blob, Boolean, Counter, Date, Decimal, Double, Duration, Float, Frozen, Inet, Int, List, Map, Set, SmallInt, Text, Time, Timestamp, Timeuuid, TinyInt, Tuple, Uuid, Varint};\n\n"@
}

/// The model file of the UDT `name` with the columns `cols`:
///
/// ```text
/// use charybdis::macros::charybdis_udt_model;
/// use charybdis::types::{...};
///
/// #[charybdis_udt_model(type_name = <name>)]
/// pub struct <Name> {
///     pub <column>: <Rust type>,
/// }
/// ```
pub open spec fn udt_model_file(name: Seq<char>, cols: Seq<ColumnView>) -> Seq<char> {
    udt_file_header() + "#[charybdis_udt_model(type_name = "@ + name + ")]\npub struct "@ + pascal_case(name) + " {\n"@
        + struct_fields(cols) + "}\n"@
}

/// The model file written for an object: a UDT's model (tables and views are not modelized yet).
pub open spec fn model_file(t: ModelType, name: Seq<char>, cols: Seq<ColumnView>) -> Option<Seq<char>> {
    if t == ModelType::Udt {
        Some(udt_model_file(name, cols))
    } else {
        None
    }
}

fn scalar_rust_type_of(t: &Vec<char>) -> (res: Option<String>)
    ensures
        match res {
            Some(r) => scalar_rust_type(t@) == Some(r@),
            None => scalar_rust_type(t@) is None,
        },
{
    if spells(t, "ascii") {
        Some(owned("Ascii"))
    } else if spells(t, "bigint") {
        Some(owned("BigInt"))
    } else if spells(t, "blob") {
        Some(owned("Blob"))
    } else if spells(t, "boolean") {
        Some(owned("Boolean"))
    } else if spells(t, "counter") {
        Some(owned("Counter"))
    } else if spells(t, "date") {
        Some(owned("Date"))
    } else if spells(t, "decimal") {
        Some(owned("Decimal"))
    } else if spells(t, "double") {
        Some(owned("Double"))
    } else if spells(t, "duration") {
        Some(owned("Duration"))
    } else if spells(t, "float") {
        Some(owned("Float"))
    } else if spells(t, "inet") {
        Some(owned("Inet"))
    } else if spells(t, "int") {
        Some(owned("Int"))
    } else if spells(t, "smallint") {
        Some(owned("SmallInt"))
    } else if spells(t, "text") {
        Some(owned("Text"))
    } else if spells(t, "varchar") {
        Some(owned("Text"))
    } else if spells(t, "time") {
        Some(owned("Time"))
    } else if spells(t, "timestamp") {
        Some(owned("Timestamp"))
    } else if spells(t, "timeuuid") {
        Some(owned("Timeuuid"))
    } else if spells(t, "tinyint") {
        Some(owned("TinyInt"))
    } else if spells(t, "uuid") {
        Some(owned("Uuid"))
    } else if spells(t, "varint") {
        Some(owned("Varint"))
    } else {
        None
    }
}

fn append_chars(s: &mut String, v: &Vec<char>)
    ensures
        final(s)@ == old(s)@ + v@,
{
    let n = v.len();
    let mut i: usize = 0;
    while i < n
        invariant
            n == v.len(),
            i <= n,
            s@ == old(s)@ + v@.take(i as int),
        decreases n - i,
    {
        push_char(s, v[i]);
        assert(v@.take(i + 1) =~= v@.take(i as int).push(v@[i as int]));
        i = i + 1;
    }
    assert(v@.take(n as int) =~= v@);
}

fn rust_type_name_of(tok: &Vec<char>) -> (res: String)
    ensures
        res@ == rust_type_name(tok@),
{
    match scalar_rust_type_of(tok) {
        Some(r) => r,
        None => {
            let mut s = String::new();
            if tok.len() > 0 {
                push_char(&mut s, upper_ascii_char(tok[0]));
                let mut i: usize = 1;
                while i < tok.len()
                    invariant
                        1 <= i <= tok.len(),
                        s@ == seq![ascii_upper(tok@[0])] + tok@.subrange(1, i as int),
                    decreases tok.len() - i,
                {
                    push_char(&mut s, tok[i]);
                    assert(tok@.subrange(1, i + 1) =~= tok@.subrange(1, i as int).push(tok@[i as int]));
                    i = i + 1;
                }
                assert(tok@.subrange(1, tok.len() as int) =~= tok@.drop_first());
            } else {
                assert(s@ =~= tok@);
            }
            s
        },
    }
}

/// Writes `rust_type(t)`.
pub fn to_rust_type(t: &str) -> (res: String)
    ensures
        res@ == rust_type(t@),
{
    let cs = chars_of(t);
    let ghost s = cs@;
    let n = cs.len();
    let mut out = String::new();
    let mut tok: Vec<char> = Vec::new();
    let mut i: usize = 0;
    assert(s.take(0) =~= Seq::<char>::empty());
    while i < n
        invariant
            n == cs.len(),
            s == cs@,
            s == t@,
            i <= n,
            (out@, tok@) == type_scan(s.take(i as int)),
        decreases n - i,
    {
        let c = cs[i];
        assert(s.take(i + 1).drop_last() =~= s.take(i as int));
        if ('a' <= c && c <= 'z') || ('A' <= c && c <= 'Z') || ('0' <= c && c <= '9') || c == '_' {
            tok.push(c);
        } else {
            let name = rust_type_name_of(&tok);
            out.append(name.as_str());
            push_char(&mut out, c);
            tok = Vec::new();
            assert(tok@ =~= Seq::<char>::empty());
        }
        i = i + 1;
    }
    assert(s.take(n as int) =~= s);
    let last = rust_type_name_of(&tok);
    out.append(last.as_str());
    out
}

/// Writes `pascal_case(name)`.
pub fn to_pascal_case(name: &str) -> (res: String)
    ensures
        res@ == pascal_case(name@),
{
    let cs = chars_of(name);
    let ghost s = cs@;
    let n = cs.len();
    let mut out = String::new();
    let mut i: usize = 0;
    assert(s.take(0) =~= Seq::<char>::empty());
    while i < n
        invariant
            n == cs.len(),
            s == cs@,
            s == name@,
            i <= n,
            out@ == pascal_case(s.take(i as int)),
        decreases n - i,
    {
        let c = cs[i];
        let ghost prev = s.take(i as int);
        assert(s.take(i + 1).drop_last() =~= prev);
        if c == '_' {
        } else if i == 0 || cs[i - 1] == '_' {
            assert(i > 0 ==> prev.last() == cs@[i - 1]);
            push_char(&mut out, upper_ascii_char(c));
        } else {
            assert(prev.last() == cs@[i - 1]);
            push_char(&mut out, c);
        }
        i = i + 1;
    }
    assert(s.take(n as int) =~= s);
    out
}

/// Writes `udt_model_file(name, cols)`.
pub fn udt_model_file_text(name: &String, schema: &SchemaObject) -> (res: String)
    ensures
        res@ == udt_model_file(name@, schema@.fields),
{
    let mut s = owned("use charybdis::macros::charybdis_udt_model;\nuse charybdis::types::{Ascii, BigInt, Blob, Boolean, Counter, Date, Decimal, Double, Duration, Float, Frozen, Inet, Int, List, Map, Set, SmallInt, Text, Time, Timestamp, Timeuuid, TinyInt, Tuple, Uuid, Varint};\n\n");
    s.append("#[charybdis_udt_model(type_name = ");
    s.append(name.as_str());
    s.append(")]\npub struct ");
    s.append(to_pascal_case(name.as_str()).as_str());
    s.append(" {\n");
    let cols = &schema.fields;
    let ghost cv = schema@.fields;
    let n = cols.len();
    let mut body = String::new();
    let mut i: usize = 0;
    assert(cv.take(0) =~= Seq::<ColumnView>::empty());
    while i < n
        invariant
            n == cols.len(),
            cv == schema@.fields,
            cv.len() == n,
            cols == &schema.fields,
            i <= n,
            body@ == struct_fields(cv.take(i as int)),
        decreases n - i,
    {
        assert(cv.take(i + 1).drop_last() =~= cv.take(i as int));
        assert(cv.take(i + 1).last() == cv[i as int]);
        body.append("    pub ");
        body.append(cols[i].name.as_str());
        body.append(": ");
        body.append(to_rust_type(cols[i].cql_type.as_str()).as_str());
        body.append(",\n");
        i = i + 1;
    }
    assert(cv.take(n as int) =~= cv);
    s.append(body.as_str());
    s.append("}\n");
    s
}

/// Whether a directory entry named `file_name` marks a project root (`Cargo.lock`).
pub fn is_cargo_lock(file_name: &str) -> (res: bool)
    ensures
        res == (file_name@ == "Cargo.lock"@),
{
    let v = chars_of(file_name);
    spells(&v, "Cargo.lock")
}

/// The project root among the directories from the current one upwards, where
/// `holds_cargo_lock[i]` tells whether the `i`-th of them holds a `Cargo.lock`: the first that
/// does; `None` when none does.
pub fn project_root_index(holds_cargo_lock: &Vec<bool>) -> (res: Option<usize>)
    ensures
        match res {
            Some(i) => i < holds_cargo_lock.len() && holds_cargo_lock@[i as int]
                && forall|j: int| 0 <= j < i ==> !holds_cargo_lock@[j],
            None => forall|j: int| 0 <= j < holds_cargo_lock.len() ==> !holds_cargo_lock@[j],
        },
{
    let n = holds_cargo_lock.len();
    let mut i: usize = 0;
    while i < n
        invariant
            n == holds_cargo_lock.len(),
            i <= n,
            forall|j: int| 0 <= j < i ==> !holds_cargo_lock@[j],
        decreases n - i,
    {
        if holds_cargo_lock[i] {
            return Some(i);
        }
        i = i + 1;
    }
    None
}

/// The modelization of one database object.
pub struct ModelizationUnit<'a> {
    pub model_name: &'a String,
    pub object_type: ModelType,
    pub db_schema: &'a SchemaObject,
}

impl<'a> ModelizationUnit<'a> {
    pub fn new(model_name: &'a String, object_type: ModelType, db_schema: &'a SchemaObject) -> (res: ModelizationUnit<'a>)
        ensures
            res.model_name == model_name,
            res.object_type == object_type,
            res.db_schema == db_schema,
    {
        ModelizationUnit { model_name, object_type, db_schema }
    }

    /// The model file to write for this object: the text of a UDT's model; `None` for tables and
    /// views, which are not modelized yet.
    pub fn model_file(&self) -> (res: Option<String>)
        ensures
            match res {
                Some(f) => model_file(self.object_type, self.model_name@, self.db_schema@.fields) == Some(f@),
                None => model_file(self.object_type, self.model_name@, self.db_schema@.fields) is None,
            },
    {
        if self.object_type == ModelType::Udt {
            Some(udt_model_file_text(self.model_name, self.db_schema))
        } else {
            None
        }
    }

    /// The lines to report for this object.
    pub fn run(&self) -> (res: Vec<String>)
        ensures
            res@.map_values(|s: String| s@) == modelization_messages(self.object_type, self.model_name@),
    {
        let mut res: Vec<String> = Vec::new();
        if self.object_type == ModelType::Udt {
            let mut start = owned("Modelizing udt ");
            start.append(self.model_name.as_str());
            start.append("...");
            let mut end = owned("Modelized udt ");
            end.append(self.model_name.as_str());
            end.append(" successfully!");
            res.push(start);
            res.push(end);
        }
        assert(res@.map_values(|s: String| s@) =~= modelization_messages(self.object_type, self.model_name@));
        res
    }
}

} // verus!
