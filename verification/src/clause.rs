//! Fragments of CQL statements built from lists of column names.

use vstd::prelude::*;
use vstd::string::*;
use crate::text::{join, join_strings, owned, strs};

verus! {

/// How a column name is written in a clause.
#[derive(Debug, Clone, Copy, PartialEq, Eq, Structural)]
pub enum Piece {
    /// `"name"`
    Quoted,
    /// `name`
    Bare,
    /// `:name`
    BindMarker,
    /// `name = :name`
    NamedAssignment,
    /// `name = ?`
    Placeholder,
    /// `?`, one positional marker standing for the column
    Marker,
    /// `name IS NOT NULL`
    NotNull,
    /// `DROP INDEX name`
    DropIndex,
    /// `serialized.add_value(&self.name)?;`
    SerializedFieldValue,
    /// `serialized.add_value(&name)?;`
    SerializedValue,
    /// `self.name.clone()`
    SelfClone,
}

/// The text of `name` written as `p`.
pub open spec fn piece(p: Piece, name: Seq<char>) -> Seq<char> {
    match p {
        Piece::Quoted => "\""@ + name + "\""@,
        Piece::Bare => name,
        Piece::BindMarker => ":"@ + name,
        Piece::NamedAssignment => name + " = :"@ + name,
        Piece::Placeholder => name + " = ?"@,
        Piece::Marker => "?"@,
        Piece::NotNull => name + " IS NOT NULL"@,
        Piece::DropIndex => "DROP INDEX "@ + name,
        Piece::SerializedFieldValue => "serialized.add_value(&self."@ + name + ")?;"@,
        Piece::SerializedValue => "serialized.add_value(&"@ + name + ")?;"@,
        Piece::SelfClone => "self."@ + name + ".clone()"@,
    }
}

/// Each of `names` written as `p`.
pub open spec fn pieces(p: Piece, names: Seq<Seq<char>>) -> Seq<Seq<char>> {
    names.map_values(|n: Seq<char>| piece(p, n))
}

/// Writes `name` as `p`.
pub fn render(p: Piece, name: &str) -> (res: String)
    ensures
        res@ == piece(p, name@),
{
    match p {
        Piece::Quoted => {
            let mut s = owned("\"");
            s.append(name);
            s.append("\"");
            s
        },
        Piece::Bare => owned(name),
        Piece::BindMarker => {
            let mut s = owned(":");
            s.append(name);
            s
        },
        Piece::NamedAssignment => {
            let mut s = owned(name);
            s.append(" = :");
            s.append(name);
            s
        },
        Piece::Placeholder => {
            let mut s = owned(name);
            s.append(" = ?");
            s
        },
        Piece::Marker => owned("?"),
        Piece::NotNull => {
            let mut s = owned(name);
            s.append(" IS NOT NULL");
            s
        },
        Piece::DropIndex => {
            let mut s = owned("DROP INDEX ");
            s.append(name);
            s
        },
        Piece::SerializedFieldValue => {
            let mut s = owned("serialized.add_value(&self.");
            s.append(name);
            s.append(")?;");
            s
        },
        Piece::SerializedValue => {
            let mut s = owned("serialized.add_value(&");
            s.append(name);
            s.append(")?;");
            s
        },
        Piece::SelfClone => {
            let mut s = owned("self.");
            s.append(name);
            s.append(".clone()");
            s
        },
    }
}

/// Writes each of `names` as `p`, in order.
pub fn render_each(p: Piece, names: &Vec<String>) -> (res: Vec<String>)
    ensures
        strs(res@) == pieces(p, strs(names@)),
{
    let mut res: Vec<String> = Vec::new();
    let n = names.len();
    let mut i: usize = 0;
    while i < n
        invariant
            n == names.len(),
            i <= n,
            res.len() == i,
            forall|j: int| 0 <= j < i ==> #[trigger] res@[j]@ == piece(p, names@[j]@),
        decreases n - i,
    {
        res.push(render(p, names[i].as_str()));
        i = i + 1;
    }
    assert(strs(res@) =~= pieces(p, strs(names@)));
    res
}

/// Writes each of `names` as `p` and joins them with `sep`.
pub fn render_joined(p: Piece, names: &Vec<String>, sep: &str) -> (res: String)
    ensures
        res@ == join(pieces(p, strs(names@)), sep@),
{
    let parts = render_each(p, names);
    join_strings(&parts, sep)
}

/// `name type`, as in a column list of `ALTER ... ADD (...)`.
pub open spec fn name_and_type(name: Seq<char>, cql_type: Seq<char>) -> Seq<char> {
    name + " "@ + cql_type
}

/// Writes `name type`.
pub fn render_name_and_type(name: &str, cql_type: &str) -> (res: String)
    ensures
        res@ == name_and_type(name@, cql_type@),
{
    let mut s = owned(name);
    s.append(" ");
    s.append(cql_type);
    s
}

} // verus!
