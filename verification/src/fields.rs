//! The fields of a model, and the clauses of queries written from them.

use vstd::prelude::*;
use vstd::string::*;
use crate::clause::{pieces, render_joined, Piece};
use crate::queries::MacroArgs;
use crate::text::{chars_of, count_char, join, remove_spaces, strs, without_spaces};

verus! {

/// What kind of value a field holds, as far as the generated queries are concerned.
#[derive(Debug, Clone, Copy, PartialEq, Eq, Structural)]
pub enum FieldKind {
    Plain,
    Counter,
    ListCollection,
    SetCollection,
    MapCollection,
}

/// A field of a model: its name, its Rust type as written, and whether it is ignored
/// (`#[charybdis(ignore)]`: not stored, and left to its default when a row is read).
#[derive(Debug)]
pub struct ModelField {
    pub name: String,
    pub type_text: String,
    pub ignored: bool,
}

impl ModelField {
    /// The kind of value the field holds, read from its declared type.
    pub open spec fn kind(self) -> FieldKind {
        kind_of_type(self.type_text@)
    }
}

/// The fields of a model, grouped as the queries use them.
#[derive(Debug)]
pub struct ModelFields {
    /// The fields stored in the database, in declaration order.
    pub db_fields: Vec<ModelField>,
    /// Partition keys then clustering keys.
    pub primary_key_fields: Vec<ModelField>,
    pub partition_key_fields: Vec<ModelField>,
    pub clustering_key_fields: Vec<ModelField>,
    pub local_secondary_index_fields: Vec<ModelField>,
}

/// The names of a sequence of fields.
pub open spec fn names_of(fs: Seq<ModelField>) -> Seq<Seq<char>> {
    fs.map_values(|f: ModelField| f.name@)
}

/// The names of `fields`, in order.
pub fn names(fields: &Vec<ModelField>) -> (res: Vec<String>)
    ensures
        strs(res@) == names_of(fields@),
{
    let mut res: Vec<String> = Vec::new();
    let n = fields.len();
    let mut i: usize = 0;
    while i < n
        invariant
            n == fields.len(),
            i <= n,
            res.len() == i,
            forall|j: int| 0 <= j < i ==> #[trigger] res@[j]@ == fields@[j].name@,
        decreases n - i,
    {
        res.push(fields[i].name.clone());
        i = i + 1;
    }
    assert(strs(res@) =~= names_of(fields@));
    res
}

/// `"a", "b"`: the quoted names of the columns.
pub open spec fn quoted_columns(fs: Seq<ModelField>) -> Seq<char> {
    join(pieces(Piece::Quoted, names_of(fs)), ", "@)
}

/// `:a, :b`
pub open spec fn insert_binds(fs: Seq<ModelField>) -> Seq<char> {
    join(pieces(Piece::BindMarker, names_of(fs)), ", "@)
}

/// `a = :a, b = :b`
pub open spec fn set_binds(fs: Seq<ModelField>) -> Seq<char> {
    join(pieces(Piece::NamedAssignment, names_of(fs)), ", "@)
}

/// `a = ? AND b = ?`
pub open spec fn where_clause(fs: Seq<ModelField>) -> Seq<char> {
    join(pieces(Piece::Placeholder, names_of(fs)), " AND "@)
}

/// `a = :a AND b = :b`
pub open spec fn where_binds(fs: Seq<ModelField>) -> Seq<char> {
    join(pieces(Piece::NamedAssignment, names_of(fs)), " AND "@)
}

/// The quoted column names, separated by commas.
pub fn comma_sep_cols(fields: &Vec<ModelField>) -> (res: String)
    ensures
        res@ == quoted_columns(fields@),
{
    render_joined(Piece::Quoted, &names(fields), ", ")
}

/// The named bind markers of an `INSERT`.
pub fn insert_bind_markers(fields: &Vec<ModelField>) -> (res: String)
    ensures
        res@ == insert_binds(fields@),
{
    render_joined(Piece::BindMarker, &names(fields), ", ")
}

/// The assignments of an `UPDATE ... SET`, with named bind markers.
pub fn set_bind_markers(fields: &Vec<ModelField>) -> (res: String)
    ensures
        res@ == set_binds(fields@),
{
    render_joined(Piece::NamedAssignment, &names(fields), ", ")
}

/// The conditions of a `WHERE`, with positional placeholders.
pub fn where_placeholders(fields: &Vec<ModelField>) -> (res: String)
    ensures
        res@ == where_clause(fields@),
{
    render_joined(Piece::Placeholder, &names(fields), " AND ")
}

/// The conditions of a `WHERE`, with named bind markers.
pub fn where_bind_markers(fields: &Vec<ModelField>) -> (res: String)
    ensures
        res@ == where_binds(fields@),
{
    render_joined(Piece::NamedAssignment, &names(fields), " AND ")
}

/// Keeps the fields whose name is not among `names`.
pub open spec fn field_absent_from(names: Seq<Seq<char>>) -> spec_fn(ModelField) -> bool {
    |f: ModelField| !names.contains(f.name@)
}

/// The database fields that are not part of the primary key, in order.
pub open spec fn non_primary_key_fields(f: ModelFields) -> Seq<ModelField> {
    f.db_fields@.filter(field_absent_from(names_of(f.primary_key_fields@)))
}

/// Whether some field of `fields` is named `name`.
pub fn has_field_named(fields: &Vec<ModelField>, name: &String) -> (res: bool)
    ensures
        res == names_of(fields@).contains(name@),
{
    let n = fields.len();
    let mut i: usize = 0;
    while i < n
        invariant
            n == fields.len(),
            i <= n,
            forall|k: int| 0 <= k < i ==> fields@[k].name@ != name@,
        decreases n - i,
    {
        if fields[i].name == *name {
            assert(names_of(fields@)[i as int] == name@);
            return true;
        }
        i = i + 1;
    }
    false
}

fn copy_field(f: &ModelField) -> (res: ModelField)
    ensures
        res.name@ == f.name@,
        res.type_text@ == f.type_text@,
        res.ignored == f.ignored,
{
    ModelField { name: f.name.clone(), type_text: f.type_text.clone(), ignored: f.ignored }
}

/// Two fields with the same name, type and ignored mark.
pub open spec fn same_field(a: ModelField, b: ModelField) -> bool {
    &&& a.name@ == b.name@
    &&& a.type_text@ == b.type_text@
    &&& a.ignored == b.ignored
}

/// Two sequences of fields with the same names, types and kinds.
pub open spec fn same_fields(a: Seq<ModelField>, b: Seq<ModelField>) -> bool {
    a.len() == b.len() && forall|i: int| #![trigger a[i]] 0 <= i < a.len() ==> same_field(a[i], b[i])
}

/// The type name read in `s` while exactly `level` `<` have been passed: the characters at that
/// nesting, starting again after each `:` (so `charybdis::types::List` reads `List`).
pub open spec fn name_at(s: Seq<char>, level: nat) -> Seq<char>
    decreases s.len(),
{
    if s.len() == 0 {
        Seq::empty()
    } else {
        let prev = s.drop_last();
        let c = s.last();
        if count_char(prev, '<') != level || c == '<' {
            name_at(prev, level)
        } else if c == ':' {
            Seq::empty()
        } else {
            name_at(prev, level).push(c)
        }
    }
}

/// The outer name of the type written `t`, spaces aside: `List` for `List<Text>` and for
/// `Option<List<Text>>`.
pub open spec fn outer_type_name(t: Seq<char>) -> Seq<char> {
    let s = without_spaces(t);
    if name_at(s, 0) == "Option"@ {
        name_at(s, 1)
    } else {
        name_at(s, 0)
    }
}

/// The kind of a field declared with the type `t`: a `Counter`, a `List<T>`, a `Set<T>` or a
/// `Map<K, V>` (each possibly inside an `Option`), or a plain value.
pub open spec fn kind_of_type(t: Seq<char>) -> FieldKind {
    let n = outer_type_name(t);
    if n == "Counter"@ {
        FieldKind::Counter
    } else if n == "List"@ {
        FieldKind::ListCollection
    } else if n == "Set"@ {
        FieldKind::SetCollection
    } else if n == "Map"@ {
        FieldKind::MapCollection
    } else {
        FieldKind::Plain
    }
}

/// Whether the characters `v` spell `w`.
pub(crate) fn spells(v: &Vec<char>, w: &str) -> (res: bool)
    ensures
        res == (v@ == w@),
{
    let wc = chars_of(w);
    if v.len() != wc.len() {
        return false;
    }
    let n = v.len();
    let mut i: usize = 0;
    while i < n
        invariant
            n == v.len(),
            n == wc.len(),
            wc@ == w@,
            i <= n,
            forall|j: int| 0 <= j < i ==> v@[j] == wc@[j],
        decreases n - i,
    {
        if v[i] != wc[i] {
            assert(v@[i as int] != w@[i as int]);
            return false;
        }
        i = i + 1;
    }
    assert(v@ =~= w@);
    true
}

/// The kind of a field declared with the type written `type_text` (see `kind_of_type`).
pub fn field_kind(type_text: &str) -> (res: FieldKind)
    ensures
        res == kind_of_type(type_text@),
{
    let stripped = remove_spaces(type_text);
    let cs = chars_of(stripped.as_str());
    let ghost s = cs@;
    let n = cs.len();
    let mut depth: usize = 0;
    let mut outer: Vec<char> = Vec::new();
    let mut inner: Vec<char> = Vec::new();
    let mut i: usize = 0;
    assert(s.take(0) =~= Seq::<char>::empty());
    while i < n
        invariant
            n == cs.len(),
            s == cs@,
            i <= n,
            depth <= i,
            depth == count_char(s.take(i as int), '<'),
            outer@ == name_at(s.take(i as int), 0),
            inner@ == name_at(s.take(i as int), 1),
        decreases n - i,
    {
        let c = cs[i];
        let ghost prev = s.take(i as int);
        let ghost next = s.take(i + 1);
        assert(next.drop_last() =~= prev);
        assert(next.last() == c);
        if c == '<' {
            depth = depth + 1;
        } else if c == ':' {
            if depth == 0 {
                outer = Vec::new();
            } else if depth == 1 {
                inner = Vec::new();
            }
        } else {
            if depth == 0 {
                outer.push(c);
            } else if depth == 1 {
                inner.push(c);
            }
        }
        assert(outer@ =~= name_at(next, 0));
        assert(inner@ =~= name_at(next, 1));
        i = i + 1;
    }
    assert(s.take(n as int) =~= s);
    let name = if spells(&outer, "Option") { inner } else { outer };
    if spells(&name, "Counter") {
        FieldKind::Counter
    } else if spells(&name, "List") {
        FieldKind::ListCollection
    } else if spells(&name, "Set") {
        FieldKind::SetCollection
    } else if spells(&name, "Map") {
        FieldKind::MapCollection
    } else {
        FieldKind::Plain
    }
}

impl ModelField {
    /// A field named `name`, declared with the type written `type_text`, ignored or not; its
    /// kind is read from the type (see `kind_of_type`).
    pub fn new(name: String, type_text: String, ignored: bool) -> (res: ModelField)
        ensures
            res.name == name,
            res.type_text == type_text,
            res.ignored == ignored,
            res.kind() == kind_of_type(type_text@),
    {
        ModelField { name, type_text, ignored }
    }
}

/// Keeps the fields that are stored in the database.
pub open spec fn is_stored() -> spec_fn(ModelField) -> bool {
    |f: ModelField| !f.ignored
}

/// The fields stored in the database, in declaration order: the declared fields but the
/// ignored ones.
pub open spec fn db_fields_of(fs: Seq<ModelField>) -> Seq<ModelField> {
    fs.filter(is_stored())
}

/// The stored fields of `fields` (copies), in order.
pub fn db_fields(fields: &Vec<ModelField>) -> (res: Vec<ModelField>)
    ensures
        same_fields(res@, db_fields_of(fields@)),
{
    let ghost p = is_stored();
    let mut res: Vec<ModelField> = Vec::new();
    let n = fields.len();
    let mut i: usize = 0;
    proof {
        reveal_with_fuel(Seq::filter, 1);
        assert(fields@.take(0) =~= Seq::<ModelField>::empty());
    }
    while i < n
        invariant
            n == fields.len(),
            p == is_stored(),
            i <= n,
            same_fields(res@, fields@.take(i as int).filter(p)),
        decreases n - i,
    {
        let ghost prev = fields@.take(i as int);
        assert(fields@.take(i + 1) =~= prev.push(fields@[i as int]));
        proof { prev.lemma_filter_push(fields@[i as int], p); }
        if !fields[i].ignored {
            let ghost old = res@;
            let c = copy_field(&fields[i]);
            res.push(c);
            let ghost target = prev.filter(p).push(fields@[i as int]);
            assert forall|k: int| 0 <= k < res@.len() implies #[trigger] same_field(res@[k], target[k]) by {
                if k < old.len() {
                    assert(res@[k] == old[k]);
                    assert(target[k] == prev.filter(p)[k]);
                    assert(same_field(old[k], prev.filter(p)[k]));
                } else {
                    assert(res@[k] == c);
                    assert(target[k] == fields@[i as int]);
                }
            }
            assert(same_fields(res@, target));
        }
        i = i + 1;
    }
    assert(fields@.take(n as int) =~= fields@);
    res
}

/// The first field of `fs` named `n`, if any.
pub open spec fn first_field_named(fs: Seq<ModelField>, n: Seq<char>) -> Option<ModelField>
    decreases fs.len(),
{
    if fs.len() == 0 {
        None
    } else if fs[0].name@ == n {
        Some(fs[0])
    } else {
        first_field_named(fs.drop_first(), n)
    }
}

/// Every name of `names` is the name of a field of `fs`.
pub open spec fn all_named(fs: Seq<ModelField>, names: Seq<Seq<char>>) -> bool {
    forall|i: int| 0 <= i < names.len() ==> #[trigger] first_field_named(fs, names[i]) is Some
}

/// The fields `v` are, in order, the first fields of `fs` named `names`.
pub open spec fn fields_for(v: Seq<ModelField>, fs: Seq<ModelField>, names: Seq<Seq<char>>) -> bool {
    &&& v.len() == names.len()
    &&& forall|i: int| 0 <= i < names.len() ==> #[trigger] same_field(v[i], first_field_named(fs, names[i])->Some_0)
}

fn first_field_named_in(fs: &Vec<ModelField>, n: &String) -> (res: Option<ModelField>)
    ensures
        match res {
            Some(f) => first_field_named(fs@, n@) matches Some(g) && same_field(f, g),
            None => first_field_named(fs@, n@) is None,
        },
{
    let len = fs.len();
    let mut i: usize = 0;
    assert(fs@.skip(0) =~= fs@);
    while i < len
        invariant
            len == fs.len(),
            i <= len,
            first_field_named(fs@, n@) == first_field_named(fs@.skip(i as int), n@),
        decreases len - i,
    {
        assert(fs@.skip(i as int).drop_first() =~= fs@.skip(i + 1));
        assert(fs@.skip(i as int)[0] == fs@[i as int]);
        if fs[i].name == *n {
            return Some(copy_field(&fs[i]));
        }
        i = i + 1;
    }
    assert(fs@.skip(len as int).len() == 0);
    None
}

/// The first fields of `fs` named `names`, in order; `None` when a name is not a field.
pub fn fields_named(fs: &Vec<ModelField>, names: &Vec<String>) -> (res: Option<Vec<ModelField>>)
    ensures
        match res {
            Some(v) => all_named(fs@, strs(names@)) && fields_for(v@, fs@, strs(names@)),
            None => !all_named(fs@, strs(names@)),
        },
{
    let mut res: Vec<ModelField> = Vec::new();
    let n = names.len();
    let mut i: usize = 0;
    while i < n
        invariant
            n == names.len(),
            i <= n,
            res.len() == i,
            forall|k: int| 0 <= k < i ==> #[trigger] first_field_named(fs@, strs(names@)[k]) is Some,
            forall|k: int| 0 <= k < i ==> #[trigger] same_field(res@[k], first_field_named(fs@, strs(names@)[k])->Some_0),
        decreases n - i,
    {
        assert(strs(names@)[i as int] == names@[i as int]@);
        match first_field_named_in(fs, &names[i]) {
            Some(f) => {
                res.push(f);
            },
            None => {
                return None;
            },
        }
        i = i + 1;
    }
    Some(res)
}

impl ModelFields {
    /// The fields of a model declared with the fields `declared` and the keys of `args`: the
    /// stored fields; the partition keys, clustering keys and local index fields, each the first
    /// stored field of that name; the primary key, partition keys then clustering keys. `None`
    /// when a key or index names no stored field.
    pub fn from_declared(declared: &Vec<ModelField>, args: &MacroArgs) -> (res: Option<ModelFields>)
        ensures
            match res {
                Some(m) => {
                    let db = db_fields_of(declared@);
                    &&& same_fields(m.db_fields@, db)
                    &&& fields_for(m.partition_key_fields@, db, strs(args.partition_keys@))
                    &&& fields_for(m.clustering_key_fields@, db, strs(args.clustering_keys@))
                    &&& fields_for(m.primary_key_fields@, db, strs(args.partition_keys@) + strs(args.clustering_keys@))
                    &&& fields_for(m.local_secondary_index_fields@, db, strs(args.local_secondary_indexes@))
                },
                None => {
                    let db = db_fields_of(declared@);
                    !(all_named(db, strs(args.partition_keys@)) && all_named(db, strs(args.clustering_keys@))
                        && all_named(db, strs(args.local_secondary_indexes@)))
                },
            },
    {
        let db = db_fields(declared);
        let ghost dbs = db_fields_of(declared@);
        let ghost pkn = strs(args.partition_keys@);
        let ghost ckn = strs(args.clustering_keys@);
        let ghost lsn = strs(args.local_secondary_indexes@);
        proof {
            lemma_fields_for_transfer(Seq::empty(), db@, dbs, pkn);
            lemma_fields_for_transfer(Seq::empty(), db@, dbs, ckn);
            lemma_fields_for_transfer(Seq::empty(), db@, dbs, lsn);
        }
        let pk = match fields_named(&db, &args.partition_keys) { Some(v) => v, None => return None };
        let ck = match fields_named(&db, &args.clustering_keys) { Some(v) => v, None => return None };
        let lsi = match fields_named(&db, &args.local_secondary_indexes) { Some(v) => v, None => return None };
        let primary_names = args.primary_key();
        let primary = match fields_named(&db, &primary_names) {
            Some(v) => v,
            None => {
                proof {
                    assert forall|i: int| 0 <= i < pkn.len() + ckn.len() implies
                        #[trigger] first_field_named(db@, (pkn + ckn)[i]) is Some by {
                        if i < pkn.len() {
                            assert((pkn + ckn)[i] == pkn[i]);
                        } else {
                            assert((pkn + ckn)[i] == ckn[i - pkn.len()]);
                        }
                    }
                }
                return None;
            },
        };
        proof {
            lemma_fields_for_transfer(pk@, db@, dbs, pkn);
            lemma_fields_for_transfer(ck@, db@, dbs, ckn);
            lemma_fields_for_transfer(lsi@, db@, dbs, lsn);
            lemma_fields_for_transfer(primary@, db@, dbs, pkn + ckn);
        }
        Some(ModelFields {
            db_fields: db,
            primary_key_fields: primary,
            partition_key_fields: pk,
            clustering_key_fields: ck,
            local_secondary_index_fields: lsi,
        })
    }
}

/// Sequences of the same fields find the same fields by name.
proof fn lemma_same_fields_named(a: Seq<ModelField>, b: Seq<ModelField>)
    requires
        same_fields(a, b),
    ensures
        forall|n: Seq<char>| #[trigger] first_field_named(a, n) is Some == first_field_named(b, n) is Some,
        forall|n: Seq<char>| first_field_named(a, n) is Some ==> same_field(#[trigger] first_field_named(a, n)->Some_0, first_field_named(b, n)->Some_0),
    decreases a.len(),
{
    if a.len() > 0 {
        assert(same_field(a[0], b[0]));
        let a1 = a.drop_first();
        let b1 = b.drop_first();
        assert forall|i: int| 0 <= i < a1.len() implies same_field(#[trigger] a1[i], b1[i]) by {
            assert(a1[i] == a[i + 1]);
            assert(b1[i] == b[i + 1]);
        }
        lemma_same_fields_named(a1, b1);
        assert forall|n: Seq<char>| #[trigger] first_field_named(a, n) is Some == first_field_named(b, n) is Some by {
            if a[0].name@ == n {
            } else {
                assert(first_field_named(a, n) == first_field_named(a1, n));
                assert(first_field_named(b, n) == first_field_named(b1, n));
            }
        }
        assert forall|n: Seq<char>| first_field_named(a, n) is Some implies same_field(#[trigger] first_field_named(a, n)->Some_0, first_field_named(b, n)->Some_0) by {
            if a[0].name@ == n {
            } else {
                assert(first_field_named(a, n) == first_field_named(a1, n));
                assert(first_field_named(b, n) == first_field_named(b1, n));
            }
        }
    }
}

/// What holds of the fields named in one sequence holds in a sequence of the same fields.
proof fn lemma_fields_for_transfer(v: Seq<ModelField>, a: Seq<ModelField>, b: Seq<ModelField>, names: Seq<Seq<char>>)
    requires
        same_fields(a, b),
    ensures
        all_named(a, names) == all_named(b, names),
        all_named(a, names) && fields_for(v, a, names) ==> fields_for(v, b, names),
{
    lemma_same_fields_named(a, b);
    assert(all_named(a, names) == all_named(b, names)) by {
        if all_named(a, names) {
            assert forall|i: int| 0 <= i < names.len() implies #[trigger] first_field_named(b, names[i]) is Some by {
                assert(first_field_named(a, names[i]) is Some);
            }
        }
        if all_named(b, names) {
            assert forall|i: int| 0 <= i < names.len() implies #[trigger] first_field_named(a, names[i]) is Some by {
                assert(first_field_named(b, names[i]) is Some);
            }
        }
    }
    if all_named(a, names) && fields_for(v, a, names) {
        assert forall|i: int| 0 <= i < names.len() implies #[trigger] same_field(v[i], first_field_named(b, names[i])->Some_0) by {
            assert(first_field_named(a, names[i]) is Some);
            assert(same_field(v[i], first_field_named(a, names[i])->Some_0));
            assert(same_field(first_field_named(a, names[i])->Some_0, first_field_named(b, names[i])->Some_0));
        }
    }
}

/// Where a field of a row read from the database gets its value.
#[derive(Debug, Clone, Copy, PartialEq, Eq, Structural)]
pub enum FieldSource {
    /// The column at this position of the row.
    Column(usize),
    /// The field's default value (an ignored field).
    Default,
}

/// The position in a row of the column of field `i`: the number of stored fields before it.
pub open spec fn db_index(fs: Seq<ModelField>, i: int) -> nat {
    db_fields_of(fs.take(i)).len()
}

/// Where each declared field of `fields` gets its value when a row is read: a stored field
/// from the next column, in order; an ignored field from its default.
pub fn row_layout(fields: &Vec<ModelField>) -> (res: Vec<FieldSource>)
    ensures
        res@.len() == fields@.len(),
        forall|i: int| 0 <= i < fields@.len() ==> #[trigger] res@[i] == (if fields@[i].ignored {
            FieldSource::Default
        } else {
            FieldSource::Column(db_index(fields@, i) as usize)
        }),
{
    let ghost p = is_stored();
    let mut res: Vec<FieldSource> = Vec::new();
    let n = fields.len();
    let mut col: usize = 0;
    let mut i: usize = 0;
    proof {
        reveal_with_fuel(Seq::filter, 1);
        assert(fields@.take(0) =~= Seq::<ModelField>::empty());
    }
    while i < n
        invariant
            n == fields.len(),
            p == is_stored(),
            i <= n,
            col <= i,
            col == db_index(fields@, i as int),
            res@.len() == i,
            forall|k: int| 0 <= k < i ==> #[trigger] res@[k] == (if fields@[k].ignored {
                FieldSource::Default
            } else {
                FieldSource::Column(db_index(fields@, k) as usize)
            }),
        decreases n - i,
    {
        let ghost prev = fields@.take(i as int);
        assert(fields@.take(i + 1) =~= prev.push(fields@[i as int]));
        proof { prev.lemma_filter_push(fields@[i as int], p); }
        if fields[i].ignored {
            res.push(FieldSource::Default);
        } else {
            res.push(FieldSource::Column(col));
            col = col + 1;
        }
        i = i + 1;
    }
    res
}

/// A row does not have one column per stored field.
#[derive(Debug, Clone, Copy, PartialEq, Eq, Structural)]
pub struct RowSizeError {
    pub expected: usize,
    pub actual: usize,
}

/// Checks that a row of `columns` columns has one column per stored field of `fields`.
pub fn check_row_size(fields: &Vec<ModelField>, columns: usize) -> (res: Result<(), RowSizeError>)
    ensures
        res is Ok <==> columns == db_fields_of(fields@).len(),
        res matches Err(e) ==> e.expected == db_fields_of(fields@).len() && e.actual == columns,
{
    let stored = db_fields(fields);
    if stored.len() == columns {
        Ok(())
    } else {
        Err(RowSizeError { expected: stored.len(), actual: columns })
    }
}

impl ModelFields {
    /// The database fields that are not part of the primary key (copies), in order.
    pub fn non_primary_key_db_fields(&self) -> (res: Vec<ModelField>)
        ensures
            same_fields(res@, non_primary_key_fields(*self)),
    {
        let ghost p = field_absent_from(names_of(self.primary_key_fields@));
        let mut res: Vec<ModelField> = Vec::new();
        let n = self.db_fields.len();
        let mut i: usize = 0;
        proof {
            reveal_with_fuel(Seq::filter, 1);
            assert(self.db_fields@.take(0) =~= Seq::<ModelField>::empty());
        }
        while i < n
            invariant
                n == self.db_fields.len(),
                p == field_absent_from(names_of(self.primary_key_fields@)),
                i <= n,
                same_fields(res@, self.db_fields@.take(i as int).filter(p)),
            decreases n - i,
        {
            let ghost prev = self.db_fields@.take(i as int);
            assert(self.db_fields@.take(i + 1) =~= prev.push(self.db_fields@[i as int]));
            proof { prev.lemma_filter_push(self.db_fields@[i as int], p); }
            if !has_field_named(&self.primary_key_fields, &self.db_fields[i].name) {
                let ghost old = res@;
                let c = copy_field(&self.db_fields[i]);
                res.push(c);
                let ghost target = prev.filter(p).push(self.db_fields@[i as int]);
                assert(self.db_fields@.take(i + 1).filter(p) == target);
                assert forall|k: int| 0 <= k < res@.len() implies #[trigger] same_field(res@[k], target[k]) by {
                    if k < old.len() {
                        assert(res@[k] == old[k]);
                        assert(target[k] == prev.filter(p)[k]);
                        assert(same_field(old[k], prev.filter(p)[k]));
                    } else {
                        assert(res@[k] == c);
                        assert(target[k] == self.db_fields@[i as int]);
                    }
                }
                assert(res@.len() == target.len());
                assert(same_fields(res@, target));
            } else {
                assert(!p(self.db_fields@[i as int]));
                assert(self.db_fields@.take(i + 1).filter(p) == prev.filter(p));
            }
            i = i + 1;
        }
        assert(self.db_fields@.take(n as int) =~= self.db_fields@);
        res
    }
}

/// Sequences of fields with the same names give the same clauses.
pub proof fn lemma_same_names(a: Seq<ModelField>, b: Seq<ModelField>)
    requires
        same_fields(a, b),
    ensures
        names_of(a) == names_of(b),
{
    assert(names_of(a) =~= names_of(b));
}

} // verus!
