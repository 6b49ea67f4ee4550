//! Table options that can be changed on an existing table.

use vstd::prelude::*;
use vstd::string::*;
use crate::text::{replace_str, replaced, trim_str, trimmed};

verus! {

/// Names what `regex::Regex::new(pattern)` followed by `replace_all(text, replacement)` gives:
/// `None` when the pattern does not compile, otherwise the text with every non-overlapping
/// match of the pattern replaced.
pub uninterp spec fn regex_replace_all_result(pattern: Seq<char>, text: Seq<char>, replacement: Seq<char>) -> Option<Seq<char>>;

/// Compiles `pattern` with `regex::Regex::new` and, when it compiles, replaces all its matches
/// in `text` by `replacement` with `Regex::replace_all`. The contract only ties the result to
/// the three arguments through `regex_replace_all_result`: the regular expression semantics are
/// not restated here.
#[verifier::external_body]
fn regex_replace_all(pattern: &str, text: &str, replacement: &str) -> (res: Option<String>)
    ensures
        match res {
            Some(s) => regex_replace_all_result(pattern@, text@, replacement@) == Some(s@),
            None => regex_replace_all_result(pattern@, text@, replacement@) is None,
        },
{
    match regex::Regex::new(pattern) {
        Ok(re) => Some(re.replace_all(text, replacement).into_owned()),
        Err(_) => None,
    }
}

/// A regular expression of the library failed to compile.
#[derive(Debug, Clone, Copy, PartialEq, Eq, Structural)]
pub enum PatternError {
    InvalidPattern,
}

/// The pattern of the `COMPACT STORAGE` option, with the `AND` that may follow it.
pub open spec fn compact_storage_pattern() -> Seq<char> {
    "(?i)\\bCOMPACT STORAGE\\b\\s*(AND\\s*)?"@
}

/// The pattern of the `CLUSTERING ORDER BY (...)` option, with the `AND` that may follow it.
pub open spec fn clustering_order_pattern() -> Seq<char> {
    "(?i)\\bCLUSTERING ORDER BY\\b[^)]+\\)\\s*(AND\\s*)?"@
}

/// The options that `ALTER TABLE` accepts, once the rest is stripped: `None` when nothing is
/// left.
pub open spec fn alter_options(stripped: Seq<char>) -> Option<Seq<char>> {
    if stripped.len() == 0 { None } else { Some(stripped) }
}

/// The table options that `ALTER TABLE ... WITH` can set, from the options of a table
/// definition: every `WITH` removed, the text trimmed, then the compact storage and clustering
/// order options (which `ALTER TABLE` does not accept) removed. `Err` when one of the two
/// patterns does not compile; `Ok(None)` when there are no options or nothing is left.
pub open spec fn alterable_options(table_options: Option<Seq<char>>) -> Result<Option<Seq<char>>, PatternError> {
    match table_options {
        None => Ok(None),
        Some(o) => {
            let t = trimmed(replaced(o, "WITH"@, ""@));
            match regex_replace_all_result(compact_storage_pattern(), t, ""@) {
                None => Err(PatternError::InvalidPattern),
                Some(a) => match regex_replace_all_result(clustering_order_pattern(), a, ""@) {
                    None => Err(PatternError::InvalidPattern),
                    Some(b) => Ok(alter_options(b)),
                },
            }
        },
    }
}

/// The options left once the unsupported ones are stripped, or `None` when none is left.
pub fn alter_options_from(stripped: String) -> (res: Option<String>)
    ensures
        match res {
            Some(s) => alter_options(stripped@) == Some(s@),
            None => alter_options(stripped@) is None,
        },
{
    if stripped.as_str().is_empty() {
        None
    } else {
        Some(stripped)
    }
}

/// The options of `table_options` that `ALTER TABLE` can set (see `alterable_options`).
pub fn extract_alter_table_options(table_options: &Option<String>) -> (res: Result<Option<String>, PatternError>)
    ensures
        match (res, table_options) {
            (Ok(Some(s)), Some(o)) => alterable_options(Some(o@)) == Ok::<Option<Seq<char>>, PatternError>(Some(s@)),
            (Ok(None), Some(o)) => alterable_options(Some(o@)) == Ok::<Option<Seq<char>>, PatternError>(None),
            (Err(e), Some(o)) => alterable_options(Some(o@)) == Err::<Option<Seq<char>>, PatternError>(e),
            (r, None) => r is Ok && r->Ok_0 is None,
        },
{
    match table_options {
        None => Ok(None),
        Some(o) => {
            proof {
                reveal_strlit("WITH");
            }
            let without_with = replace_str(o.as_str(), "WITH", "");
            let t = trim_str(without_with.as_str());
            let compact = "(?i)\\bCOMPACT STORAGE\\b\\s*(AND\\s*)?";
            let clustering = "(?i)\\bCLUSTERING ORDER BY\\b[^)]+\\)\\s*(AND\\s*)?";
            assert(compact@ == compact_storage_pattern());
            assert(clustering@ == clustering_order_pattern());
            match regex_replace_all(compact, t.as_str(), "") {
                None => Err(PatternError::InvalidPattern),
                Some(a) => match regex_replace_all(clustering, a.as_str(), "") {
                    None => Err(PatternError::InvalidPattern),
                    Some(b) => Ok(alter_options_from(b)),
                },
            }
        },
    }
}

} // verus!
