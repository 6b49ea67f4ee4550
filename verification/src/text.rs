//! Text helpers: joining, character classes and the string views used by contracts.

use vstd::prelude::*;
use vstd::string::*;

verus! {

/// The views of a sequence of strings.
pub open spec fn strs(v: Seq<String>) -> Seq<Seq<char>> {
    v.map_values(|s: String| s@)
}

/// `parts` joined with `sep` between consecutive elements.
pub open spec fn join(parts: Seq<Seq<char>>, sep: Seq<char>) -> Seq<char>
    decreases parts.len(),
{
    if parts.len() == 0 {
        Seq::empty()
    } else if parts.len() == 1 {
        parts[0]
    } else {
        join(parts.drop_last(), sep) + sep + parts.last()
    }
}

/// Joins the strings of `parts` with `sep` between consecutive elements.
pub fn join_strings(parts: &Vec<String>, sep: &str) -> (res: String)
    ensures
        res@ == join(strs(parts@), sep@),
{
    let mut res = String::new();
    let n = parts.len();
    let mut i: usize = 0;
    while i < n
        invariant
            n == parts.len(),
            i <= n,
            res@ == join(strs(parts@).take(i as int), sep@),
        decreases n - i,
    {
        let ghost prev = strs(parts@).take(i as int);
        if i > 0 {
            res.append(sep);
        }
        res.append(parts[i].as_str());
        assert(strs(parts@).take(i + 1).drop_last() =~= prev);
        i = i + 1;
    }
    assert(strs(parts@).take(n as int) =~= strs(parts@));
    res
}


/// The characters of `s`, in order.
pub fn chars_of(s: &str) -> (res: Vec<char>)
    ensures
        res@ == s@,
{
    let n = s.unicode_len();
    let mut res: Vec<char> = Vec::new();
    let mut i: usize = 0;
    while i < n
        invariant
            n == s@.len(),
            i <= n,
            res@ == s@.take(i as int),
        decreases n - i,
    {
        res.push(s.get_char(i));
        assert(s@.take(i + 1) =~= s@.take(i as int).push(s@[i as int]));
        i = i + 1;
    }
    assert(s@.take(n as int) =~= s@);
    res
}

/// Appends one character to a string (`String::push`).
#[verifier::external_body]
pub(crate) fn push_char(s: &mut String, c: char)
    ensures
        final(s)@ == old(s)@.push(c),
{
    s.push(c);
}

/// The string made of the characters of `v`, in order.
pub fn string_of(v: &Vec<char>) -> (res: String)
    ensures
        res@ == v@,
{
    let mut res = String::new();
    let n = v.len();
    let mut i: usize = 0;
    while i < n
        invariant
            n == v.len(),
            i <= n,
            res@ == v@.take(i as int),
        decreases n - i,
    {
        push_char(&mut res, v[i]);
        assert(v@.take(i + 1) =~= v@.take(i as int).push(v@[i as int]));
        i = i + 1;
    }
    assert(v@.take(n as int) =~= v@);
    res
}

/// A fresh string holding the characters of `s`.
pub fn owned(s: &str) -> (res: String)
    ensures
        res@ == s@,
{
    let mut res = String::new();
    res.append(s);
    res
}

/// Names what `str::to_lowercase` returns: the Unicode lowercase mapping of a string.
pub uninterp spec fn lowercase(s: Seq<char>) -> Seq<char>;

/// Names what `str::to_uppercase` returns: the Unicode uppercase mapping of a string.
pub uninterp spec fn uppercase(s: Seq<char>) -> Seq<char>;

/// Calls `str::to_lowercase`; the contract only ties the result to the argument through
/// the name `lowercase`, because the Unicode case tables are not restated here.
#[verifier::external_body]
pub(crate) fn to_lowercase(s: &str) -> (res: String)
    ensures
        res@ == lowercase(s@),
{
    s.to_lowercase()
}

/// Calls `str::to_uppercase`; the contract only ties the result to the argument through
/// the name `uppercase`, because the Unicode case tables are not restated here.
#[verifier::external_body]
pub(crate) fn to_uppercase(s: &str) -> (res: String)
    ensures
        res@ == uppercase(s@),
{
    s.to_uppercase()
}

/// `s` with every space character removed.
pub open spec fn without_spaces(s: Seq<char>) -> Seq<char> {
    s.filter(not_space())
}

/// How many times `c` occurs in `s`.
pub open spec fn count_char(s: Seq<char>, c: char) -> nat
    decreases s.len(),
{
    if s.len() == 0 {
        0
    } else {
        count_char(s.drop_last(), c) + if s.last() == c { 1nat } else { 0nat }
    }
}

/// The predicate that keeps every character but the space.
pub open spec fn not_space() -> spec_fn(char) -> bool {
    |c: char| c != ' '
}

/// Removes every space (`' '`) from `s`.
pub fn remove_spaces(s: &str) -> (res: String)
    ensures
        res@ == without_spaces(s@),
{
    let v = chars_of(s);
    let mut res = String::new();
    let n = v.len();
    let mut i: usize = 0;
    proof {
        reveal_with_fuel(Seq::filter, 1);
        assert(v@.take(0) =~= Seq::<char>::empty());
    }
    while i < n
        invariant
            n == v.len(),
            v@ == s@,
            i <= n,
            res@ == without_spaces(v@.take(i as int)),
        decreases n - i,
    {
        let c = v[i];
        if c != ' ' {
            push_char(&mut res, c);
        }
        assert(v@.take(i + 1) =~= v@.take(i as int).push(c));
        proof {
            v@.take(i as int).lemma_filter_push(c, not_space());
        }
        i = i + 1;
    }
    assert(v@.take(n as int) =~= v@);
    res
}

/// The normal form under which two CQL type names are compared: lowercase, without spaces.
pub open spec fn normalized_type(t: Seq<char>) -> Seq<char> {
    without_spaces(lowercase(t))
}

/// Lowercases a CQL type name and removes its spaces.
pub fn normalize_type(t: &str) -> (res: String)
    ensures
        res@ == normalized_type(t@),
{
    let lower = to_lowercase(t);
    remove_spaces(lower.as_str())
}

/// Whether `c` is an ASCII capital letter.
pub open spec fn is_ascii_upper(c: char) -> bool {
    'A' <= c && c <= 'Z'
}

/// The ASCII lowercase letter of a capital letter; any other character is kept.
pub open spec fn ascii_lower(c: char) -> char {
    if is_ascii_upper(c) { ((c as u32) + 32) as char } else { c }
}

/// The snake-case spelling of one character of a camel-case name at position `i`.
pub open spec fn snake_piece(c: char, i: int) -> Seq<char> {
    if is_ascii_upper(c) {
        if i == 0 { seq![ascii_lower(c)] } else { seq!['_', ascii_lower(c)] }
    } else {
        seq![c]
    }
}

/// Snake case of a camel-case name: every ASCII capital letter becomes its lowercase letter,
/// preceded by `_` unless it is the first character.
pub open spec fn snake_case(s: Seq<char>) -> Seq<char>
    decreases s.len(),
{
    if s.len() == 0 {
        Seq::empty()
    } else {
        snake_case(s.drop_last()) + snake_piece(s.last(), s.len() - 1)
    }
}

/// Whether `c` is an ASCII small letter.
pub open spec fn is_ascii_lower(c: char) -> bool {
    'a' <= c && c <= 'z'
}

/// The ASCII capital letter of a small letter; any other character is kept.
pub open spec fn ascii_upper(c: char) -> char {
    if is_ascii_lower(c) { ((c as u32) - 32) as char } else { c }
}

/// Capitalizes an ASCII small letter.
pub fn upper_ascii_char(c: char) -> (res: char)
    ensures
        res == ascii_upper(c),
{
    if 'a' <= c && c <= 'z' {
        let b: u8 = (c as u8) - 32;
        b as char
    } else {
        c
    }
}

fn lower_ascii_char(c: char) -> (res: char)
    ensures
        res == ascii_lower(c),
{
    if 'A' <= c && c <= 'Z' {
        let b: u8 = (c as u8) + 32;
        b as char
    } else {
        c
    }
}

/// Converts a camel-case name to snake case (`UserPost` becomes `user_post`).
pub fn to_snake_case(s: &str) -> (res: String)
    ensures
        res@ == snake_case(s@),
{
    let v = chars_of(s);
    let mut res = String::new();
    let n = v.len();
    let mut i: usize = 0;
    while i < n
        invariant
            n == v.len(),
            v@ == s@,
            i <= n,
            res@ == snake_case(v@.take(i as int)),
        decreases n - i,
    {
        let c = v[i];
        assert(v@.take(i + 1).drop_last() =~= v@.take(i as int));
        if 'A' <= c && c <= 'Z' {
            if i > 0 {
                push_char(&mut res, '_');
            }
            push_char(&mut res, lower_ascii_char(c));
        } else {
            push_char(&mut res, c);
        }
        i = i + 1;
    }
    assert(v@.take(n as int) =~= v@);
    res
}


/// Whether `pat` occurs in `s` starting at position `i`.
pub open spec fn occurs_at(s: Seq<char>, pat: Seq<char>, i: int) -> bool {
    0 <= i && i + pat.len() <= s.len() && s.subrange(i, i + pat.len()) == pat
}

/// Whether `pat` occurs anywhere in `s`.
pub open spec fn has_substring(s: Seq<char>, pat: Seq<char>) -> bool {
    exists|i: int| occurs_at(s, pat, i)
}

/// `s` with every occurrence of the non-empty `pat` replaced by `rep`, scanning from the left
/// and never overlapping two replaced occurrences (what `str::replace` does).
pub open spec fn replaced(s: Seq<char>, pat: Seq<char>, rep: Seq<char>) -> Seq<char>
    decreases s.len(),
{
    if s.len() == 0 || pat.len() == 0 {
        s
    } else if occurs_at(s, pat, 0) {
        rep + replaced(s.skip(pat.len() as int), pat, rep)
    } else {
        seq![s[0]] + replaced(s.skip(1), pat, rep)
    }
}

/// Whether `pat` occurs in `v` at position `i` (compared character by character).
fn matches_at(v: &Vec<char>, pat: &Vec<char>, i: usize) -> (res: bool)
    requires
        i <= v.len(),
    ensures
        res == occurs_at(v@, pat@, i as int),
{
    if pat.len() > v.len() - i {
        return false;
    }
    let mut j: usize = 0;
    while j < pat.len()
        invariant
            i + pat.len() <= v.len(),
            j <= pat.len(),
            forall|k: int| 0 <= k < j ==> v@[i + k] == pat@[k],
        decreases pat.len() - j,
    {
        if v[i + j] != pat[j] {
            assert(v@.subrange(i as int, i + pat.len())[j as int] != pat@[j as int]);
            return false;
        }
        j = j + 1;
    }
    assert(v@.subrange(i as int, i + pat.len()) =~= pat@);
    true
}

/// Whether `pat` occurs in `s`.
pub fn contains_str(s: &str, pat: &str) -> (res: bool)
    ensures
        res == has_substring(s@, pat@),
{
    let v = chars_of(s);
    let p = chars_of(pat);
    let mut i: usize = 0;
    loop
        invariant
            v@ == s@,
            p@ == pat@,
            i <= v.len(),
            forall|k: int| 0 <= k < i ==> !occurs_at(s@, pat@, k),
        ensures
            forall|k: int| 0 <= k <= v.len() ==> !occurs_at(s@, pat@, k),
        decreases v.len() - i,
    {
        if matches_at(&v, &p, i) {
            return true;
        }
        if i == v.len() {
            break;
        }
        i = i + 1;
    }
    false
}

/// Replaces every occurrence of the non-empty `pat` in `s` by `rep` (`str::replace`).
pub fn replace_str(s: &str, pat: &str, rep: &str) -> (res: String)
    requires
        pat@.len() > 0,
    ensures
        res@ == replaced(s@, pat@, rep@),
{
    let v = chars_of(s);
    let p = chars_of(pat);
    let r = chars_of(rep);
    let mut res = String::new();
    let n = v.len();
    let mut i: usize = 0;
    assert(v@.skip(0) =~= v@);
    while i < n
        invariant
            n == v.len(),
            v@ == s@,
            p@ == pat@,
            r@ == rep@,
            pat@.len() > 0,
            i <= n,
            res@ + replaced(v@.skip(i as int), p@, r@) == replaced(v@, p@, r@),
        decreases n - i,
    {
        let ghost rest = v@.skip(i as int);
        if matches_at(&v, &p, i) {
            assert(rest.subrange(0, p@.len() as int) =~= v@.subrange(i as int, i + p@.len()));
            assert(rest.skip(p@.len() as int) =~= v@.skip(i + p@.len()));
            let ghost old_res = res@;
            res.append(rep);
            assert(replaced(rest, p@, r@) == r@ + replaced(rest.skip(p@.len() as int), p@, r@));
            assert(res@ + replaced(v@.skip(i + p@.len()), p@, r@) =~= old_res + (r@ + replaced(rest.skip(p@.len() as int), p@, r@)));
            i = i + p.len();
        } else {
            assert(!occurs_at(rest, p@, 0)) by {
                if occurs_at(rest, p@, 0) {
                    assert(rest.subrange(0, p@.len() as int) =~= v@.subrange(i as int, i + p@.len()));
                }
            }
            assert(rest.skip(1) =~= v@.skip(i + 1));
            push_char(&mut res, v[i]);
            assert(replaced(rest, p@, r@) == seq![rest[0]] + replaced(rest.skip(1), p@, r@));
            assert(res@ + replaced(v@.skip(i + 1), p@, r@) =~= (res@.drop_last() + seq![rest[0]]) + replaced(rest.skip(1), p@, r@));
            i = i + 1;
        }
    }
    assert(v@.skip(n as int) =~= Seq::<char>::empty());
    res
}

/// Whether `c` is white space in the sense of Unicode's `White_Space` property, which is
/// what `char::is_whitespace` and `str::trim` use.
pub open spec fn is_white_space(c: char) -> bool {
    ||| ('\u{9}' <= c && c <= '\u{d}')
    ||| c == ' '
    ||| c == '\u{85}'
    ||| c == '\u{a0}'
    ||| c == '\u{1680}'
    ||| ('\u{2000}' <= c && c <= '\u{200a}')
    ||| c == '\u{2028}'
    ||| c == '\u{2029}'
    ||| c == '\u{202f}'
    ||| c == '\u{205f}'
    ||| c == '\u{3000}'
}

fn char_is_white_space(c: char) -> (res: bool)
    ensures
        res == is_white_space(c),
{
    ('\u{9}' <= c && c <= '\u{d}') || c == ' ' || c == '\u{85}' || c == '\u{a0}' || c == '\u{1680}'
        || ('\u{2000}' <= c && c <= '\u{200a}') || c == '\u{2028}' || c == '\u{2029}'
        || c == '\u{202f}' || c == '\u{205f}' || c == '\u{3000}'
}

/// `s` without its leading white space.
pub open spec fn trimmed_start(s: Seq<char>) -> Seq<char>
    decreases s.len(),
{
    if s.len() > 0 && is_white_space(s[0]) {
        trimmed_start(s.drop_first())
    } else {
        s
    }
}

/// `s` without its trailing white space.
pub open spec fn trimmed_end(s: Seq<char>) -> Seq<char>
    decreases s.len(),
{
    if s.len() > 0 && is_white_space(s.last()) {
        trimmed_end(s.drop_last())
    } else {
        s
    }
}

/// `s` without leading and trailing white space (what `str::trim` returns).
pub open spec fn trimmed(s: Seq<char>) -> Seq<char> {
    trimmed_end(trimmed_start(s))
}

/// The number of leading white-space characters of `v`.
fn leading_white_space(v: &Vec<char>) -> (a: usize)
    ensures
        a <= v.len(),
        trimmed_start(v@) == v@.skip(a as int),
{
    let n = v.len();
    let mut a: usize = 0;
    assert(v@.skip(0) =~= v@);
    while a < n && char_is_white_space(v[a])
        invariant
            n == v.len(),
            a <= n,
            trimmed_start(v@) == trimmed_start(v@.skip(a as int)),
        decreases n - a,
    {
        assert(v@.skip(a as int).drop_first() =~= v@.skip(a + 1));
        a = a + 1;
    }
    a
}

/// The end of `v.skip(a)` once its trailing white space is dropped.
fn end_without_white_space(v: &Vec<char>, a: usize) -> (b: usize)
    requires
        a <= v.len(),
    ensures
        a <= b <= v.len(),
        trimmed_end(v@.skip(a as int)) == v@.skip(a as int).take(b - a),
{
    let ghost t = v@.skip(a as int);
    let n = v.len();
    let mut b: usize = n;
    assert(t.take((n - a) as int) =~= t);
    while b > a && char_is_white_space(v[b - 1])
        invariant
            n == v.len(),
            t == v@.skip(a as int),
            a <= b <= n,
            trimmed_end(t) == trimmed_end(t.take(b - a)),
        decreases b,
    {
        assert(t.take(b - a).drop_last() =~= t.take(b - 1 - a));
        b = b - 1;
    }
    b
}

/// Removes leading and trailing white space (`str::trim`).
pub fn trim_str(s: &str) -> (res: String)
    ensures
        res@ == trimmed(s@),
{
    let v = chars_of(s);
    let a = leading_white_space(&v);
    let b = end_without_white_space(&v, a);
    let ghost t = v@.skip(a as int);
    let mut res = String::new();
    let mut k: usize = a;
    while k < b
        invariant
            v@ == s@,
            t == v@.skip(a as int),
            a <= k <= b <= v.len(),
            res@ == t.take(k - a),
        decreases b - k,
    {
        push_char(&mut res, v[k]);
        assert(t.take(k + 1 - a) =~= t.take(k - a).push(v@[k as int]));
        k = k + 1;
    }
    res
}

} // verus!
