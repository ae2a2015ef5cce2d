//! Resource patterns and their translation into anchored regular expressions.
//!
//! A pattern is literal text in which `*` stands for one or more characters
//! other than `/`, and `**` for one or more characters of any kind, `/` and
//! the line feed among them. Every other character stands for itself.
//! Matching is delegated to the `regex` crate; what this module proves is the
//! text that is handed to it.

use crate::text::{chars_of, scan_until, skip_run, string_of_range, trim_start, until};
use regex::Regex;
use vstd::prelude::*;

verus! {

#[verifier::external_type_specification]
#[verifier::external_body]
pub struct ExRegex(regex::Regex);

#[verifier::external_type_specification]
#[verifier::external_body]
pub struct ExRegexError(regex::Error);

/// The texts that a compiled expression accepts: `regex::Regex::is_match`
/// returns `true` on exactly these.
pub uninterp spec fn regex_language(re: Regex) -> Set<Seq<char>>;

/// What `regex::Regex::new` makes of `source`: `None` where it refuses the
/// source, else the language of the expression it returns.
pub uninterp spec fn regex_compile(source: Seq<char>) -> Option<Set<Seq<char>>>;

/// `regex::Regex::new`. Compilation depends on the source text alone: the
/// same source is refused every time, or gives expressions that accept the same
/// texts every time.
#[verifier::external_body]
pub(crate) fn compile_regex(source: &str) -> (r: Result<Regex, regex::Error>)
    ensures
        match r {
            Ok(re) => regex_compile(source@) == Some(regex_language(re)),
            Err(_) => regex_compile(source@) is None,
        },
{
    Regex::new(source)
}

/// `regex::Regex::is_match`: whether the expression accepts `text`.
#[verifier::external_body]
pub(crate) fn regex_is_match(re: &Regex, text: &str) -> (r: bool)
    ensures
        r == regex_language(*re).contains(text@),
{
    re.is_match(text)
}

/// `Clone::clone` of `regex::Regex`: the copy accepts the same texts as
/// the expression it was made from.
#[verifier::external_body]
pub(crate) fn clone_regex(re: &Regex) -> (r: Regex)
    ensures
        regex_language(r) == regex_language(*re),
{
    re.clone()
}

/// The characters that have a meaning of their own in an expression.
pub open spec fn is_meta(c: char) -> bool {
    c == '\\' || c == '.' || c == '+' || c == '*' || c == '?' || c == '(' || c == ')' || c == '|'
        || c == '[' || c == ']' || c == '{' || c == '}' || c == '^' || c == '$' || c == '#' || c
        == '&' || c == '-' || c == '~'
}

/// `c` as it is written in an expression to stand for itself.
pub open spec fn escaped(c: char) -> Seq<char> {
    if is_meta(c) {
        seq!['\\', c]
    } else {
        seq![c]
    }
}

/// `regex::escape` on the one character `c`: a backslash goes before a
/// character that has a meaning of its own, and any other is left as it is.
#[verifier::external_body]
fn escape_char(c: char) -> (r: String)
    ensures
        r@ == escaped(c),
{
    let mut buf = [0u8; 4];
    regex::escape(c.encode_utf8(&mut buf))
}

/// The expression for `**`: one or more characters of any kind. The dot
/// stands in a group in which it accepts the line feed too.
pub open spec fn any_run() -> Seq<char> {
    seq!['(', '?', 's', ':', '.', ')', '+']
}

/// The expression for `*`: one or more characters other than the separator.
pub open spec fn segment_run() -> Seq<char> {
    seq!['[', '^', '/', ']', '+']
}

/// The body of the expression for `pattern`: wildcards replaced, everything
/// else escaped.
pub open spec fn translated(pattern: Seq<char>) -> Seq<char>
    decreases pattern.len(),
{
    if pattern.len() == 0 {
        Seq::empty()
    } else if pattern[0] == '*' && pattern.len() >= 2 && pattern[1] == '*' {
        any_run() + translated(pattern.skip(2))
    } else if pattern[0] == '*' {
        segment_run() + translated(pattern.skip(1))
    } else {
        escaped(pattern[0]) + translated(pattern.skip(1))
    }
}

/// The expression for `pattern`, anchored at both ends so that it accepts
/// whole texts only.
pub open spec fn pattern_source(pattern: Seq<char>) -> Seq<char> {
    seq!['^'] + translated(pattern) + seq!['$']
}

/// Writes the anchored expression for `pattern`.
pub fn source_of(pattern: &str) -> (source: String)
    ensures
        source@ == pattern_source(pattern@),
{
    let p = chars_of(pattern);
    let mut out = String::new();
    let mut i: usize = 0;
    proof {
        reveal_strlit("^");
        reveal_strlit("$");
        reveal_strlit("(?s:.)+");
        reveal_strlit("[^/]+");
        assert(p@.skip(0) =~= p@);
    }
    out.append("^");
    assert(out@ =~= seq!['^']);
    while i < p.len()
        invariant
            i <= p.len(),
            "$"@ == seq!['$'],
            "(?s:.)+"@ == any_run(),
            "[^/]+"@ == segment_run(),
            out@ + translated(p@.skip(i as int)) == seq!['^'] + translated(p@),
        decreases p.len() - i,
    {
        let ghost rest = p@.skip(i as int);
        let ghost before = out@;
        if p[i] == '*' && i + 1 < p.len() && p[i + 1] == '*' {
            out.append("(?s:.)+");
            proof {
                assert(rest.skip(2) =~= p@.skip(i + 2));
                assert(out@ + translated(p@.skip(i + 2)) =~= before + translated(rest));
            }
            i += 2;
        } else if p[i] == '*' {
            out.append("[^/]+");
            proof {
                assert(rest.skip(1) =~= p@.skip(i + 1));
                assert(out@ + translated(p@.skip(i + 1)) =~= before + translated(rest));
            }
            i += 1;
        } else {
            let e = escape_char(p[i]);
            out.append(e.as_str());
            proof {
                assert(rest.skip(1) =~= p@.skip(i + 1));
                assert(out@ + translated(p@.skip(i + 1)) =~= before + translated(rest));
            }
            i += 1;
        }
    }
    assert(translated(p@.skip(p.len() as int)) =~= Seq::<char>::empty());
    out.append("$");
    assert(out@ =~= pattern_source(pattern@));
    out
}

/// `root` joined to `path` by the delimiter; `path` alone under an empty root.
pub open spec fn composed(root: Seq<char>, path: Seq<char>) -> Seq<char> {
    if root.len() > 0 {
        root + seq!['$'] + path
    } else {
        path
    }
}

/// The name at the head of a database-style pattern: what stands between
/// the leading separators and the next one.
pub open spec fn leading_name(pattern: Seq<char>) -> Seq<char> {
    until(trim_start(pattern, '/'), '/')
}

/// Joins `root` and `path` by the delimiter; under an empty root the path
/// stands alone.
pub fn compose(root: &str, path: &str) -> (full: String)
    ensures
        full@ == composed(root@, path@),
{
    if !root.is_empty() {
        let mut full = root.to_owned();
        proof {
            reveal_strlit("$");
        }
        full.append("$");
        full.append(path);
        assert(full@ =~= root@ + seq!['$'] + path@);
        full
    } else {
        path.to_owned()
    }
}

/// Finds the name at the head of `p`: it is `p[from..to]`.
pub fn locate_leading_name(p: &Vec<char>) -> (range: (usize, usize))
    ensures
        range.0 <= range.1 <= p.len(),
        p@.subrange(range.0 as int, range.1 as int) == leading_name(p@),
{
    proof {
        assert(p@.skip(0) =~= p@);
    }
    let from = skip_run(p, 0, '/');
    let to = scan_until(p, from, '/');
    (from, to)
}

/// The name at the head of `pattern`.
pub fn leading_name_of(pattern: &str) -> (name: String)
    ensures
        name@ == leading_name(pattern@),
{
    let p = chars_of(pattern);
    let (from, to) = locate_leading_name(&p);
    string_of_range(&p, from, to)
}

} // verus!
