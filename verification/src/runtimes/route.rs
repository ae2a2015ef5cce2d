//! From the path of a request to the directory of its route.
//!
//! A route path is made of segments separated by `/`. A segment that begins
//! with `=` stands for a route parameter: it names no directory, so it is
//! left out, together with the separator that follows it. What remains,
//! without separators at either end, is the directory of the route inside
//! the workspace.

use crate::path::{dot_free, main_separator, PathError, PathFault};
use crate::text::{
    chars_of, contains_char, scan_until, skip_run, skip_run_back, string_of, string_of_range,
    trim_end,
    trim_start, until,
};
use vstd::prelude::*;

verus! {

/// `url_path` with each `/` replaced by the separator `sep`.
pub open spec fn platform_path(url_path: Seq<char>, sep: char) -> Seq<char> {
    url_path.map_values(
        |c: char|
            if c == '/' {
                sep
            } else {
                c
            },
    )
}

/// `s` without its parameter segments: every segment that begins with `=`
/// is left out, together with the separator that follows it.
pub open spec fn collapsed(s: Seq<char>, sep: char) -> Seq<char>
    decreases s.len(),
{
    let segment = until(s, sep);
    let is_param = segment.len() > 0 && segment[0] == '=';
    if segment.len() < s.len() {
        let rest = collapsed(s.skip(segment.len() as int + 1), sep);
        if is_param {
            rest
        } else {
            segment + seq![sep] + rest
        }
    } else if is_param {
        Seq::empty()
    } else {
        segment
    }
}

/// The directory of the route that `platform` names: its parameter
/// segments left out, and no separator at either end.
pub open spec fn route_directory(platform: Seq<char>, sep: char) -> Seq<char> {
    trim_start(trim_end(collapsed(platform, sep), sep), sep)
}

/// What converting `url_path` to a platform path comes to.
pub open spec fn platform_path_of(url_path: Seq<char>, sep: char) -> Result<Seq<char>, PathFault> {
    if url_path.contains('\\') {
        Err(PathFault::SeparatorNotAllowed)
    } else {
        Ok(platform_path(url_path, sep))
    }
}

/// What resolving `url_path` comes to.
pub open spec fn resolved(url_path: Seq<char>, sep: char) -> Result<Seq<char>, PathFault> {
    if url_path.contains('\\') {
        Err(PathFault::SeparatorNotAllowed)
    } else {
        Ok(route_directory(platform_path(url_path, sep), sep))
    }
}

/// Whether `r` is the result `expected`, both sides taken by their view.
pub open spec fn is_route_result(
    r: Result<Vec<char>, PathError>,
    expected: Result<Seq<char>, PathFault>,
) -> bool {
    match r {
        Ok(p) => expected == Ok::<Seq<char>, PathFault>(p@),
        Err(e) => expected == Err::<Seq<char>, PathFault>(e@),
    }
}

/// Whether no segment of `s` stands for a route parameter.
pub open spec fn parameter_free(s: Seq<char>, sep: char) -> bool
    decreases s.len(),
{
    let segment = until(s, sep);
    &&& !(segment.len() > 0 && segment[0] == '=')
    &&& (segment.len() < s.len() ==> parameter_free(s.skip(segment.len() as int + 1), sep))
}

/// The first segment of a text that begins with `a`, then a separator, is
/// `a`, where `a` holds no separator itself.
proof fn lemma_until_stops_at_separator(a: Seq<char>, b: Seq<char>, sep: char)
    requires
        !a.contains(sep),
    ensures
        until(a + seq![sep] + b, sep) == a,
    decreases a.len(),
{
    let whole = a + seq![sep] + b;
    if a.len() == 0 {
        assert(whole[0] == sep);
        assert(until(whole, sep) =~= a);
    } else {
        assert(whole[0] == a[0]);
        assert(a.contains(a[0]));
        let tail = a.skip(1);
        assert(!tail.contains(sep)) by {
            if tail.contains(sep) {
                let i = choose|i: int| 0 <= i < tail.len() && tail[i] == sep;
                assert(a[i + 1] == sep);
            }
        }
        assert(whole.skip(1) =~= tail + seq![sep] + b);
        lemma_until_stops_at_separator(tail, b, sep);
        assert(until(whole, sep) =~= a);
    }
}

/// A text that holds no separator is its own first segment.
proof fn lemma_until_of_one_segment(a: Seq<char>, sep: char)
    requires
        !a.contains(sep),
    ensures
        until(a, sep) == a,
    decreases a.len(),
{
    if a.len() > 0 {
        assert(a.contains(a[0]));
        let tail = a.skip(1);
        assert(!tail.contains(sep)) by {
            if tail.contains(sep) {
                let i = choose|i: int| 0 <= i < tail.len() && tail[i] == sep;
                assert(a[i + 1] == sep);
            }
        }
        lemma_until_of_one_segment(tail, sep);
        assert(until(a, sep) =~= a);
    } else {
        assert(until(a, sep) =~= a);
    }
}

/// No parameter segment is left in a path once it is collapsed.
pub proof fn law_collapsed_has_no_parameter(s: Seq<char>, sep: char)
    ensures
        parameter_free(collapsed(s, sep), sep),
    decreases s.len(),
{
    let segment = until(s, sep);
    let is_param = segment.len() > 0 && segment[0] == '=';
    crate::text::lemma_until(s, sep);
    if segment.len() < s.len() {
        let rest = s.skip(segment.len() as int + 1);
        law_collapsed_has_no_parameter(rest, sep);
        if !is_param {
            let kept = collapsed(rest, sep);
            lemma_until_stops_at_separator(segment, kept, sep);
            let whole = segment + seq![sep] + kept;
            assert(whole.skip(segment.len() as int + 1) =~= kept);
        }
    } else if is_param {
        assert(until(Seq::<char>::empty(), sep) =~= Seq::<char>::empty());
    } else {
        lemma_until_of_one_segment(segment, sep);
    }
}

/// Taking the separators off the start of a path brings no parameter
/// segment into it.
proof fn lemma_trim_start_keeps_parameter_free(s: Seq<char>, sep: char)
    requires
        parameter_free(s, sep),
    ensures
        parameter_free(trim_start(s, sep), sep),
    decreases s.len(),
{
    if s.len() > 0 && s[0] == sep {
        assert(until(s, sep) =~= Seq::<char>::empty());
        assert(s.skip(until(s, sep).len() as int + 1) =~= s.skip(1));
        lemma_trim_start_keeps_parameter_free(s.skip(1), sep);
    }
}

/// Taking one separator off the end of a path brings no parameter segment
/// into it.
proof fn lemma_drop_last_keeps_parameter_free(s: Seq<char>, sep: char)
    requires
        parameter_free(s, sep),
        s.len() > 0,
        s.last() == sep,
    ensures
        parameter_free(s.drop_last(), sep),
    decreases s.len(),
{
    let segment = until(s, sep);
    crate::text::lemma_until(s, sep);
    let n = segment.len() as int;
    assert(n < s.len()) by {
        if n == s.len() {
            assert(segment =~= s);
            assert(segment[n - 1] == sep);
            assert(segment.contains(sep));
        }
    }
    let rest = s.skip(n + 1);
    let shorter = s.drop_last();
    if rest.len() == 0 {
        assert(shorter =~= segment);
        lemma_until_of_one_segment(segment, sep);
    } else {
        assert(rest.last() == sep);
        lemma_drop_last_keeps_parameter_free(rest, sep);
        assert(shorter =~= segment + seq![sep] + rest.drop_last());
        lemma_until_stops_at_separator(segment, rest.drop_last(), sep);
        assert(shorter.skip(n + 1) =~= rest.drop_last());
    }
}

/// Taking the separators off the end of a path brings no parameter
/// segment into it.
proof fn lemma_trim_end_keeps_parameter_free(s: Seq<char>, sep: char)
    requires
        parameter_free(s, sep),
    ensures
        parameter_free(trim_end(s, sep), sep),
    decreases s.len(),
{
    if s.len() > 0 && s.last() == sep {
        lemma_drop_last_keeps_parameter_free(s, sep);
        lemma_trim_end_keeps_parameter_free(s.drop_last(), sep);
    }
}

/// The directory of a route holds no parameter segment, and no separator
/// at its start or at its end.
pub proof fn law_route_directory_is_plain(platform: Seq<char>, sep: char)
    ensures
        parameter_free(route_directory(platform, sep), sep),
        route_directory(platform, sep).len() > 0 ==> route_directory(platform, sep).first() != sep
            && route_directory(platform, sep).last() != sep,
{
    let kept = collapsed(platform, sep);
    let ended = trim_end(kept, sep);
    let directory = trim_start(ended, sep);
    law_collapsed_has_no_parameter(platform, sep);
    lemma_trim_end_keeps_parameter_free(kept, sep);
    lemma_trim_start_keeps_parameter_free(ended, sep);
    crate::text::lemma_trim_end_is_take(kept, sep);
    crate::text::lemma_trim_start_is_skip(ended, sep);
    if directory.len() > 0 {
        let k = crate::text::leading_run(ended, sep) as int;
        assert(directory.first() == ended[k]);
        assert(directory.last() == ended.last());
        let run = crate::text::trailing_run(kept, sep) as int;
        assert(ended.last() == kept[kept.len() - run - 1]);
    }
}

/// Collapsing brings no `.` or `..` segment into a path: every segment
/// that is left was a segment before.
proof fn lemma_collapsed_keeps_dot_free(s: Seq<char>, sep: char)
    requires
        dot_free(s, sep),
    ensures
        dot_free(collapsed(s, sep), sep),
    decreases s.len(),
{
    let segment = until(s, sep);
    let is_param = segment.len() > 0 && segment[0] == '=';
    crate::text::lemma_until(s, sep);
    if segment.len() < s.len() {
        let rest = s.skip(segment.len() as int + 1);
        lemma_collapsed_keeps_dot_free(rest, sep);
        if !is_param {
            let kept = collapsed(rest, sep);
            lemma_until_stops_at_separator(segment, kept, sep);
            let whole = segment + seq![sep] + kept;
            assert(whole.skip(segment.len() as int + 1) =~= kept);
        }
    } else if is_param {
        assert(until(Seq::<char>::empty(), sep) =~= Seq::<char>::empty());
    } else {
        lemma_until_of_one_segment(segment, sep);
    }
}

/// Taking the separators off the start of a path brings no `.` or `..`
/// segment into it.
proof fn lemma_trim_start_keeps_dot_free(s: Seq<char>, sep: char)
    requires
        dot_free(s, sep),
    ensures
        dot_free(trim_start(s, sep), sep),
    decreases s.len(),
{
    if s.len() > 0 && s[0] == sep {
        assert(until(s, sep) =~= Seq::<char>::empty());
        assert(s.skip(until(s, sep).len() as int + 1) =~= s.skip(1));
        lemma_trim_start_keeps_dot_free(s.skip(1), sep);
    }
}

/// Taking one separator off the end of a path brings no `.` or `..`
/// segment into it.
proof fn lemma_drop_last_keeps_dot_free(s: Seq<char>, sep: char)
    requires
        dot_free(s, sep),
        s.len() > 0,
        s.last() == sep,
    ensures
        dot_free(s.drop_last(), sep),
    decreases s.len(),
{
    let segment = until(s, sep);
    crate::text::lemma_until(s, sep);
    let n = segment.len() as int;
    assert(n < s.len()) by {
        if n == s.len() {
            assert(segment =~= s);
            assert(segment[n - 1] == sep);
            assert(segment.contains(sep));
        }
    }
    let rest = s.skip(n + 1);
    let shorter = s.drop_last();
    if rest.len() == 0 {
        assert(shorter =~= segment);
        lemma_until_of_one_segment(segment, sep);
    } else {
        assert(rest.last() == sep);
        lemma_drop_last_keeps_dot_free(rest, sep);
        assert(shorter =~= segment + seq![sep] + rest.drop_last());
        lemma_until_stops_at_separator(segment, rest.drop_last(), sep);
        assert(shorter.skip(n + 1) =~= rest.drop_last());
    }
}

/// Taking the separators off the end of a path brings no `.` or `..`
/// segment into it.
proof fn lemma_trim_end_keeps_dot_free(s: Seq<char>, sep: char)
    requires
        dot_free(s, sep),
    ensures
        dot_free(trim_end(s, sep), sep),
    decreases s.len(),
{
    if s.len() > 0 && s.last() == sep {
        lemma_drop_last_keeps_dot_free(s, sep);
        lemma_trim_end_keeps_dot_free(s.drop_last(), sep);
    }
}

/// Resolution opens no way up: the directory of a route holds no `.` and
/// no `..` segment, where the path that names the route holds none. Leaving
/// out a parameter never joins what stood on its two sides into such a
/// segment.
pub proof fn law_route_directory_opens_no_way_up(platform: Seq<char>, sep: char)
    requires
        dot_free(platform, sep),
    ensures
        dot_free(route_directory(platform, sep), sep),
{
    let kept = collapsed(platform, sep);
    lemma_collapsed_keeps_dot_free(platform, sep);
    lemma_trim_end_keeps_dot_free(kept, sep);
    lemma_trim_start_keeps_dot_free(trim_end(kept, sep), sep);
}

/// A url path that holds no `\`, no `.` segment and no `..` segment
/// resolves, and to a directory that holds no `.` and no `..` segment.
pub proof fn law_resolved_opens_no_way_up(url_path: Seq<char>)
    requires
        !url_path.contains('\\'),
        dot_free(url_path, '/'),
    ensures
        resolved(url_path, '/') is Ok,
        dot_free(resolved(url_path, '/')->Ok_0, '/'),
{
    assert(platform_path(url_path, '/') =~= url_path);
    law_route_directory_opens_no_way_up(url_path, '/');
}

/// A url path that holds a `\` resolves to nothing, whatever else it holds.
pub proof fn law_backslash_never_resolves(url_path: Seq<char>, sep: char)
    requires
        url_path.contains('\\'),
    ensures
        resolved(url_path, sep) == Err::<Seq<char>, PathFault>(PathFault::SeparatorNotAllowed),
{
}

/// Converts the characters of a url path to those of a platform path. The
/// separator `\` is not allowed in a url.
pub fn platform_chars(url_path: &str, sep: char) -> (r: Result<Vec<char>, PathError>)
    ensures
        is_route_result(r, platform_path_of(url_path@, sep)),
{
    let v = chars_of(url_path);
    if contains_char(&v, '\\') {
        return Err(PathError::SeparatorNotAllowed);
    }
    let mut out: Vec<char> = Vec::new();
    let mut i: usize = 0;
    while i < v.len()
        invariant
            i <= v.len(),
            out@ == platform_path(v@.take(i as int), sep),
        decreases v.len() - i,
    {
        let c = v[i];
        out.push(
            if c == '/' {
                sep
            } else {
                c
            },
        );
        proof {
            assert(out@ =~= platform_path(v@.take(i + 1), sep));
        }
        i += 1;
    }
    proof {
        assert(v@.take(v.len() as int) =~= v@);
    }
    Ok(out)
}

/// Leaves the parameter segments out of `p`.
pub fn collapse(p: &Vec<char>, sep: char) -> (out: Vec<char>)
    ensures
        out@ == collapsed(p@, sep),
{
    let mut out: Vec<char> = Vec::new();
    let mut i: usize = 0;
    let mut done = false;
    proof {
        assert(p@.skip(0) =~= p@);
        assert(out@ + collapsed(p@, sep) =~= collapsed(p@, sep));
    }
    while !done
        invariant
            i <= p.len(),
            !done ==> out@ + collapsed(p@.skip(i as int), sep) == collapsed(p@, sep),
            done ==> out@ == collapsed(p@, sep),
        decreases (if done { 0int } else { 1int }), p.len() - i,
    {
        let ghost before = out@;
        let ghost rest = p@.skip(i as int);
        let j = scan_until(p, i, sep);
        let is_param = j > i && p[i] == '=';
        proof {
            assert(p@.subrange(i as int, j as int).len() == j - i);
            if j > i {
                assert(p@.subrange(i as int, j as int)[0] == p@[i as int]);
            }
            assert(rest.len() == p.len() - i);
        }
        if !is_param {
            let mut k: usize = i;
            while k < j
                invariant
                    i <= k <= j <= p.len(),
                    out@ == before + p@.subrange(i as int, k as int),
                decreases j - k,
            {
                out.push(p[k]);
                proof {
                    assert(p@.subrange(i as int, k + 1) =~= p@.subrange(i as int, k as int).push(
                        p@[k as int],
                    ));
                }
                k += 1;
            }
        }
        if j < p.len() {
            if !is_param {
                out.push(sep);
            }
            proof {
                assert(rest.skip(j - i + 1) =~= p@.skip(j + 1));
                assert(out@ + collapsed(p@.skip(j + 1), sep) =~= before + collapsed(rest, sep));
            }
            i = j + 1;
        } else {
            proof {
                assert(out@ =~= before + collapsed(rest, sep));
            }
            done = true;
        }
    }
    out
}

/// Converts a url path to a platform path, written with the separator
/// `sep`.
pub fn to_platform_path(url_path: &str, sep: char) -> (r: Result<String, PathError>)
    ensures
        match r {
            Ok(p) => platform_path_of(url_path@, sep) == Ok::<Seq<char>, PathFault>(p@),
            Err(e) => platform_path_of(url_path@, sep) == Err::<Seq<char>, PathFault>(e@),
        },
{
    match platform_chars(url_path, sep) {
        Ok(v) => Ok(string_of(&v)),
        Err(e) => Err(e),
    }
}

/// Resolves a url path to the directory of its route, relative to the
/// workspace root and written with the separator `sep`.
pub fn resolve_url_path_with(url_path: &str, sep: char) -> (r: Result<String, PathError>)
    ensures
        match r {
            Ok(p) => resolved(url_path@, sep) == Ok::<Seq<char>, PathFault>(p@),
            Err(e) => resolved(url_path@, sep) == Err::<Seq<char>, PathFault>(e@),
        },
{
    let platform = match platform_chars(url_path, sep) {
        Ok(v) => v,
        Err(e) => {
            return Err(e);
        },
    };
    let kept = collapse(&platform, sep);
    let end = skip_run_back(&kept, kept.len(), sep);
    proof {
        assert(kept@.take(kept.len() as int) =~= kept@);
    }
    let mut trimmed = kept;
    trimmed.truncate(end);
    proof {
        assert(trimmed@ =~= trim_end(collapsed(platform@, sep), sep));
        assert(trimmed@.skip(0) =~= trimmed@);
    }
    let start = skip_run(&trimmed, 0, sep);
    let r = string_of_range(&trimmed, start, trimmed.len());
    proof {
        assert(trimmed@.subrange(start as int, trimmed.len() as int) =~= trimmed@.skip(
            start as int,
        ));
    }
    Ok(r)
}

/// Resolves a url path to the directory of its route, written with the
/// separator of the platform.
pub fn resolve_url_path(url_path: &str) -> (r: Result<String, PathError>)
    ensures
        exists|sep: char|
            (sep == '/' || sep == '\\') && match r {
                Ok(p) => #[trigger] resolved(url_path@, sep) == Ok::<Seq<char>, PathFault>(p@),
                Err(e) => resolved(url_path@, sep) == Err::<Seq<char>, PathFault>(e@),
            },
{
    resolve_url_path_with(url_path, main_separator())
}

} // verus!
