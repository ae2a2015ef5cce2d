//! Paths as text: joining, containment under a base, and the separator of
//! the platform.
//!
//! Nothing here touches the file system. A path is canonical when the file
//! system has resolved it; whether a canonical path lies under a base is then
//! a question about its text, and that question is answered here.

use crate::failure::Failure;
use crate::text::{chars_of, has_prefix, push_char, scan_until, until};
use vstd::prelude::*;

verus! {

/// Why a path is refused.
#[derive(Debug)]
pub enum PathError {
    /// The file system has nothing at the path.
    NotFound { path: String },
    /// The path does not lie under the workspace root.
    ContainmentViolation { path: String, root: String },
    /// The path holds a separator that no route may hold.
    SeparatorNotAllowed,
}

/// A `PathError` as a mathematical value.
pub enum PathFault {
    NotFound { path: Seq<char> },
    ContainmentViolation { path: Seq<char>, root: Seq<char> },
    SeparatorNotAllowed,
}

impl View for PathError {
    type V = PathFault;

    open spec fn view(&self) -> PathFault {
        match self {
            PathError::NotFound { path } => PathFault::NotFound { path: path@ },
            PathError::ContainmentViolation { path, root } => PathFault::ContainmentViolation {
                path: path@,
                root: root@,
            },
            PathError::SeparatorNotAllowed => PathFault::SeparatorNotAllowed,
        }
    }
}

impl PathError {
    /// The failure that the error stands for when it ends a request. What is
    /// not there is not found; a path that is refused has tried to leave
    /// the workspace.
    pub open spec fn spec_failure(&self) -> Failure {
        match self {
            PathError::NotFound { .. } => Failure::NotFound,
            _ => Failure::PathContainmentViolation,
        }
    }

    /// The failure that the error stands for when it ends a request.
    #[verifier::when_used_as_spec(spec_failure)]
    pub fn failure(&self) -> (r: Failure)
        ensures
            r == self.spec_failure(),
    {
        match self {
            PathError::NotFound { .. } => Failure::NotFound,
            _ => Failure::PathContainmentViolation,
        }
    }
}

/// `std::path::MAIN_SEPARATOR`: `/` on Unix and `\` on Windows.
#[verifier::external_body]
pub(crate) fn main_separator() -> (sep: char)
    ensures
        sep == '/' || sep == '\\',
{
    std::path::MAIN_SEPARATOR
}

/// `b` appended to `a` as a path: an absolute `b` replaces `a`, and a
/// separator is put between the two where `a` does not end in one.
pub open spec fn joined(a: Seq<char>, b: Seq<char>, sep: char) -> Seq<char> {
    if b.len() > 0 && b[0] == sep {
        b
    } else if a.len() == 0 || a.last() == sep {
        a + b
    } else {
        a + seq![sep] + b
    }
}

/// Whether `path` is `base` or continues it at a segment boundary.
pub open spec fn within(path: Seq<char>, base: Seq<char>, sep: char) -> bool {
    &&& base.len() > 0
    &&& base.is_prefix_of(path)
    &&& (path.len() == base.len() || base.last() == sep || path[base.len() as int] == sep)
}

/// Whether `segment` is one of the two names that the file system resolves
/// away.
pub open spec fn is_dot(segment: Seq<char>) -> bool {
    segment == seq!['.'] || segment == seq!['.', '.']
}

/// Whether no segment of `s` is `.` or `..`.
pub open spec fn dot_free(s: Seq<char>, sep: char) -> bool
    decreases s.len(),
{
    let segment = until(s, sep);
    &&& !is_dot(segment)
    &&& (segment.len() < s.len() ==> dot_free(s.skip(segment.len() as int + 1), sep))
}

/// Whether `path` lies under `base`: it is `base` or continues it at a
/// segment boundary, and what follows `base` holds no `.` or `..` that
/// could lead out again.
pub open spec fn contained(path: Seq<char>, base: Seq<char>, sep: char) -> bool {
    within(path, base, sep) && dot_free(path.skip(base.len() as int), sep)
}

/// A path that lies under a base continues the text of the base, so
/// that it names the base itself or something below it, and nothing in
/// what follows the base leads up again.
pub proof fn law_contained_descends(path: Seq<char>, base: Seq<char>, sep: char)
    requires
        contained(path, base, sep),
    ensures
        path.len() >= base.len(),
        path.subrange(0, base.len() as int) == base,
        path == base || base.last() == sep || path[base.len() as int] == sep,
        dot_free(path.skip(base.len() as int), sep),
{
}

/// A base lies under itself.
pub proof fn law_base_is_contained(base: Seq<char>, sep: char)
    requires
        base.len() > 0,
    ensures
        contained(base, base, sep),
{
    assert(base.skip(base.len() as int) =~= Seq::<char>::empty());
    assert(until(Seq::<char>::empty(), sep) =~= Seq::<char>::empty());
}

/// A path that only shares the beginning of its name with the base, and not
/// a whole segment, does not lie under it.
pub proof fn law_sibling_is_not_contained(path: Seq<char>, base: Seq<char>, sep: char)
    requires
        base.is_prefix_of(path),
        path.len() > base.len(),
        base.len() > 0,
        base.last() != sep,
        path[base.len() as int] != sep,
    ensures
        !contained(path, base, sep),
{
}

/// A path that steps up from the base by `..` does not lie under it.
pub proof fn law_no_way_up(path: Seq<char>, base: Seq<char>, sep: char)
    requires
        sep != '.',
        path.len() >= base.len() + 3,
        path[base.len() as int] == sep,
        path[base.len() as int + 1] == '.',
        path[base.len() as int + 2] == '.',
        path.len() == base.len() + 3 || path[base.len() as int + 3] == sep,
    ensures
        !contained(path, base, sep),
{
    let rest = path.skip(base.len() as int);
    assert(rest[0] == sep);
    assert(until(rest, sep) =~= Seq::<char>::empty());
    let up = rest.skip(1);
    assert(up[0] == '.' && up[1] == '.');
    let up1 = up.skip(1);
    let up2 = up1.skip(1);
    assert(up1[0] == '.');
    assert(up2.len() == 0 || up2[0] == sep);
    assert(until(up2, sep) =~= Seq::<char>::empty());
    assert(until(up1, sep) =~= seq!['.']);
    assert(until(up, sep) =~= seq!['.', '.']);
    assert(is_dot(until(up, sep)));
    assert(!dot_free(up, sep));
    assert(!dot_free(rest, sep));
}

/// Joins `b` to `a` as a path.
pub fn join(a: &str, b: &str, sep: char) -> (r: String)
    ensures
        r@ == joined(a@, b@, sep),
{
    let av = chars_of(a);
    let bv = chars_of(b);
    if bv.len() > 0 && bv[0] == sep {
        return b.to_owned();
    }
    let mut r = a.to_owned();
    if av.len() > 0 && av[av.len() - 1] != sep {
        push_char(&mut r, sep);
    }
    r.append(b);
    assert(r@ =~= joined(a@, b@, sep));
    r
}

/// Whether no segment of `v[from..]` is `.` or `..`.
pub fn is_dot_free(v: &Vec<char>, from: usize, sep: char) -> (r: bool)
    requires
        from <= v.len(),
    ensures
        r == dot_free(v@.skip(from as int), sep),
{
    let mut i: usize = from;
    loop
        invariant
            from <= i <= v.len(),
            dot_free(v@.skip(i as int), sep) == dot_free(v@.skip(from as int), sep),
        decreases v.len() - i,
    {
        let j = scan_until(v, i, sep);
        let n = j - i;
        proof {
            assert(v@.subrange(i as int, j as int).len() == n);
            if n >= 1 {
                assert(v@.subrange(i as int, j as int)[0] == v@[i as int]);
            }
            if n >= 2 {
                assert(v@.subrange(i as int, j as int)[1] == v@[i + 1]);
            }
        }
        if (n == 1 && v[i] == '.') || (n == 2 && v[i] == '.' && v[i + 1] == '.') {
            proof {
                assert(v@.subrange(i as int, j as int) =~= if n == 1 {
                    seq!['.']
                } else {
                    seq!['.', '.']
                });
            }
            return false;
        }
        if j >= v.len() {
            return true;
        }
        proof {
            assert(v@.skip(i as int).skip(n + 1) =~= v@.skip(j + 1));
        }
        i = j + 1;
    }
}

/// Whether `path` lies under `base`.
pub fn is_contained(path: &str, base: &str, sep: char) -> (r: bool)
    ensures
        r == contained(path@, base@, sep),
{
    let p = chars_of(path);
    let b = chars_of(base);
    if b.len() == 0 || !has_prefix(&p, &b) {
        return false;
    }
    if !(p.len() == b.len() || b[b.len() - 1] == sep || p[b.len()] == sep) {
        return false;
    }
    is_dot_free(&p, b.len(), sep)
}

} // verus!
