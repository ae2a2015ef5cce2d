//! What holds of compiling and checking, for every allow-list, root and
//! resource.

use crate::permissions::error::PermissionFault;
use crate::permissions::kind::PermissionKind;
use crate::permissions::matcher::{
    candidate, compile_one, is_compilation, is_compile_fault, is_first_fault, root_is_missing,
    root_text, some_accepts, verdict_of, NAME_LIMIT,
};
use crate::permissions::pattern::{
    any_run, composed, escaped, is_meta, leading_name, pattern_source, segment_run, translated,
};
use crate::permissions::{NamespaceRoot, ResourcePattern};
use vstd::prelude::*;

verus! {

/// A check succeeds exactly where some compiled pattern accepts the whole of
/// the resource as it reads under the root: the root, the delimiter and
/// the resource, or the resource alone under an empty root. A namespaced
/// kind without a root is refused.
pub proof fn law_check_is_whole_match(
    kind: PermissionKind,
    root: Option<NamespaceRoot>,
    resource: Seq<char>,
    allow_list: Seq<ResourcePattern>,
)
    ensures
        verdict_of(
            kind,
            root,
            resource,
            some_accepts(allow_list, candidate(root, resource)),
        ) is Ok <==> {
            &&& !(kind.spec_needs_root() && root is None)
            &&& exists|i: int|
                0 <= i < allow_list.len() && (#[trigger] allow_list[i]).language().contains(
                    composed(root_text(root), resource),
                )
        },
{
}

/// The expression that is written for a pattern begins with the anchor of
/// the start of a text and ends with the anchor of its end, so that it can
/// only accept a text whole.
pub proof fn law_source_is_anchored(pattern: Seq<char>)
    ensures
        pattern_source(pattern).len() >= 2,
        pattern_source(pattern).first() == '^',
        pattern_source(pattern).last() == '$',
        pattern_source(pattern).subrange(1, pattern_source(pattern).len() - 1) == translated(
            pattern,
        ),
{
    let s = pattern_source(pattern);
    assert(s.subrange(1, s.len() - 1) =~= translated(pattern));
}

/// Whether `s` is made of nothing but characters that stand for
/// themselves, characters with a meaning of their own behind a backslash,
/// and the expressions of the two wildcards.
pub open spec fn is_plain_expression(s: Seq<char>) -> bool
    decreases s.len(),
{
    if s.len() == 0 {
        true
    } else if any_run().is_prefix_of(s) {
        is_plain_expression(s.skip(any_run().len() as int))
    } else if segment_run().is_prefix_of(s) {
        is_plain_expression(s.skip(segment_run().len() as int))
    } else if s[0] == '\\' {
        s.len() >= 2 && is_meta(s[1]) && is_plain_expression(s.skip(2))
    } else {
        !is_meta(s[0]) && is_plain_expression(s.skip(1))
    }
}

/// Nothing in a pattern reaches the engine as anything but itself: the
/// expression written for a pattern holds the two wildcards, and every other
/// character so that it stands for itself.
pub proof fn law_pattern_cannot_inject(pattern: Seq<char>)
    ensures
        is_plain_expression(translated(pattern)),
    decreases pattern.len(),
{
    if pattern.len() == 0 {
    } else if pattern[0] == '*' && pattern.len() >= 2 && pattern[1] == '*' {
        let rest = translated(pattern.skip(2));
        law_pattern_cannot_inject(pattern.skip(2));
        let whole = any_run() + rest;
        assert(any_run() =~= whole.subrange(0, 7));
        assert(whole.skip(7) =~= rest);
    } else if pattern[0] == '*' {
        let rest = translated(pattern.skip(1));
        law_pattern_cannot_inject(pattern.skip(1));
        let whole = segment_run() + rest;
        assert(whole[0] == '[');
        assert(!any_run().is_prefix_of(whole)) by {
            if any_run().is_prefix_of(whole) {
                assert(any_run()[0] == whole[0]);
            }
        }
        assert(segment_run() =~= whole.subrange(0, 5));
        assert(whole.skip(5) =~= rest);
    } else {
        let c = pattern[0];
        let rest = translated(pattern.skip(1));
        law_pattern_cannot_inject(pattern.skip(1));
        let whole = escaped(c) + rest;
        assert(!any_run().is_prefix_of(whole)) by {
            if any_run().is_prefix_of(whole) {
                assert(any_run()[0] == whole[0]);
            }
        }
        assert(!segment_run().is_prefix_of(whole)) by {
            if segment_run().is_prefix_of(whole) {
                assert(segment_run()[0] == whole[0]);
            }
        }
        if is_meta(c) {
            assert(whole[0] == '\\' && whole[1] == c);
            assert(whole.skip(2) =~= rest);
        } else {
            assert(whole[0] == c);
            assert(whole.skip(1) =~= rest);
        }
    }
}

/// A pattern of a kind that bounds names never compiles where the name at
/// its head is longer than the limit, whatever else it holds, wildcards
/// too, and whatever the root.
pub proof fn law_long_name_never_compiles(
    kind: PermissionKind,
    root: Option<NamespaceRoot>,
    pattern: Seq<char>,
)
    requires
        kind.spec_bounds_name(),
        leading_name(pattern).len() > NAME_LIMIT,
    ensures
        compile_one(kind, root, pattern) is Err,
        root is Some ==> compile_one(kind, root, pattern) == Err::<Seq<char>, PermissionFault>(
            PermissionFault::NameTooLong { name: leading_name(pattern) },
        ),
{
}

/// An allow-list with a name that is too long does not compile.
pub proof fn law_long_name_fails_list(
    kind: PermissionKind,
    root: Option<NamespaceRoot>,
    raw: Seq<Seq<char>>,
    compiled: Seq<ResourcePattern>,
    at: int,
)
    requires
        kind.spec_bounds_name(),
        0 <= at < raw.len(),
        leading_name(raw[at]).len() > NAME_LIMIT,
    ensures
        !is_compilation(kind, root, raw, compiled),
{
    if is_compilation(kind, root, raw, compiled) {
        assert(compile_one(kind, root, raw[at]) is Ok);
    }
}

/// Compiling the same allow-list under the same root twice gives patterns
/// with the same texts that accept the same resources.
pub proof fn law_compilation_is_deterministic(
    kind: PermissionKind,
    root: Option<NamespaceRoot>,
    raw: Seq<Seq<char>>,
    first: Seq<ResourcePattern>,
    second: Seq<ResourcePattern>,
)
    requires
        is_compilation(kind, root, raw, first),
        is_compilation(kind, root, raw, second),
    ensures
        first.len() == second.len(),
        forall|i: int|
            0 <= i < first.len() ==> (#[trigger] first[i])@ == second[i]@ && first[i].language()
                == second[i].language(),
        forall|text: Seq<char>| some_accepts(first, text) == some_accepts(second, text),
        forall|resource: Seq<char>|
            verdict_of(kind, root, resource, some_accepts(first, candidate(root, resource)))
                == verdict_of(
                kind,
                root,
                resource,
                some_accepts(second, candidate(root, resource)),
            ),
{
    assert forall|i: int| 0 <= i < first.len() implies (#[trigger] first[i])@ == second[i]@
        && first[i].language() == second[i].language() by {
        let _ = raw[i];
        assert(compile_one(kind, root, raw[i]) == Ok::<Seq<char>, PermissionFault>(first[i]@));
        assert(compile_one(kind, root, raw[i]) == Ok::<Seq<char>, PermissionFault>(second[i]@));
        assert(first[i].wf() && second[i].wf());
        assert(first[i].is_compiled() && second[i].is_compiled());
    }
    assert forall|text: Seq<char>| some_accepts(first, text) == some_accepts(second, text) by {
        if some_accepts(first, text) {
            let i = choose|i: int|
                0 <= i < first.len() && (#[trigger] first[i]).language().contains(text);
            assert(second[i].language().contains(text));
        }
        if some_accepts(second, text) {
            let i = choose|i: int|
                0 <= i < second.len() && (#[trigger] second[i]).language().contains(text);
            assert(first[i].language() == second[i].language());
            assert(first[i].language().contains(text));
        }
    }
}

/// A namespaced kind without a root compiles nothing, not even the empty
/// list.
pub proof fn law_no_root_no_compilation(
    kind: PermissionKind,
    root: Option<NamespaceRoot>,
    raw: Seq<Seq<char>>,
    compiled: Seq<ResourcePattern>,
    fault: PermissionFault,
)
    requires
        kind.spec_needs_root(),
        root is None,
    ensures
        !is_compilation(kind, root, raw, compiled),
        is_compile_fault(kind, root, raw, fault) <==> fault == PermissionFault::RootMissing,
{
}

/// The outcome of compiling an allow-list is one: a list that compiles has
/// no fault, and a list with a fault has exactly that one.
pub proof fn law_compile_outcome_is_unique(
    kind: PermissionKind,
    root: Option<NamespaceRoot>,
    raw: Seq<Seq<char>>,
    compiled: Seq<ResourcePattern>,
    a: PermissionFault,
    b: PermissionFault,
)
    ensures
        is_compilation(kind, root, raw, compiled) ==> !is_compile_fault(kind, root, raw, a),
        is_compile_fault(kind, root, raw, a) && is_compile_fault(kind, root, raw, b) ==> a == b,
{
    if root_is_missing(kind, root) {
    } else {
        if is_compilation(kind, root, raw, compiled) && is_first_fault(kind, root, raw, a) {
            let i = choose|i: int|
                {
                    &&& 0 <= i < raw.len()
                    &&& compile_one(kind, root, #[trigger] raw[i]) == Err::<
                        Seq<char>,
                        PermissionFault,
                    >(a)
                    &&& forall|j: int|
                        0 <= j < i ==> compile_one(kind, root, #[trigger] raw[j]) is Ok
                };
            assert(compile_one(kind, root, raw[i]) is Ok);
        }
        if is_first_fault(kind, root, raw, a) && is_first_fault(kind, root, raw, b) {
            let i = choose|i: int|
                {
                    &&& 0 <= i < raw.len()
                    &&& compile_one(kind, root, #[trigger] raw[i]) == Err::<
                        Seq<char>,
                        PermissionFault,
                    >(a)
                    &&& forall|j: int|
                        0 <= j < i ==> compile_one(kind, root, #[trigger] raw[j]) is Ok
                };
            let k = choose|k: int|
                {
                    &&& 0 <= k < raw.len()
                    &&& compile_one(kind, root, #[trigger] raw[k]) == Err::<
                        Seq<char>,
                        PermissionFault,
                    >(b)
                    &&& forall|j: int|
                        0 <= j < k ==> compile_one(kind, root, #[trigger] raw[j]) is Ok
                };
            if i < k {
                assert(compile_one(kind, root, raw[i]) is Ok);
            }
            if k < i {
                assert(compile_one(kind, root, raw[k]) is Ok);
            }
        }
    }
}

/// Two roots that hold no delimiter never give the same text to what they
/// are joined with, unless they are the same root: a resource of one
/// workspace never reads as a resource of another.
pub proof fn law_roots_keep_apart(a: Seq<char>, b: Seq<char>, x: Seq<char>, y: Seq<char>)
    requires
        a.len() > 0,
        b.len() > 0,
        !a.contains('$'),
        !b.contains('$'),
        composed(a, x) == composed(b, y),
    ensures
        a == b,
        x == y,
{
    let left = composed(a, x);
    let right = composed(b, y);
    assert(left =~= a + seq!['$'] + x);
    assert(right =~= b + seq!['$'] + y);
    if a.len() < b.len() {
        assert(left[a.len() as int] == '$');
        assert(right[a.len() as int] == b[a.len() as int]);
        assert(b.contains('$'));
    } else if b.len() < a.len() {
        assert(right[b.len() as int] == '$');
        assert(left[b.len() as int] == a[b.len() as int]);
        assert(a.contains('$'));
    } else {
        assert(a =~= b) by {
            assert forall|i: int| 0 <= i < a.len() implies a[i] == b[i] by {
                assert(left[i] == a[i]);
                assert(right[i] == b[i]);
            }
        }
        assert(x =~= y) by {
            assert(x.len() == y.len()) by {
                assert(left.len() == a.len() + 1 + x.len());
                assert(right.len() == b.len() + 1 + y.len());
            }
            assert forall|i: int| 0 <= i < x.len() implies x[i] == y[i] by {
                assert(left[a.len() + 1 + i] == x[i]);
                assert(right[b.len() + 1 + i] == y[i]);
            }
        }
    }
}

} // verus!
