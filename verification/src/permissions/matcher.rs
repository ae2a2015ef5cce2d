//! Compiling allow-lists and checking resources against them.

use crate::permissions::error::{PermissionError, PermissionFault};
use crate::permissions::kind::PermissionKind;
use crate::permissions::pattern::{
    compose, composed, leading_name, locate_leading_name, pattern_source, regex_compile,
};
use crate::permissions::{NamespaceRoot, ResourcePattern};
use crate::text::{chars_of, contains_char, string_of_range};
use vstd::prelude::*;

verus! {

/// The longest name that a database-style pattern may begin with.
pub const NAME_LIMIT: usize = 48;

/// The text of a root that may be absent: an absent root reads as empty.
pub open spec fn root_text(root: Option<NamespaceRoot>) -> Seq<char> {
    match root {
        Some(r) => r@,
        None => Seq::empty(),
    }
}

/// Whether `kind` is namespaced and no root is given: nothing of such a
/// kind is compiled or checked.
pub open spec fn root_is_missing(kind: PermissionKind, root: Option<NamespaceRoot>) -> bool {
    kind.spec_needs_root() && root is None
}

/// What compiling one pattern of `kind` under `root` comes to: the full text
/// of the compiled pattern, or the reason why there is none. The reasons
/// are tried in the order in which they are written here.
pub open spec fn compile_one(
    kind: PermissionKind,
    root: Option<NamespaceRoot>,
    pattern: Seq<char>,
) -> Result<Seq<char>, PermissionFault> {
    if root_is_missing(kind, root) {
        Err(PermissionFault::RootMissing)
    } else if kind.spec_bounds_name() && leading_name(pattern).len() > NAME_LIMIT {
        Err(PermissionFault::NameTooLong { name: leading_name(pattern) })
    } else if root_text(root).contains('$') {
        Err(PermissionFault::ReservedDelimiter { text: root_text(root) })
    } else if pattern.contains('$') {
        Err(PermissionFault::ReservedDelimiter { text: pattern })
    } else if regex_compile(pattern_source(composed(root_text(root), pattern))) is None {
        Err(PermissionFault::PatternRejected { pattern: composed(root_text(root), pattern) })
    } else {
        Ok(composed(root_text(root), pattern))
    }
}

/// The text that is matched when `resource` is checked under `root`.
pub open spec fn candidate(root: Option<NamespaceRoot>, resource: Seq<char>) -> Seq<char> {
    composed(root_text(root), resource)
}

/// Whether some pattern of `allow_list` accepts the whole of `text`.
pub open spec fn some_accepts(allow_list: Seq<ResourcePattern>, text: Seq<char>) -> bool {
    exists|i: int| 0 <= i < allow_list.len() && (#[trigger] allow_list[i]).language().contains(text)
}

/// What a check comes to, given whether some pattern accepted the
/// candidate text.
pub open spec fn verdict_of(
    kind: PermissionKind,
    root: Option<NamespaceRoot>,
    resource: Seq<char>,
    accepted: bool,
) -> Result<(), PermissionFault> {
    if root_is_missing(kind, root) {
        Err(PermissionFault::RootMissing)
    } else if accepted {
        Ok(())
    } else {
        Err(PermissionFault::Denied { kind, resource })
    }
}

/// Whether `r` is the result `expected`, errors taken by their view.
pub open spec fn is_result(
    r: Result<(), PermissionError>,
    expected: Result<(), PermissionFault>,
) -> bool {
    match r {
        Ok(()) => expected is Ok,
        Err(e) => expected == Err::<(), PermissionFault>(e@),
    }
}

/// The texts of `list`.
pub open spec fn pattern_texts(list: Seq<ResourcePattern>) -> Seq<Seq<char>> {
    list.map_values(|p: ResourcePattern| p@)
}

/// Whether every pattern of `list` is compiled.
pub open spec fn all_compiled(list: Seq<ResourcePattern>) -> bool {
    forall|i: int| 0 <= i < list.len() ==> (#[trigger] list[i]).is_compiled()
}

/// Whether `compiled` is what compiling the patterns `raw` gives: one
/// compiled pattern for each, in the same order. There is no compilation
/// at all, not even of an empty list, for a namespaced kind without a root.
pub open spec fn is_compilation(
    kind: PermissionKind,
    root: Option<NamespaceRoot>,
    raw: Seq<Seq<char>>,
    compiled: Seq<ResourcePattern>,
) -> bool {
    &&& !root_is_missing(kind, root)
    &&& compiled.len() == raw.len()
    &&& forall|i: int|
        0 <= i < raw.len() ==> {
            &&& compile_one(kind, root, #[trigger] raw[i]) == Ok::<Seq<char>, PermissionFault>(
                compiled[i]@,
            )
            &&& compiled[i].is_compiled()
            &&& compiled[i].wf()
        }
}

/// Whether the list `raw` compiles: the kind has the root it needs, and
/// every pattern compiles.
pub open spec fn list_compiles(
    kind: PermissionKind,
    root: Option<NamespaceRoot>,
    raw: Seq<Seq<char>>,
) -> bool {
    !root_is_missing(kind, root) && all_compile(kind, root, raw)
}

/// Whether every pattern of `raw` compiles.
pub open spec fn all_compile(
    kind: PermissionKind,
    root: Option<NamespaceRoot>,
    raw: Seq<Seq<char>>,
) -> bool {
    forall|i: int| 0 <= i < raw.len() ==> compile_one(kind, root, #[trigger] raw[i]) is Ok
}

/// Whether `fault` is why the first pattern of `raw` that does not compile
/// does not.
pub open spec fn is_first_fault(
    kind: PermissionKind,
    root: Option<NamespaceRoot>,
    raw: Seq<Seq<char>>,
    fault: PermissionFault,
) -> bool {
    exists|i: int|
        {
            &&& 0 <= i < raw.len()
            &&& compile_one(kind, root, #[trigger] raw[i]) == Err::<Seq<char>, PermissionFault>(
                fault,
            )
            &&& forall|j: int| 0 <= j < i ==> compile_one(kind, root, #[trigger] raw[j]) is Ok
        }
}

/// Whether `fault` is why the list `raw` does not compile: the missing root
/// of a namespaced kind, whatever the list holds, and else the fault of the
/// first pattern that does not compile.
pub open spec fn is_compile_fault(
    kind: PermissionKind,
    root: Option<NamespaceRoot>,
    raw: Seq<Seq<char>>,
    fault: PermissionFault,
) -> bool {
    if root_is_missing(kind, root) {
        fault == PermissionFault::RootMissing
    } else {
        is_first_fault(kind, root, raw, fault)
    }
}

/// Compiles one pattern of `kind` under `root`.
pub fn compile_entry(kind: PermissionKind, pattern: &str, root: &Option<NamespaceRoot>) -> (r:
    Result<ResourcePattern, PermissionError>)
    ensures
        match r {
            Ok(p) => compile_one(kind, *root, pattern@) == Ok::<Seq<char>, PermissionFault>(p@)
                && p.is_compiled() && p.wf(),
            Err(e) => compile_one(kind, *root, pattern@) == Err::<Seq<char>, PermissionFault>(e@),
        },
{
    let root_str: &str = match root {
        Some(r) => r.as_str(),
        None => {
            if kind.needs_root() {
                return Err(PermissionError::RootMissing);
            }
            ""
        },
    };
    proof {
        reveal_strlit("");
        assert(root_str@ =~= root_text(*root));
    }
    let p = chars_of(pattern);
    if kind.bounds_name() {
        let (from, to) = locate_leading_name(&p);
        if to - from > NAME_LIMIT {
            return Err(PermissionError::NameTooLong { name: string_of_range(&p, from, to) });
        }
    }
    let r = chars_of(root_str);
    if contains_char(&r, '$') {
        return Err(PermissionError::ReservedDelimiter { text: root_str.to_owned() });
    }
    if contains_char(&p, '$') {
        return Err(PermissionError::ReservedDelimiter { text: pattern.to_owned() });
    }
    let full = compose(root_str, pattern);
    match ResourcePattern::compile(full) {
        Some(compiled) => Ok(compiled),
        None => Err(PermissionError::PatternRejected { pattern: compose(root_str, pattern) }),
    }
}

/// Compiles an allow-list of `kind` under `root`. A namespaced kind
/// without a root fails, whatever the list holds, an empty list too. Else
/// every pattern must compile: the first that does not decides the error.
pub fn compile(
    kind: PermissionKind,
    allow_list: &Vec<ResourcePattern>,
    root: &Option<NamespaceRoot>,
) -> (r: Result<Vec<ResourcePattern>, PermissionError>)
    ensures
        root_is_missing(kind, *root) ==> (r matches Err(e) && e@
            == PermissionFault::RootMissing),
        match r {
            Ok(compiled) => is_compilation(kind, *root, pattern_texts(allow_list@), compiled@),
            Err(e) => is_compile_fault(kind, *root, pattern_texts(allow_list@), e@),
        },
{
    if kind.needs_root() && root.is_none() {
        return Err(PermissionError::RootMissing);
    }
    let ghost raw = pattern_texts(allow_list@);
    let mut compiled: Vec<ResourcePattern> = Vec::new();
    let mut i: usize = 0;
    while i < allow_list.len()
        invariant
            i <= allow_list.len(),
            !root_is_missing(kind, *root),
            raw == pattern_texts(allow_list@),
            is_compilation(kind, *root, raw.take(i as int), compiled@),
        decreases allow_list.len() - i,
    {
        match compile_entry(kind, allow_list[i].as_str(), root) {
            Ok(p) => {
                compiled.push(p);
                proof {
                    let next = raw.take(i + 1);
                    assert forall|j: int| 0 <= j < next.len() implies {
                        &&& compile_one(kind, *root, #[trigger] next[j]) == Ok::<
                            Seq<char>,
                            PermissionFault,
                        >(compiled@[j]@)
                        &&& compiled@[j].is_compiled()
                        &&& compiled@[j].wf()
                    } by {
                        if j < i {
                            assert(raw.take(i as int)[j] == next[j]);
                        }
                    }
                }
            },
            Err(e) => {
                proof {
                    assert forall|j: int| 0 <= j < i implies compile_one(
                        kind,
                        *root,
                        #[trigger] raw[j],
                    ) is Ok by {
                        assert(raw.take(i as int)[j] == raw[j]);
                    }
                    assert(compile_one(kind, *root, raw[i as int]) == Err::<
                        Seq<char>,
                        PermissionFault,
                    >(e@));
                }
                return Err(e);
            },
        }
        i += 1;
    }
    proof {
        assert(raw.take(i as int) =~= raw);
    }
    Ok(compiled)
}

/// The place of the first pattern of `allow_list` that accepts `text`.
pub fn first_accepting(allow_list: &Vec<ResourcePattern>, text: &str) -> (r: Option<usize>)
    requires
        all_compiled(allow_list@),
    ensures
        match r {
            Some(at) => {
                &&& at < allow_list.len()
                &&& allow_list[at as int].language().contains(text@)
                &&& forall|j: int|
                    0 <= j < at ==> !(#[trigger] allow_list[j]).language().contains(text@)
            },
            None => !some_accepts(allow_list@, text@),
        },
        r is Some <==> some_accepts(allow_list@, text@),
{
    let mut i: usize = 0;
    while i < allow_list.len()
        invariant
            i <= allow_list.len(),
            all_compiled(allow_list@),
            forall|j: int| 0 <= j < i ==> !(#[trigger] allow_list[j]).language().contains(text@),
        decreases allow_list.len() - i,
    {
        if allow_list[i].accepts(text) {
            return Some(i);
        }
        i += 1;
    }
    None
}

/// Turns the outcome of the scan into the result of the check: a namespaced
/// kind without a root is refused whatever the scan found.
pub fn verdict(
    kind: PermissionKind,
    resource: &str,
    root: &Option<NamespaceRoot>,
    accepted: bool,
) -> (r: Result<(), PermissionError>)
    ensures
        is_result(r, verdict_of(kind, *root, resource@, accepted)),
{
    if kind.needs_root() && root.is_none() {
        Err(PermissionError::RootMissing)
    } else if accepted {
        Ok(())
    } else {
        Err(PermissionError::Denied { kind, resource: resource.to_owned() })
    }
}

/// Checks `resource` against a compiled allow-list of `kind` under `root`.
/// The resource is read under the same root as the patterns were; it is
/// granted where some pattern accepts the whole of that text, and denied
/// otherwise.
pub fn check(
    kind: PermissionKind,
    resource: &str,
    allow_list: &Vec<ResourcePattern>,
    root: &Option<NamespaceRoot>,
) -> (r: Result<(), PermissionError>)
    requires
        all_compiled(allow_list@),
    ensures
        is_result(
            r,
            verdict_of(
                kind,
                *root,
                resource@,
                some_accepts(allow_list@, candidate(*root, resource@)),
            ),
        ),
{
    let root_str: &str = match root {
        Some(r) => r.as_str(),
        None => "",
    };
    proof {
        reveal_strlit("");
        assert(root_str@ =~= root_text(*root));
    }
    let text = compose(root_str, resource);
    let found = first_accepting(allow_list, text.as_str());
    verdict(kind, resource, root, found.is_some())
}

} // verus!
