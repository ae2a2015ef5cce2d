//! The permission set of a request, built from the manifest of its route.

use crate::permissions::error::{PermissionError, PermissionFault};
use crate::permissions::matcher::{
    all_compiled, candidate, check, compile, is_compilation, is_compile_fault, list_compiles,
    is_result, pattern_texts, some_accepts, verdict_of,
};
use crate::permissions::{Fs, HttpEvent, NamespaceRoot, PermissionKind, ResourcePattern};
use crate::runtimes::manifest::{texts, ApiManifest, DbPermission, FsPermissions};
use vstd::prelude::*;

verus! {

/// A permission together with the paths it is granted on.
#[derive(Debug)]
pub struct Grant {
    pub kind: PermissionKind,
    pub allow_list: Vec<ResourcePattern>,
}

impl Grant {
    /// The texts of the paths of this grant.
    pub open spec fn texts(&self) -> Seq<Seq<char>> {
        pattern_texts(self.allow_list@)
    }

}

/// Whether the patterns `a` are the patterns `b` over again: the same
/// texts in the same order, compiled where those are, and accepting the same.
pub open spec fn same_patterns(a: Seq<ResourcePattern>, b: Seq<ResourcePattern>) -> bool {
    &&& a.len() == b.len()
    &&& forall|i: int|
        0 <= i < a.len() ==> {
            &&& (#[trigger] a[i])@ == b[i]@
            &&& a[i].is_compiled() == b[i].is_compiled()
            &&& a[i].is_compiled() ==> a[i].language() == b[i].language()
        }
}

/// Whether the grants `a` are the grants `b` over again.
pub open spec fn same_grants(a: Seq<Grant>, b: Seq<Grant>) -> bool {
    &&& a.len() == b.len()
    &&& forall|g: int|
        0 <= g < a.len() ==> (#[trigger] a[g]).kind == b[g].kind && same_patterns(
            a[g].allow_list@,
            b[g].allow_list@,
        )
}

impl Clone for Grant {
    /// The same permission on the same paths.
    fn clone(&self) -> (r: Self)
        ensures
            r.kind == self.kind,
            same_patterns(r.allow_list@, self.allow_list@),
    {
        let mut allow_list: Vec<ResourcePattern> = Vec::new();
        let mut i: usize = 0;
        while i < self.allow_list.len()
            invariant
                i <= self.allow_list.len(),
                same_patterns(allow_list@, self.allow_list@.take(i as int)),
            decreases self.allow_list.len() - i,
        {
            allow_list.push(self.allow_list[i].clone());
            proof {
                let next = self.allow_list@.take(i + 1);
                assert forall|j: int| 0 <= j < allow_list.len() implies {
                    &&& (#[trigger] allow_list@[j])@ == next[j]@
                    &&& allow_list@[j].is_compiled() == next[j].is_compiled()
                    &&& allow_list@[j].is_compiled() ==> allow_list@[j].language()
                        == next[j].language()
                } by {
                    if j < i {
                        assert(self.allow_list@.take(i as int)[j] == next[j]);
                    }
                }
            }
            i += 1;
        }
        proof {
            assert(self.allow_list@.take(i as int) =~= self.allow_list@);
        }
        Grant { kind: self.kind, allow_list }
    }
}

/// The place of the first grant of `kind` among `grants`, from `from` on.
pub open spec fn first_of_kind(grants: Seq<Grant>, kind: PermissionKind, from: int) -> Option<int>
    decreases grants.len() - from,
{
    if from < 0 || from >= grants.len() {
        None
    } else if grants[from].kind == kind {
        Some(from)
    } else {
        first_of_kind(grants, kind, from + 1)
    }
}

/// Whether `compiled` is what compiling the grants `declared` under `root`
/// gives: one compiled grant for each, in the same order.
pub open spec fn is_compiled_from(
    compiled: Seq<Grant>,
    declared: Seq<(PermissionKind, Seq<Seq<char>>)>,
    root: Option<NamespaceRoot>,
) -> bool {
    &&& compiled.len() == declared.len()
    &&& forall|g: int|
        0 <= g < declared.len() ==> {
            &&& (#[trigger] compiled[g]).kind == declared[g].0
            &&& is_compilation(declared[g].0, root, declared[g].1, compiled[g].allow_list@)
        }
}

/// Whether `fault` is why the first grant of `declared` that does not
/// compile under `root` does not: the missing root of a namespaced kind, or
/// the fault of its first pattern that does not compile.
pub open spec fn is_first_grant_fault(
    declared: Seq<(PermissionKind, Seq<Seq<char>>)>,
    root: Option<NamespaceRoot>,
    fault: PermissionFault,
) -> bool {
    exists|g: int|
        {
            &&& 0 <= g < declared.len()
            &&& is_compile_fault((#[trigger] declared[g]).0, root, declared[g].1, fault)
            &&& forall|h: int|
                0 <= h < g ==> list_compiles((#[trigger] declared[h]).0, root, declared[h].1)
        }
}

/// The permissions of one request: a namespace root, the permissions that
/// are granted outright, and those that are granted on compiled paths.
#[derive(Debug)]
pub struct Permissions {
    root: Option<NamespaceRoot>,
    flags: Vec<PermissionKind>,
    grants: Vec<Grant>,
}

impl Permissions {
    /// Every path of every grant is compiled.
    #[verifier::type_invariant]
    spec fn grants_are_compiled(self) -> bool {
        forall|g: int|
            0 <= g < self.grants.len() ==> all_compiled((#[trigger] self.grants[g]).allow_list@)
    }

    /// The namespace root under which the paths are read.
    pub closed spec fn root(&self) -> Option<NamespaceRoot> {
        self.root
    }

    /// The permissions that are granted outright.
    pub closed spec fn flags(&self) -> Seq<PermissionKind> {
        self.flags@
    }

    /// The permissions that are granted on paths.
    pub closed spec fn grants(&self) -> Seq<Grant> {
        self.grants@
    }

    /// What a check of `resource` for `kind` comes to. A permission that is
    /// granted outright holds for every resource. Otherwise the first grant
    /// of the kind decides, and without one the resource is denied.
    pub open spec fn permits(&self, kind: PermissionKind, resource: Seq<char>) -> Result<
        (),
        PermissionFault,
    > {
        if self.flags().contains(kind) {
            Ok(())
        } else {
            match first_of_kind(self.grants(), kind, 0) {
                Some(g) => verdict_of(
                    kind,
                    self.root(),
                    resource,
                    some_accepts(
                        self.grants()[g].allow_list@,
                        candidate(self.root(), resource),
                    ),
                ),
                None => Err(PermissionFault::Denied { kind, resource }),
            }
        }
    }

    /// The namespace root under which the paths are read.
    pub fn namespace_root(&self) -> (r: &Option<NamespaceRoot>)
        ensures
            *r == self.root(),
    {
        &self.root
    }

    /// The permissions that are granted outright.
    pub fn granted_outright(&self) -> (r: &Vec<PermissionKind>)
        ensures
            r@ == self.flags(),
    {
        &self.flags
    }

    /// The permissions that are granted on paths, every path compiled.
    pub fn granted_on_paths(&self) -> (r: &Vec<Grant>)
        ensures
            r@ == self.grants(),
            forall|g: int| 0 <= g < r.len() ==> all_compiled((#[trigger] r[g]).allow_list@),
    {
        proof {
            use_type_invariant(self);
        }
        &self.grants
    }

    /// Checks `resource` for `kind`.
    pub fn check(&self, kind: PermissionKind, resource: &str) -> (r: Result<(), PermissionError>)
        ensures
            is_result(r, self.permits(kind, resource@)),
    {
        proof {
            use_type_invariant(self);
        }
        let mut f: usize = 0;
        while f < self.flags.len()
            invariant
                f <= self.flags.len(),
                forall|j: int| 0 <= j < f ==> self.flags@[j] != kind,
            decreases self.flags.len() - f,
        {
            if self.flags[f] == kind {
                return Ok(());
            }
            f += 1;
        }
        assert(!self.flags@.contains(kind));
        let mut g: usize = 0;
        while g < self.grants.len()
            invariant
                g <= self.grants.len(),
                !self.flags@.contains(kind),
                first_of_kind(self.grants@, kind, g as int) == first_of_kind(self.grants@, kind, 0),
                forall|h: int|
                    0 <= h < self.grants.len() ==> all_compiled(
                        (#[trigger] self.grants[h]).allow_list@,
                    ),
            decreases self.grants.len() - g,
        {
            if self.grants[g].kind == kind {
                assert(first_of_kind(self.grants@, kind, g as int) == Some(g as int));
                return check(kind, resource, &self.grants[g].allow_list, &self.root);
            }
            g += 1;
        }
        Err(PermissionError::Denied { kind, resource: resource.to_owned() })
    }
}

impl Clone for Permissions {
    /// The same permissions again: what the copy is asked, it answers as
    /// these do.
    fn clone(&self) -> (r: Self)
        ensures
            r.root() == self.root(),
            r.flags() == self.flags(),
            same_grants(r.grants(), self.grants()),
            forall|kind: PermissionKind, resource: Seq<char>|
                #[trigger] r.permits(kind, resource) == self.permits(kind, resource),
    {
        proof {
            use_type_invariant(self);
        }
        let root = match &self.root {
            Some(root) => Some(root.clone()),
            None => None,
        };
        let mut flags: Vec<PermissionKind> = Vec::new();
        let mut f: usize = 0;
        while f < self.flags.len()
            invariant
                f <= self.flags.len(),
                flags@ == self.flags@.take(f as int),
            decreases self.flags.len() - f,
        {
            flags.push(self.flags[f]);
            proof {
                assert(self.flags@.take(f + 1) =~= self.flags@.take(f as int).push(
                    self.flags@[f as int],
                ));
            }
            f += 1;
        }
        let mut grants: Vec<Grant> = Vec::new();
        let mut g: usize = 0;
        while g < self.grants.len()
            invariant
                g <= self.grants.len(),
                same_grants(grants@, self.grants@.take(g as int)),
                forall|h: int|
                    0 <= h < self.grants.len() ==> all_compiled(
                        (#[trigger] self.grants[h]).allow_list@,
                    ),
                forall|h: int|
                    0 <= h < grants.len() ==> all_compiled((#[trigger] grants[h]).allow_list@),
            decreases self.grants.len() - g,
        {
            let grant = self.grants[g].clone();
            proof {
                assert(all_compiled(self.grants[g as int].allow_list@));
                assert forall|i: int| 0 <= i < grant.allow_list.len() implies (
                #[trigger] grant.allow_list[i]).is_compiled() by {
                    assert(self.grants[g as int].allow_list[i].is_compiled());
                }
            }
            grants.push(grant);
            proof {
                let next = self.grants@.take(g + 1);
                assert forall|h: int| 0 <= h < grants.len() implies (#[trigger] grants@[h]).kind
                    == next[h].kind && same_patterns(
                    grants@[h].allow_list@,
                    next[h].allow_list@,
                ) by {
                    if h < g {
                        assert(self.grants@.take(g as int)[h] == next[h]);
                    }
                }
            }
            g += 1;
        }
        proof {
            assert(self.flags@.take(f as int) =~= self.flags@);
            assert(self.grants@.take(g as int) =~= self.grants@);
        }
        let r = Permissions { root, flags, grants };
        proof {
            assert forall|kind: PermissionKind, resource: Seq<char>| #[trigger]
                r.permits(kind, resource) == self.permits(kind, resource) by {
                law_same_grants_permit_alike(r, *self, kind, resource);
            }
        }
        r
    }
}

/// Permissions with the same root, the same outright permissions and the
/// same grants over again answer every check alike.
pub proof fn law_same_grants_permit_alike(
    a: Permissions,
    b: Permissions,
    kind: PermissionKind,
    resource: Seq<char>,
)
    requires
        a.root() == b.root(),
        a.flags() == b.flags(),
        same_grants(a.grants(), b.grants()),
        forall|g: int|
            0 <= g < a.grants().len() ==> all_compiled((#[trigger] a.grants()[g]).allow_list@),
    ensures
        a.permits(kind, resource) == b.permits(kind, resource),
{
    lemma_same_first_of_kind(a.grants(), b.grants(), kind, 0);
    match first_of_kind(a.grants(), kind, 0) {
        Some(g) => {
            lemma_first_of_kind_is_in_range(a.grants(), kind, 0);
            let text = candidate(a.root(), resource);
            let left = a.grants()[g].allow_list@;
            let right = b.grants()[g].allow_list@;
            assert(same_patterns(left, right));
            assert(all_compiled(left));
            if some_accepts(left, text) {
                let i = choose|i: int|
                    0 <= i < left.len() && (#[trigger] left[i]).language().contains(text);
                assert(left[i].is_compiled());
                assert(right[i].language().contains(text));
            }
            if some_accepts(right, text) {
                let i = choose|i: int|
                    0 <= i < right.len() && (#[trigger] right[i]).language().contains(text);
                assert(left[i].is_compiled());
                assert(left[i].language().contains(text));
            }
        },
        None => {},
    }
}

/// Grants of the same kinds in the same order have their first grant of a
/// kind at the same place.
proof fn lemma_same_first_of_kind(a: Seq<Grant>, b: Seq<Grant>, kind: PermissionKind, from: int)
    requires
        same_grants(a, b),
    ensures
        first_of_kind(a, kind, from) == first_of_kind(b, kind, from),
    decreases a.len() - from,
{
    if 0 <= from < a.len() {
        assert(a[from].kind == b[from].kind);
        if a[from].kind != kind {
            lemma_same_first_of_kind(a, b, kind, from + 1);
        }
    }
}

/// The first grant of a kind, where there is one, is one of the grants.
proof fn lemma_first_of_kind_is_in_range(grants: Seq<Grant>, kind: PermissionKind, from: int)
    ensures
        first_of_kind(grants, kind, from) matches Some(g) ==> from <= g < grants.len()
            && grants[g].kind == kind,
    decreases grants.len() - from,
{
    if 0 <= from < grants.len() && grants[from].kind != kind {
        lemma_first_of_kind_is_in_range(grants, kind, from + 1);
    }
}

impl Default for Permissions {
    /// The permissions that grant nothing.
    fn default() -> (r: Self)
        ensures
            r.root() is None,
            r.flags().len() == 0,
            r.grants().len() == 0,
    {
        Permissions { root: None, flags: Vec::new(), grants: Vec::new() }
    }
}

/// The grant of `kind` on `list`, where `list` names anything at all.
pub open spec fn grant_if_any(kind: PermissionKind, list: Seq<String>) -> Seq<
    (PermissionKind, Seq<Seq<char>>),
> {
    if list.len() > 0 {
        seq![(kind, texts(list))]
    } else {
        Seq::empty()
    }
}

/// The filesystem grants that `fs` declares: one for each operation that
/// names a path, in the order open, create, read, write, execute.
pub open spec fn fs_grants(fs: FsPermissions) -> Seq<(PermissionKind, Seq<Seq<char>>)> {
    grant_if_any(PermissionKind::Filesystem(Fs::Open), fs.open@) + grant_if_any(
        PermissionKind::Filesystem(Fs::Create),
        fs.create@,
    ) + grant_if_any(PermissionKind::Filesystem(Fs::Read), fs.read@) + grant_if_any(
        PermissionKind::Filesystem(Fs::Write),
        fs.write@,
    ) + grant_if_any(PermissionKind::Filesystem(Fs::Execute), fs.execute@)
}

/// The database grants that `db` declares: one for each entry that names a
/// path, in the order of their declaration.
pub open spec fn db_grants(db: Seq<DbPermission>) -> Seq<(PermissionKind, Seq<Seq<char>>)>
    decreases db.len(),
{
    if db.len() == 0 {
        Seq::empty()
    } else {
        db_grants(db.drop_last()) + grant_if_any(
            PermissionKind::Database(db.last().operation),
            db.last().paths@,
        )
    }
}

/// The grants that `manifest` declares: those on the filesystem, then those
/// on databases.
pub open spec fn declared_grants(manifest: ApiManifest) -> Seq<(PermissionKind, Seq<Seq<char>>)> {
    match manifest.permissions {
        Some(permissions) => fs_grants(permissions.fs) + db_grants(permissions.db@),
        None => Seq::empty(),
    }
}

/// The permissions that `manifest` grants without naming a path.
pub open spec fn declared_flags(manifest: ApiManifest) -> Seq<PermissionKind> {
    match manifest.permissions {
        Some(permissions) => (if permissions.http_event.request_read {
            seq![PermissionKind::HttpEvent(HttpEvent::RequestRead)]
        } else {
            Seq::empty()
        }) + (if permissions.http_event.response_send {
            seq![PermissionKind::HttpEvent(HttpEvent::ResponseSend)]
        } else {
            Seq::empty()
        }),
        None => Seq::empty(),
    }
}

/// The grants of `grants`, each as its kind and the texts of its paths.
pub open spec fn grant_views(grants: Seq<Grant>) -> Seq<(PermissionKind, Seq<Seq<char>>)> {
    grants.map_values(|g: Grant| (g.kind, g.texts()))
}

/// Builds permission sets from manifests.
#[derive(Debug)]
pub struct ApiPermissions;

impl ApiPermissions {
    /// Adds the grant of `kind` on `list` to `result`, where `list` names
    /// anything at all.
    pub fn add_permission_if_exists(
        list: &Vec<String>,
        kind: PermissionKind,
        result: &mut Vec<Grant>,
    )
        ensures
            grant_views(final(result)@) == grant_views(old(result)@) + grant_if_any(kind, list@),
    {
        if list.len() > 0 {
            let mut allow_list: Vec<ResourcePattern> = Vec::new();
            let mut i: usize = 0;
            while i < list.len()
                invariant
                    i <= list.len(),
                    allow_list.len() == i,
                    forall|j: int| 0 <= j < i ==> (#[trigger] allow_list[j])@ == list[j]@,
                decreases list.len() - i,
            {
                allow_list.push(ResourcePattern::new(list[i].as_str()));
                i += 1;
            }
            let grant = Grant { kind, allow_list };
            proof {
                assert(grant.texts() =~= texts(list@));
                assert(grant_views(result@.push(grant)) =~= grant_views(result@) + seq![
                    (kind, texts(list@)),
                ]);
            }
            result.push(grant);
        } else {
            proof {
                assert(grant_views(result@) + Seq::<(PermissionKind, Seq<Seq<char>>)>::empty()
                    =~= grant_views(result@));
            }
        }
    }

    /// The filesystem and database grants that `manifest` declares, not yet
    /// compiled.
    pub fn declared_permissions(manifest: &ApiManifest) -> (result: Vec<Grant>)
        ensures
            grant_views(result@) == declared_grants(*manifest),
    {
        let mut result: Vec<Grant> = Vec::new();
        proof {
            assert(grant_views(result@) =~= Seq::<(PermissionKind, Seq<Seq<char>>)>::empty());
        }
        if let Some(permissions) = &manifest.permissions {
            Self::add_permission_if_exists(
                &permissions.fs.open,
                PermissionKind::Filesystem(Fs::Open),
                &mut result,
            );
            Self::add_permission_if_exists(
                &permissions.fs.create,
                PermissionKind::Filesystem(Fs::Create),
                &mut result,
            );
            Self::add_permission_if_exists(
                &permissions.fs.read,
                PermissionKind::Filesystem(Fs::Read),
                &mut result,
            );
            Self::add_permission_if_exists(
                &permissions.fs.write,
                PermissionKind::Filesystem(Fs::Write),
                &mut result,
            );
            Self::add_permission_if_exists(
                &permissions.fs.execute,
                PermissionKind::Filesystem(Fs::Execute),
                &mut result,
            );
            proof {
                assert(grant_views(result@) =~= fs_grants(permissions.fs));
                assert(permissions.db@.take(0) =~= Seq::<DbPermission>::empty());
                assert(grant_views(result@) =~= fs_grants(permissions.fs) + db_grants(
                    permissions.db@.take(0),
                ));
            }
            let mut i: usize = 0;
            while i < permissions.db.len()
                invariant
                    i <= permissions.db.len(),
                    grant_views(result@) == fs_grants(permissions.fs) + db_grants(
                        permissions.db@.take(i as int),
                    ),
                decreases permissions.db.len() - i,
            {
                let ghost before = grant_views(result@);
                Self::add_permission_if_exists(
                    &permissions.db[i].paths,
                    PermissionKind::Database(permissions.db[i].operation),
                    &mut result,
                );
                proof {
                    let next = permissions.db@.take(i + 1);
                    assert(next.drop_last() =~= permissions.db@.take(i as int));
                    assert(next.last() == permissions.db@[i as int]);
                    assert(grant_views(result@) =~= fs_grants(permissions.fs) + db_grants(next));
                }
                i += 1;
            }
            proof {
                assert(permissions.db@.take(permissions.db.len() as int) =~= permissions.db@);
            }
        }
        result
    }

    /// Builds the permissions that `manifest` declares, its paths read
    /// under `root`. Every grant must compile, in the order of the
    /// declaration: the first that does not decides the error. A grant of a
    /// namespaced kind does not compile without a root.
    pub fn load_permissions(manifest: &ApiManifest, root: Option<NamespaceRoot>) -> (r: Result<
        Permissions,
        PermissionError,
    >)
        ensures
            match r {
                Ok(permissions) => {
                    &&& permissions.root() == root
                    &&& permissions.flags() == declared_flags(*manifest)
                    &&& is_compiled_from(permissions.grants(), declared_grants(*manifest), root)
                },
                Err(e) => is_first_grant_fault(declared_grants(*manifest), root, e@),
            },
    {
        let declared = Self::declared_permissions(manifest);
        let flags = Self::http_event_permissions(manifest);
        let ghost raw = declared_grants(*manifest);
        let mut grants: Vec<Grant> = Vec::new();
        let mut g: usize = 0;
        while g < declared.len()
            invariant
                g <= declared.len(),
                grant_views(declared@) == raw,
                raw == declared_grants(*manifest),
                is_compiled_from(grants@, raw.take(g as int), root),
            decreases declared.len() - g,
        {
            proof {
                assert(grant_views(declared@)[g as int] == raw[g as int]);
                assert(declared[g as int].texts() == raw[g as int].1);
            }
            match compile(declared[g].kind, &declared[g].allow_list, &root) {
                Ok(allow_list) => {
                    grants.push(Grant { kind: declared[g].kind, allow_list });
                    proof {
                        let next = raw.take(g + 1);
                        assert forall|h: int| 0 <= h < next.len() implies {
                            &&& (#[trigger] grants@[h]).kind == next[h].0
                            &&& is_compilation(next[h].0, root, next[h].1, grants@[h].allow_list@)
                        } by {
                            if h < g {
                                assert(raw.take(g as int)[h] == next[h]);
                            }
                        }
                    }
                },
                Err(e) => {
                    proof {
                        assert forall|h: int| 0 <= h < g implies list_compiles(
                            (#[trigger] raw[h]).0,
                            root,
                            raw[h].1,
                        ) by {
                            assert(raw.take(g as int)[h] == raw[h]);
                            assert(is_compilation(
                                raw[h].0,
                                root,
                                raw[h].1,
                                grants@[h].allow_list@,
                            ));
                        }
                        assert(is_compile_fault(raw[g as int].0, root, raw[g as int].1, e@));
                        assert(is_first_grant_fault(raw, root, e@));
                    }
                    return Err(e);
                },
            }
            g += 1;
        }
        proof {
            assert(raw.take(g as int) =~= raw);
            assert forall|h: int| 0 <= h < grants.len() implies all_compiled(
                (#[trigger] grants[h]).allow_list@,
            ) by {
                assert(is_compilation(raw[h].0, root, raw[h].1, grants@[h].allow_list@));
                assert forall|i: int| 0 <= i < grants[h].allow_list.len() implies (
                #[trigger] grants[h].allow_list[i]).is_compiled() by {
                    let _ = raw[h].1[i];
                }
            }
        }
        Ok(Permissions { root, flags, grants })
    }

    /// The permissions that `manifest` grants without naming a path: those
    /// on the request itself.
    pub fn http_event_permissions(manifest: &ApiManifest) -> (result: Vec<PermissionKind>)
        ensures
            result@ == declared_flags(*manifest),
    {
        let mut result: Vec<PermissionKind> = Vec::new();
        if let Some(permissions) = &manifest.permissions {
            if permissions.http_event.request_read {
                result.push(PermissionKind::HttpEvent(HttpEvent::RequestRead));
            }
            if permissions.http_event.response_send {
                result.push(PermissionKind::HttpEvent(HttpEvent::ResponseSend));
            }
        }
        assert(result@ =~= declared_flags(*manifest));
        result
    }
}

} // verus!
