//! The paths of one request inside its workspace.

use crate::path::{contained, is_contained, main_separator, PathError, PathFault};
use crate::text::{chars_of, has_prefix, string_of_range};
use vstd::prelude::*;

verus! {

/// `url_path` without the routing prefix `/r/`, where it has that prefix.
pub open spec fn stripped(url_path: Seq<char>) -> Seq<char> {
    if "/r/"@.is_prefix_of(url_path) {
        url_path.skip("/r/"@.len() as int)
    } else {
        url_path
    }
}

/// Where the workspace `workspace_id` is kept under `root_path`.
pub open spec fn workspace_location(root_path: Seq<char>, workspace_id: Seq<char>) -> Seq<char> {
    root_path + "/workspaces/"@ + workspace_id
}

/// The path inside a workspace of the file `relative_path` of the route
/// `url_path`.
pub open spec fn surl_location(url_path: Seq<char>, relative_path: Seq<char>) -> Seq<char> {
    "/surl/"@ + url_path + "/"@ + relative_path
}

/// What resolving `requested` under `root` comes to, where the file system
/// made `resolved` of it: nothing where it found nothing. A path that was
/// found is handed back where it lies under the root, and is a containment
/// violation where it does not.
pub open spec fn containment(
    requested: Seq<char>,
    resolved: Option<Seq<char>>,
    root: Seq<char>,
    sep: char,
) -> Result<Seq<char>, PathFault> {
    match resolved {
        None => Err(PathFault::NotFound { path: requested }),
        Some(path) => if contained(path, root, sep) {
            Ok(path)
        } else {
            Err(PathFault::ContainmentViolation { path, root })
        },
    }
}

/// The view of a path that may be absent.
pub open spec fn path_view(path: Option<String>) -> Option<Seq<char>> {
    match path {
        Some(p) => Some(p@),
        None => None,
    }
}

/// Whether `r` is the result `expected`, both sides taken by their view.
pub open spec fn is_path_result(
    r: Result<String, PathError>,
    expected: Result<Seq<char>, PathFault>,
) -> bool {
    match r {
        Ok(p) => expected == Ok::<Seq<char>, PathFault>(p@),
        Err(e) => expected == Err::<Seq<char>, PathFault>(e@),
    }
}

/// Whatever the file system made of a path, resolution either hands back
/// a path that lies under the root, or it fails: as not found where the file
/// system found nothing, and as a containment violation in every other case.
/// No path outside the root is ever handed back.
pub proof fn law_resolution_stays_inside(
    requested: Seq<char>,
    resolved: Option<Seq<char>>,
    root: Seq<char>,
    sep: char,
)
    ensures
        match containment(requested, resolved, root, sep) {
            Ok(path) => resolved == Some(path) && contained(path, root, sep),
            Err(fault) => match resolved {
                None => fault == (PathFault::NotFound { path: requested }),
                Some(path) => fault == (PathFault::ContainmentViolation { path, root })
                    && !contained(path, root, sep),
            },
        },
{
}

/// Strips the routing prefix `/r/` from `url_path`.
pub fn strip_route_prefix(url_path: &str) -> (r: String)
    ensures
        r@ == stripped(url_path@),
{
    let v = chars_of(url_path);
    let prefix = chars_of("/r/");
    proof {
        reveal_strlit("/r/");
    }
    if has_prefix(&v, &prefix) {
        let r = string_of_range(&v, prefix.len(), v.len());
        assert(v@.subrange(prefix.len() as int, v.len() as int) =~= v@.skip(prefix.len() as int));
        r
    } else {
        url_path.to_owned()
    }
}

/// The canonical root of a workspace and the route of the request, with
/// the routing prefix taken off.
#[derive(Debug)]
pub struct WorkspacePaths {
    canon_w_path: String,
    url_path: String,
    separator: char,
}

impl WorkspacePaths {
    /// The canonical root of the workspace.
    pub closed spec fn root(&self) -> Seq<char> {
        self.canon_w_path@
    }

    /// The route of the request, without the routing prefix.
    pub closed spec fn route(&self) -> Seq<char> {
        self.url_path@
    }

    /// The separator by which canonical paths are read.
    pub closed spec fn separator(&self) -> char {
        self.separator
    }

    /// The path that is to be made canonical to find the workspace
    /// `workspace_id` under `root_path`.
    pub fn workspace_dir(root_path: &str, workspace_id: &str) -> (r: String)
        ensures
            r@ == workspace_location(root_path@, workspace_id@),
    {
        let mut r = root_path.to_owned();
        r.append("/workspaces/");
        r.append(workspace_id);
        r
    }

    /// The paths of a request for `url_path` in the workspace whose
    /// canonical root is `canon_w_path`, read by the separator `separator`.
    pub fn with_separator(canon_w_path: String, url_path: &str, separator: char) -> (r: Self)
        ensures
            r.root() == canon_w_path@,
            r.route() == stripped(url_path@),
            r.separator() == separator,
    {
        WorkspacePaths { canon_w_path, url_path: strip_route_prefix(url_path), separator }
    }

    /// The paths of a request for `url_path` in the workspace whose
    /// canonical root is `canon_w_path`, read by the platform's separator.
    pub fn new(canon_w_path: String, url_path: &str) -> (r: Self)
        ensures
            r.root() == canon_w_path@,
            r.route() == stripped(url_path@),
            r.separator() == '/' || r.separator() == '\\',
    {
        Self::with_separator(canon_w_path, url_path, main_separator())
    }

    /// The canonical root of the workspace.
    pub fn canon_w_path(&self) -> (r: &str)
        ensures
            r@ == self.root(),
    {
        self.canon_w_path.as_str()
    }

    /// The route of the request, without the routing prefix.
    pub fn url_path(&self) -> (r: &str)
        ensures
            r@ == self.route(),
    {
        self.url_path.as_str()
    }

    /// The path that is to be made canonical to find `relative_path` in the
    /// workspace.
    pub fn full_path(&self, relative_path: &str) -> (r: String)
        ensures
            r@ == self.root() + "/"@ + relative_path@,
    {
        let mut r = self.canon_w_path.clone();
        r.append("/");
        r.append(relative_path);
        r
    }

    /// Resolves `relative_path`, of which the file system made `resolved`:
    /// the canonical path where it lies in the workspace. A path that leads
    /// out of the workspace is a containment violation, and one that leads
    /// nowhere is not found.
    pub fn get_canon_path(&self, relative_path: &str, resolved: Option<String>) -> (r: Result<
        String,
        PathError,
    >)
        ensures
            is_path_result(
                r,
                containment(
                    self.root() + "/"@ + relative_path@,
                    path_view(resolved),
                    self.root(),
                    self.separator(),
                ),
            ),
    {
        match resolved {
            None => Err(PathError::NotFound { path: self.full_path(relative_path) }),
            Some(path) => {
                if is_contained(path.as_str(), self.canon_w_path.as_str(), self.separator) {
                    Ok(path)
                } else {
                    Err(
                        PathError::ContainmentViolation {
                            path,
                            root: self.canon_w_path.clone(),
                        },
                    )
                }
            },
        }
    }

    /// The path inside the workspace of the file `relative_path` of this
    /// request's route.
    pub fn get_relative_path_from_surl(&self, relative_path: &str) -> (r: String)
        ensures
            r@ == surl_location(self.route(), relative_path@),
    {
        let mut r = "/surl/".to_owned();
        r.append(self.url_path.as_str());
        r.append("/");
        r.append(relative_path);
        r
    }

    /// The path that is to be made canonical to find the file
    /// `relative_path` of this request's route.
    pub fn get_canon_path_from_surl(&self, relative_path: &str) -> (r: String)
        ensures
            r@ == self.root() + "/"@ + surl_location(self.route(), relative_path@),
    {
        let relative = self.get_relative_path_from_surl(relative_path);
        self.full_path(relative.as_str())
    }
}

} // verus!
