//! Files in the workspace root.

use crate::path::{is_contained, join, joined, main_separator, PathError};
use crate::paths::{containment, is_path_result, path_view};
use vstd::prelude::*;

verus! {

/// Manages the paths of files in the workspace root.
#[derive(Debug)]
pub struct RootManager {
    pub canon_workspace_path: String,
    pub separator: char,
}

/// Common paths that are relative to the workspace root.
#[derive(Debug, Clone, Copy, PartialEq, Eq, Structural)]
pub enum RootLevel {
    Api,
    ApiSystem,
    Apps,
    Extensions,
    Scheduled,
}

impl RootLevel {
    /// The path of this level, relative to the workspace root.
    pub open spec fn path(self, sep: char) -> Seq<char> {
        match self {
            RootLevel::Api => "api"@,
            RootLevel::ApiSystem => joined("api"@, "system"@, sep),
            RootLevel::Apps => "apps"@,
            RootLevel::Extensions => "extensions"@,
            RootLevel::Scheduled => "scheduled"@,
        }
    }

    /// Gets the corresponding path (relative to the workspace root) of this
    /// level, written with the separator `sep`.
    pub fn get_path(&self, sep: char) -> (r: String)
        ensures
            r@ == self.path(sep),
    {
        match self {
            RootLevel::Api => "api".to_owned(),
            RootLevel::ApiSystem => join("api", "system", sep),
            RootLevel::Apps => "apps".to_owned(),
            RootLevel::Extensions => "extensions".to_owned(),
            RootLevel::Scheduled => "scheduled".to_owned(),
        }
    }
}

impl RootManager {
    /// Where the workspace `workspace_id` is kept under `root`.
    pub open spec fn workspace_location(root: Seq<char>, workspace_id: Seq<char>, sep: char) -> Seq<
        char,
    > {
        joined(joined(root, "workspaces"@, sep), workspace_id, sep)
    }

    /// The path that is to be made canonical to find the workspace
    /// `workspace_id` under `root`.
    pub fn workspace_path(root: &str, workspace_id: &str, sep: char) -> (r: String)
        ensures
            r@ == Self::workspace_location(root@, workspace_id@, sep),
    {
        let workspaces = join(root, "workspaces", sep);
        join(workspaces.as_str(), workspace_id, sep)
    }

    /// The manager of the workspace whose canonical root is
    /// `canon_workspace_path`, on a platform that separates by `separator`.
    pub fn with_separator(canon_workspace_path: String, separator: char) -> (r: Self)
        ensures
            r.canon_workspace_path@ == canon_workspace_path@,
            r.separator == separator,
    {
        RootManager { canon_workspace_path, separator }
    }

    /// The manager of the workspace whose canonical root is
    /// `canon_workspace_path`, on this platform.
    pub fn new(canon_workspace_path: String) -> (r: Self)
        ensures
            r.canon_workspace_path@ == canon_workspace_path@,
            r.separator == '/' || r.separator == '\\',
    {
        Self::with_separator(canon_workspace_path, main_separator())
    }

    /// The path that is to be made canonical to find `path` under `level`.
    /// An absolute `path` stands for itself.
    pub fn read_file_from(&self, path: &str, level: RootLevel) -> (r: String)
        ensures
            r@ == joined(
                joined(self.canon_workspace_path@, level.path(self.separator), self.separator),
                path@,
                self.separator,
            ),
    {
        let level_path = level.get_path(self.separator);
        let base = join(self.canon_workspace_path.as_str(), level_path.as_str(), self.separator);
        join(base.as_str(), path, self.separator)
    }

    /// The path that is to be made canonical to find `path` in the
    /// workspace. An absolute `path` stands for itself.
    pub fn read_file_from_workspace(&self, path: &str) -> (r: String)
        ensures
            r@ == joined(self.canon_workspace_path@, path@, self.separator),
    {
        join(self.canon_workspace_path.as_str(), path, self.separator)
    }

    /// Checks that `path`, of which the file system made `canon_path`, is
    /// still within the workspace root.
    pub fn validate_path(&self, path: &str, canon_path: Option<String>) -> (r: Result<
        String,
        PathError,
    >)
        ensures
            is_path_result(
                r,
                containment(
                    path@,
                    path_view(canon_path),
                    self.canon_workspace_path@,
                    self.separator,
                ),
            ),
    {
        match canon_path {
            None => Err(PathError::NotFound { path: path.to_owned() }),
            Some(canon) => {
                if is_contained(
                    canon.as_str(),
                    self.canon_workspace_path.as_str(),
                    self.separator,
                ) {
                    Ok(canon)
                } else {
                    Err(
                        PathError::ContainmentViolation {
                            path: canon,
                            root: self.canon_workspace_path.clone(),
                        },
                    )
                }
            },
        }
    }
}

} // verus!
