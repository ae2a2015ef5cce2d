//! Where the files of a request are read from.

use crate::path::PathError;
use crate::paths::{containment, is_path_result, path_view, surl_location, WorkspacePaths};
use vstd::prelude::*;

verus! {

/// Names the files of one request and accepts what the file system made of
/// those names. Reading is left to the caller: a file is read only from a
/// path that `accept` has returned.
#[derive(Debug)]
pub struct FileManager {
    paths: WorkspacePaths,
}

impl FileManager {
    /// The paths that this manager works with.
    pub closed spec fn paths(&self) -> WorkspacePaths {
        self.paths
    }

    /// The manager of the files under `paths`.
    pub fn new(paths: WorkspacePaths) -> (r: Self)
        ensures
            r.paths() == paths,
    {
        FileManager { paths }
    }

    /// The path that is to be made canonical before `relative_path` is
    /// read.
    pub fn read_file(&self, relative_path: &str) -> (r: String)
        ensures
            r@ == self.paths().root() + "/"@ + relative_path@,
    {
        self.paths.full_path(relative_path)
    }

    /// The path that is to be made canonical before the file
    /// `relative_path` of the request's route is read.
    pub fn read_file_from_surl(&self, relative_path: &str) -> (r: String)
        ensures
            r@ == self.paths().root() + "/"@ + surl_location(
                self.paths().route(),
                relative_path@,
            ),
    {
        self.paths.get_canon_path_from_surl(relative_path)
    }

    /// Accepts what the file system made of `relative_path`: the canonical
    /// path of a file that lies in the workspace. Any other path is a
    /// containment violation, and no path at all is not found.
    pub fn accept(&self, relative_path: &str, resolved: Option<String>) -> (r: Result<
        String,
        PathError,
    >)
        ensures
            is_path_result(
                r,
                containment(
                    self.paths().root() + "/"@ + relative_path@,
                    path_view(resolved),
                    self.paths().root(),
                    self.paths().separator(),
                ),
            ),
    {
        self.paths.get_canon_path(relative_path, resolved)
    }

    /// The path inside the workspace of the file `relative_path` of the
    /// request's route.
    pub fn get_relative_path_from_surl(&self, relative_path: &str) -> (r: String)
        ensures
            r@ == surl_location(self.paths().route(), relative_path@),
    {
        self.paths.get_relative_path_from_surl(relative_path)
    }
}

} // verus!
