//! The runtime of a request to a route that is served from the `surl`
//! directory of its workspace.

use crate::files::FileManager;
use crate::paths::surl_location;
use crate::runtimes::api::{Action, ActionView};
use crate::runtimes::pipeline::{
    advance, outcome_of, stage_fits, step, Event, Failure, Outcome, Shape, Stage,
};
use vstd::prelude::*;

verus! {

/// The manifest of a route under `surl`: the names of its middlewares, in
/// the order in which they run.
#[derive(Debug)]
pub struct SurlManifest {
    pub middlewares: Vec<String>,
}

/// A runtime for the scripts of a route under `surl`. Every request is
/// authenticated.
#[derive(Debug)]
pub struct SurlRuntime {
    file_mgr: FileManager,
    manifest: SurlManifest,
    stage: Stage,
}

impl SurlRuntime {
    /// The stage of the request fits the manifest.
    #[verifier::type_invariant]
    spec fn stage_fits_manifest(self) -> bool {
        stage_fits(
            Shape { has_auth: true, middlewares: self.manifest.middlewares.len() },
            self.stage,
        )
    }

    /// The files of the request.
    pub closed spec fn files(&self) -> FileManager {
        self.file_mgr
    }

    /// The manifest of the route.
    pub closed spec fn manifest(&self) -> SurlManifest {
        self.manifest
    }

    /// Where the request stands.
    pub closed spec fn stage(&self) -> Stage {
        self.stage
    }

    /// What of the manifest decides the stages.
    pub open spec fn shape(&self) -> Shape {
        Shape { has_auth: true, middlewares: self.manifest().middlewares.len() }
    }

    /// What the caller is asked to do while the request stands at its
    /// present stage. The paths are relative to the workspace root.
    pub open spec fn pending(&self) -> ActionView {
        match self.stage() {
            Stage::AuthCheck => ActionView::RunScript { path: "/system/auth.js"@ },
            Stage::MiddlewareCheck(index) => ActionView::RunScript {
                path: "/middlewares/"@ + self.manifest().middlewares[index as int]@,
            },
            Stage::HandlerRun => ActionView::RunHandler {
                specialized: None,
                fallback: surl_location(self.files().paths().route(), "index.js"@),
            },
            stage => ActionView::Finish(outcome_of(stage)),
        }
    }

    /// The path that is to be made canonical to find the manifest of the
    /// route.
    pub fn manifest_path(file_mgr: &FileManager) -> (r: String)
        ensures
            r@ == file_mgr.paths().root() + "/"@ + surl_location(
                file_mgr.paths().route(),
                "surl.yaml"@,
            ),
    {
        file_mgr.read_file_from_surl("surl.yaml")
    }

    /// Creates the runtime of a request to the route whose manifest is
    /// `manifest`; the request stands at `Init`.
    pub fn new(file_mgr: FileManager, manifest: SurlManifest) -> (r: Self)
        ensures
            r.files() == file_mgr,
            r.manifest() == manifest,
            r.stage() == Stage::Init,
    {
        SurlRuntime { file_mgr, manifest, stage: Stage::Init }
    }

    /// The files of the request.
    pub fn file_mgr(&self) -> (r: &FileManager)
        ensures
            *r == self.files(),
    {
        &self.file_mgr
    }

    /// Where the request stands.
    pub fn current_stage(&self) -> (r: Stage)
        ensures
            r == self.stage(),
            stage_fits(self.shape(), r),
    {
        proof {
            use_type_invariant(self);
        }
        self.stage
    }

    /// Takes the request one stage further on `event`, and says what is to
    /// be done at the stage it has reached: authentication first, then each
    /// middleware in the order of its declaration, then the handler.
    pub fn execute(&mut self, event: Event) -> (action: Action)
        ensures
            final(self).files() == old(self).files(),
            final(self).manifest() == old(self).manifest(),
            final(self).stage() == step(old(self).shape(), old(self).stage(), event),
            action@ == final(self).pending(),
    {
        proof {
            use_type_invariant(&*self);
        }
        let shape = Shape { has_auth: true, middlewares: self.manifest.middlewares.len() };
        self.stage = advance(shape, self.stage, event);
        match self.stage {
            Stage::AuthCheck => Action::RunScript { path: "/system/auth.js".to_owned() },
            Stage::MiddlewareCheck(index) => {
                let mut path = "/middlewares/".to_owned();
                path.append(self.manifest.middlewares[index].as_str());
                Action::RunScript { path }
            },
            Stage::HandlerRun => self.run_index(),
            Stage::Done => Action::Finish(Outcome::Done),
            Stage::Reject => Action::Finish(Outcome::Rejected),
            Stage::Failed(failure) => Action::Finish(Outcome::Failed(failure)),
            Stage::Init => Action::Finish(Outcome::Failed(Failure::InternalPanic)),
        }
    }

    /// The handler of the route.
    pub fn run_index(&self) -> (action: Action)
        ensures
            action@ == (ActionView::RunHandler {
                specialized: None,
                fallback: surl_location(self.files().paths().route(), "index.js"@),
            }),
    {
        Action::RunHandler {
            specialized: None,
            fallback: self.file_mgr.get_relative_path_from_surl("index.js"),
        }
    }
}

} // verus!
