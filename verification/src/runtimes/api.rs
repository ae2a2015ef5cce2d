//! The runtime of a request to an api route.
//!
//! The runtime expects to find the url path of the request mapped directly
//! to a similar-looking directory in the workspace root. It names the scripts
//! of the route one at a time, in the order in which they have to run, and is
//! told of each what came of it.

use crate::path::{join, joined};
use crate::permissions::error::PermissionError;
use crate::permissions::NamespaceRoot;
use crate::runtimes::manifest::ApiManifest;
use crate::runtimes::permissions::{
    declared_flags, declared_grants, is_compiled_from, is_first_grant_fault, ApiPermissions,
    Permissions,
};
use crate::runtimes::pipeline::{
    advance, outcome_of, stage_fits, step, Event, Failure, Outcome, Shape, Stage,
};
use vstd::prelude::*;

verus! {

/// The method of a request.
#[derive(Debug, Clone, Copy, PartialEq, Eq, Structural)]
pub enum Method {
    Get,
    Post,
    Put,
    Delete,
    Head,
    Options,
    Connect,
    Patch,
    Trace,
    /// Any method that has no handler of its own.
    Other,
}

impl Method {
    /// The name of the handler file that serves this method alone.
    pub open spec fn index_name(self) -> Option<Seq<char>> {
        match self {
            Method::Get => Some("index.get.js"@),
            Method::Post => Some("index.post.js"@),
            Method::Put => Some("index.put.js"@),
            Method::Delete => Some("index.delete.js"@),
            Method::Head => Some("index.head.js"@),
            Method::Options => Some("index.options.js"@),
            Method::Connect => Some("index.connect.js"@),
            Method::Patch => Some("index.patch.js"@),
            Method::Trace => Some("index.trace.js"@),
            Method::Other => None,
        }
    }

    /// The name of the handler file that serves this method alone.
    pub fn get_index_name(self) -> (r: Option<&'static str>)
        ensures
            match r {
                Some(name) => self.index_name() == Some(name@),
                None => self.index_name() is None,
            },
    {
        match self {
            Method::Get => Some("index.get.js"),
            Method::Post => Some("index.post.js"),
            Method::Put => Some("index.put.js"),
            Method::Delete => Some("index.delete.js"),
            Method::Head => Some("index.head.js"),
            Method::Options => Some("index.options.js"),
            Method::Connect => Some("index.connect.js"),
            Method::Patch => Some("index.patch.js"),
            Method::Trace => Some("index.trace.js"),
            Method::Other => None,
        }
    }
}

/// What the caller is asked to do next.
#[derive(Debug)]
pub enum Action {
    /// The script at `path` is to be run, with no permissions at all, and
    /// the caller is to say what it returned.
    RunScript { path: String },
    /// The handler is to be run with the permissions of the request: the
    /// file at `specialized` where there is one, else the file at `fallback`.
    RunHandler { specialized: Option<String>, fallback: String },
    /// Nothing is left to do: the request has ended.
    Finish(Outcome),
}

/// An `Action` as a mathematical value.
pub enum ActionView {
    RunScript { path: Seq<char> },
    RunHandler { specialized: Option<Seq<char>>, fallback: Seq<char> },
    Finish(Outcome),
}

impl View for Action {
    type V = ActionView;

    open spec fn view(&self) -> ActionView {
        match self {
            Action::RunScript { path } => ActionView::RunScript { path: path@ },
            Action::RunHandler { specialized, fallback } => ActionView::RunHandler {
                specialized: match specialized {
                    Some(s) => Some(s@),
                    None => None,
                },
                fallback: fallback@,
            },
            Action::Finish(outcome) => ActionView::Finish(*outcome),
        }
    }
}

/// The code of a script wrapped so that it runs at once, in strict mode,
/// and leaves no name behind in the global scope.
pub open spec fn wrapped(code: Seq<char>) -> Seq<char> {
    "\"use strict\"; (\n"@ + code + " \n)();"@
}

/// The handler file that serves a request: the specialized one where it
/// exists, else the fallback.
pub open spec fn chosen_handler(
    specialized: Option<Seq<char>>,
    fallback: Seq<char>,
    exists: bool,
) -> Seq<char> {
    match specialized {
        Some(path) if exists => path,
        _ => fallback,
    }
}

/// A runtime for the scripts of an api route.
#[derive(Debug)]
pub struct ApiRuntime {
    relative_folder_path: String,
    manifest: ApiManifest,
    method: Method,
    permissions: Permissions,
    separator: char,
    stage: Stage,
}

impl ApiRuntime {
    /// The stage of the request fits the manifest.
    #[verifier::type_invariant]
    spec fn stage_fits_manifest(self) -> bool {
        stage_fits(
            Shape {
                has_auth: self.manifest.authentication.enabled,
                middlewares: self.manifest.middlewares.len(),
            },
            self.stage,
        )
    }

    /// The directory of the route, relative to the workspace root.
    pub closed spec fn folder(&self) -> Seq<char> {
        self.relative_folder_path@
    }

    /// The manifest of the route.
    pub closed spec fn manifest(&self) -> ApiManifest {
        self.manifest
    }

    /// The method of the request.
    pub closed spec fn method(&self) -> Method {
        self.method
    }

    /// The permissions of the request.
    pub closed spec fn permissions(&self) -> Permissions {
        self.permissions
    }

    /// The separator with which paths are written.
    pub closed spec fn separator(&self) -> char {
        self.separator
    }

    /// Where the request stands.
    pub closed spec fn stage(&self) -> Stage {
        self.stage
    }

    /// What of the manifest decides the stages.
    pub open spec fn shape(&self) -> Shape {
        Shape {
            has_auth: self.manifest().authentication.enabled,
            middlewares: self.manifest().middlewares.len(),
        }
    }

    /// What the caller is asked to do while the request stands at its
    /// present stage.
    pub open spec fn pending(&self) -> ActionView {
        match self.stage() {
            Stage::AuthCheck => ActionView::RunScript {
                path: joined(self.folder(), "auth.js"@, self.separator()),
            },
            Stage::MiddlewareCheck(index) => ActionView::RunScript {
                path: self.manifest().middlewares[index as int].script@,
            },
            Stage::HandlerRun => ActionView::RunHandler {
                specialized: match self.method().index_name() {
                    Some(name) => Some(joined(self.folder(), name, self.separator())),
                    None => None,
                },
                fallback: joined(self.folder(), "index.js"@, self.separator()),
            },
            stage => ActionView::Finish(outcome_of(stage)),
        }
    }

    /// Whether `next` is this runtime at another stage.
    pub open spec fn same_request(&self, next: &Self) -> bool {
        &&& next.folder() == self.folder()
        &&& next.manifest() == self.manifest()
        &&& next.method() == self.method()
        &&& next.permissions() == self.permissions()
        &&& next.separator() == self.separator()
    }

    /// The path of the manifest of the route in `relative_folder_path`.
    pub fn manifest_path(relative_folder_path: &str, separator: char) -> (r: String)
        ensures
            r@ == joined(relative_folder_path@, "api.yaml"@, separator),
    {
        join(relative_folder_path, "api.yaml", separator)
    }

    /// Creates the runtime of a request with `method` to the route in
    /// `relative_folder_path`, whose manifest is `manifest`. The permissions
    /// that the manifest declares are built under `root`; the request
    /// stands at `Init`.
    pub fn new(
        relative_folder_path: String,
        method: Method,
        manifest: ApiManifest,
        root: Option<NamespaceRoot>,
        separator: char,
    ) -> (r: Result<Self, PermissionError>)
        ensures
            match r {
                Ok(runtime) => {
                    &&& runtime.folder() == relative_folder_path@
                    &&& runtime.method() == method
                    &&& runtime.manifest() == manifest
                    &&& runtime.separator() == separator
                    &&& runtime.stage() == Stage::Init
                    &&& runtime.permissions().root() == root
                    &&& runtime.permissions().flags() == declared_flags(manifest)
                    &&& is_compiled_from(
                        runtime.permissions().grants(),
                        declared_grants(manifest),
                        root,
                    )
                },
                Err(e) => is_first_grant_fault(declared_grants(manifest), root, e@),
            },
    {
        match ApiPermissions::load_permissions(&manifest, root) {
            Ok(permissions) => Ok(
                ApiRuntime {
                    relative_folder_path,
                    manifest,
                    method,
                    permissions,
                    separator,
                    stage: Stage::Init,
                },
            ),
            Err(e) => Err(e),
        }
    }

    /// Where the request stands.
    pub fn current_stage(&self) -> (r: Stage)
        ensures
            r == self.stage(),
            stage_fits(self.shape(), r),
    {
        proof {
            use_type_invariant(self);
        }
        self.stage
    }

    /// The manifest of the route.
    pub fn api_manifest(&self) -> (r: &ApiManifest)
        ensures
            *r == self.manifest(),
    {
        &self.manifest
    }

    /// The directory of the route, relative to the workspace root.
    pub fn relative_folder_path(&self) -> (r: &str)
        ensures
            r@ == self.folder(),
    {
        self.relative_folder_path.as_str()
    }

    /// The permissions with which the handler runs.
    pub fn handler_permissions(&self) -> (r: &Permissions)
        ensures
            *r == self.permissions(),
    {
        &self.permissions
    }

    /// Takes the request one stage further on `event`, and says what is to
    /// be done at the stage it has reached: authentication first, where the
    /// manifest asks for it, then each middleware in the order of its
    /// declaration, then the handler. A gate that returned `false` ends the
    /// request as rejected, and a failure ends it as failed.
    pub fn execute(&mut self, event: Event) -> (action: Action)
        ensures
            old(self).same_request(final(self)),
            final(self).stage() == step(old(self).shape(), old(self).stage(), event),
            action@ == final(self).pending(),
    {
        proof {
            use_type_invariant(&*self);
        }
        let shape = Shape {
            has_auth: self.manifest.authentication.enabled,
            middlewares: self.manifest.middlewares.len(),
        };
        self.stage = advance(shape, self.stage, event);
        match self.stage {
            Stage::AuthCheck => Action::RunScript { path: self.run_auth() },
            Stage::MiddlewareCheck(index) => Action::RunScript {
                path: self.manifest.middlewares[index].script.clone(),
            },
            Stage::HandlerRun => self.run_index(),
            Stage::Done => Action::Finish(Outcome::Done),
            Stage::Reject => Action::Finish(Outcome::Rejected),
            Stage::Failed(failure) => Action::Finish(Outcome::Failed(failure)),
            Stage::Init => Action::Finish(Outcome::Failed(Failure::InternalPanic)),
        }
    }

    /// The path of the authentication script of the route.
    pub fn run_auth(&self) -> (path: String)
        ensures
            path@ == joined(self.folder(), "auth.js"@, self.separator()),
    {
        join(self.relative_folder_path.as_str(), "auth.js", self.separator)
    }

    /// The handler of the route: the file that serves the method of the
    /// request alone, and the file that serves every method.
    pub fn run_index(&self) -> (action: Action)
        ensures
            action@ == (ActionView::RunHandler {
                specialized: match self.method().index_name() {
                    Some(name) => Some(joined(self.folder(), name, self.separator())),
                    None => None,
                },
                fallback: joined(self.folder(), "index.js"@, self.separator()),
            }),
    {
        let specialized = match self.method.get_index_name() {
            Some(name) => Some(join(self.relative_folder_path.as_str(), name, self.separator)),
            None => None,
        };
        let fallback = join(self.relative_folder_path.as_str(), "index.js", self.separator);
        Action::RunHandler { specialized, fallback }
    }

    /// Gets the handler file for a request: the specialized one where the
    /// caller found it to exist, else the fallback.
    pub fn get_method_index_path(
        specialized: Option<String>,
        fallback: String,
        exists: bool,
    ) -> (path: String)
        ensures
            path@ == chosen_handler(
                match specialized {
                    Some(s) => Some(s@),
                    None => None,
                },
                fallback@,
                exists,
            ),
    {
        match specialized {
            Some(path) => if exists {
                path
            } else {
                fallback
            },
            None => fallback,
        }
    }

    /// The name under which the engine knows the module at `filepath`:
    /// the path made absolute.
    pub fn module_name(filepath: &str, separator: char) -> (name: String)
        ensures
            name@ == joined(seq![separator], filepath@, separator),
    {
        let mut root = String::new();
        crate::text::push_char(&mut root, separator);
        assert(root@ =~= seq![separator]);
        join(root.as_str(), filepath, separator)
    }

    /// Adds the code within a function that is called at once, to prevent
    /// an accidental leak of names to the global scope.
    pub fn format_code(code: &str) -> (r: String)
        ensures
            r@ == wrapped(code@),
    {
        let mut r = "\"use strict\"; (\n".to_owned();
        r.append(code);
        r.append(" \n)();");
        r
    }
}

} // verus!
