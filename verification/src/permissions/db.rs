//! The database permissions.
//!
//! A database resource is addressed as `/database[/table[/column]]`. The
//! database name is at most 48 characters long, and every path is read under
//! the namespace of the workspace that owns it.

use crate::permissions::error::{PermissionError, PermissionFault};
use crate::permissions::kind::{PermissionFamily, PermissionKind, PermissionTypeKey};
use crate::permissions::matcher::{
    all_compiled, candidate, check, compile, is_compilation, is_compile_fault, is_result,
    pattern_texts, some_accepts, verdict_of,
};
use crate::permissions::pattern::{
    clone_regex, compile_regex, compose, composed, pattern_source, regex_compile, regex_is_match,
    regex_language, source_of,
};
use regex::Regex;
use vstd::prelude::*;

verus! {

/// The namespace under which paths and patterns are read: the identifier of
/// the workspace that owns them. The empty root stands for no namespace.
#[derive(Debug)]
pub struct DbRoot(String);

impl Clone for DbRoot {
    /// The same root again.
    fn clone(&self) -> (r: Self)
        ensures
            r == *self,
    {
        DbRoot(self.0.clone())
    }
}

impl View for DbRoot {
    type V = Seq<char>;

    closed spec fn view(&self) -> Seq<char> {
        self.0@
    }
}

impl DbRoot {
    /// The root named `root`.
    pub fn new(root: &str) -> (r: Self)
        ensures
            r@ == root@,
    {
        DbRoot(root.to_owned())
    }

    /// The root's text.
    pub fn as_str(&self) -> (s: &str)
        ensures
            s@ == self@,
    {
        self.0.as_str()
    }
}

impl From<&str> for DbRoot {
    fn from(root: &str) -> (r: Self)
        ensures
            r@ == root@,
    {
        DbRoot::new(root)
    }
}

impl vstd::std_specs::convert::FromSpecImpl<&str> for DbRoot {
    open spec fn obeys_from_spec() -> bool {
        false
    }

    open spec fn from_spec(root: &str) -> Self {
        arbitrary()
    }
}

impl From<&String> for DbRoot {
    fn from(root: &String) -> (r: Self)
        ensures
            r@ == root@,
    {
        DbRoot::new(root.as_str())
    }
}

impl vstd::std_specs::convert::FromSpecImpl<&String> for DbRoot {
    open spec fn obeys_from_spec() -> bool {
        false
    }

    open spec fn from_spec(root: &String) -> Self {
        arbitrary()
    }
}

impl From<String> for DbRoot {
    fn from(root: String) -> (r: Self)
        ensures
            r@ == root@,
    {
        DbRoot(root)
    }
}

impl vstd::std_specs::convert::FromSpecImpl<String> for DbRoot {
    open spec fn obeys_from_spec() -> bool {
        true
    }

    closed spec fn from_spec(root: String) -> Self {
        DbRoot(root)
    }
}

/// A resource path, or a pattern over resource paths. A pattern that has
/// been compiled carries the expression that decides what it accepts.
#[derive(Debug)]
pub struct DbPath {
    string: String,
    regex: Option<Regex>,
}

impl View for DbPath {
    type V = Seq<char>;

    closed spec fn view(&self) -> Seq<char> {
        self.string@
    }
}

impl DbPath {
    /// A compiled pattern accepts what the engine makes of the expression
    /// written for its own text.
    #[verifier::type_invariant]
    spec fn compiled_from_own_text(self) -> bool {
        self.regex matches Some(re) ==> regex_compile(pattern_source(self.string@)) == Some(
            regex_language(re),
        )
    }

    /// Whether the pattern has been compiled.
    pub closed spec fn spec_is_compiled(&self) -> bool {
        self.regex is Some
    }

    /// The texts that the pattern accepts, once it is compiled.
    pub closed spec fn language(&self) -> Set<Seq<char>> {
        regex_language(self.regex->0)
    }

    /// What holds of every pattern: once compiled, it accepts exactly what
    /// the engine makes of the anchored expression for its text.
    pub open spec fn wf(&self) -> bool {
        self.spec_is_compiled() ==> regex_compile(pattern_source(self@)) == Some(self.language())
    }

    /// The resource, or the pattern not yet compiled, written as `path`.
    pub fn new(path: &str) -> (r: Self)
        ensures
            r@ == path@,
            !r.spec_is_compiled(),
            r.wf(),
    {
        DbPath { string: path.to_owned(), regex: None }
    }

    /// The text of the resource or pattern.
    pub fn as_str(&self) -> (s: &str)
        ensures
            s@ == self@,
    {
        self.string.as_str()
    }

    /// Whether the pattern has been compiled.
    #[verifier::when_used_as_spec(spec_is_compiled)]
    pub fn is_compiled(&self) -> (r: bool)
        ensures
            r == self.spec_is_compiled(),
            self.wf(),
    {
        proof {
            use_type_invariant(self);
        }
        self.regex.is_some()
    }

    /// Whether the pattern accepts `text`.
    pub fn accepts(&self, text: &str) -> (r: bool)
        requires
            self.is_compiled(),
        ensures
            r == self.language().contains(text@),
            self.wf(),
    {
        proof {
            use_type_invariant(self);
        }
        match &self.regex {
            Some(re) => regex_is_match(re, text),
            None => false,
        }
    }

    /// Compiles the pattern written as `full`: `None` where the engine
    /// refuses the expression written for it.
    pub fn compile(full: String) -> (r: Option<Self>)
        ensures
            match r {
                Some(p) => p@ == full@ && p.is_compiled() && p.wf(),
                None => regex_compile(pattern_source(full@)) is None,
            },
    {
        let source = source_of(full.as_str());
        let outcome = compile_regex(source.as_str());
        Self::compiled_with(full, outcome)
    }

    /// Makes the compiled pattern written as `full` of what the engine made
    /// of the expression for it: the pattern accepts what the expression
    /// does, and there is none where the engine refused.
    pub fn compiled_with(full: String, outcome: Result<Regex, regex::Error>) -> (r: Option<Self>)
        requires
            outcome matches Ok(re) ==> regex_compile(pattern_source(full@)) == Some(
                regex_language(re),
            ),
        ensures
            match outcome {
                Ok(re) => r matches Some(p) && p@ == full@ && p.is_compiled() && p.wf()
                    && p.language() == regex_language(re),
                Err(_) => r is None,
            },
    {
        match outcome {
            Ok(re) => Some(DbPath { string: full, regex: Some(re) }),
            Err(_) => None,
        }
    }
}

impl Clone for DbPath {
    /// A copy with the same text, compiled where this pattern is, and
    /// accepting the same texts.
    fn clone(&self) -> (r: Self)
        ensures
            r@ == self@,
            r.is_compiled() == self.is_compiled(),
            r.is_compiled() ==> r.language() == self.language(),
            r.wf(),
    {
        proof {
            use_type_invariant(self);
        }
        let regex = match &self.regex {
            Some(re) => Some(clone_regex(re)),
            None => None,
        };
        DbPath { string: self.string.clone(), regex }
    }
}

impl From<&str> for DbPath {
    fn from(path: &str) -> (r: Self)
        ensures
            r@ == path@,
            !r.is_compiled(),
            r.wf(),
    {
        DbPath::new(path)
    }
}

impl vstd::std_specs::convert::FromSpecImpl<&str> for DbPath {
    open spec fn obeys_from_spec() -> bool {
        false
    }

    open spec fn from_spec(path: &str) -> Self {
        arbitrary()
    }
}

impl From<&String> for DbPath {
    fn from(path: &String) -> (r: Self)
        ensures
            r@ == path@,
            !r.is_compiled(),
            r.wf(),
    {
        DbPath::new(path.as_str())
    }
}

impl vstd::std_specs::convert::FromSpecImpl<&String> for DbPath {
    open spec fn obeys_from_spec() -> bool {
        false
    }

    open spec fn from_spec(path: &String) -> Self {
        arbitrary()
    }
}

impl From<String> for DbPath {
    fn from(path: String) -> (r: Self)
        ensures
            r@ == path@,
            !r.is_compiled(),
            r.wf(),
    {
        DbPath { string: path, regex: None }
    }
}

impl vstd::std_specs::convert::FromSpecImpl<String> for DbPath {
    open spec fn obeys_from_spec() -> bool {
        true
    }

    closed spec fn from_spec(path: String) -> Self {
        DbPath { string: path, regex: None }
    }
}

/// A namespace root, whatever the kind of permission it is used with.
pub type NamespaceRoot = DbRoot;

/// A resource or a pattern, whatever the kind of permission it is used with.
pub type ResourcePattern = DbPath;

/// What a script may do in a database.
#[derive(Debug, Clone, Copy, PartialEq, Eq, Structural)]
pub enum Db {
    Connect,
    DatabaseCreate,
    DatabaseDelete,
    TableCreate,
    TableDelete,
    ColumnCreate,
    ColumnDelete,
    RowCreate,
    RowDelete,
    RowRead,
    RowWrite,
}

impl Db {
    /// Appends the root to the path, delimited by the `$` character.
    pub fn append_root(root: &String, path: &String) -> (full: String)
        ensures
            full@ == composed(root@, path@),
    {
        compose(root.as_str(), path.as_str())
    }

    /// The key under which this permission is filed: every database
    /// permission has the same one.
    pub fn get_key(&self) -> (key: PermissionTypeKey)
        ensures
            key == (PermissionTypeKey { family: PermissionFamily::Database, variant: 0 }),
    {
        PermissionTypeKey { family: PermissionFamily::Database, variant: 0 }
    }

    /// Compiles an allow-list of database paths under the root in `state`.
    /// A root must be given, whatever the list holds, and no database name
    /// may be longer than 48 characters.
    pub fn map(&self, allow_list: Vec<DbPath>, state: &Option<DbRoot>) -> (r: Result<
        Vec<DbPath>,
        PermissionError,
    >)
        ensures
            state is None ==> (r matches Err(e) && e@ == PermissionFault::RootMissing),
            match r {
                Ok(compiled) => is_compilation(
                    PermissionKind::Database(*self),
                    *state,
                    pattern_texts(allow_list@),
                    compiled@,
                ),
                Err(e) => is_compile_fault(
                    PermissionKind::Database(*self),
                    *state,
                    pattern_texts(allow_list@),
                    e@,
                ),
            },
    {
        compile(PermissionKind::Database(*self), &allow_list, state)
    }

    /// Checks the database path `path` against a compiled allow-list, under
    /// the root in `state`.
    pub fn check(&self, path: &DbPath, allow_list: &Vec<DbPath>, state: &Option<DbRoot>) -> (r:
        Result<(), PermissionError>)
        requires
            all_compiled(allow_list@),
        ensures
            is_result(
                r,
                verdict_of(
                    PermissionKind::Database(*self),
                    *state,
                    path@,
                    some_accepts(allow_list@, candidate(*state, path@)),
                ),
            ),
    {
        check(PermissionKind::Database(*self), path.as_str(), allow_list, state)
    }
}

} // verus!
