//! The resolver capability and the reference resolvers that ship with it.

use vstd::prelude::*;

verus! {

/// An owned candidate filesystem path produced by a resolver.
///
/// The path is kept exactly as the characters the resolver produced: no
/// normalization, no existence check, no symlink resolution. Whether the
/// candidate is actually usable is judged by whatever filesystem access the
/// caller performs afterwards, outside this library.
pub struct ResolvedPath {
    path: String,
}

impl View for ResolvedPath {
    type V = Seq<char>;

    closed spec fn view(&self) -> Seq<char> {
        self.path@
    }
}

impl ResolvedPath {
    /// Wrap an owned string as a resolved path, keeping its characters
    /// unchanged.
    pub fn new(path: String) -> (resolved: Self)
        ensures
            resolved@ == path@,
    {
        ResolvedPath { path }
    }

    /// Borrow the path's characters.
    pub fn as_str(&self) -> (s: &str)
        ensures
            s@ == self@,
    {
        self.path.as_str()
    }

    /// The path's characters as an owned string.
    pub fn to_string(&self) -> (s: String)
        ensures
            s@ == self@,
    {
        self.path.clone()
    }
}

/// The view of a resolution outcome: the resolved path's characters where a
/// candidate was produced, `None` where the resolver declined.
pub open spec fn resolution_view(resolved: Option<ResolvedPath>) -> Option<Seq<char>> {
    match resolved {
        Some(p) => Some(p@),
        None => None,
    }
}

/// The asset resolver capability. Every resolution strategy satisfies this
/// one contract: given a path string, produce at most one candidate path.
///
/// Declining (returning `None`) is not an error; it signals "not my
/// responsibility", and some other strategy may still answer.
pub trait AssetResolver {
    /// What this resolver answers for each input, as a mathematical function
    /// from the input's characters to the characters of the candidate path,
    /// or `None` where this strategy declines.
    spec fn resolve_spec(&self, path: Seq<char>) -> Option<Seq<char>>;

    /// Resolve a path to an asset.
    ///
    /// The incoming path may be in any format. A resolver that can produce a
    /// candidate returns `Some`; otherwise it returns `None`, and a chain may
    /// hand the same input to the next strategy.
    fn resolve(&self, path: &str) -> (resolved: Option<ResolvedPath>)
        ensures
            resolution_view(resolved) == self.resolve_spec(path@),
    ;
}

/// The default resolver: treats the input string as already being a native
/// path representation and returns it unchanged.
pub struct DefaultResolver;

impl AssetResolver for DefaultResolver {
    /// The default resolver is total: every input, the empty string
    /// included, resolves to itself.
    open spec fn resolve_spec(&self, path: Seq<char>) -> Option<Seq<char>> {
        Some(path)
    }

    /// Directly resolves any path string to the same characters, deferring
    /// all validity judgments to later filesystem operations.
    fn resolve(&self, path: &str) -> (resolved: Option<ResolvedPath>)
        ensures
            resolved matches Some(p) && p@ == path@,
    {
        Some(ResolvedPath::new(path.to_owned()))
    }
}

/// A resolver that always returns `None`: a deliberate terminator or
/// placeholder that never resolves anything.
pub struct NullResolver;

impl AssetResolver for NullResolver {
    /// The null resolver declines every input.
    open spec fn resolve_spec(&self, path: Seq<char>) -> Option<Seq<char>> {
        None
    }

    /// Does not resolve paths. Just returns `None`.
    fn resolve(&self, path: &str) -> (resolved: Option<ResolvedPath>)
        ensures
            resolved is None,
    {
        None
    }
}

/// A resolver that answers one configured path for every input. It always
/// succeeds, so it demonstrates how earlier chain members take precedence
/// over later ones, and it serves as a chain-order sentinel in tests.
pub struct FixedResolver {
    path: String,
}

impl View for FixedResolver {
    type V = Seq<char>;

    closed spec fn view(&self) -> Seq<char> {
        self.path@
    }
}

impl FixedResolver {
    /// Configure a resolver that resolves everything to `path`.
    pub fn new(path: String) -> (resolver: Self)
        ensures
            resolver@ == path@,
    {
        FixedResolver { path }
    }
}

impl AssetResolver for FixedResolver {
    /// Always resolves, to the configured path.
    open spec fn resolve_spec(&self, path: Seq<char>) -> Option<Seq<char>> {
        Some(self@)
    }

    /// Returns the configured path, whatever the input.
    fn resolve(&self, path: &str) -> (resolved: Option<ResolvedPath>)
        ensures
            resolved matches Some(p) && p@ == self@,
    {
        Some(ResolvedPath::new(self.path.clone()))
    }
}

} // verus!
