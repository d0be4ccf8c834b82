//! Composition of resolvers: an ordered chain that tries each member in turn
//! and returns the first success.

use vstd::prelude::*;

use crate::resolver::AssetResolver;
use crate::resolver::DefaultResolver;
use crate::resolver::FixedResolver;
use crate::resolver::NullResolver;
use crate::resolver::ResolvedPath;

verus! {

/// One resolver instance that a chain can own: one of the reference
/// resolvers, or a nested chain (a chain satisfies the same capability as
/// its members, so chains compose).
pub enum Resolver {
    Null(NullResolver),
    Default(DefaultResolver),
    Fixed(FixedResolver),
    Chain(ResolverChain),
}

/// An asset resolver that chains sub-resolvers together to attempt to
/// resolve a path using multiple ordered methods.
///
/// The chain exclusively owns its members; the order is fixed at
/// construction and is the priority order of consultation.
pub struct ResolverChain {
    resolvers: Vec<Resolver>,
}

impl View for ResolverChain {
    type V = Seq<Resolver>;

    closed spec fn view(&self) -> Seq<Resolver> {
        self.resolvers@
    }
}

/// What a single resolver answers for `path`: the characters of the
/// candidate path, or `None` where it declines.
pub open spec fn resolver_resolution(r: Resolver, path: Seq<char>) -> Option<Seq<char>>
    decreases r,
{
    match r {
        Resolver::Null(n) => n.resolve_spec(path),
        Resolver::Default(d) => d.resolve_spec(path),
        Resolver::Fixed(f) => f.resolve_spec(path),
        Resolver::Chain(c) => chain_resolution(c@, path),
    }
}

/// What an ordered sequence of resolvers answers for `path`: the answer of
/// the first member that does not decline, or `None` where every member
/// declines (in particular for the empty sequence).
pub open spec fn chain_resolution(rs: Seq<Resolver>, path: Seq<char>) -> Option<Seq<char>>
    decreases rs,
{
    if rs.len() == 0 {
        None
    } else {
        match resolver_resolution(rs[0], path) {
            Some(p) => Some(p),
            None => chain_resolution(rs.drop_first(), path),
        }
    }
}

impl ResolverChain {
    /// Construct a new resolver chain that owns `resolvers` and consults
    /// them in exactly this order. Any sequence is accepted; the empty chain
    /// is a legitimate "always decline" resolver.
    pub fn new(resolvers: Vec<Resolver>) -> (chain: Self)
        ensures
            chain@ == resolvers@,
    {
        ResolverChain { resolvers }
    }
}

impl AssetResolver for ResolverChain {
    /// A chain answers what its member sequence answers.
    open spec fn resolve_spec(&self, path: Seq<char>) -> Option<Seq<char>> {
        chain_resolution(self@, path)
    }

    /// Attempt to resolve a path using the resolvers in the chain: consult
    /// each member in construction order and return the first non-`None`
    /// answer without consulting the members after it; return `None` if
    /// every member declines.
    fn resolve(&self, path: &str) -> (resolved: Option<ResolvedPath>)
        decreases *self,
    {
        let n = self.resolvers.len();
        let mut i: usize = 0;
        while i < n
            invariant
                i <= n,
                n == self.resolvers@.len(),
                forall|j: int| 0 <= j < i ==> resolver_resolution(self.resolvers@[j], path@) is None,
            decreases n - i,
        {
            let member = &self.resolvers[i];
            match member.resolve(path) {
                Some(p) => {
                    proof {
                        lemma_chain_resolves_first_success(self.resolvers@, path@, i as int);
                    }
                    return Some(p);
                },
                None => {
                    i = i + 1;
                },
            }
        }
        proof {
            lemma_chain_all_decline(self.resolvers@, path@);
        }
        None
    }
}

impl AssetResolver for Resolver {
    /// Each variant answers what the resolver it carries answers.
    open spec fn resolve_spec(&self, path: Seq<char>) -> Option<Seq<char>> {
        resolver_resolution(*self, path)
    }

    /// Dispatch to the resolver this value carries.
    fn resolve(&self, path: &str) -> (resolved: Option<ResolvedPath>)
        decreases *self,
    {
        match self {
            Resolver::Null(r) => r.resolve(path),
            Resolver::Default(r) => r.resolve(path),
            Resolver::Fixed(r) => r.resolve(path),
            Resolver::Chain(r) => r.resolve(path),
        }
    }
}

/// Law: a chain resolves to exactly what its first succeeding member
/// resolves to. If every member before index `i` declines and the member at
/// `i` succeeds, the chain's answer is that member's answer — the members
/// after `i` cannot influence the result.
pub proof fn lemma_chain_resolves_first_success(rs: Seq<Resolver>, path: Seq<char>, i: int)
    requires
        0 <= i < rs.len(),
        forall|j: int| 0 <= j < i ==> resolver_resolution(rs[j], path) is None,
        resolver_resolution(rs[i], path) is Some,
    ensures
        chain_resolution(rs, path) == resolver_resolution(rs[i], path),
    decreases i,
{
    if i > 0 {
        lemma_chain_resolves_first_success(rs.drop_first(), path, i - 1);
    }
}

/// Law: where every member of a chain declines an input, the chain declines
/// it too.
pub proof fn lemma_chain_all_decline(rs: Seq<Resolver>, path: Seq<char>)
    requires
        forall|j: int| 0 <= j < rs.len() ==> resolver_resolution(rs[j], path) is None,
    ensures
        chain_resolution(rs, path) is None,
    decreases rs.len(),
{
    if rs.len() > 0 {
        lemma_chain_all_decline(rs.drop_first(), path);
    }
}

/// Law: the empty chain declines every input.
pub proof fn lemma_empty_chain_declines(path: Seq<char>)
    ensures
        chain_resolution(Seq::<Resolver>::empty(), path) is None,
{
}

/// Law: resolution distributes over concatenation of member sequences — the
/// left part is consulted first, and only where all of it declines does the
/// right part answer.
pub proof fn lemma_chain_append(a: Seq<Resolver>, b: Seq<Resolver>, path: Seq<char>)
    ensures
        chain_resolution(a + b, path) == (match chain_resolution(a, path) {
            Some(p) => Some(p),
            None => chain_resolution(b, path),
        }),
    decreases a.len(),
{
    if a.len() == 0 {
        assert(a + b =~= b);
    } else {
        assert((a + b).drop_first() =~= a.drop_first() + b);
        lemma_chain_append(a.drop_first(), b, path);
    }
}

/// Law: nesting is transparent. A chain with another chain as one of its
/// members behaves, on every input, like the single flattened chain with
/// the nested chain's members inlined in its place.
pub proof fn lemma_nested_chain_flattens(
    before: Seq<Resolver>,
    inner: ResolverChain,
    after: Seq<Resolver>,
    path: Seq<char>,
)
    ensures
        chain_resolution(before + seq![Resolver::Chain(inner)] + after, path)
            == chain_resolution(before + inner@ + after, path),
{
    let mid = seq![Resolver::Chain(inner)];
    assert(mid.drop_first() =~= Seq::<Resolver>::empty());
    assert(chain_resolution(mid, path) == chain_resolution(inner@, path)) by {
        reveal_with_fuel(chain_resolution, 2);
    }
    assert(before + mid + after =~= before + (mid + after));
    assert(before + inner@ + after =~= before + (inner@ + after));
    lemma_chain_append(mid, after, path);
    lemma_chain_append(inner@, after, path);
    lemma_chain_append(before, mid + after, path);
    lemma_chain_append(before, inner@ + after, path);
}

} // verus!
