//! A minimal path-resolution abstraction: given a string that names an
//! asset, produce zero or one candidate filesystem path for it.
//!
//! The library defines one capability — resolve a string to a path — and a
//! composition strategy: try several resolution strategies in priority order
//! until one succeeds. Resolution is a pure function of the input string and
//! the resolvers' state fixed at construction; nothing here touches the
//! filesystem.

pub mod chain;
pub mod resolver;

pub use chain::Resolver;
pub use chain::ResolverChain;
pub use resolver::AssetResolver;
pub use resolver::DefaultResolver;
pub use resolver::FixedResolver;
pub use resolver::NullResolver;
pub use resolver::ResolvedPath;
