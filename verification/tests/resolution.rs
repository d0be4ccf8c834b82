use asset_resolver::AssetResolver;
use asset_resolver::DefaultResolver;
use asset_resolver::FixedResolver;
use asset_resolver::NullResolver;
use asset_resolver::Resolver;
use asset_resolver::ResolverChain;

#[test]
fn default_resolver_is_total() {
    let resolver = DefaultResolver;
    let path = resolver.resolve("/home/user/assets/test.png").unwrap();
    assert_eq!(path.as_str(), "/home/user/assets/test.png");

    let empty = resolver.resolve("").unwrap();
    assert_eq!(empty.as_str(), "");

    let odd = resolver.resolve("not a path :: ??").unwrap();
    assert_eq!(odd.as_str(), "not a path :: ??");
}

#[test]
fn null_resolver_always_declines() {
    let resolver = NullResolver;
    assert!(resolver.resolve("/some/path").is_none());
    assert!(resolver.resolve("").is_none());
}

#[test]
fn fixed_resolver_always_answers_its_path() {
    let resolver = FixedResolver::new(String::from("/configured/spot"));
    assert_eq!(resolver.resolve("anything").unwrap().as_str(), "/configured/spot");
    assert_eq!(resolver.resolve("").unwrap().as_str(), "/configured/spot");
}

#[test]
fn empty_chain_declines() {
    let chain = ResolverChain::new(vec![]);
    assert!(chain.resolve("/some/path").is_none());
    assert!(chain.resolve("").is_none());
}

#[test]
fn chain_of_decliners_declines() {
    let chain = ResolverChain::new(vec![
        Resolver::Null(NullResolver),
        Resolver::Chain(ResolverChain::new(vec![Resolver::Null(NullResolver)])),
        Resolver::Null(NullResolver),
    ]);
    assert!(chain.resolve("asset.png").is_none());
}

#[test]
fn chain_skips_decliners_and_returns_first_success() {
    let chain = ResolverChain::new(vec![
        Resolver::Null(NullResolver),
        Resolver::Default(DefaultResolver),
    ]);
    let path = chain.resolve("x").unwrap();
    assert_eq!(path.as_str(), "x");
}

#[test]
fn first_success_short_circuits_later_members() {
    let chain = ResolverChain::new(vec![
        Resolver::Default(DefaultResolver),
        Resolver::Fixed(FixedResolver::new(String::from("/never/consulted"))),
    ]);
    let path = chain.resolve("wanted.txt").unwrap();
    assert_eq!(path.as_str(), "wanted.txt");
}

#[test]
fn order_of_succeeding_resolvers_decides() {
    let chain = ResolverChain::new(vec![
        Resolver::Fixed(FixedResolver::new(String::from("/first"))),
        Resolver::Fixed(FixedResolver::new(String::from("/second"))),
    ]);
    assert_eq!(chain.resolve("x").unwrap().as_str(), "/first");

    let swapped = ResolverChain::new(vec![
        Resolver::Fixed(FixedResolver::new(String::from("/second"))),
        Resolver::Fixed(FixedResolver::new(String::from("/first"))),
    ]);
    assert_eq!(swapped.resolve("x").unwrap().as_str(), "/second");
}

#[test]
fn nested_chain_behaves_like_flattened_chain() {
    let inputs = ["asset.png", "", "/a/b/c", "weird :: name"];
    for input in inputs {
        let nested = ResolverChain::new(vec![
            Resolver::Null(NullResolver),
            Resolver::Chain(ResolverChain::new(vec![
                Resolver::Null(NullResolver),
                Resolver::Fixed(FixedResolver::new(String::from("/inner"))),
            ])),
            Resolver::Default(DefaultResolver),
        ]);
        let flat = ResolverChain::new(vec![
            Resolver::Null(NullResolver),
            Resolver::Null(NullResolver),
            Resolver::Fixed(FixedResolver::new(String::from("/inner"))),
            Resolver::Default(DefaultResolver),
        ]);
        let from_nested = nested.resolve(input).map(|p| p.to_string());
        let from_flat = flat.resolve(input).map(|p| p.to_string());
        assert_eq!(from_nested, from_flat);
        assert_eq!(from_nested, Some(String::from("/inner")));
    }
}

#[test]
fn nested_empty_chain_is_skipped() {
    let chain = ResolverChain::new(vec![
        Resolver::Chain(ResolverChain::new(vec![])),
        Resolver::Default(DefaultResolver),
    ]);
    assert_eq!(chain.resolve("fallback.dat").unwrap().as_str(), "fallback.dat");
}

#[test]
fn end_to_end_scenario() {
    let resolver = ResolverChain::new(vec![
        Resolver::Null(NullResolver),
        Resolver::Default(DefaultResolver),
    ]);
    let path = resolver.resolve("/home/user/assets/test.png").unwrap();
    assert_eq!(path.to_string(), "/home/user/assets/test.png");
}
