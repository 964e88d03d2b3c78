use contract_env::e2e_config::{Backend, E2EConfig, RuntimeOnly};

fn path(text: &str) -> syn::Path {
    syn::parse_str::<syn::Path>(text).unwrap()
}

#[test]
fn config_works() {
    let config = E2EConfig::new(
        String::from("adder/Cargo.toml flipper/Cargo.toml"),
        Some(path("crate::CustomEnvironment")),
        Backend::RuntimeOnly(RuntimeOnly::Default),
        Some(String::from("ws://127.0.0.1:8000")),
    );

    assert_eq!(
        config.additional_contracts(),
        vec!["adder/Cargo.toml", "flipper/Cargo.toml"]
    );
    assert_eq!(config.environment(), Some(path("crate::CustomEnvironment")));

    assert_eq!(config.backend(), Backend::RuntimeOnly(RuntimeOnly::Default));
    assert_eq!(config.node_url(None), Some(String::from("ws://127.0.0.1:8000")));

    assert_eq!(
        config.node_url(Some(String::from("ws://127.0.0.1:9000"))),
        Some(String::from("ws://127.0.0.1:9000"))
    )
}

#[test]
fn config_works_with_custom_backend() {
    let config = E2EConfig::new(
        String::new(),
        None,
        Backend::RuntimeOnly(RuntimeOnly::Runtime(path("::ink_e2e::MinimalRuntime"))),
        None,
    );

    assert_eq!(
        config.backend(),
        Backend::RuntimeOnly(RuntimeOnly::Runtime(path("::ink_e2e::MinimalRuntime")))
    );
    assert_eq!(config.node_url(None), None)
}

#[test]
fn additional_contracts_drops_empty_pieces() {
    let contracts = |text: &str| {
        E2EConfig::new(String::from(text), None, Backend::Full, None).additional_contracts()
    };
    assert_eq!(contracts(""), Vec::<String>::new());
    assert_eq!(contracts("   "), Vec::<String>::new());
    assert_eq!(contracts("a"), vec!["a"]);
    assert_eq!(contracts(" a  b "), vec!["a", "b"]);
    assert_eq!(contracts("a\tb c"), vec!["a\tb", "c"]);
    assert_eq!(contracts("é ü"), vec!["é", "ü"]);
}

#[test]
fn default_config_is_empty() {
    let config = E2EConfig::default();
    assert_eq!(config.additional_contracts(), Vec::<String>::new());
    assert_eq!(config.environment(), None);
    assert_eq!(config.backend(), Backend::Full);
    assert_eq!(config.node_url(None), None);
    assert_eq!(Backend::default(), Backend::Full);
}
