use node_cli::error::{feature_build_flag, variant_build_flag, DispatchError};
use node_cli::identity::{
    identify_variant, lookup_preset, preset_id, same_chars, starts_with, ChainSpecification, Preset,
};
use node_cli::info::{copyright_start_year, impl_name, support_url};
use node_cli::variant::{BuildConfig, Feature, NetworkVariant, VariantBindings};

#[test]
fn registry_reports_what_is_compiled() {
    let b = BuildConfig { mainnet_runtime: false, devnet_runtime: true, runtime_benchmarks: true, try_runtime: false };
    assert!(!b.is_compiled(NetworkVariant::Mainnet));
    assert!(b.is_compiled(NetworkVariant::Devnet));
    assert!(b.is_feature_enabled(Feature::RuntimeBenchmarks));
    assert!(!b.is_feature_enabled(Feature::TryRuntime));
    assert_eq!(b.bindings(NetworkVariant::Mainnet), None);
    let bd = b.bindings(NetworkVariant::Devnet).unwrap();
    assert_eq!(bd.variant(), NetworkVariant::Devnet);
}

#[test]
fn native_runtime_follows_the_spec_variant() {
    let b = BuildConfig { mainnet_runtime: true, devnet_runtime: false, runtime_benchmarks: false, try_runtime: false };
    let main = ChainSpecification::from_preset(NetworkVariant::Mainnet, Preset::Development);
    assert_eq!(b.native_runtime_version(&main), Ok(VariantBindings { variant: NetworkVariant::Mainnet }));
    let dev = ChainSpecification::from_tag("devnet_local".to_string());
    assert_eq!(dev.variant, NetworkVariant::Devnet);
    assert_eq!(
        b.native_runtime_version(&dev),
        Err(DispatchError::VariantUnavailable(NetworkVariant::Devnet))
    );
}

#[test]
fn preset_lookup_is_exact() {
    assert_eq!(lookup_preset("devnet-dev"), Some((NetworkVariant::Devnet, Preset::Development)));
    assert_eq!(lookup_preset("devnet-local"), Some((NetworkVariant::Devnet, Preset::LocalTestnet)));
    assert_eq!(lookup_preset("mainnet-prod-sample"), Some((NetworkVariant::Mainnet, Preset::ProductionSample)));
    assert_eq!(lookup_preset("mainnet-dev "), None);
    assert_eq!(lookup_preset("mainnet"), None);
    assert_eq!(lookup_preset(""), None);
    assert_eq!(preset_id(NetworkVariant::Mainnet, Preset::LocalTestnet), "mainnet-local");
}

#[test]
fn identity_tags_name_variants() {
    assert_eq!(identify_variant("mainnet"), NetworkVariant::Mainnet);
    assert_eq!(identify_variant("mainnet-local"), NetworkVariant::Mainnet);
    assert_eq!(identify_variant("mainne"), NetworkVariant::Devnet);
    assert_eq!(identify_variant("devnet"), NetworkVariant::Devnet);
    assert_eq!(identify_variant(""), NetworkVariant::Devnet);
    assert_eq!(identify_variant("my_mainnet"), NetworkVariant::Devnet);
}

#[test]
fn string_helpers() {
    assert!(starts_with("mainnet-dev", "mainnet"));
    assert!(starts_with("abc", ""));
    assert!(!starts_with("main", "mainnet"));
    assert!(!starts_with("mainnex", "mainnet"));
    assert!(same_chars("déjà", "déjà"));
    assert!(!same_chars("déjà", "deja"));
    assert!(!same_chars("ab", "abc"));
}

#[test]
fn error_messages() {
    assert_eq!(
        DispatchError::VariantUnavailable(NetworkVariant::Mainnet).message(),
        "Mainnet runtime is not available. Please compile the node with `--features with-mainnet-runtime` to enable it."
    );
    assert_eq!(
        DispatchError::VariantUnavailable(NetworkVariant::Devnet).message(),
        "Devnet runtime is not available. Please compile the node with `--features with-devnet-runtime` to enable it."
    );
    assert_eq!(
        DispatchError::FeatureDisabled(Feature::RuntimeBenchmarks).message(),
        "Benchmarking wasn't enabled when building the node. You can enable it with `--features runtime-benchmarks`."
    );
    assert_eq!(
        DispatchError::FeatureDisabled(Feature::TryRuntime).message(),
        "TryRuntime wasn't enabled when building the node. You can enable it with `--features try-runtime`."
    );
    assert_eq!(DispatchError::Passthrough("inner".to_string()).message(), "inner");
    let m = DispatchError::FeatureDisabled(Feature::TryRuntime).message();
    assert_eq!(m.matches(feature_build_flag(Feature::TryRuntime)).count(), 1);
    let m = DispatchError::VariantUnavailable(NetworkVariant::Devnet).message();
    assert_eq!(m.matches(variant_build_flag(NetworkVariant::Devnet)).count(), 1);
    assert_eq!(variant_build_flag(NetworkVariant::Mainnet), "with-mainnet-runtime");
}

#[test]
fn node_information() {
    assert_eq!(impl_name(), "Substrate Node");
    assert_eq!(support_url(), "support.anonymous.an");
    assert_eq!(copyright_start_year(), 2022);
}
