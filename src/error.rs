use vstd::prelude::*;
use vstd::string::StringExecFns;
use crate::variant::{Feature, NetworkVariant};

verus! {

/// The failures that the dispatcher reports to the user.
#[derive(Clone, Debug, PartialEq, Eq)]
pub enum DispatchError {
    /// The runtime of this variant is not linked into the build.
    VariantUnavailable(NetworkVariant),
    /// This optional capability is not linked into the build.
    FeatureDisabled(Feature),
    /// A failure of a collaborator (loading a chain specification, deriving
    /// the configuration, the command body), handed on unchanged.
    Passthrough(String),
}

/// The build flag that links in the runtime of `v`.
pub open spec fn variant_flag(v: NetworkVariant) -> Seq<char> {
    match v {
        NetworkVariant::Mainnet => "with-mainnet-runtime"@,
        NetworkVariant::Devnet => "with-devnet-runtime"@,
    }
}

/// The build flag that enables feature `f`.
pub open spec fn feature_flag(f: Feature) -> Seq<char> {
    match f {
        Feature::RuntimeBenchmarks => "runtime-benchmarks"@,
        Feature::TryRuntime => "try-runtime"@,
    }
}

/// The text shown to the user for the error `e`.
pub open spec fn message_text(e: DispatchError) -> Seq<char> {
    match e {
        DispatchError::VariantUnavailable(NetworkVariant::Mainnet) =>
            "Mainnet runtime is not available. Please compile the node with `--features with-mainnet-runtime` to enable it."@,
        DispatchError::VariantUnavailable(NetworkVariant::Devnet) =>
            "Devnet runtime is not available. Please compile the node with `--features with-devnet-runtime` to enable it."@,
        DispatchError::FeatureDisabled(Feature::RuntimeBenchmarks) =>
            "Benchmarking wasn't enabled when building the node. You can enable it with `--features runtime-benchmarks`."@,
        DispatchError::FeatureDisabled(Feature::TryRuntime) =>
            "TryRuntime wasn't enabled when building the node. You can enable it with `--features try-runtime`."@,
        DispatchError::Passthrough(inner) => inner@,
    }
}

/// The build flag named by `v`'s unavailability message.
pub fn variant_build_flag(v: NetworkVariant) -> (r: &'static str)
    ensures
        r@ == variant_flag(v),
{
    match v {
        NetworkVariant::Mainnet => "with-mainnet-runtime",
        NetworkVariant::Devnet => "with-devnet-runtime",
    }
}

/// The build flag named by `f`'s message.
pub fn feature_build_flag(f: Feature) -> (r: &'static str)
    ensures
        r@ == feature_flag(f),
{
    match f {
        Feature::RuntimeBenchmarks => "runtime-benchmarks",
        Feature::TryRuntime => "try-runtime",
    }
}

impl DispatchError {
    /// The message written to the error stream for this error.
    pub fn message(&self) -> (r: String)
        ensures
            r@ == message_text(*self),
    {
        match self {
            DispatchError::VariantUnavailable(NetworkVariant::Mainnet) => String::from_str(
                "Mainnet runtime is not available. Please compile the node with `--features with-mainnet-runtime` to enable it.",
            ),
            DispatchError::VariantUnavailable(NetworkVariant::Devnet) => String::from_str(
                "Devnet runtime is not available. Please compile the node with `--features with-devnet-runtime` to enable it.",
            ),
            DispatchError::FeatureDisabled(Feature::RuntimeBenchmarks) => String::from_str(
                "Benchmarking wasn't enabled when building the node. You can enable it with `--features runtime-benchmarks`.",
            ),
            DispatchError::FeatureDisabled(Feature::TryRuntime) => String::from_str(
                "TryRuntime wasn't enabled when building the node. You can enable it with `--features try-runtime`.",
            ),
            DispatchError::Passthrough(inner) => inner.clone(),
        }
    }
}

} // verus!
