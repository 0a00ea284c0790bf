use vstd::prelude::*;

verus! {

/// The network configurations that a build of the node may contain.
#[derive(Clone, Copy, Debug, PartialEq, Eq, Structural)]
pub enum NetworkVariant {
    Mainnet,
    Devnet,
}

/// Optional capabilities that are linked in or not, whatever the variant.
#[derive(Clone, Copy, Debug, PartialEq, Eq, Structural)]
pub enum Feature {
    /// Runtime benchmarking (`--features runtime-benchmarks`).
    RuntimeBenchmarks,
    /// Runtime maintenance checks (`--features try-runtime`).
    TryRuntime,
}

/// What a build of the node contains: the variants whose runtimes are linked
/// in and the optional features that are enabled. It is fixed for a binary.
#[derive(Clone, Copy, Debug, PartialEq, Eq, Structural)]
pub struct BuildConfig {
    pub mainnet_runtime: bool,
    pub devnet_runtime: bool,
    pub runtime_benchmarks: bool,
    pub try_runtime: bool,
}

/// The bindings of one variant (block type, runtime API, executor), which
/// exist only for a variant that the build contains.
#[derive(Clone, Copy, Debug, PartialEq, Eq, Structural)]
pub struct VariantBindings {
    pub variant: NetworkVariant,
}

impl VariantBindings {
    pub open spec fn spec_variant(self) -> NetworkVariant {
        self.variant
    }

    /// The variant these bindings belong to.
    pub fn variant(&self) -> (r: NetworkVariant)
        ensures
            r == self.spec_variant(),
    {
        self.variant
    }
}

impl BuildConfig {
    /// Whether the runtime of `v` is linked into this build.
    pub open spec fn compiled(self, v: NetworkVariant) -> bool {
        match v {
            NetworkVariant::Mainnet => self.mainnet_runtime,
            NetworkVariant::Devnet => self.devnet_runtime,
        }
    }

    /// Whether feature `f` is enabled in this build.
    pub open spec fn enabled(self, f: Feature) -> bool {
        match f {
            Feature::RuntimeBenchmarks => self.runtime_benchmarks,
            Feature::TryRuntime => self.try_runtime,
        }
    }

    /// The bindings of `v` in this build: present exactly when `v` is compiled.
    pub open spec fn spec_bindings(self, v: NetworkVariant) -> Option<VariantBindings> {
        if self.compiled(v) {
            Some(VariantBindings { variant: v })
        } else {
            None
        }
    }

    pub fn is_compiled(&self, v: NetworkVariant) -> (r: bool)
        ensures
            r == self.compiled(v),
    {
        match v {
            NetworkVariant::Mainnet => self.mainnet_runtime,
            NetworkVariant::Devnet => self.devnet_runtime,
        }
    }

    pub fn is_feature_enabled(&self, f: Feature) -> (r: bool)
        ensures
            r == self.enabled(f),
    {
        match f {
            Feature::RuntimeBenchmarks => self.runtime_benchmarks,
            Feature::TryRuntime => self.try_runtime,
        }
    }

    pub fn bindings(&self, v: NetworkVariant) -> (r: Option<VariantBindings>)
        ensures
            r == self.spec_bindings(v),
            r is Some <==> self.compiled(v),
            r matches Some(b) ==> b.spec_variant() == v,
    {
        if self.is_compiled(v) {
            Some(VariantBindings { variant: v })
        } else {
            None
        }
    }
}

} // verus!
