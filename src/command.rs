use vstd::prelude::*;
use crate::identity::ChainSpecification;
use crate::variant::{Feature, NetworkVariant, VariantBindings};

verus! {

/// The key-material commands, which need neither a chain nor a runtime.
#[derive(Clone, Copy, Debug, PartialEq, Eq, Structural)]
pub enum KeyOp {
    /// The `key` group: generate, inspect and insert keys.
    Key,
    Sign,
    Verify,
    Vanity,
}

/// The operations that the node binary offers.
#[derive(Clone, Copy, Debug, PartialEq, Eq, Structural)]
pub enum Command {
    /// No subcommand: run the node service until it is stopped.
    RunNode,
    Inspect,
    Benchmark,
    Key(KeyOp),
    BuildSpec,
    CheckBlock,
    ExportBlocks,
    ExportState,
    ImportBlocks,
    PurgeChain,
    Revert,
    TryRuntime,
}

/// What a command needs before it can run.
#[derive(Clone, Copy, Debug, PartialEq, Eq, Structural)]
pub enum Requirement {
    /// Nothing: no chain specification, no runtime, no feature.
    Nothing,
    /// A resolved chain specification, but no runtime bindings.
    Specification,
    /// The bindings of the variant that the chain specification names.
    Bindings,
    /// An enabled feature, then the bindings of the chain's variant.
    FeatureAndBindings(Feature),
}

/// How a command body is executed.
#[derive(Clone, Copy, Debug, PartialEq, Eq, Structural)]
pub enum ExecutionMode {
    /// Run at once, with no derived configuration.
    Pure,
    /// Derive the configuration and run to completion.
    Sync,
    /// Run under a task manager until an external signal stops the node.
    AsyncUntilExit,
    /// Run under a task manager until the body completes.
    AsyncBounded,
}

/// The parts of the shared chain-operation tuple (client, backend, import
/// queue, task manager) that a command body receives. The tuple is built
/// once; the task manager always goes to the runner.
#[derive(Clone, Copy, Debug, PartialEq, Eq, Structural)]
pub struct ChainOpsParts {
    pub client: bool,
    pub backend: bool,
    pub import_queue: bool,
}

/// One command, bound to what it was dispatched against.
#[derive(Clone, Debug, PartialEq, Eq)]
pub struct Invocation {
    pub command: Command,
    /// The resolved chain specification, for every command that needs one.
    pub spec: Option<ChainSpecification>,
    /// The runtime bindings, for every command that runs a runtime.
    pub bindings: Option<VariantBindings>,
    pub mode: ExecutionMode,
    /// The chain-operation parts handed to the body, for the commands that
    /// build the shared tuple.
    pub chain_ops: Option<ChainOpsParts>,
}

pub open spec fn requirement_of(c: Command) -> Requirement {
    match c {
        Command::Key(_) => Requirement::Nothing,
        Command::BuildSpec | Command::PurgeChain => Requirement::Specification,
        Command::Benchmark => Requirement::FeatureAndBindings(Feature::RuntimeBenchmarks),
        Command::TryRuntime => Requirement::FeatureAndBindings(Feature::TryRuntime),
        _ => Requirement::Bindings,
    }
}

/// The feature that command `c` needs, if any.
pub open spec fn gate_of(c: Command) -> Option<Feature> {
    match requirement_of(c) {
        Requirement::FeatureAndBindings(f) => Some(f),
        _ => None,
    }
}

pub open spec fn needs_spec(c: Command) -> bool {
    requirement_of(c) != Requirement::Nothing
}

pub open spec fn needs_bindings(c: Command) -> bool {
    requirement_of(c) is Bindings || requirement_of(c) is FeatureAndBindings
}

pub open spec fn mode_of(c: Command) -> ExecutionMode {
    match c {
        Command::Key(_) => ExecutionMode::Pure,
        Command::RunNode => ExecutionMode::AsyncUntilExit,
        Command::Inspect | Command::Benchmark | Command::BuildSpec | Command::PurgeChain =>
            ExecutionMode::Sync,
        _ => ExecutionMode::AsyncBounded,
    }
}

pub open spec fn parts(client: bool, backend: bool, import_queue: bool) -> ChainOpsParts {
    ChainOpsParts { client, backend, import_queue }
}

pub open spec fn chain_ops_of(c: Command) -> Option<ChainOpsParts> {
    match c {
        Command::CheckBlock | Command::ImportBlocks => Some(parts(true, false, true)),
        Command::ExportBlocks | Command::ExportState => Some(parts(true, false, false)),
        Command::Revert => Some(parts(true, true, false)),
        _ => None,
    }
}

/// The invocation of `c` against the specification `spec`, which has been
/// resolved and whose variant is compiled where `c` needs one.
pub open spec fn invocation_of(c: Command, spec: Option<ChainSpecification>) -> Invocation {
    Invocation {
        command: c,
        spec: if needs_spec(c) { spec } else { None },
        bindings: if needs_bindings(c) && spec is Some {
            Some(VariantBindings { variant: spec->0.variant })
        } else {
            None
        },
        mode: mode_of(c),
        chain_ops: chain_ops_of(c),
    }
}

impl Command {
    pub fn requirement(&self) -> (r: Requirement)
        ensures
            r == requirement_of(*self),
    {
        match self {
            Command::Key(_) => Requirement::Nothing,
            Command::BuildSpec | Command::PurgeChain => Requirement::Specification,
            Command::Benchmark => Requirement::FeatureAndBindings(Feature::RuntimeBenchmarks),
            Command::TryRuntime => Requirement::FeatureAndBindings(Feature::TryRuntime),
            _ => Requirement::Bindings,
        }
    }

    /// The feature that this command needs, if any.
    pub fn feature_gate(&self) -> (r: Option<Feature>)
        ensures
            r == gate_of(*self),
    {
        match self.requirement() {
            Requirement::FeatureAndBindings(f) => Some(f),
            _ => None,
        }
    }

    pub fn needs_spec(&self) -> (r: bool)
        ensures
            r == needs_spec(*self),
    {
        match self.requirement() {
            Requirement::Nothing => false,
            _ => true,
        }
    }

    pub fn needs_bindings(&self) -> (r: bool)
        ensures
            r == needs_bindings(*self),
    {
        match self.requirement() {
            Requirement::Bindings | Requirement::FeatureAndBindings(_) => true,
            _ => false,
        }
    }

    pub fn execution_mode(&self) -> (r: ExecutionMode)
        ensures
            r == mode_of(*self),
    {
        match self {
            Command::Key(_) => ExecutionMode::Pure,
            Command::RunNode => ExecutionMode::AsyncUntilExit,
            Command::Inspect | Command::Benchmark | Command::BuildSpec | Command::PurgeChain =>
                ExecutionMode::Sync,
            _ => ExecutionMode::AsyncBounded,
        }
    }

    /// The chain-operation parts that this command's body receives, if it
    /// builds the shared tuple.
    pub fn chain_ops(&self) -> (r: Option<ChainOpsParts>)
        ensures
            r == chain_ops_of(*self),
    {
        match self {
            Command::CheckBlock | Command::ImportBlocks => Some(
                ChainOpsParts { client: true, backend: false, import_queue: true },
            ),
            Command::ExportBlocks | Command::ExportState => Some(
                ChainOpsParts { client: true, backend: false, import_queue: false },
            ),
            Command::Revert => Some(ChainOpsParts { client: true, backend: true, import_queue: false }),
            _ => None,
        }
    }

    /// Binds this command to the resolved specification `spec`.
    pub fn invoke(&self, spec: Option<ChainSpecification>) -> (r: Invocation)
        ensures
            r == invocation_of(*self, spec),
    {
        let needs_spec = self.needs_spec();
        let bindings = if self.needs_bindings() {
            match &spec {
                Some(s) => Some(VariantBindings { variant: s.variant }),
                None => None,
            }
        } else {
            None
        };
        Invocation {
            command: *self,
            spec: if needs_spec { spec } else { None },
            bindings,
            mode: self.execution_mode(),
            chain_ops: self.chain_ops(),
        }
    }
}

} // verus!
