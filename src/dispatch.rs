use vstd::prelude::*;
use crate::command::{
    gate_of, invocation_of, needs_bindings, needs_spec, Command, ExecutionMode, Invocation, KeyOp,
};
use crate::error::DispatchError;
use crate::identity::{
    identify_variant, lemma_preset_names_resolve, lookup_preset, preset_name, preset_of,
    variant_of_tag, ChainSpecification, Preset,
};
use crate::variant::{BuildConfig, Feature, NetworkVariant};

verus! {

/// Where a dispatch stands between the caller's steps.
#[derive(Clone, Debug, PartialEq, Eq)]
pub enum Stage {
    /// Nothing decided yet.
    Start,
    /// The caller builds this compiled preset, whose specification is the
    /// one given.
    AwaitPreset(Preset, ChainSpecification),
    /// The caller reads the identity tag of the chain specification file.
    AwaitIdentity,
    /// The caller parses the file with the schema of this specification's
    /// variant.
    AwaitSpec(ChainSpecification),
    /// A command was invoked or the dispatch failed.
    Finished,
}

/// What the caller reports back after doing the last action.
#[derive(Clone, Debug, PartialEq, Eq)]
pub enum Event {
    /// The first step.
    Begin,
    /// Phase one: the identity tag read from the specification file.
    IdentityRead(String),
    /// The specification asked for was built or parsed.
    SpecLoaded,
    /// Building, reading or parsing the specification failed.
    LoadFailed(String),
}

/// What the caller is to do next.
#[derive(Clone, Debug, PartialEq, Eq)]
pub enum Action {
    /// Build the preset specification of this variant.
    BuildPreset(NetworkVariant, Preset),
    /// Phase one: read only the identity tag of the file named by the chain
    /// identifier, with no variant-specific schema.
    ReadIdentity,
    /// Phase two: parse the file with this variant's schema, and no other.
    ParseSpec(NetworkVariant),
    /// Run the command; construction of service state starts here.
    Invoke(Invocation),
    /// Stop with this error; nothing was constructed.
    Fail(DispatchError),
}

/// The action that opens the dispatch of `c` on the chain identifier `chain`:
/// the feature gate first, then the preset or the file.
pub open spec fn open_action(b: BuildConfig, c: Command, chain: Seq<char>) -> Action {
    if gate_of(c) is Some && !b.enabled(gate_of(c)->0) {
        Action::Fail(DispatchError::FeatureDisabled(gate_of(c)->0))
    } else if !needs_spec(c) {
        Action::Invoke(invocation_of(c, None))
    } else {
        match preset_of(chain) {
            Some((v, p)) => if b.compiled(v) {
                Action::BuildPreset(v, p)
            } else {
                Action::Fail(DispatchError::VariantUnavailable(v))
            },
            None => Action::ReadIdentity,
        }
    }
}

/// The action once phase one has read the identity tag `tag`.
pub open spec fn identity_action(b: BuildConfig, tag: Seq<char>) -> Action {
    if b.compiled(variant_of_tag(tag)) {
        Action::ParseSpec(variant_of_tag(tag))
    } else {
        Action::Fail(DispatchError::VariantUnavailable(variant_of_tag(tag)))
    }
}

pub struct Dispatcher {
    pub build: BuildConfig,
    pub command: Command,
    /// The chain identifier: a preset name or a file path.
    pub chain: String,
    pub stage: Stage,
}

impl Dispatcher {
    pub open spec fn wf(self) -> bool {
        match self.stage {
            Stage::AwaitPreset(_, s) => s.wf() && self.build.compiled(s.variant),
            Stage::AwaitSpec(s) => s.wf() && self.build.compiled(s.variant),
            _ => true,
        }
    }

    /// Whether the event `e` answers the current stage.
    pub open spec fn accepts_spec(self, e: Event) -> bool {
        match (self.stage, e) {
            (Stage::Start, Event::Begin) => true,
            (Stage::AwaitPreset(..), Event::SpecLoaded) => true,
            (Stage::AwaitPreset(..), Event::LoadFailed(_)) => true,
            (Stage::AwaitIdentity, Event::IdentityRead(_)) => true,
            (Stage::AwaitIdentity, Event::LoadFailed(_)) => true,
            (Stage::AwaitSpec(_), Event::SpecLoaded) => true,
            (Stage::AwaitSpec(_), Event::LoadFailed(_)) => true,
            _ => false,
        }
    }

    /// The action that answers event `e`.
    pub open spec fn action_spec(self, e: Event) -> Action {
        match (self.stage, e) {
            (Stage::Start, Event::Begin) => open_action(self.build, self.command, self.chain@),
            (Stage::AwaitIdentity, Event::IdentityRead(tag)) => identity_action(self.build, tag@),
            (Stage::AwaitPreset(_, s), Event::SpecLoaded) => Action::Invoke(
                invocation_of(self.command, Some(s)),
            ),
            (Stage::AwaitSpec(s), Event::SpecLoaded) => Action::Invoke(
                invocation_of(self.command, Some(s)),
            ),
            (_, Event::LoadFailed(msg)) => Action::Fail(DispatchError::Passthrough(msg)),
            _ => arbitrary(),
        }
    }

    /// The stage `next` that follows action `a`, taken on event `e`.
    pub open spec fn stage_follows(a: Action, e: Event, next: Stage) -> bool {
        match a {
            Action::BuildPreset(v, p) => next matches Stage::AwaitPreset(q, s) && q == p
                && s.variant == v && s.id@ == preset_name(v, p),
            Action::ReadIdentity => next is AwaitIdentity,
            Action::ParseSpec(v) => next == Stage::AwaitSpec(
                ChainSpecification { variant: v, id: e->IdentityRead_0 },
            ),
            _ => next is Finished,
        }
    }

    /// A dispatch of `command` on the chain identifier `chain`.
    pub fn new(build: BuildConfig, command: Command, chain: String) -> (r: Self)
        ensures
            r.build == build,
            r.command == command,
            r.chain == chain,
            r.stage is Start,
            r.wf(),
    {
        Dispatcher { build, command, chain, stage: Stage::Start }
    }

    /// Whether the event `e` answers the current stage.
    pub fn accepts(&self, e: &Event) -> (r: bool)
        ensures
            r == self.accepts_spec(*e),
    {
        match (&self.stage, e) {
            (Stage::Start, Event::Begin) => true,
            (Stage::AwaitPreset(..), Event::SpecLoaded) => true,
            (Stage::AwaitPreset(..), Event::LoadFailed(_)) => true,
            (Stage::AwaitIdentity, Event::IdentityRead(_)) => true,
            (Stage::AwaitIdentity, Event::LoadFailed(_)) => true,
            (Stage::AwaitSpec(_), Event::SpecLoaded) => true,
            (Stage::AwaitSpec(_), Event::LoadFailed(_)) => true,
            _ => false,
        }
    }

    /// Whether the dispatch has ended in an invocation or a failure.
    pub fn is_finished(&self) -> (r: bool)
        ensures
            r == (self.stage is Finished),
    {
        match self.stage {
            Stage::Finished => true,
            _ => false,
        }
    }

    /// The first decision: the feature gate, then nothing more for a command
    /// that needs no chain, else a compiled preset or the file's identity.
    fn open(&self) -> (a: Action)
        ensures
            a == open_action(self.build, self.command, self.chain@),
    {
        match self.command.feature_gate() {
            Some(f) => {
                if !self.build.is_feature_enabled(f) {
                    return Action::Fail(DispatchError::FeatureDisabled(f));
                }
            },
            None => {},
        }
        if !self.command.needs_spec() {
            return Action::Invoke(self.command.invoke(None));
        }
        match lookup_preset(self.chain.as_str()) {
            Some((v, p)) => if self.build.is_compiled(v) {
                Action::BuildPreset(v, p)
            } else {
                Action::Fail(DispatchError::VariantUnavailable(v))
            },
            None => Action::ReadIdentity,
        }
    }

    /// Answers the event `e` with the next action.
    pub fn step(&mut self, e: Event) -> (a: Action)
        requires
            old(self).wf(),
            old(self).accepts_spec(e),
        ensures
            final(self).wf(),
            final(self).build == old(self).build,
            final(self).command == old(self).command,
            final(self).chain == old(self).chain,
            a == old(self).action_spec(e),
            Self::stage_follows(a, e, final(self).stage),
    {
        let mut stage = Stage::Finished;
        core::mem::swap(&mut stage, &mut self.stage);
        match (stage, e) {
            (Stage::Start, Event::Begin) => {
                let a = self.open();
                match a {
                    Action::BuildPreset(v, p) => {
                        self.stage = Stage::AwaitPreset(p, ChainSpecification::from_preset(v, p));
                    },
                    Action::ReadIdentity => {
                        self.stage = Stage::AwaitIdentity;
                    },
                    _ => {},
                }
                a
            },
            (Stage::AwaitIdentity, Event::IdentityRead(tag)) => {
                let v = identify_variant(tag.as_str());
                if self.build.is_compiled(v) {
                    self.stage = Stage::AwaitSpec(ChainSpecification { variant: v, id: tag });
                    Action::ParseSpec(v)
                } else {
                    Action::Fail(DispatchError::VariantUnavailable(v))
                }
            },
            (Stage::AwaitPreset(_, s), Event::SpecLoaded) => Action::Invoke(
                self.command.invoke(Some(s)),
            ),
            (Stage::AwaitSpec(s), Event::SpecLoaded) => Action::Invoke(
                self.command.invoke(Some(s)),
            ),
            (_, Event::LoadFailed(msg)) => Action::Fail(DispatchError::Passthrough(msg)),
            // The requirement on `e` rules out every other pairing.
            _ => Action::ReadIdentity,
        }
    }
}

/// A built-in preset name resolves to its own variant: when that variant is
/// compiled the preset is built and a command that runs a runtime is bound to
/// that variant's bindings; when it is not, the dispatch fails naming exactly
/// that variant.
pub proof fn lemma_preset_resolves_to_its_variant(
    b: BuildConfig,
    c: Command,
    v: NetworkVariant,
    p: Preset,
    s: ChainSpecification,
)
    requires
        needs_spec(c),
        gate_of(c) is Some ==> b.enabled(gate_of(c)->0),
        s.variant == v,
    ensures
        open_action(b, c, preset_name(v, p)) == if b.compiled(v) {
            Action::BuildPreset(v, p)
        } else {
            Action::Fail(DispatchError::VariantUnavailable(v))
        },
        b.compiled(v) && needs_bindings(c) ==> invocation_of(c, Some(s)).bindings
            == b.spec_bindings(v),
{
    lemma_preset_names_resolve(v, p);
}

/// Phase two reads a file with the schema of the variant that its identity
/// tag names, and with no other.
pub proof fn lemma_phase_two_uses_tagged_schema(b: BuildConfig, tag: Seq<char>, w: NetworkVariant)
    requires
        identity_action(b, tag) == Action::ParseSpec(w),
    ensures
        w == variant_of_tag(tag),
        b.compiled(w),
{
}

/// The key-material commands are invoked whatever the build contains, even
/// with no variant compiled, and need no chain.
pub proof fn lemma_key_commands_need_no_variant(b: BuildConfig, op: KeyOp, chain: Seq<char>)
    ensures
        open_action(b, Command::Key(op), chain) == Action::Invoke(
            invocation_of(Command::Key(op), None),
        ),
        invocation_of(Command::Key(op), None).bindings is None,
        invocation_of(Command::Key(op), None).mode == ExecutionMode::Pure,
{
}

/// With benchmarking disabled, the benchmark command fails naming that
/// feature, whatever chain is requested and whatever variants are compiled.
pub proof fn lemma_benchmark_gate_comes_first(b: BuildConfig, chain: Seq<char>)
    requires
        !b.runtime_benchmarks,
    ensures
        open_action(b, Command::Benchmark, chain) == Action::Fail(
            DispatchError::FeatureDisabled(Feature::RuntimeBenchmarks),
        ),
{
}

/// The specification that `build-spec` is run against carries an identity
/// tag that, read back in phase one, names the same variant again.
pub proof fn lemma_build_spec_round_trip(d: Dispatcher, e: Event)
    requires
        d.wf(),
        d.accepts_spec(e),
        d.command == Command::BuildSpec,
        d.action_spec(e) is Invoke,
    ensures
        ({
            let inv = d.action_spec(e)->Invoke_0;
            &&& inv.spec matches Some(s)
            &&& variant_of_tag(s.id@) == s.variant
            &&& identity_action(d.build, s.id@) == Action::ParseSpec(s.variant)
        }),
{
}

/// A command is only invoked against the bindings of a compiled variant, and
/// only for the variant of the specification it was resolved with.
pub proof fn lemma_invocations_use_compiled_bindings(d: Dispatcher, e: Event)
    requires
        d.wf(),
        d.accepts_spec(e),
        d.action_spec(e) is Invoke,
        needs_bindings(d.command),
    ensures
        ({
            let inv = d.action_spec(e)->Invoke_0;
            &&& inv.spec matches Some(s)
            &&& inv.bindings == d.build.spec_bindings(s.variant)
            &&& inv.bindings is Some
        }),
{
}

} // verus!
