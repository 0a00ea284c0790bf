use vstd::prelude::*;
use vstd::string::{StrSliceExecFns, StringExecFns};
use crate::variant::NetworkVariant;

verus! {

/// The built-in chain specifications that each variant ships.
#[derive(Clone, Copy, Debug, PartialEq, Eq, Structural)]
pub enum Preset {
    Development,
    LocalTestnet,
    ProductionSample,
}

/// The name under which the preset `p` of variant `v` is requested.
pub open spec fn preset_name(v: NetworkVariant, p: Preset) -> Seq<char> {
    match (v, p) {
        (NetworkVariant::Devnet, Preset::Development) => "devnet-dev"@,
        (NetworkVariant::Devnet, Preset::LocalTestnet) => "devnet-local"@,
        (NetworkVariant::Devnet, Preset::ProductionSample) => "devnet-prod-sample"@,
        (NetworkVariant::Mainnet, Preset::Development) => "mainnet-dev"@,
        (NetworkVariant::Mainnet, Preset::LocalTestnet) => "mainnet-local"@,
        (NetworkVariant::Mainnet, Preset::ProductionSample) => "mainnet-prod-sample"@,
    }
}

/// The preset that the identifier `id` names, if it names one.
pub open spec fn preset_of(id: Seq<char>) -> Option<(NetworkVariant, Preset)> {
    if id == "devnet-dev"@ {
        Some((NetworkVariant::Devnet, Preset::Development))
    } else if id == "devnet-local"@ {
        Some((NetworkVariant::Devnet, Preset::LocalTestnet))
    } else if id == "devnet-prod-sample"@ {
        Some((NetworkVariant::Devnet, Preset::ProductionSample))
    } else if id == "mainnet-dev"@ {
        Some((NetworkVariant::Mainnet, Preset::Development))
    } else if id == "mainnet-local"@ {
        Some((NetworkVariant::Mainnet, Preset::LocalTestnet))
    } else if id == "mainnet-prod-sample"@ {
        Some((NetworkVariant::Mainnet, Preset::ProductionSample))
    } else {
        None
    }
}

/// The identity tag prefix that marks a mainnet chain.
pub open spec fn mainnet_prefix() -> Seq<char> {
    "mainnet"@
}

pub open spec fn has_prefix(s: Seq<char>, p: Seq<char>) -> bool {
    p.len() <= s.len() && s.subrange(0, p.len() as int) == p
}

/// The variant that a chain identity tag names: a tag that starts with
/// `mainnet` names the mainnet, any other the devnet.
pub open spec fn variant_of_tag(tag: Seq<char>) -> NetworkVariant {
    if has_prefix(tag, mainnet_prefix()) {
        NetworkVariant::Mainnet
    } else {
        NetworkVariant::Devnet
    }
}

/// A resolved chain specification: its identity tag and the variant whose
/// schema it was read with.
#[derive(Clone, Debug, PartialEq, Eq)]
pub struct ChainSpecification {
    pub variant: NetworkVariant,
    pub id: String,
}

impl ChainSpecification {
    /// The variant is the one that the identity tag names.
    pub open spec fn wf(self) -> bool {
        self.variant == variant_of_tag(self.id@)
    }

    /// The specification built by preset `p` of variant `v`.
    pub fn from_preset(v: NetworkVariant, p: Preset) -> (r: Self)
        ensures
            r.variant == v,
            r.id@ == preset_name(v, p),
            r.wf(),
    {
        proof {
            lemma_preset_tags_identify(v, p);
        }
        ChainSpecification { variant: v, id: String::from_str(preset_id(v, p)) }
    }

    /// The specification of a file whose identity tag is `tag`.
    pub fn from_tag(tag: String) -> (r: Self)
        ensures
            r.variant == variant_of_tag(tag@),
            r.id == tag,
            r.wf(),
    {
        let v = identify_variant(tag.as_str());
        ChainSpecification { variant: v, id: tag }
    }

    /// The identity tag written out when this specification is exported.
    pub fn exported_identity(&self) -> (r: String)
        ensures
            r@ == self.id@,
    {
        self.id.clone()
    }
}

/// Whether `s` starts with `p`.
pub fn starts_with(s: &str, p: &str) -> (r: bool)
    ensures
        r == has_prefix(s@, p@),
{
    let n = p.unicode_len();
    if n > s.unicode_len() {
        return false;
    }
    let mut i: usize = 0;
    while i < n
        invariant
            n == p@.len(),
            n <= s@.len(),
            i <= n,
            forall|j: int| 0 <= j < i ==> s@[j] == p@[j],
        decreases n - i,
    {
        if s.get_char(i) != p.get_char(i) {
            assert(s@.subrange(0, n as int)[i as int] != p@[i as int]);
            return false;
        }
        i = i + 1;
    }
    assert(s@.subrange(0, n as int) =~= p@);
    true
}

/// Whether `a` and `b` hold the same characters.
pub fn same_chars(a: &str, b: &str) -> (r: bool)
    ensures
        r == (a@ == b@),
{
    if a.unicode_len() != b.unicode_len() {
        return false;
    }
    let r = starts_with(a, b);
    assert(a@ =~= a@.subrange(0, b@.len() as int));
    r
}

/// The variant that the identity tag `tag` of a chain specification names.
pub fn identify_variant(tag: &str) -> (r: NetworkVariant)
    ensures
        r == variant_of_tag(tag@),
{
    if starts_with(tag, "mainnet") {
        NetworkVariant::Mainnet
    } else {
        NetworkVariant::Devnet
    }
}

/// The preset that the identifier `id` names, if it names one.
pub fn lookup_preset(id: &str) -> (r: Option<(NetworkVariant, Preset)>)
    ensures
        r == preset_of(id@),
{
    if same_chars(id, "devnet-dev") {
        Some((NetworkVariant::Devnet, Preset::Development))
    } else if same_chars(id, "devnet-local") {
        Some((NetworkVariant::Devnet, Preset::LocalTestnet))
    } else if same_chars(id, "devnet-prod-sample") {
        Some((NetworkVariant::Devnet, Preset::ProductionSample))
    } else if same_chars(id, "mainnet-dev") {
        Some((NetworkVariant::Mainnet, Preset::Development))
    } else if same_chars(id, "mainnet-local") {
        Some((NetworkVariant::Mainnet, Preset::LocalTestnet))
    } else if same_chars(id, "mainnet-prod-sample") {
        Some((NetworkVariant::Mainnet, Preset::ProductionSample))
    } else {
        None
    }
}

/// The name under which the preset `p` of variant `v` is requested; it is
/// also the identity tag of the specification that the preset builds.
pub fn preset_id(v: NetworkVariant, p: Preset) -> (r: &'static str)
    ensures
        r@ == preset_name(v, p),
{
    match (v, p) {
        (NetworkVariant::Devnet, Preset::Development) => "devnet-dev",
        (NetworkVariant::Devnet, Preset::LocalTestnet) => "devnet-local",
        (NetworkVariant::Devnet, Preset::ProductionSample) => "devnet-prod-sample",
        (NetworkVariant::Mainnet, Preset::Development) => "mainnet-dev",
        (NetworkVariant::Mainnet, Preset::LocalTestnet) => "mainnet-local",
        (NetworkVariant::Mainnet, Preset::ProductionSample) => "mainnet-prod-sample",
    }
}

/// Every preset name is looked up as that preset.
pub proof fn lemma_preset_names_resolve(v: NetworkVariant, p: Preset)
    ensures
        preset_of(preset_name(v, p)) == Some((v, p)),
{
    reveal_strlit("devnet-dev");
    reveal_strlit("devnet-local");
    reveal_strlit("devnet-prod-sample");
    reveal_strlit("mainnet-dev");
    reveal_strlit("mainnet-local");
    reveal_strlit("mainnet-prod-sample");
    // The six names differ in length.
    assert("devnet-dev"@.len() == 10);
    assert("devnet-local"@.len() == 12);
    assert("devnet-prod-sample"@.len() == 18);
    assert("mainnet-dev"@.len() == 11);
    assert("mainnet-local"@.len() == 13);
    assert("mainnet-prod-sample"@.len() == 19);
}

/// The identity tag of every preset names the preset's own variant.
pub proof fn lemma_preset_tags_identify(v: NetworkVariant, p: Preset)
    ensures
        variant_of_tag(preset_name(v, p)) == v,
{
    reveal_strlit("mainnet");
    reveal_strlit("devnet-dev");
    reveal_strlit("devnet-local");
    reveal_strlit("devnet-prod-sample");
    reveal_strlit("mainnet-dev");
    reveal_strlit("mainnet-local");
    reveal_strlit("mainnet-prod-sample");
    let name = preset_name(v, p);
    if v == NetworkVariant::Mainnet {
        assert(name.subrange(0, 7) =~= mainnet_prefix());
    } else {
        assert(name[0] != mainnet_prefix()[0]);
        assert(name.subrange(0, 7)[0] != mainnet_prefix()[0]);
    }
}

} // verus!
