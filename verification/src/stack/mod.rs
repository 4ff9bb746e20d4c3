//! The tiered stack under test: options, available tiers and the boot plan.
use vstd::prelude::*;

use vstd::string::*;

use crate::engine::{BenchEngine, BenchStoreIsolation};
use crate::text::{decimal_text, push_decimal_u8};

pub mod tier0;

verus! {

#[verifier::external_type_specification]
#[verifier::external_body]
pub struct ExPathBuf(std::path::PathBuf);

/// Options for booting one stack.
pub struct StackOptions {
    pub tier: u8,
    pub engine: BenchEngine,
    pub store_isolation: BenchStoreIsolation,
    pub user_id: String,
    pub seed_value: i64,
    pub permission_cache: bool,
    pub data_dir: std::path::PathBuf,
    pub boson_worker: bool,
    pub chronon_disable_worker: bool,
    pub chronon_no_jobs: bool,
}

/// The optional tier stacks a build links, one flag per Cargo feature.
#[derive(Debug, Clone, Copy, PartialEq, Eq, Structural)]
pub struct TierFeatures {
    pub full: bool,
    pub soliton: bool,
    pub chronon: bool,
    pub spectra_composite: bool,
    pub photon: bool,
    pub spectra: bool,
    pub boson: bool,
}

/// The tier features of this build: none. The tier stacks above tier 0 need
/// the Boson, Spectra, Photon, Chronon and Soliton families, which this
/// crate does not link.
pub open spec fn linked_features() -> TierFeatures {
    TierFeatures {
        full: false,
        soliton: false,
        chronon: false,
        spectra_composite: false,
        photon: false,
        spectra: false,
        boson: false,
    }
}

impl TierFeatures {
    pub fn linked() -> (f: Self)
        ensures
            f == linked_features(),
    {
        TierFeatures {
            full: false,
            soliton: false,
            chronon: false,
            spectra_composite: false,
            photon: false,
            spectra: false,
            boson: false,
        }
    }
}

/// The highest tier a feature set supports: the full ladder or the RocksDB
/// tier give 6, otherwise the highest linked stack decides.
pub open spec fn max_tier_for(f: TierFeatures) -> u8 {
    if f.full || f.soliton {
        6
    } else if f.chronon {
        5
    } else if f.spectra_composite {
        4
    } else if f.photon {
        3
    } else if f.spectra {
        2
    } else if f.boson {
        1
    } else {
        0
    }
}

pub fn max_tier_for_features(f: TierFeatures) -> (tier: u8)
    ensures
        tier == max_tier_for(f),
{
    if f.full || f.soliton {
        6
    } else if f.chronon {
        5
    } else if f.spectra_composite {
        4
    } else if f.photon {
        3
    } else if f.spectra {
        2
    } else if f.boson {
        1
    } else {
        0
    }
}

/// A requested tier above what the build supports.
#[derive(Debug, Clone, Copy, PartialEq, Eq, Structural)]
pub struct TierUnavailable {
    pub tier: u8,
    pub max_available: u8,
}

/// The refusal text for a tier above what the build supports.
pub open spec fn tier_message(tier: u8, max_available: u8) -> Seq<char> {
    "tier "@ + decimal_text(tier as nat) + " requires Cargo features (max available: "@
        + decimal_text(max_available as nat) + "). Use --features tier-full for the full ladder."@
}

impl TierUnavailable {
    /// The message a refused tier is answered with.
    pub fn message(&self) -> (s: String)
        ensures
            s@ == tier_message(self.tier, self.max_available),
    {
        let mut s = String::from_str("tier ");
        push_decimal_u8(&mut s, self.tier);
        s.append(" requires Cargo features (max available: ");
        push_decimal_u8(&mut s, self.max_available);
        s.append("). Use --features tier-full for the full ladder.");
        s
    }
}

impl StackOptions {
    /// The highest tier this build can boot.
    pub fn max_tier_available() -> (tier: u8)
        ensures
            tier == max_tier_for(linked_features()),
    {
        max_tier_for_features(TierFeatures::linked())
    }

    /// Fails exactly when the requested tier is above the highest available one.
    pub fn ensure_tier_available(&self) -> (r: Result<(), TierUnavailable>)
        ensures
            r is Err <==> self.tier > max_tier_for(linked_features()),
            r matches Err(e) ==> e == (TierUnavailable {
                tier: self.tier,
                max_available: max_tier_for(linked_features()),
            }),
    {
        let max = Self::max_tier_available();
        if self.tier > max {
            Err(TierUnavailable { tier: self.tier, max_available: max })
        } else {
            Ok(())
        }
    }
}

/// One step of booting a stack on top of tier 0.
#[derive(Debug, Clone, Copy, PartialEq, Eq, Structural)]
pub enum BootStep {
    /// Tier 1: the background job queue.
    Boson,
    /// Tier 2: metric and event recording.
    Spectra,
    /// Tier 3: the topic executor.
    Photon,
    /// Tier 4: the composite metric sink.
    SpectraComposite,
    /// Turn the scheduler's worker off through its environment switch.
    DisableChrononWorker,
    /// Tier 5: the job scheduler.
    Chronon,
    /// The tier needs a stack this build does not link; booting stops here.
    MissingFeature { tier: u8 },
}

/// The boot step of layer `layer` (1 to 5).
pub open spec fn layer_step(layer: nat) -> BootStep {
    if layer == 1 {
        BootStep::Boson
    } else if layer == 2 {
        BootStep::Spectra
    } else if layer == 3 {
        BootStep::Photon
    } else if layer == 4 {
        BootStep::SpectraComposite
    } else {
        BootStep::Chronon
    }
}

/// Whether the stack of layer `layer` (1 to 5) is linked.
pub open spec fn layer_linked(layer: nat, f: TierFeatures) -> bool {
    if layer == 1 {
        f.boson
    } else if layer == 2 {
        f.spectra
    } else if layer == 3 {
        f.photon
    } else if layer == 4 {
        f.spectra_composite
    } else {
        f.chronon
    }
}

pub open spec fn ends_missing(steps: Seq<BootStep>) -> bool {
    steps.len() > 0 && steps.last() is MissingFeature
}

/// Steps for layers 1 to `upto`, in order, stopping at the first layer whose
/// stack is missing.
pub open spec fn layer_steps(tier: nat, f: TierFeatures, upto: nat) -> Seq<BootStep>
    decreases upto,
{
    if upto == 0 {
        Seq::empty()
    } else {
        let prev = layer_steps(tier, f, (upto - 1) as nat);
        if ends_missing(prev) || tier < upto {
            prev
        } else if layer_linked(upto, f) {
            prev.push(layer_step(upto))
        } else {
            prev.push(BootStep::MissingFeature { tier: upto as u8 })
        }
    }
}

/// The boot plan for a tier: layers 1 to 4, then the scheduler's worker
/// switch, then layer 5; a missing stack ends the plan.
pub open spec fn boot_plan_spec(tier: u8, disable_chronon_worker: bool, f: TierFeatures) -> Seq<
    BootStep,
> {
    let first = layer_steps(tier as nat, f, 4);
    if ends_missing(first) {
        first
    } else {
        let with_switch = if disable_chronon_worker {
            first.push(BootStep::DisableChrononWorker)
        } else {
            first
        };
        if tier >= 5 {
            if f.chronon {
                with_switch.push(BootStep::Chronon)
            } else {
                with_switch.push(BootStep::MissingFeature { tier: 5 })
            }
        } else {
            with_switch
        }
    }
}

fn layer_step_of(layer: u8) -> (step: BootStep)
    requires
        1 <= layer <= 5,
    ensures
        step == layer_step(layer as nat),
{
    if layer == 1 {
        BootStep::Boson
    } else if layer == 2 {
        BootStep::Spectra
    } else if layer == 3 {
        BootStep::Photon
    } else if layer == 4 {
        BootStep::SpectraComposite
    } else {
        BootStep::Chronon
    }
}

fn layer_is_linked(layer: u8, f: TierFeatures) -> (linked: bool)
    requires
        1 <= layer <= 5,
    ensures
        linked == layer_linked(layer as nat, f),
{
    if layer == 1 {
        f.boson
    } else if layer == 2 {
        f.spectra
    } else if layer == 3 {
        f.photon
    } else if layer == 4 {
        f.spectra_composite
    } else {
        f.chronon
    }
}

/// The steps that boot the requested tier on top of tier 0, in order.
pub fn boot_plan(tier: u8, disable_chronon_worker: bool, f: TierFeatures) -> (steps: Vec<
    BootStep,
>)
    ensures
        steps@ == boot_plan_spec(tier, disable_chronon_worker, f),
{
    let mut steps: Vec<BootStep> = Vec::new();
    let mut missing = false;
    let mut layer: u8 = 1;
    while layer <= 4
        invariant
            1 <= layer <= 5,
            steps@ == layer_steps(tier as nat, f, (layer - 1) as nat),
            missing == ends_missing(steps@),
        decreases 5 - layer,
    {
        if !missing && tier >= layer {
            if layer_is_linked(layer, f) {
                steps.push(layer_step_of(layer));
            } else {
                steps.push(BootStep::MissingFeature { tier: layer });
                missing = true;
            }
        }
        layer = layer + 1;
    }
    if missing {
        return steps;
    }
    if disable_chronon_worker {
        steps.push(BootStep::DisableChrononWorker);
    }
    if tier >= 5 {
        if f.chronon {
            steps.push(BootStep::Chronon);
        } else {
            steps.push(BootStep::MissingFeature { tier: 5 });
        }
    }
    steps
}

/// Law: with every stack linked, the plan boots the layers up to the tier in
/// order and never reports a missing stack.
pub proof fn lemma_boot_plan_all_linked(tier: u8, disable_chronon_worker: bool, f: TierFeatures)
    requires
        f.boson && f.spectra && f.photon && f.spectra_composite && f.chronon,
    ensures
        ({
            let plan = boot_plan_spec(tier, disable_chronon_worker, f);
            let below = if tier < 4 { tier as nat } else { 4 };
            &&& forall|i: int| 0 <= i < below ==> #[trigger] plan[i] == layer_step((i + 1) as nat)
            &&& forall|i: int| 0 <= i < plan.len() ==> !(#[trigger] plan[i] is MissingFeature)
            &&& plan.len() == below + (if disable_chronon_worker { 1nat } else { 0 }) + (if tier
                >= 5 { 1nat } else { 0 })
            &&& tier >= 5 ==> plan.last() == BootStep::Chronon
        }),
{
    lemma_layer_steps_all_linked(tier as nat, f, 4);
}

proof fn lemma_layer_steps_all_linked(tier: nat, f: TierFeatures, upto: nat)
    requires
        f.boson && f.spectra && f.photon && f.spectra_composite && f.chronon,
        upto <= 4,
    ensures
        ({
            let s = layer_steps(tier, f, upto);
            let n = if tier < upto { tier } else { upto };
            &&& s.len() == n
            &&& forall|i: int| 0 <= i < n ==> #[trigger] s[i] == layer_step((i + 1) as nat)
        }),
    decreases upto,
{
    if upto > 0 {
        lemma_layer_steps_all_linked(tier, f, (upto - 1) as nat);
    }
}

/// Label of the acting user, as printed in run headers.
pub fn actor_label(user_id: &str) -> (label: String)
    ensures
        label@ == tier0::actor_label_text(user_id@),
{
    tier0::actor_label(user_id)
}

} // verus!
