//! The composition root: the ordered installation of the global state
//! providers and the gateway into ambient context, followed by the router
//! mount.

use vstd::prelude::*;
use crate::platform::Platform;

verus! {

/// One installation or registration step the composition root performs.
#[derive(Clone, Copy, Debug, PartialEq, Eq, Structural)]
pub enum Step {
    /// Publish the appearance state container.
    InstallAppearanceProvider,
    /// Publish the file-explorer state container.
    InstallExplorerProvider,
    /// Publish the power-level state container.
    InstallPowerLevelProvider,
    /// Publish the onboarding-flag state container.
    InstallOnboardedProvider,
    /// Construct the shared gateway handle and publish it.
    InstallGateway,
    /// Register the theme synchronization effect (browser target only).
    RegisterThemeEffect,
    /// Mount the router against the external route table.
    MountRouter,
}

/// The ambient context as the composition root sees it: for each published
/// value, how many instances have been installed. Descendant lookups
/// succeed exactly when an instance is present; the containers' own values
/// are owned by their (external) providers and are out of scope here.
pub struct AmbientContext {
    /// Installed instances of the appearance container.
    pub appearance_installs: u64,
    /// Installed instances of the file-explorer container.
    pub explorer_installs: u64,
    /// Installed instances of the power-level container.
    pub power_level_installs: u64,
    /// Installed instances of the onboarding-flag container.
    pub onboarded_installs: u64,
    /// Installed instances of the shared gateway handle.
    pub gateway_installs: u64,
}

impl AmbientContext {
    /// An ambient context into which nothing has been installed yet.
    pub open spec fn is_empty(self) -> bool {
        &&& self.appearance_installs == 0
        &&& self.explorer_installs == 0
        &&& self.power_level_installs == 0
        &&& self.onboarded_installs == 0
        &&& self.gateway_installs == 0
    }

    /// Every container and the gateway is present as exactly one instance.
    pub open spec fn fully_installed(self) -> bool {
        &&& self.appearance_installs == 1
        &&& self.explorer_installs == 1
        &&& self.power_level_installs == 1
        &&& self.onboarded_installs == 1
        &&& self.gateway_installs == 1
    }

    /// The ambient context of a freshly started application.
    pub fn new() -> (ctx: AmbientContext)
        ensures
            ctx.is_empty(),
    {
        AmbientContext {
            appearance_installs: 0,
            explorer_installs: 0,
            power_level_installs: 0,
            onboarded_installs: 0,
            gateway_installs: 0,
        }
    }

    /// Publish the appearance container. Installation happens exactly once
    /// per application instance, so a second call is ruled out.
    pub fn install_appearance_provider(&mut self)
        requires
            old(self).appearance_installs == 0,
        ensures
            final(self).appearance_installs == 1,
            final(self).explorer_installs == old(self).explorer_installs,
            final(self).power_level_installs == old(self).power_level_installs,
            final(self).onboarded_installs == old(self).onboarded_installs,
            final(self).gateway_installs == old(self).gateway_installs,
    {
        self.appearance_installs = 1;
    }

    /// Publish the file-explorer container, exactly once per application.
    pub fn install_explorer_provider(&mut self)
        requires
            old(self).explorer_installs == 0,
        ensures
            final(self).explorer_installs == 1,
            final(self).appearance_installs == old(self).appearance_installs,
            final(self).power_level_installs == old(self).power_level_installs,
            final(self).onboarded_installs == old(self).onboarded_installs,
            final(self).gateway_installs == old(self).gateway_installs,
    {
        self.explorer_installs = 1;
    }

    /// Publish the power-level container, exactly once per application.
    pub fn install_power_level_provider(&mut self)
        requires
            old(self).power_level_installs == 0,
        ensures
            final(self).power_level_installs == 1,
            final(self).appearance_installs == old(self).appearance_installs,
            final(self).explorer_installs == old(self).explorer_installs,
            final(self).onboarded_installs == old(self).onboarded_installs,
            final(self).gateway_installs == old(self).gateway_installs,
    {
        self.power_level_installs = 1;
    }

    /// Publish the onboarding-flag container, exactly once per application.
    pub fn install_onboarded_provider(&mut self)
        requires
            old(self).onboarded_installs == 0,
        ensures
            final(self).onboarded_installs == 1,
            final(self).appearance_installs == old(self).appearance_installs,
            final(self).explorer_installs == old(self).explorer_installs,
            final(self).power_level_installs == old(self).power_level_installs,
            final(self).gateway_installs == old(self).gateway_installs,
    {
        self.onboarded_installs = 1;
    }

    /// Construct the one shared gateway handle and publish it. Only one
    /// gateway exists per application lifetime; re-installation is not
    /// supported.
    pub fn install_gateway(&mut self)
        requires
            old(self).gateway_installs == 0,
        ensures
            final(self).gateway_installs == 1,
            final(self).appearance_installs == old(self).appearance_installs,
            final(self).explorer_installs == old(self).explorer_installs,
            final(self).power_level_installs == old(self).power_level_installs,
            final(self).onboarded_installs == old(self).onboarded_installs,
    {
        self.gateway_installs = 1;
    }

    /// A descendant's lookup of the appearance container: succeeds exactly
    /// when an instance has been installed.
    pub fn lookup_appearance(&self) -> (found: bool)
        ensures
            found == (self.appearance_installs >= 1),
    {
        self.appearance_installs >= 1
    }

    /// A descendant's lookup of the file-explorer container.
    pub fn lookup_explorer(&self) -> (found: bool)
        ensures
            found == (self.explorer_installs >= 1),
    {
        self.explorer_installs >= 1
    }

    /// A descendant's lookup of the power-level container.
    pub fn lookup_power_level(&self) -> (found: bool)
        ensures
            found == (self.power_level_installs >= 1),
    {
        self.power_level_installs >= 1
    }

    /// A descendant's lookup of the onboarding-flag container.
    pub fn lookup_onboarded(&self) -> (found: bool)
        ensures
            found == (self.onboarded_installs >= 1),
    {
        self.onboarded_installs >= 1
    }

    /// A descendant's lookup of the shared gateway handle. The caller
    /// receives a shared reference, never ownership.
    pub fn lookup_gateway(&self) -> (found: bool)
        ensures
            found == (self.gateway_installs >= 1),
    {
        self.gateway_installs >= 1
    }
}

/// The steps the composition root performs for a platform, in order: the
/// four providers (appearance, explorer, power level, onboarding), then the
/// gateway, then — on the browser target only — the theme effect
/// registration, and the router mount last.
pub open spec fn composition_trace(p: Platform) -> Seq<Step> {
    if p is Web {
        seq![
            Step::InstallAppearanceProvider,
            Step::InstallExplorerProvider,
            Step::InstallPowerLevelProvider,
            Step::InstallOnboardedProvider,
            Step::InstallGateway,
            Step::RegisterThemeEffect,
            Step::MountRouter,
        ]
    } else {
        seq![
            Step::InstallAppearanceProvider,
            Step::InstallExplorerProvider,
            Step::InstallPowerLevelProvider,
            Step::InstallOnboardedProvider,
            Step::InstallGateway,
            Step::MountRouter,
        ]
    }
}

/// Run the composition root once, at application start: install the four
/// providers and the gateway in their fixed order and mount the router
/// last. Returns the trace of steps in the order performed; the host
/// carries each out against the reactive runtime as it is produced.
pub fn compose_root(ctx: &mut AmbientContext, platform: Platform) -> (trace: Vec<Step>)
    requires
        old(ctx).is_empty(),
    ensures
        final(ctx).fully_installed(),
        trace@ == composition_trace(platform),
{
    let mut trace: Vec<Step> = Vec::new();
    ctx.install_appearance_provider();
    trace.push(Step::InstallAppearanceProvider);
    ctx.install_explorer_provider();
    trace.push(Step::InstallExplorerProvider);
    ctx.install_power_level_provider();
    trace.push(Step::InstallPowerLevelProvider);
    ctx.install_onboarded_provider();
    trace.push(Step::InstallOnboardedProvider);
    ctx.install_gateway();
    trace.push(Step::InstallGateway);
    if platform.is_web() {
        trace.push(Step::RegisterThemeEffect);
    }
    trace.push(Step::MountRouter);
    proof {
        assert(trace@ =~= composition_trace(platform));
    }
    trace
}

/// How often a step occurs in a trace.
pub open spec fn step_count(trace: Seq<Step>, step: Step) -> nat
    decreases trace.len(),
{
    if trace.len() == 0 {
        0
    } else {
        step_count(trace.drop_last(), step) + if trace.last() == step {
            1nat
        } else {
            0nat
        }
    }
}

/// Law: on either platform the router mount is the last step of the
/// composition, and no earlier step mounts it — every installation and
/// registration step completes before any router content can render.
pub proof fn lemma_router_mounted_last(p: Platform)
    ensures
        composition_trace(p).len() >= 6,
        composition_trace(p).last() == Step::MountRouter,
        forall|i: int|
            0 <= i < composition_trace(p).len() - 1 ==> composition_trace(p)[i] != Step::MountRouter,
{
}

/// Law: each provider installation, and the gateway installation, occurs
/// exactly once in the composition, and the theme effect registration
/// occurs exactly on the browser target.
pub proof fn lemma_each_step_once(p: Platform)
    ensures
        step_count(composition_trace(p), Step::InstallAppearanceProvider) == 1,
        step_count(composition_trace(p), Step::InstallExplorerProvider) == 1,
        step_count(composition_trace(p), Step::InstallPowerLevelProvider) == 1,
        step_count(composition_trace(p), Step::InstallOnboardedProvider) == 1,
        step_count(composition_trace(p), Step::InstallGateway) == 1,
        step_count(composition_trace(p), Step::MountRouter) == 1,
        step_count(composition_trace(p), Step::RegisterThemeEffect) == if p is Web {
            1nat
        } else {
            0nat
        },
{
    reveal_with_fuel(step_count, 8);
}

/// Law: the providers are installed in their fixed order — appearance,
/// explorer, power level, onboarding — and the gateway after them.
pub proof fn lemma_provider_order(p: Platform)
    ensures
        composition_trace(p)[0] == Step::InstallAppearanceProvider,
        composition_trace(p)[1] == Step::InstallExplorerProvider,
        composition_trace(p)[2] == Step::InstallPowerLevelProvider,
        composition_trace(p)[3] == Step::InstallOnboardedProvider,
        composition_trace(p)[4] == Step::InstallGateway,
{
}

/// Law: once the composition has completed, a descendant's lookup of each
/// of the four containers and of the gateway handle finds exactly one
/// instance — none is missing and none is duplicated.
pub proof fn lemma_lookups_succeed_once(ctx: AmbientContext)
    requires
        ctx.fully_installed(),
    ensures
        ctx.appearance_installs == 1,
        ctx.explorer_installs == 1,
        ctx.power_level_installs == 1,
        ctx.onboarded_installs == 1,
        ctx.gateway_installs == 1,
{
}

} // verus!
