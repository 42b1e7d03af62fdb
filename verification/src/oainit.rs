//! Client initialization planning.
//!
//! The engine is driven through an application builder: plugins are
//! registered one by one, and registration order is observable engine
//! behaviour.  The client's own job is to decide, from its configuration
//! and from the engine features it was compiled with, which registrations
//! to make and in what order.  That decision is modelled here as a plan: a
//! sequence of [`AppStep`] values that the unverified shell replays
//! against the engine's builder, one registration per step.

use vstd::prelude::*;
use vstd::string::StringExecFns;
use crate::oacli::ClientConfig;
use crate::oastatic::GAME_CLIENT_NAME;

verus! {

/// One registration the client asks of the engine's application builder:
/// adding a plugin, inserting a resource, or scheduling a startup system.
#[derive(Clone, Copy, Debug, PartialEq, Eq, Structural)]
pub enum AppStep {
    /// Add the engine's audio plugin.
    AudioPlug,
    /// Add the engine's performance-diagnostics plugin.
    DiagnosticsPlug,
    /// Add the engine's core plugin.
    CorePlug,
    /// Add the engine's transform plugin.
    TransformPlug,
    /// Add the engine's input plugin.
    InputPlug,
    /// Add the engine's window plugin.
    WindowPlug,
    /// Add the engine's asset plugin.
    AssetPlug,
    /// Add the engine's scene plugin.
    ScenePlug,
    /// Add the engine's render plugin.
    RenderPlug,
    /// Add the engine's sprite plugin.
    SpritePlug,
    /// Add the engine's physically-based-rendering plugin.
    PbrPlug,
    /// Add the engine's user-interface plugin.
    UiPlug,
    /// Add the engine's text plugin.
    TextPlug,
    /// Add the engine's gamepad-input plugin.
    GilrsPlug,
    /// Add the engine's scene-format loader plugin.
    GltfPlug,
    /// Add the engine's windowing-backend plugin.
    WinitPlug,
    /// Add the engine's graphics-backend plugin.
    WgpuPlug,
    /// Insert the engine's multisample-anti-aliasing resource.
    MsaaResource,
    /// Schedule the greeting startup system.
    SayHelloSys,
    /// Schedule the version-logging startup system.
    VersionInfoSys,
    /// Schedule the main-camera-spawning startup system.
    SpawnCamMainSys,
}

/// The optional engine features the client binary was compiled with.
/// Each field answers whether the corresponding engine plugin is
/// available to register at all.
#[derive(Clone, Copy, Debug, PartialEq, Eq, Structural)]
pub struct FeatureSet {
    pub render: bool,
    pub sprite: bool,
    pub pbr: bool,
    pub ui: bool,
    pub text: bool,
    pub audio: bool,
    pub gilrs: bool,
    pub gltf: bool,
    pub winit: bool,
    pub wgpu: bool,
}

impl FeatureSet {
    /// A build with no optional engine feature compiled in.
    pub fn none() -> (f: FeatureSet)
        ensures
            !f.render,
            !f.sprite,
            !f.pbr,
            !f.ui,
            !f.text,
            !f.audio,
            !f.gilrs,
            !f.gltf,
            !f.winit,
            !f.wgpu,
    {
        FeatureSet {
            render: false,
            sprite: false,
            pbr: false,
            ui: false,
            text: false,
            audio: false,
            gilrs: false,
            gltf: false,
            winit: false,
            wgpu: false,
        }
    }
}

/// One optional registration: the plan holds `step` exactly when `on`.
pub open spec fn step_if(on: bool, step: AppStep) -> Seq<AppStep> {
    if on {
        seq![step]
    } else {
        Seq::empty()
    }
}

/// The configuration-dependent registrations: audio unless sound is
/// disabled, then diagnostics if requested.
pub open spec fn configurable_steps(cfg: ClientConfig) -> Seq<AppStep> {
    step_if(!cfg.nosnd, AppStep::AudioPlug) + step_if(cfg.diag, AppStep::DiagnosticsPlug)
}

/// The engine's default plugins, in the order the engine expects them.
pub open spec fn default_steps() -> Seq<AppStep> {
    seq![
        AppStep::CorePlug,
        AppStep::TransformPlug,
        AppStep::InputPlug,
        AppStep::WindowPlug,
        AppStep::AssetPlug,
        AppStep::ScenePlug,
    ]
}

/// The feature-gated plugins of the compiled-in features, in the order
/// the engine expects them.
pub open spec fn feature_steps(feats: FeatureSet) -> Seq<AppStep> {
    step_if(feats.render, AppStep::RenderPlug) + step_if(feats.sprite, AppStep::SpritePlug)
        + step_if(feats.pbr, AppStep::PbrPlug) + step_if(feats.ui, AppStep::UiPlug)
        + step_if(feats.text, AppStep::TextPlug) + step_if(feats.audio, AppStep::AudioPlug)
        + step_if(feats.gilrs, AppStep::GilrsPlug) + step_if(feats.gltf, AppStep::GltfPlug)
        + step_if(feats.winit, AppStep::WinitPlug) + step_if(feats.wgpu, AppStep::WgpuPlug)
}

/// The client's own startup systems: the greeting, then the version log.
pub open spec fn init_steps() -> Seq<AppStep> {
    seq![AppStep::SayHelloSys, AppStep::VersionInfoSys]
}

/// The whole registration plan of the initialization plugin:
/// configuration-dependent plugins, the default plugins, the
/// feature-gated plugins, the anti-aliasing resource, and finally the
/// client's startup systems.
pub open spec fn build_steps(cfg: ClientConfig, feats: FeatureSet) -> Seq<AppStep> {
    configurable_steps(cfg) + default_steps() + feature_steps(feats) + seq![AppStep::MsaaResource]
        + init_steps()
}

/// Concatenation of plan segments is associative.
proof fn lemma_plan_concat_assoc(a: Seq<AppStep>, b: Seq<AppStep>, c: Seq<AppStep>)
    ensures
        (a + b) + c == a + (b + c),
{
    assert((a + b) + c =~= a + (b + c));
}

/// Appends `step` to the plan when `cond` holds.
fn push_if(cond: bool, step: AppStep, app: &mut Vec<AppStep>)
    ensures
        final(app)@ == old(app)@ + step_if(cond, step),
{
    if cond {
        app.push(step);
    }
    proof {
        assert(app@ =~= old(app)@ + step_if(cond, step));
    }
}

/// Client initialization plugin: plans the registrations that set the
/// engine up for this client.
#[derive(Clone, Copy, Debug, PartialEq, Eq, Structural)]
pub struct OAInitPlug {
    pub cfg: ClientConfig,
}

impl OAInitPlug {
    /// Appends the plugins chosen by the application configuration.
    ///
    /// NOTE: the configuration is read once at startup, so a restart is
    /// needed to apply a change.
    pub fn apply_configurable_plugs(&self, app: &mut Vec<AppStep>)
        ensures
            final(app)@ == old(app)@ + configurable_steps(self.cfg),
    {
        // No Sound Toggle
        if !self.cfg.nosnd {
            app.push(AppStep::AudioPlug);
        }
        // Performance Diagnostics Toggle
        if self.cfg.diag {
            app.push(AppStep::DiagnosticsPlug);
        }
        proof {
            assert(app@ =~= old(app)@ + configurable_steps(self.cfg));
        }
    }

    /// Appends the engine's default plugins.
    pub fn apply_default_plugs(&self, app: &mut Vec<AppStep>)
        ensures
            final(app)@ == old(app)@ + default_steps(),
    {
        app.push(AppStep::CorePlug);
        app.push(AppStep::TransformPlug);
        app.push(AppStep::InputPlug);
        app.push(AppStep::WindowPlug);
        app.push(AppStep::AssetPlug);
        app.push(AppStep::ScenePlug);
        proof {
            assert(app@ =~= old(app)@ + default_steps());
        }
    }

    /// Appends the default plugins of the compiled-in engine features.
    #[verifier::rlimit(100)]
    pub fn apply_feature_plugs(&self, feats: &FeatureSet, app: &mut Vec<AppStep>)
        ensures
            final(app)@ == old(app)@ + feature_steps(*feats),
    {
        push_if(feats.render, AppStep::RenderPlug, app);
        push_if(feats.sprite, AppStep::SpritePlug, app);
        push_if(feats.pbr, AppStep::PbrPlug, app);
        push_if(feats.ui, AppStep::UiPlug, app);
        push_if(feats.text, AppStep::TextPlug, app);
        push_if(feats.audio, AppStep::AudioPlug, app);
        push_if(feats.gilrs, AppStep::GilrsPlug, app);
        push_if(feats.gltf, AppStep::GltfPlug, app);
        push_if(feats.winit, AppStep::WinitPlug, app);
        push_if(feats.wgpu, AppStep::WgpuPlug, app);
        proof {
            let o = old(app)@;
            let c1 = step_if(feats.render, AppStep::RenderPlug);
            let c2 = step_if(feats.sprite, AppStep::SpritePlug);
            let c3 = step_if(feats.pbr, AppStep::PbrPlug);
            let c4 = step_if(feats.ui, AppStep::UiPlug);
            let c5 = step_if(feats.text, AppStep::TextPlug);
            let c6 = step_if(feats.audio, AppStep::AudioPlug);
            let c7 = step_if(feats.gilrs, AppStep::GilrsPlug);
            let c8 = step_if(feats.gltf, AppStep::GltfPlug);
            let c9 = step_if(feats.winit, AppStep::WinitPlug);
            let c10 = step_if(feats.wgpu, AppStep::WgpuPlug);
            lemma_plan_concat_assoc(o, c1, c2);
            lemma_plan_concat_assoc(o, c1 + c2, c3);
            lemma_plan_concat_assoc(o, c1 + c2 + c3, c4);
            lemma_plan_concat_assoc(o, c1 + c2 + c3 + c4, c5);
            lemma_plan_concat_assoc(o, c1 + c2 + c3 + c4 + c5, c6);
            lemma_plan_concat_assoc(o, c1 + c2 + c3 + c4 + c5 + c6, c7);
            lemma_plan_concat_assoc(o, c1 + c2 + c3 + c4 + c5 + c6 + c7, c8);
            lemma_plan_concat_assoc(o, c1 + c2 + c3 + c4 + c5 + c6 + c7 + c8, c9);
            lemma_plan_concat_assoc(o, c1 + c2 + c3 + c4 + c5 + c6 + c7 + c8 + c9, c10);
            assert(app@ == o + feature_steps(*feats));
        }
    }

    /// Appends the client's own startup systems.
    pub fn apply_init_plugs(&self, app: &mut Vec<AppStep>)
        ensures
            final(app)@ == old(app)@ + init_steps(),
    {
        app.push(AppStep::SayHelloSys);
        app.push(AppStep::VersionInfoSys);
        proof {
            assert(app@ =~= old(app)@ + init_steps());
        }
    }

    /// Plans every registration the initialization plugin makes, in order.
    pub fn build(&self, feats: &FeatureSet, app: &mut Vec<AppStep>)
        ensures
            final(app)@ == old(app)@ + build_steps(self.cfg, *feats),
    {
        // Init engine
        self.apply_configurable_plugs(app);
        self.apply_default_plugs(app);
        self.apply_feature_plugs(feats, app);
        // Add resources
        app.push(AppStep::MsaaResource);
        // Start App
        self.apply_init_plugs(app);
        proof {
            assert(app@ =~= old(app)@ + build_steps(self.cfg, *feats));
        }
    }
}

/// The greeting the client logs at startup.
pub open spec fn welcome_msg(name: Seq<char>) -> Seq<char> {
    "Welcome to "@ + name + "!"@
}

/// Builds the startup greeting for the client's display name.
pub fn say_hello() -> (m: String)
    ensures
        m@ == welcome_msg(GAME_CLIENT_NAME@),
{
    let mut m = "Welcome to ".to_owned();
    m.append(GAME_CLIENT_NAME);
    m.append("!");
    m
}

/// The version line the client logs at startup, for a package name and a
/// version string.
pub open spec fn version_msg(name: Seq<char>, version: Seq<char>) -> Seq<char> {
    name + ": version "@ + version + " \n"@
}

/// Builds the startup version line from the build-environment values the
/// binary embeds.
pub fn version_info(name: &str, version: &str) -> (m: String)
    ensures
        m@ == version_msg(name@, version@),
{
    let mut m = name.to_owned();
    m.append(": version ");
    m.append(version);
    m.append(" \n");
    m
}

/// A step absent from two plan segments is absent from their
/// concatenation.
proof fn lemma_absent_from_concat(a: Seq<AppStep>, b: Seq<AppStep>, x: AppStep)
    requires
        !a.contains(x),
        !b.contains(x),
    ensures
        !(a + b).contains(x),
{
    assert forall|i: int| 0 <= i < (a + b).len() implies (a + b)[i] != x by {
        if i < a.len() {
            assert((a + b)[i] == a[i]);
        } else {
            assert((a + b)[i] == b[i - a.len()]);
        }
    }
}

/// A step stands in the feature-gated segment of the plan only through
/// its own feature: when each feature that would plan `x` is off, `x` is
/// not planned there.
#[verifier::rlimit(100)]
proof fn lemma_feature_steps_absent(feats: FeatureSet, x: AppStep)
    requires
        x == AppStep::RenderPlug ==> !feats.render,
        x == AppStep::SpritePlug ==> !feats.sprite,
        x == AppStep::PbrPlug ==> !feats.pbr,
        x == AppStep::UiPlug ==> !feats.ui,
        x == AppStep::TextPlug ==> !feats.text,
        x == AppStep::AudioPlug ==> !feats.audio,
        x == AppStep::GilrsPlug ==> !feats.gilrs,
        x == AppStep::GltfPlug ==> !feats.gltf,
        x == AppStep::WinitPlug ==> !feats.winit,
        x == AppStep::WgpuPlug ==> !feats.wgpu,
    ensures
        !feature_steps(feats).contains(x),
{
    let c1 = step_if(feats.render, AppStep::RenderPlug);
    let c2 = step_if(feats.sprite, AppStep::SpritePlug);
    let c3 = step_if(feats.pbr, AppStep::PbrPlug);
    let c4 = step_if(feats.ui, AppStep::UiPlug);
    let c5 = step_if(feats.text, AppStep::TextPlug);
    let c6 = step_if(feats.audio, AppStep::AudioPlug);
    let c7 = step_if(feats.gilrs, AppStep::GilrsPlug);
    let c8 = step_if(feats.gltf, AppStep::GltfPlug);
    let c9 = step_if(feats.winit, AppStep::WinitPlug);
    let c10 = step_if(feats.wgpu, AppStep::WgpuPlug);
    lemma_absent_from_concat(c1, c2, x);
    lemma_absent_from_concat(c1 + c2, c3, x);
    lemma_absent_from_concat(c1 + c2 + c3, c4, x);
    lemma_absent_from_concat(c1 + c2 + c3 + c4, c5, x);
    lemma_absent_from_concat(c1 + c2 + c3 + c4 + c5, c6, x);
    lemma_absent_from_concat(c1 + c2 + c3 + c4 + c5 + c6, c7, x);
    lemma_absent_from_concat(c1 + c2 + c3 + c4 + c5 + c6 + c7, c8, x);
    lemma_absent_from_concat(c1 + c2 + c3 + c4 + c5 + c6 + c7 + c8, c9, x);
    lemma_absent_from_concat(c1 + c2 + c3 + c4 + c5 + c6 + c7 + c8 + c9, c10, x);
}

/// Sound policy: the audio plugin is part of the plan exactly when sound
/// is not disabled, as long as the engine's own feature-gated audio
/// plugin is not compiled in beside it.
pub proof fn lemma_audio_respects_nosnd(cfg: ClientConfig, feats: FeatureSet)
    requires
        !feats.audio,
    ensures
        build_steps(cfg, feats).contains(AppStep::AudioPlug) <==> !cfg.nosnd,
{
    let s = build_steps(cfg, feats);
    let c = configurable_steps(cfg);
    let d = default_steps();
    let f = feature_steps(feats);
    let m = seq![AppStep::MsaaResource];
    let i = init_steps();
    if !cfg.nosnd {
        assert(c[0] == AppStep::AudioPlug);
        assert(s[0] == AppStep::AudioPlug);
        assert(s.contains(AppStep::AudioPlug));
    } else {
        assert(!c.contains(AppStep::AudioPlug));
        assert(!d.contains(AppStep::AudioPlug));
        lemma_feature_steps_absent(feats, AppStep::AudioPlug);
        assert(!m.contains(AppStep::AudioPlug));
        assert(!i.contains(AppStep::AudioPlug));
        lemma_absent_from_concat(c, d, AppStep::AudioPlug);
        lemma_absent_from_concat(c + d, f, AppStep::AudioPlug);
        lemma_absent_from_concat(c + d + f, m, AppStep::AudioPlug);
        lemma_absent_from_concat(c + d + f + m, i, AppStep::AudioPlug);
    }
}

/// Diagnostics policy: the diagnostics plugin is part of the plan exactly
/// when diagnostics are enabled.
pub proof fn lemma_diag_respects_flag(cfg: ClientConfig, feats: FeatureSet)
    ensures
        build_steps(cfg, feats).contains(AppStep::DiagnosticsPlug) <==> cfg.diag,
{
    let s = build_steps(cfg, feats);
    let c = configurable_steps(cfg);
    let d = default_steps();
    let f = feature_steps(feats);
    let m = seq![AppStep::MsaaResource];
    let i = init_steps();
    if cfg.diag {
        assert(c[c.len() - 1] == AppStep::DiagnosticsPlug);
        assert(s[c.len() - 1] == AppStep::DiagnosticsPlug);
        assert(s.contains(AppStep::DiagnosticsPlug));
    } else {
        assert(!c.contains(AppStep::DiagnosticsPlug));
        assert(!d.contains(AppStep::DiagnosticsPlug));
        lemma_feature_steps_absent(feats, AppStep::DiagnosticsPlug);
        assert(!m.contains(AppStep::DiagnosticsPlug));
        assert(!i.contains(AppStep::DiagnosticsPlug));
        lemma_absent_from_concat(c, d, AppStep::DiagnosticsPlug);
        lemma_absent_from_concat(c + d, f, AppStep::DiagnosticsPlug);
        lemma_absent_from_concat(c + d + f, m, AppStep::DiagnosticsPlug);
        lemma_absent_from_concat(c + d + f + m, i, AppStep::DiagnosticsPlug);
    }
}

/// Registration order: whatever the configuration and features, the
/// engine's default plugins stand in the plan as one block, right after
/// the configuration-dependent plugins.
pub proof fn lemma_defaults_always_planned(cfg: ClientConfig, feats: FeatureSet)
    ensures
        build_steps(cfg, feats).subrange(
            configurable_steps(cfg).len() as int,
            (configurable_steps(cfg).len() + default_steps().len()) as int,
        ) =~= default_steps(),
{
}

} // verus!
