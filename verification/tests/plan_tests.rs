use oafort_client::oacli::ClientConfig;
use oafort_client::oagame::OAGameplayPlug;
use oafort_client::oainit::{AppStep, FeatureSet, OAInitPlug};

fn plan(cfg: ClientConfig, feats: FeatureSet) -> Vec<AppStep> {
    let plug = OAInitPlug { cfg };
    let mut steps: Vec<AppStep> = Vec::new();
    plug.build(&feats, &mut steps);
    steps
}

#[test]
fn config_new_reflects_flags() {
    let c = ClientConfig::new(true, false);
    assert!(c.nosnd);
    assert!(!c.diag);
    let c = ClientConfig::new(false, true);
    assert!(!c.nosnd);
    assert!(c.diag);
}

#[test]
fn feature_set_none_is_all_off() {
    let f = FeatureSet::none();
    assert!(!f.render && !f.sprite && !f.pbr && !f.ui && !f.text);
    assert!(!f.audio && !f.gilrs && !f.gltf && !f.winit && !f.wgpu);
}

#[test]
fn plan_sound_disabled_no_diag() {
    let steps = plan(ClientConfig::new(true, false), FeatureSet::none());
    assert_eq!(
        steps,
        vec![
            AppStep::CorePlug,
            AppStep::TransformPlug,
            AppStep::InputPlug,
            AppStep::WindowPlug,
            AppStep::AssetPlug,
            AppStep::ScenePlug,
            AppStep::MsaaResource,
            AppStep::SayHelloSys,
            AppStep::VersionInfoSys,
        ]
    );
}

#[test]
fn plan_sound_enabled_starts_with_audio() {
    let steps = plan(ClientConfig::new(false, false), FeatureSet::none());
    assert_eq!(steps.len(), 10);
    assert_eq!(steps[0], AppStep::AudioPlug);
    assert_eq!(steps[1], AppStep::CorePlug);
}

#[test]
fn plan_diag_enabled_has_diagnostics() {
    let steps = plan(ClientConfig::new(true, true), FeatureSet::none());
    assert_eq!(steps.len(), 10);
    assert_eq!(steps[0], AppStep::DiagnosticsPlug);
    assert_eq!(steps[1], AppStep::CorePlug);
}

#[test]
fn plan_both_configurable_plugins() {
    let steps = plan(ClientConfig::new(false, true), FeatureSet::none());
    assert_eq!(steps.len(), 11);
    assert_eq!(steps[0], AppStep::AudioPlug);
    assert_eq!(steps[1], AppStep::DiagnosticsPlug);
    assert_eq!(steps[2], AppStep::CorePlug);
    assert_eq!(steps[10], AppStep::VersionInfoSys);
}

#[test]
fn plan_with_some_features_keeps_engine_order() {
    let mut feats = FeatureSet::none();
    feats.wgpu = true;
    feats.render = true;
    feats.text = true;
    let steps = plan(ClientConfig::new(true, false), feats);
    assert_eq!(
        steps,
        vec![
            AppStep::CorePlug,
            AppStep::TransformPlug,
            AppStep::InputPlug,
            AppStep::WindowPlug,
            AppStep::AssetPlug,
            AppStep::ScenePlug,
            AppStep::RenderPlug,
            AppStep::TextPlug,
            AppStep::WgpuPlug,
            AppStep::MsaaResource,
            AppStep::SayHelloSys,
            AppStep::VersionInfoSys,
        ]
    );
}

#[test]
fn apply_default_plugs_exact_order() {
    let plug = OAInitPlug { cfg: ClientConfig::new(false, false) };
    let mut steps: Vec<AppStep> = Vec::new();
    plug.apply_default_plugs(&mut steps);
    assert_eq!(
        steps,
        vec![
            AppStep::CorePlug,
            AppStep::TransformPlug,
            AppStep::InputPlug,
            AppStep::WindowPlug,
            AppStep::AssetPlug,
            AppStep::ScenePlug,
        ]
    );
}

#[test]
fn apply_feature_plugs_all_features() {
    let feats = FeatureSet {
        render: true,
        sprite: true,
        pbr: true,
        ui: true,
        text: true,
        audio: true,
        gilrs: true,
        gltf: true,
        winit: true,
        wgpu: true,
    };
    let plug = OAInitPlug { cfg: ClientConfig::new(true, false) };
    let mut steps: Vec<AppStep> = Vec::new();
    plug.apply_feature_plugs(&feats, &mut steps);
    assert_eq!(
        steps,
        vec![
            AppStep::RenderPlug,
            AppStep::SpritePlug,
            AppStep::PbrPlug,
            AppStep::UiPlug,
            AppStep::TextPlug,
            AppStep::AudioPlug,
            AppStep::GilrsPlug,
            AppStep::GltfPlug,
            AppStep::WinitPlug,
            AppStep::WgpuPlug,
        ]
    );
}

#[test]
fn apply_configurable_plugs_appends_after_existing() {
    let plug = OAInitPlug { cfg: ClientConfig::new(false, true) };
    let mut steps = vec![AppStep::CorePlug];
    plug.apply_configurable_plugs(&mut steps);
    assert_eq!(
        steps,
        vec![AppStep::CorePlug, AppStep::AudioPlug, AppStep::DiagnosticsPlug]
    );
}

#[test]
fn apply_init_plugs_schedules_systems() {
    let plug = OAInitPlug { cfg: ClientConfig::new(true, false) };
    let mut steps: Vec<AppStep> = Vec::new();
    plug.apply_init_plugs(&mut steps);
    assert_eq!(steps, vec![AppStep::SayHelloSys, AppStep::VersionInfoSys]);
}

#[test]
fn gameplay_plan_spawns_main_camera() {
    let plug = OAGameplayPlug;
    let mut steps: Vec<AppStep> = Vec::new();
    plug.build(&mut steps);
    assert_eq!(steps, vec![AppStep::SpawnCamMainSys]);
}
