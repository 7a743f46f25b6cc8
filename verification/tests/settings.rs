use stereokit::lifecycle::InitGate;
use stereokit::settings::{DepthMode, DisplayBlend, DisplayMode, LogFilter, Settings};

#[test]
fn default_record_applies_documented_defaults() {
    let gate = InitGate::new();
    let built = Settings::default().init(&gate).expect("gate is free");
    assert_eq!(built.app_name, "sk_app");
    assert_eq!(built.assets_folder, "");
    assert_eq!(built.display_preference, DisplayMode::MixedReality);
    assert_eq!(built.blend_preference, DisplayBlend::NoBlend);
    assert!(!built.no_flatscreen_fallback);
    assert_eq!(built.depth_mode, DepthMode::Balanced);
    assert_eq!(built.log_filter, LogFilter::Warning);
    assert!(!built.overlay_app);
    assert_eq!(built.overlay_priority, 0);
    assert_eq!(built.flatscreen_pos_x, 0);
    assert_eq!(built.flatscreen_pos_y, 0);
    assert_eq!(built.flatscreen_width, 0);
    assert_eq!(built.flatscreen_height, 0);
    assert!(!built.disable_flatscreen_mr_sim);
    assert!(!built.disable_unfocused_sleep);
}

#[test]
fn set_options_override_defaults() {
    let gate = InitGate::new();
    let built = Settings::default()
        .app_name(String::from("demo"))
        .assets_folder(String::from("assets"))
        .display_preference(DisplayMode::Flatscreen)
        .blend_preference(DisplayBlend::AnyTransparent)
        .no_flatscreen_fallback(true)
        .depth_mode(DepthMode::Stencil)
        .log_filter(LogFilter::Diagnostic)
        .overlay_app(true)
        .overlay_priority(3)
        .flatscreen_pos_x(10)
        .flatscreen_pos_y(20)
        .flatscreen_width(640)
        .flatscreen_height(480)
        .disable_flatscreen_mr_sim(true)
        .disable_unfocused_sleep(true)
        .init(&gate)
        .expect("gate is free");
    assert_eq!(built.app_name, "demo");
    assert_eq!(built.assets_folder, "assets");
    assert_eq!(built.display_preference, DisplayMode::Flatscreen);
    assert_eq!(built.blend_preference, DisplayBlend::AnyTransparent);
    assert!(built.no_flatscreen_fallback);
    assert_eq!(built.depth_mode, DepthMode::Stencil);
    assert_eq!(built.log_filter, LogFilter::Diagnostic);
    assert!(built.overlay_app);
    assert_eq!(built.overlay_priority, 3);
    assert_eq!(built.flatscreen_pos_x, 10);
    assert_eq!(built.flatscreen_pos_y, 20);
    assert_eq!(built.flatscreen_width, 640);
    assert_eq!(built.flatscreen_height, 480);
    assert!(built.disable_flatscreen_mr_sim);
    assert!(built.disable_unfocused_sleep);
}

#[test]
fn native_codes_match_the_native_enums() {
    assert_eq!(DisplayMode::MixedReality.code(), 0);
    assert_eq!(DisplayMode::Flatscreen.code(), 1);
    assert_eq!(DisplayMode::NoDisplay.code(), 2);

    assert_eq!(DisplayBlend::NoBlend.code(), 0);
    assert_eq!(DisplayBlend::Opaque.code(), 1);
    assert_eq!(DisplayBlend::Additive.code(), 2);
    assert_eq!(DisplayBlend::Blend.code(), 4);
    assert_eq!(DisplayBlend::AnyTransparent.code(), 6);

    assert_eq!(DepthMode::Balanced.code(), 0);
    assert_eq!(DepthMode::D16.code(), 1);
    assert_eq!(DepthMode::D32.code(), 2);
    assert_eq!(DepthMode::Stencil.code(), 3);

    assert_eq!(LogFilter::NoLog.code(), 0);
    assert_eq!(LogFilter::Diagnostic.code(), 1);
    assert_eq!(LogFilter::Inform.code(), 2);
    assert_eq!(LogFilter::Warning.code(), 3);
    assert_eq!(LogFilter::Error.code(), 4);
}

#[test]
fn init_is_refused_while_a_runtime_is_live() {
    let mut gate = InitGate::new();
    assert!(Settings::default().init(&gate).is_some());
    let handle = gate.confirm_init(true).expect("native init succeeded");
    assert!(Settings::default().init(&gate).is_none());
    assert!(handle.dispose(&mut gate));
}
