use tvmate::plugin::{
    greet, init, is_fullscreen, setup, FullScreenRequest, FullScreenResponse, Platform, PluginPayload, Tvmate, TvmateExt,
};

#[test]
fn mobile_methods_name_native_calls() {
    let t = Tvmate { platform: Platform::Mobile };
    let c = t.is_fullscreen();
    assert_eq!(c.method, "isFullscreen");
    assert_eq!(c.payload, PluginPayload::Empty);
    assert_eq!(t.exit_fullscreen().method, "exitFullscreen");
    let c = t.fullscreen(FullScreenRequest {});
    assert_eq!(c.method, "fullscreen");
    assert_eq!(c.payload, PluginPayload::FullScreen(FullScreenRequest {}));
}

#[test]
fn plugin_registers_its_commands() {
    let p = init();
    assert_eq!(p.name, "tvmate");
    assert_eq!(p.commands, vec!["fullscreen".to_string(), "share_url".to_string()]);
}

#[test]
fn shell_commands() {
    assert_eq!(greet("Ann"), "Hello, Ann! You've been greeted from Rust!");
    assert!(is_fullscreen::<String>(Ok(FullScreenResponse { is_fullscreen: true })));
    assert!(!is_fullscreen::<String>(Ok(FullScreenResponse { is_fullscreen: false })));
    assert!(!is_fullscreen::<String>(Err("no plugin".into())));
}

#[test]
fn managed_plugin_is_reached_through_the_extension() {
    let state = setup(Platform::Mobile);
    assert_eq!(state.tvmate().platform, Platform::Mobile);
    assert_eq!(state.tvmate().is_fullscreen().method, "isFullscreen");
    assert_eq!(setup(Platform::Desktop).tvmate().platform, Platform::Desktop);
}
