use gosub_vello::{
    accepts_event, chars_of, contains_chars, intermediate_texture, lowercase_chars, pick_adapter_by_name,
    pick_adapter_lowered, plan_frame, renderer_conf, search_step, select_surface_format, supports_method,
    surface_config, unknown_adapter_message, AaConfig, AaSupport, CompositeAlphaMode, PowerPreference, PresentMode,
    RenderConfig, RenderError, RendererOptions, Rgba8, SearchAction, SearchEvent, SearchPhase, SurfaceState,
    TextureDimension, TextureFormat,
};

fn chars(s: &str) -> Vec<char> {
    s.chars().collect()
}

fn names(list: &[&str]) -> Vec<String> {
    list.iter().map(|s| s.to_string()).collect()
}

fn config(adapter: Option<&str>, crash: bool) -> RenderConfig {
    RenderConfig {
        power_preference: PowerPreference::HighPerformance,
        adapter: adapter.map(|s| s.to_string()),
        crash_on_invalid_adapter: crash,
    }
}

#[test]
fn default_power_preference_is_no_preference() {
    assert_eq!(PowerPreference::default(), PowerPreference::NoPreference);
}

#[test]
fn options_from_environment_never_crash() {
    let opts = RendererOptions::from_environment(Some(PowerPreference::LowPower), Some("intel".to_string()));
    assert_eq!(opts.power_preference, Some(PowerPreference::LowPower));
    assert_eq!(opts.adapter.as_deref(), Some("intel"));
    assert!(!opts.crash_on_invalid_adapter);
}

#[test]
fn given_power_preference_wins() {
    let opts = RendererOptions {
        power_preference: Some(PowerPreference::LowPower),
        adapter: None,
        crash_on_invalid_adapter: true,
    };
    let c = RenderConfig::from_options(opts, Some(PowerPreference::HighPerformance));
    assert_eq!(c.power_preference, PowerPreference::LowPower);
    assert!(c.adapter.is_none());
    assert!(c.crash_on_invalid_adapter);
}

#[test]
fn environment_power_preference_is_second() {
    let opts = RendererOptions::from_environment(None, Some("amd".to_string()));
    let c = RenderConfig::from_options(opts, Some(PowerPreference::HighPerformance));
    assert_eq!(c.power_preference, PowerPreference::HighPerformance);
    assert_eq!(c.adapter.as_deref(), Some("amd"));
}

#[test]
fn no_power_preference_anywhere_gives_default() {
    let opts = RendererOptions::from_environment(None, None);
    let c = RenderConfig::from_options(opts, None);
    assert_eq!(c.power_preference, PowerPreference::NoPreference);
}

#[test]
fn chars_of_keeps_every_character() {
    assert_eq!(chars_of("añb€"), vec!['a', 'ñ', 'b', '€']);
    assert!(chars_of("").is_empty());
}

#[test]
fn lowercase_ascii() {
    assert_eq!(lowercase_chars("NVIDIA GeForce RTX 3080"), chars("nvidia geforce rtx 3080"));
}

#[test]
fn lowercase_unicode() {
    assert_eq!(lowercase_chars("ὈΔΥΣΣΕΎΣ"), chars("ὀδυσσεύς"));
    assert_eq!(lowercase_chars("already lower"), chars("already lower"));
}

#[test]
fn contains_cases() {
    assert!(contains_chars(&chars("llvmpipe (llvm 15)"), &chars("pipe")));
    assert!(contains_chars(&chars("abc"), &chars("")));
    assert!(contains_chars(&chars(""), &chars("")));
    assert!(contains_chars(&chars("abc"), &chars("abc")));
    assert!(!contains_chars(&chars("abc"), &chars("abcd")));
    assert!(!contains_chars(&chars("aab"), &chars("ba")));
    assert!(contains_chars(&chars("aaab"), &chars("aab")));
}

#[test]
fn pick_lowered_first_match() {
    let hays = vec![chars("intel"), chars("nvidia a"), chars("nvidia b")];
    assert_eq!(pick_adapter_lowered(&hays, &chars("nvidia")), Some(1));
    assert_eq!(pick_adapter_lowered(&hays, &chars("amd")), None);
    assert_eq!(pick_adapter_lowered(&hays, &chars("NVIDIA")), None);
    assert_eq!(pick_adapter_lowered(&Vec::new(), &chars("")), None);
}

#[test]
fn pick_by_name_ignores_case() {
    let list = names(&["Intel(R) UHD Graphics 630", "NVIDIA GeForce RTX 3080", "llvmpipe"]);
    assert_eq!(pick_adapter_by_name(&list, "geforce"), Some(1));
    assert_eq!(pick_adapter_by_name(&list, "INTEL"), Some(0));
    assert_eq!(pick_adapter_by_name(&list, "LLVMPipe"), Some(2));
    assert_eq!(pick_adapter_by_name(&list, "radeon"), None);
    assert_eq!(pick_adapter_by_name(&list, ""), Some(0));
    assert_eq!(pick_adapter_by_name(&Vec::new(), "intel"), None);
}

fn run(c: &RenderConfig, list: &[&str], primary: bool, fallback: bool) -> (SearchAction, Vec<SearchAction>) {
    let mut phase = SearchPhase::Start;
    let mut event = SearchEvent::Begin;
    let mut actions = Vec::new();
    loop {
        assert!(accepts_event(c, phase, &event));
        let (next, action) = search_step(c, phase, &event);
        actions.push(action);
        if next == SearchPhase::Done {
            return (action, actions);
        }
        event = match action {
            SearchAction::ListAdapters => SearchEvent::Listed(names(list)),
            SearchAction::RequestAdapter { force_fallback, .. } => {
                SearchEvent::Requested(if force_fallback { fallback } else { primary })
            }
            _ => panic!("unexpected action"),
        };
        phase = next;
    }
}

#[test]
fn search_without_name_takes_requested() {
    let c = config(None, false);
    let (end, actions) = run(&c, &["gpu"], true, false);
    assert_eq!(end, SearchAction::UseRequested);
    assert_eq!(
        actions,
        vec![
            SearchAction::RequestAdapter { power_preference: PowerPreference::HighPerformance, force_fallback: false },
            SearchAction::UseRequested,
        ]
    );
}

#[test]
fn search_falls_back() {
    let c = config(None, false);
    let (end, actions) = run(&c, &[], false, true);
    assert_eq!(end, SearchAction::UseRequested);
    assert_eq!(
        actions[1],
        SearchAction::RequestAdapter { power_preference: PowerPreference::HighPerformance, force_fallback: true }
    );
    assert_eq!(actions.len(), 3);
}

#[test]
fn search_fails_without_any_adapter() {
    let c = config(None, false);
    let (end, _) = run(&c, &[], false, false);
    assert_eq!(end, SearchAction::FailNoAdapter);
    assert_eq!(RenderError::NoAdapter.message(), "No adapter found");
}

#[test]
fn search_by_name_uses_listed() {
    let c = config(Some("GeForce"), true);
    let (end, actions) = run(&c, &["Intel UHD", "NVIDIA GeForce"], false, false);
    assert_eq!(end, SearchAction::UseListed(1));
    assert_eq!(actions[0], SearchAction::ListAdapters);
    assert_eq!(actions.len(), 2);
}

#[test]
fn search_unknown_name_exits_when_asked() {
    let c = config(Some("Radeon"), true);
    let (end, actions) = run(&c, &["Intel UHD"], true, true);
    assert_eq!(end, SearchAction::ExitUnknownAdapter);
    assert_eq!(actions.len(), 2);
    assert_eq!(unknown_adapter_message(&c), "No adapter found with name: radeon");
}

#[test]
fn search_unknown_name_requests_otherwise() {
    let c = config(Some("Radeon"), false);
    let (end, actions) = run(&c, &["Intel UHD"], true, true);
    assert_eq!(end, SearchAction::UseRequested);
    assert_eq!(actions[0], SearchAction::ListAdapters);
    assert_eq!(
        actions[1],
        SearchAction::RequestAdapter { power_preference: PowerPreference::HighPerformance, force_fallback: false }
    );
}

#[test]
fn search_rejects_unexpected_events() {
    let c = config(None, false);
    assert!(!accepts_event(&c, SearchPhase::Start, &SearchEvent::Requested(true)));
    assert!(!accepts_event(&c, SearchPhase::ByName, &SearchEvent::Listed(Vec::new())));
    assert!(!accepts_event(&c, SearchPhase::Done, &SearchEvent::Begin));
    assert!(accepts_event(&c, SearchPhase::Fallback, &SearchEvent::Requested(false)));
}

#[test]
fn surface_format_first_presentable() {
    let (rgba, bgra, other) = (TextureFormat::Rgba8Unorm, TextureFormat::Bgra8Unorm, TextureFormat::Other);
    assert_eq!(select_surface_format(&vec![other, bgra, rgba]), Ok(bgra));
    assert_eq!(select_surface_format(&vec![rgba, bgra]), Ok(rgba));
    assert_eq!(select_surface_format(&vec![other]), Err(RenderError::UnsupportedSurfaceFormat));
    assert_eq!(select_surface_format(&Vec::new()), Err(RenderError::UnsupportedSurfaceFormat));
    assert_eq!(
        RenderError::UnsupportedSurfaceFormat.message(),
        "surface should support Rgba8Unorm or Bgra8Unorm"
    );
}

#[test]
fn surface_config_fields() {
    let c = surface_config(TextureFormat::Bgra8Unorm, 800, 600, PresentMode::Fifo);
    assert!(c.usage.render_attachment);
    assert!(!c.usage.texture_binding && !c.usage.storage_binding && !c.usage.copy_src);
    assert_eq!(c.format, TextureFormat::Bgra8Unorm);
    assert_eq!((c.width, c.height), (800, 600));
    assert_eq!(c.present_mode, PresentMode::Fifo);
    assert_eq!(c.desired_maximum_frame_latency, 2);
    assert_eq!(c.alpha_mode, CompositeAlphaMode::Auto);
    assert!(c.view_formats.is_empty());
}

#[test]
fn intermediate_texture_fields() {
    let t = intermediate_texture(1024, 768);
    assert_eq!((t.width, t.height, t.depth_or_array_layers), (1024, 768, 1));
    assert_eq!((t.mip_level_count, t.sample_count), (1, 1));
    assert_eq!(t.dimension, TextureDimension::D2);
    assert_eq!(t.format, TextureFormat::Rgba8Unorm);
    assert!(t.usage.storage_binding && t.usage.texture_binding);
    assert!(!t.usage.render_attachment && !t.usage.copy_dst);
}

#[test]
fn window_surface_and_resize() {
    let formats = vec![TextureFormat::Other, TextureFormat::Rgba8Unorm];
    let mut s = SurfaceState::plan(&formats, 640, 480, PresentMode::AutoVsync).unwrap();
    assert_eq!(s.config().present_mode, PresentMode::AutoVsync);
    assert_eq!(s.config().format, TextureFormat::Rgba8Unorm);
    assert_eq!(s.target(), intermediate_texture(640, 480));
    s.resize(1920, 1080);
    assert_eq!((s.config().width, s.config().height), (1920, 1080));
    assert_eq!(s.config().format, TextureFormat::Rgba8Unorm);
    assert_eq!(s.config().present_mode, PresentMode::AutoVsync);
    assert_eq!(s.target(), intermediate_texture(1920, 1080));
    s.resize(1920, 1080);
    assert_eq!(s.target(), intermediate_texture(1920, 1080));
}

#[test]
fn plan_fails_without_presentable_format() {
    let r = SurfaceState::plan(&vec![TextureFormat::Other], 10, 10, PresentMode::Mailbox);
    assert!(matches!(r, Err(RenderError::UnsupportedSurfaceFormat)));
}

#[test]
fn renderer_conf_values() {
    let c = renderer_conf();
    assert!(!c.use_cpu);
    assert_eq!(c.antialiasing_support, AaSupport { area: true, msaa8: true, msaa16: true });
    assert_eq!(c.num_init_threads, Some(1));
    assert!(!c.use_pipeline_cache);
}

#[test]
fn frame_plan_follows_surface() {
    let mut s = SurfaceState::plan(&vec![TextureFormat::Bgra8Unorm], 300, 200, PresentMode::Immediate).unwrap();
    let p = plan_frame(&s);
    assert_eq!(p.base_color, Rgba8 { r: 255, g: 255, b: 255, a: 255 });
    assert_eq!((p.width, p.height), (300, 200));
    assert_eq!(p.antialiasing, AaConfig::Msaa16);
    assert_eq!(p.target, intermediate_texture(300, 200));
    assert_eq!(p.blit_format, TextureFormat::Bgra8Unorm);
    assert!(supports_method(renderer_conf().antialiasing_support, p.antialiasing));
    s.resize(50, 60);
    let p = plan_frame(&s);
    assert_eq!((p.width, p.height), (50, 60));
    assert_eq!(p.target, s.target());
}

#[test]
fn supports_method_cases() {
    let only_area = AaSupport { area: true, msaa8: false, msaa16: false };
    assert!(supports_method(only_area, AaConfig::Area));
    assert!(!supports_method(only_area, AaConfig::Msaa8));
    assert!(!supports_method(only_area, AaConfig::Msaa16));
}
