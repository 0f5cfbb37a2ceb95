use make_like::config::windows::{
    emit_edit_resolution, handle_edit_framerate, handle_edit_fullscreen, handle_edit_msaa,
    handle_edit_resolution, handle_edit_vsync, make_visible, setup_window, AspectRatio,
    EditFramerate, EditFullscreen, EditMsaa, EditResolution, EditVsync, FramerateSettings,
    Limiter, Msaa, PresentMode, Resolution, ResolutionSettings, WindowConfig, WindowMode,
};

fn res(width: u32, height: u32) -> Resolution {
    Resolution { width, height }
}

fn window() -> WindowConfig {
    WindowConfig {
        title: String::new(),
        resolution: res(800, 600),
        present_mode: PresentMode::Fifo,
        mode: WindowMode::Windowed,
        resizable: true,
        visible: false,
        scale_factor_override: None,
    }
}

const CYCLE: [(u32, u32); 17] = [
    (1024, 768),
    (1280, 1024),
    (1280, 720),
    (1280, 800),
    (1360, 768),
    (1366, 768),
    (1440, 900),
    (1600, 900),
    (1680, 1050),
    (1920, 1200),
    (1920, 1080),
    (2560, 1440),
    (2560, 1600),
    (2560, 1080),
    (2880, 1800),
    (3440, 1440),
    (3840, 2160),
];

#[test]
fn resolution_key_steps_to_next_preset() {
    let settings = ResolutionSettings::default();
    assert_eq!(
        emit_edit_resolution(true, res(1024, 768), &settings),
        Some(EditResolution { resolution: res(1280, 1024), aspect_ratio: AspectRatio::_5_4 })
    );
    assert_eq!(
        emit_edit_resolution(true, res(2560, 1600), &settings),
        Some(EditResolution { resolution: res(2560, 1080), aspect_ratio: AspectRatio::_21_9 })
    );
    assert_eq!(
        emit_edit_resolution(true, res(3840, 2160), &settings),
        Some(EditResolution { resolution: res(1024, 768), aspect_ratio: AspectRatio::_4_3 })
    );
    assert_eq!(
        emit_edit_resolution(true, res(1280, 720), &settings),
        Some(EditResolution { resolution: res(1280, 800), aspect_ratio: AspectRatio::_8_5 })
    );
}

#[test]
fn resolution_key_ignores_unknown_sizes_and_idle_frames() {
    let settings = ResolutionSettings::default();
    assert_eq!(emit_edit_resolution(true, res(800, 600), &settings), None);
    assert_eq!(emit_edit_resolution(false, res(1024, 768), &settings), None);
}

#[test]
fn resolution_cycle_returns_after_seventeen_presses() {
    let settings = ResolutionSettings::default();
    for (w, h) in CYCLE {
        let start = res(w, h);
        let mut current = start;
        for press in 1..=17 {
            let edit = emit_edit_resolution(true, current, &settings).expect("preset");
            current = edit.resolution;
            if press < 17 {
                assert_ne!(current, start);
            }
        }
        assert_eq!(current, start);
    }
}

#[test]
fn resolution_key_uses_configured_presets() {
    let mut settings = ResolutionSettings::default();
    settings._1280_1024 = res(1000, 800);
    assert_eq!(
        emit_edit_resolution(true, res(1024, 768), &settings),
        Some(EditResolution { resolution: res(1000, 800), aspect_ratio: AspectRatio::_5_4 })
    );
}

#[test]
fn window_setup_and_visibility() {
    let settings = ResolutionSettings::default();
    let mut w = window();
    let mut limiter = Limiter::Off;
    setup_window(&mut w, &settings, &mut limiter);
    assert_eq!(w.title, "Make Like");
    assert_eq!(w.present_mode, PresentMode::AutoVsync);
    assert!(!w.resizable);
    assert_eq!(w.resolution, res(2560, 1440));
    assert_eq!(w.scale_factor_override, Some(1));
    assert_eq!(limiter, Limiter::Auto);
    make_visible(&mut w, 2);
    assert!(!w.visible);
    make_visible(&mut w, 3);
    assert!(w.visible);
    make_visible(&mut w, 4);
    assert!(w.visible);
}

#[test]
fn resize_requests_last_one_stays() {
    let mut w = window();
    handle_edit_resolution(&mut w, &vec![]);
    assert_eq!(w.resolution, res(800, 600));
    let edits = vec![
        EditResolution { resolution: res(1280, 720), aspect_ratio: AspectRatio::_16_9 },
        EditResolution { resolution: res(1440, 900), aspect_ratio: AspectRatio::_8_5 },
    ];
    handle_edit_resolution(&mut w, &edits);
    assert_eq!(w.resolution, res(1440, 900));
}

#[test]
fn vsync_and_fullscreen_toggle() {
    let mut w = window();
    handle_edit_vsync(&mut w, &vec![EditVsync]);
    assert_eq!(w.present_mode, PresentMode::AutoVsync);
    handle_edit_vsync(&mut w, &vec![EditVsync]);
    assert_eq!(w.present_mode, PresentMode::AutoNoVsync);
    handle_edit_vsync(&mut w, &vec![EditVsync, EditVsync]);
    assert_eq!(w.present_mode, PresentMode::AutoNoVsync);
    handle_edit_fullscreen(&mut w, &vec![EditFullscreen]);
    assert_eq!(w.mode, WindowMode::BorderlessFullscreen);
    handle_edit_fullscreen(&mut w, &vec![EditFullscreen]);
    assert_eq!(w.mode, WindowMode::Windowed);
    w.mode = WindowMode::Fullscreen;
    handle_edit_fullscreen(&mut w, &vec![EditFullscreen]);
    assert_eq!(w.mode, WindowMode::BorderlessFullscreen);
}

#[test]
fn msaa_steps_through_levels() {
    assert_eq!(Msaa::Off.samples(), 1);
    assert_eq!(Msaa::Sample8.samples(), 8);
    assert_eq!(handle_edit_msaa(Msaa::Off, &vec![EditMsaa]), Some(Msaa::Sample2));
    assert_eq!(handle_edit_msaa(Msaa::Sample2, &vec![EditMsaa]), Some(Msaa::Sample4));
    assert_eq!(handle_edit_msaa(Msaa::Sample4, &vec![EditMsaa, EditMsaa]), Some(Msaa::Sample8));
    assert_eq!(handle_edit_msaa(Msaa::Sample8, &vec![EditMsaa]), Some(Msaa::Off));
    assert_eq!(handle_edit_msaa(Msaa::Sample8, &vec![]), None);
}

#[test]
fn framerate_limiter_cycles_unless_vsync() {
    let settings = FramerateSettings::default();
    assert_eq!(settings.manual_fps, 60);
    let mut limiter = Limiter::Auto;
    handle_edit_framerate(PresentMode::AutoVsync, &mut limiter, &settings, &vec![EditFramerate]);
    assert_eq!(limiter, Limiter::Auto);
    handle_edit_framerate(PresentMode::AutoNoVsync, &mut limiter, &settings, &vec![EditFramerate]);
    assert_eq!(limiter, Limiter::Manual(60));
    handle_edit_framerate(PresentMode::AutoNoVsync, &mut limiter, &settings, &vec![EditFramerate]);
    assert_eq!(limiter, Limiter::Off);
    handle_edit_framerate(
        PresentMode::Immediate,
        &mut limiter,
        &settings,
        &vec![EditFramerate, EditFramerate],
    );
    assert_eq!(limiter, Limiter::Manual(60));
}
