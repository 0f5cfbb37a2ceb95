use make_like::config::controls::{
    activate_gamepad, activate_mkb, ActionBinding, ActiveInput, GamepadEventKind, InputAction,
    InputBinding,
};
use make_like::states::app_state::{AppState, EditAppState};
use make_like::ui::splash::{spawn_splash, splash_animations, OnceTimer, SplashLogo};

#[test]
fn once_timer_reports_finish_once() {
    let mut t = OnceTimer::new(1500);
    t.tick(1000);
    assert!(!t.finished() && !t.just_finished);
    t.tick(1000);
    assert!(t.finished() && t.just_finished);
    assert_eq!(t.elapsed_ms, 1500);
    t.tick(10);
    assert!(t.finished() && !t.just_finished);
}

#[test]
fn splash_plays_both_logos_then_leaves() {
    let mut node = spawn_splash();
    assert!(!node.visible);
    assert_eq!(splash_animations(&mut node, 500), None);
    assert!(!node.visible);
    splash_animations(&mut node, 600);
    assert!(node.visible);
    assert_eq!(node.logo, SplashLogo::Studio);
    splash_animations(&mut node, 1500);
    assert!(!node.visible);
    assert_eq!(node.logo, SplashLogo::Engine);
    splash_animations(&mut node, 400);
    assert!(!node.visible);
    splash_animations(&mut node, 500);
    assert!(node.visible);
    assert_eq!(node.logo, SplashLogo::Engine);
    assert_eq!(splash_animations(&mut node, 1500), None);
    assert!(!node.visible);
    assert_eq!(
        splash_animations(&mut node, 1000),
        Some(EditAppState { desired_app_state: AppState::Title })
    );
}

#[test]
fn default_bindings() {
    let map = InputAction::default_input_map();
    assert_eq!(map.len(), 6);
    assert_eq!(map[0], ActionBinding { action: InputAction::Move, binding: InputBinding::LeftStick });
    assert_eq!(map[5], ActionBinding { action: InputAction::Select, binding: InputBinding::Space });
}

#[test]
fn device_switching() {
    assert_eq!(ActiveInput::default(), ActiveInput::MouseKeyboard);
    let mut next = None;
    activate_gamepad(&mut next, &vec![GamepadEventKind::Connection]);
    assert_eq!(next, None);
    activate_gamepad(&mut next, &vec![GamepadEventKind::Connection, GamepadEventKind::Axis]);
    assert_eq!(next, Some(ActiveInput::Gamepad));
    let mut next = None;
    activate_mkb(&mut next, 0);
    assert_eq!(next, None);
    activate_mkb(&mut next, 2);
    assert_eq!(next, Some(ActiveInput::MouseKeyboard));
}
