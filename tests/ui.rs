use make_like::states::app_state::AppState;
use make_like::states::options_state::OptionsState;
use make_like::states::profile_state::ProfileState;
use make_like::ui::credits::{self, spawn_credits, CreditsElement};
use make_like::ui::gameover::{self, spawn_gameover, GameoverElement};
use make_like::ui::loadsave::{self, spawn_loadsave, LoadSaveElement};
use make_like::ui::options_audio::{self, spawn_audio_options};
use make_like::ui::options_menu::{self, spawn_options_menu, OptionsMenuElement};
use make_like::ui::title::{self, spawn_title, TitleElement};
use make_like::ui::ui_manager::{
    direction_from_axis, focused_navigation, handle_ui_navigation, InitialUiFocus, NavDirection,
    UiElement, UiNode, UiRequests, UiSelection,
};

fn focused(nodes: &[UiNode]) -> Vec<UiElement> {
    nodes.iter().filter(|n| n.focusable.is_focused).map(|n| n.navigation.self_id).collect()
}

fn requests(
    app_state: Option<AppState>,
    options_state: Option<OptionsState>,
    profile_state: Option<ProfileState>,
    exit: bool,
) -> UiSelection {
    UiSelection::Requests(UiRequests { app_state, options_state, profile_state, exit })
}

#[test]
fn axis_thresholds_pick_directions() {
    assert_eq!(direction_from_axis(0, 1000), Some(NavDirection::Up));
    assert_eq!(direction_from_axis(0, -900), Some(NavDirection::Down));
    assert_eq!(direction_from_axis(-851, 0), Some(NavDirection::Left));
    assert_eq!(direction_from_axis(851, 0), Some(NavDirection::Right));
    assert_eq!(direction_from_axis(850, 850), None);
    assert_eq!(direction_from_axis(1000, 1000), Some(NavDirection::Up));
}

#[test]
fn title_screen_layout() {
    let initial = InitialUiFocus::default();
    let nodes = spawn_title(&initial);
    assert_eq!(nodes.len(), 4);
    assert_eq!(focused(&nodes), vec![UiElement::Title(TitleElement::Play)]);
    assert_eq!(nodes[0].navigation.up, UiElement::Title(TitleElement::Quit));
    assert_eq!(nodes[3].navigation.down, UiElement::Title(TitleElement::Play));
    let mut remembered = initial;
    remembered.title = TitleElement::Credits;
    assert_eq!(focused(&spawn_title(&remembered)), vec![UiElement::Title(TitleElement::Credits)]);
}

#[test]
fn navigation_moves_focus_along_the_graph() {
    let mut nodes = spawn_title(&InitialUiFocus::default());
    handle_ui_navigation(true, Some(NavDirection::Down), &mut nodes);
    assert_eq!(focused(&nodes), vec![UiElement::Title(TitleElement::Options)]);
    handle_ui_navigation(true, Some(NavDirection::Up), &mut nodes);
    handle_ui_navigation(true, Some(NavDirection::Up), &mut nodes);
    assert_eq!(focused(&nodes), vec![UiElement::Title(TitleElement::Quit)]);
}

#[test]
fn navigation_without_neighbour_or_input_keeps_focus() {
    let mut nodes = spawn_title(&InitialUiFocus::default());
    let before = nodes.clone();
    handle_ui_navigation(true, Some(NavDirection::Left), &mut nodes);
    assert_eq!(nodes, before);
    handle_ui_navigation(true, None, &mut nodes);
    assert_eq!(nodes, before);
    handle_ui_navigation(false, Some(NavDirection::Down), &mut nodes);
    assert_eq!(nodes, before);
    let mut single = spawn_credits(&InitialUiFocus::default());
    let before = single.clone();
    handle_ui_navigation(true, Some(NavDirection::Up), &mut single);
    assert_eq!(single, before);
}

#[test]
fn navigation_keeps_exactly_one_focus_on_every_screen() {
    let initial = InitialUiFocus::default();
    let screens = vec![
        spawn_title(&initial),
        spawn_loadsave(&initial),
        spawn_options_menu(&initial),
        spawn_gameover(&initial),
        spawn_credits(&initial),
        spawn_audio_options(&initial),
    ];
    let moves = [
        NavDirection::Down,
        NavDirection::Down,
        NavDirection::Left,
        NavDirection::Up,
        NavDirection::Right,
        NavDirection::Down,
        NavDirection::Up,
        NavDirection::Up,
        NavDirection::Up,
    ];
    for mut nodes in screens {
        for d in moves {
            handle_ui_navigation(true, Some(d), &mut nodes);
            assert_eq!(focused(&nodes).len(), 1);
        }
    }
}

#[test]
fn navigation_to_missing_button_keeps_focus() {
    let mut nodes = spawn_title(&InitialUiFocus::default());
    nodes.truncate(3);
    nodes[2].focusable.is_focused = true;
    nodes[0].focusable.is_focused = false;
    let before = nodes.clone();
    handle_ui_navigation(true, Some(NavDirection::Down), &mut nodes);
    assert_eq!(nodes, before);
    assert_eq!(focused(&nodes), vec![UiElement::Title(TitleElement::Credits)]);
    let mut single = spawn_credits(&InitialUiFocus::default());
    single[0].navigation.up = UiElement::Title(TitleElement::Play);
    handle_ui_navigation(true, Some(NavDirection::Up), &mut single);
    assert_eq!(focused(&single), vec![UiElement::Credits(CreditsElement::Back)]);
}

#[test]
fn title_selection_requests() {
    let mut initial = InitialUiFocus::default();
    let mut nodes = spawn_title(&initial);
    assert_eq!(title::handle_ui_selection(false, &nodes, &mut initial), UiSelection::Idle);
    assert_eq!(
        title::handle_ui_selection(true, &nodes, &mut initial),
        requests(Some(AppState::LoadSave), None, None, false)
    );
    handle_ui_navigation(true, Some(NavDirection::Down), &mut nodes);
    assert_eq!(
        title::handle_ui_selection(true, &nodes, &mut initial),
        requests(Some(AppState::Options), None, None, false)
    );
    assert_eq!(initial.title, TitleElement::Options);
    handle_ui_navigation(true, Some(NavDirection::Down), &mut nodes);
    handle_ui_navigation(true, Some(NavDirection::Down), &mut nodes);
    assert_eq!(
        title::handle_ui_selection(true, &nodes, &mut initial),
        requests(None, None, None, true)
    );
    assert_eq!(initial.title, TitleElement::Options);
}

#[test]
fn selection_on_foreign_screen_is_reported() {
    let mut initial = InitialUiFocus::default();
    let nodes = spawn_credits(&initial);
    let before = initial;
    match title::handle_ui_selection(true, &nodes, &mut initial) {
        UiSelection::Unexpected(nav) => {
            assert_eq!(nav.self_id, UiElement::Credits(CreditsElement::Back))
        }
        other => panic!("unexpected {:?}", other),
    }
    assert_eq!(initial, before);
    let mut unfocused = nodes.clone();
    unfocused[0].focusable.is_focused = false;
    assert_eq!(focused_navigation(&unfocused), None);
    assert_eq!(credits::handle_ui_selection(true, &unfocused, &mut initial), UiSelection::Idle);
}

#[test]
fn loadsave_selection_picks_profile() {
    let mut initial = InitialUiFocus::default();
    let mut nodes = spawn_loadsave(&initial);
    handle_ui_navigation(true, Some(NavDirection::Down), &mut nodes);
    handle_ui_navigation(true, Some(NavDirection::Down), &mut nodes);
    assert_eq!(
        loadsave::handle_ui_selection(true, &nodes, &mut initial),
        requests(Some(AppState::Game), None, Some(ProfileState::Profile3), false)
    );
    assert_eq!(initial.loadsave, LoadSaveElement::Profile3);
    let mut nodes = spawn_loadsave(&initial);
    handle_ui_navigation(true, Some(NavDirection::Down), &mut nodes);
    handle_ui_navigation(true, Some(NavDirection::Down), &mut nodes);
    assert_eq!(
        loadsave::handle_ui_selection(true, &nodes, &mut initial),
        requests(Some(AppState::Title), None, None, false)
    );
    assert_eq!(initial.loadsave, LoadSaveElement::Profile1);
}

#[test]
fn options_menu_back_closes_options() {
    let mut initial = InitialUiFocus::default();
    let mut nodes = spawn_options_menu(&initial);
    handle_ui_navigation(true, Some(NavDirection::Up), &mut nodes);
    assert_eq!(
        options_menu::handle_ui_selection(true, &nodes, &mut initial),
        requests(Some(AppState::Title), Some(OptionsState::Closed), None, false)
    );
    assert_eq!(initial.options_menu, OptionsMenuElement::General);
    handle_ui_navigation(true, Some(NavDirection::Up), &mut nodes);
    assert_eq!(
        options_menu::handle_ui_selection(true, &nodes, &mut initial),
        requests(None, Some(OptionsState::Video), None, false)
    );
    assert_eq!(initial.options_menu, OptionsMenuElement::Video);
}

#[test]
fn sub_screens_return_to_menu() {
    let mut initial = InitialUiFocus::default();
    let nodes = spawn_audio_options(&initial);
    assert_eq!(
        options_audio::handle_ui_selection(true, &nodes, &mut initial),
        requests(None, Some(OptionsState::Menu), None, false)
    );
    let nodes = spawn_gameover(&initial);
    assert_eq!(
        gameover::handle_ui_selection(true, &nodes, &mut initial),
        requests(Some(AppState::Game), None, None, false)
    );
    let mut nodes = spawn_gameover(&initial);
    handle_ui_navigation(true, Some(NavDirection::Down), &mut nodes);
    assert_eq!(
        gameover::handle_ui_selection(true, &nodes, &mut initial),
        requests(Some(AppState::Title), None, None, false)
    );
    assert_eq!(initial.gameover, GameoverElement::Game);
}
