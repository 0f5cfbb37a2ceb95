use vstd::prelude::*;

use crate::states::app_state::AppState;
use crate::states::profile_state::ProfileState;
use crate::ui::ui_manager::{
    focused_navigation, lemma_screen_nodes_single_focus, nav, requests, screen_nodes, selected,
    single_focus, well_formed_screen, InitialUiFocus, UiElement, UiFocusable, UiNavigation, UiNode,
    UiRequests, UiSelection,
};

verus! {

/// The buttons of the profile selection screen.
#[derive(Clone, Copy, Debug, PartialEq, Eq, Hash, Structural)]
pub enum LoadSaveElement {
    Profile1,
    Profile2,
    Profile3,
    Profile4,
    Back,
}

/// The navigation records of the profile selection screen's buttons, in spawn order.
pub open spec fn loadsave_navigation() -> Seq<UiNavigation> {
    seq![
        nav(
            UiElement::LoadSave(LoadSaveElement::Profile1),
            UiElement::LoadSave(LoadSaveElement::Back),
            UiElement::LoadSave(LoadSaveElement::Profile2),
            UiElement::Null,
            UiElement::Null,
        ),
        nav(
            UiElement::LoadSave(LoadSaveElement::Profile2),
            UiElement::LoadSave(LoadSaveElement::Profile1),
            UiElement::LoadSave(LoadSaveElement::Profile3),
            UiElement::Null,
            UiElement::Null,
        ),
        nav(
            UiElement::LoadSave(LoadSaveElement::Profile3),
            UiElement::LoadSave(LoadSaveElement::Profile2),
            UiElement::LoadSave(LoadSaveElement::Profile4),
            UiElement::Null,
            UiElement::Null,
        ),
        nav(
            UiElement::LoadSave(LoadSaveElement::Profile4),
            UiElement::LoadSave(LoadSaveElement::Profile3),
            UiElement::LoadSave(LoadSaveElement::Back),
            UiElement::Null,
            UiElement::Null,
        ),
        nav(
            UiElement::LoadSave(LoadSaveElement::Back),
            UiElement::LoadSave(LoadSaveElement::Profile4),
            UiElement::LoadSave(LoadSaveElement::Profile1),
            UiElement::Null,
            UiElement::Null,
        ),
    ]
}

/// The spawn position of each button.
pub open spec fn loadsave_position(element: LoadSaveElement) -> int {
    match element {
        LoadSaveElement::Profile1 => 0,
        LoadSaveElement::Profile2 => 1,
        LoadSaveElement::Profile3 => 2,
        LoadSaveElement::Profile4 => 3,
        LoadSaveElement::Back => 4,
    }
}

/// The buttons of the profile selection screen, the remembered one focused.
pub fn spawn_loadsave(initial_focus: &InitialUiFocus) -> (r: Vec<UiNode>)
    ensures
        r@ == screen_nodes(loadsave_navigation(), loadsave_position(initial_focus.loadsave)),
        well_formed_screen(r@),
        single_focus(r@),
{
    let focus: usize = match initial_focus.loadsave {
        LoadSaveElement::Profile1 => 0,
        LoadSaveElement::Profile2 => 1,
        LoadSaveElement::Profile3 => 2,
        LoadSaveElement::Profile4 => 3,
        LoadSaveElement::Back => 4,
    };
    let r = vec![
        UiNode {
            navigation: UiNavigation {
                self_id: UiElement::LoadSave(LoadSaveElement::Profile1),
                up: UiElement::LoadSave(LoadSaveElement::Back),
                down: UiElement::LoadSave(LoadSaveElement::Profile2),
                left: UiElement::Null,
                right: UiElement::Null,
            },
            focusable: UiFocusable { is_focused: focus == 0 },
        },
        UiNode {
            navigation: UiNavigation {
                self_id: UiElement::LoadSave(LoadSaveElement::Profile2),
                up: UiElement::LoadSave(LoadSaveElement::Profile1),
                down: UiElement::LoadSave(LoadSaveElement::Profile3),
                left: UiElement::Null,
                right: UiElement::Null,
            },
            focusable: UiFocusable { is_focused: focus == 1 },
        },
        UiNode {
            navigation: UiNavigation {
                self_id: UiElement::LoadSave(LoadSaveElement::Profile3),
                up: UiElement::LoadSave(LoadSaveElement::Profile2),
                down: UiElement::LoadSave(LoadSaveElement::Profile4),
                left: UiElement::Null,
                right: UiElement::Null,
            },
            focusable: UiFocusable { is_focused: focus == 2 },
        },
        UiNode {
            navigation: UiNavigation {
                self_id: UiElement::LoadSave(LoadSaveElement::Profile4),
                up: UiElement::LoadSave(LoadSaveElement::Profile3),
                down: UiElement::LoadSave(LoadSaveElement::Back),
                left: UiElement::Null,
                right: UiElement::Null,
            },
            focusable: UiFocusable { is_focused: focus == 3 },
        },
        UiNode {
            navigation: UiNavigation {
                self_id: UiElement::LoadSave(LoadSaveElement::Back),
                up: UiElement::LoadSave(LoadSaveElement::Profile4),
                down: UiElement::LoadSave(LoadSaveElement::Profile1),
                left: UiElement::Null,
                right: UiElement::Null,
            },
            focusable: UiFocusable { is_focused: focus == 4 },
        },
    ];
    proof {
        assert(r@ =~= screen_nodes(loadsave_navigation(), focus as int));
        lemma_screen_nodes_single_focus(loadsave_navigation(), focus as int);
        reveal(well_formed_screen);
    }
    r
}

/// What selecting the button `navigation` does on the profile selection screen, and the
/// button the screen will focus when it is next shown.
pub open spec fn loadsave_selected(navigation: UiNavigation, initial: InitialUiFocus) -> (
    UiSelection,
    InitialUiFocus,
) {
    match navigation.self_id {
        UiElement::LoadSave(LoadSaveElement::Profile1) => (
            requests(Some(AppState::Game), None, Some(ProfileState::Profile1), false),
            InitialUiFocus { loadsave: LoadSaveElement::Profile1, ..initial },
        ),
        UiElement::LoadSave(LoadSaveElement::Profile2) => (
            requests(Some(AppState::Game), None, Some(ProfileState::Profile2), false),
            InitialUiFocus { loadsave: LoadSaveElement::Profile2, ..initial },
        ),
        UiElement::LoadSave(LoadSaveElement::Profile3) => (
            requests(Some(AppState::Game), None, Some(ProfileState::Profile3), false),
            InitialUiFocus { loadsave: LoadSaveElement::Profile3, ..initial },
        ),
        UiElement::LoadSave(LoadSaveElement::Profile4) => (
            requests(Some(AppState::Game), None, Some(ProfileState::Profile4), false),
            InitialUiFocus { loadsave: LoadSaveElement::Profile4, ..initial },
        ),
        UiElement::LoadSave(LoadSaveElement::Back) => (
            requests(Some(AppState::Title), None, None, false),
            InitialUiFocus { loadsave: LoadSaveElement::Profile1, ..initial },
        ),
        _ => (UiSelection::Unexpected(navigation), initial),
    }
}

/// On a fresh select input, carries out the focused button of the profile selection screen.
pub fn handle_ui_selection(
    select_just_pressed: bool,
    nodes: &Vec<UiNode>,
    initial_focus: &mut InitialUiFocus,
) -> (r: UiSelection)
    ensures
        (r, *final(initial_focus)) == (match selected(select_just_pressed, nodes@) {
            Some(navigation) => loadsave_selected(navigation, *old(initial_focus)),
            None => (UiSelection::Idle, *old(initial_focus)),
        }),
{
    if !select_just_pressed {
        return UiSelection::Idle;
    }
    match focused_navigation(nodes) {
        None => UiSelection::Idle,
        Some(navigation) => match navigation.self_id {
            UiElement::LoadSave(element) => match element {
                LoadSaveElement::Profile1 => {
                    initial_focus.loadsave = LoadSaveElement::Profile1;
                    UiSelection::Requests(UiRequests {
                        app_state: Some(AppState::Game),
                        options_state: None,
                        profile_state: Some(ProfileState::Profile1),
                        exit: false,
                    })
                },
                LoadSaveElement::Profile2 => {
                    initial_focus.loadsave = LoadSaveElement::Profile2;
                    UiSelection::Requests(UiRequests {
                        app_state: Some(AppState::Game),
                        options_state: None,
                        profile_state: Some(ProfileState::Profile2),
                        exit: false,
                    })
                },
                LoadSaveElement::Profile3 => {
                    initial_focus.loadsave = LoadSaveElement::Profile3;
                    UiSelection::Requests(UiRequests {
                        app_state: Some(AppState::Game),
                        options_state: None,
                        profile_state: Some(ProfileState::Profile3),
                        exit: false,
                    })
                },
                LoadSaveElement::Profile4 => {
                    initial_focus.loadsave = LoadSaveElement::Profile4;
                    UiSelection::Requests(UiRequests {
                        app_state: Some(AppState::Game),
                        options_state: None,
                        profile_state: Some(ProfileState::Profile4),
                        exit: false,
                    })
                },
                LoadSaveElement::Back => {
                    initial_focus.loadsave = LoadSaveElement::Profile1;
                    UiSelection::Requests(UiRequests {
                        app_state: Some(AppState::Title),
                        options_state: None,
                        profile_state: None,
                        exit: false,
                    })
                },
            },
            _ => UiSelection::Unexpected(navigation),
        },
    }
}

} // verus!
