use vstd::prelude::*;

use crate::states::app_state::AppState;
use crate::states::options_state::OptionsState;
use crate::ui::ui_manager::{
    focused_navigation, lemma_screen_nodes_single_focus, nav, requests, screen_nodes, selected,
    single_focus, well_formed_screen, InitialUiFocus, UiElement, UiFocusable, UiNavigation, UiNode,
    UiRequests, UiSelection,
};

verus! {

/// The buttons of the options menu.
#[derive(Clone, Copy, Debug, PartialEq, Eq, Hash, Structural)]
pub enum OptionsMenuElement {
    General,
    Controls,
    Audio,
    Video,
    Back,
}

/// The navigation records of the options menu's buttons, in spawn order.
pub open spec fn options_menu_navigation() -> Seq<UiNavigation> {
    seq![
        nav(
            UiElement::OptionsMenu(OptionsMenuElement::General),
            UiElement::OptionsMenu(OptionsMenuElement::Back),
            UiElement::OptionsMenu(OptionsMenuElement::Controls),
            UiElement::Null,
            UiElement::Null,
        ),
        nav(
            UiElement::OptionsMenu(OptionsMenuElement::Controls),
            UiElement::OptionsMenu(OptionsMenuElement::General),
            UiElement::OptionsMenu(OptionsMenuElement::Audio),
            UiElement::Null,
            UiElement::Null,
        ),
        nav(
            UiElement::OptionsMenu(OptionsMenuElement::Audio),
            UiElement::OptionsMenu(OptionsMenuElement::Controls),
            UiElement::OptionsMenu(OptionsMenuElement::Video),
            UiElement::Null,
            UiElement::Null,
        ),
        nav(
            UiElement::OptionsMenu(OptionsMenuElement::Video),
            UiElement::OptionsMenu(OptionsMenuElement::Audio),
            UiElement::OptionsMenu(OptionsMenuElement::Back),
            UiElement::Null,
            UiElement::Null,
        ),
        nav(
            UiElement::OptionsMenu(OptionsMenuElement::Back),
            UiElement::OptionsMenu(OptionsMenuElement::Video),
            UiElement::OptionsMenu(OptionsMenuElement::General),
            UiElement::Null,
            UiElement::Null,
        ),
    ]
}

/// The spawn position of each button.
pub open spec fn options_menu_position(element: OptionsMenuElement) -> int {
    match element {
        OptionsMenuElement::General => 0,
        OptionsMenuElement::Controls => 1,
        OptionsMenuElement::Audio => 2,
        OptionsMenuElement::Video => 3,
        OptionsMenuElement::Back => 4,
    }
}

/// The buttons of the options menu, the remembered one focused.
pub fn spawn_options_menu(initial_focus: &InitialUiFocus) -> (r: Vec<UiNode>)
    ensures
        r@ == screen_nodes(options_menu_navigation(), options_menu_position(initial_focus.options_menu)),
        well_formed_screen(r@),
        single_focus(r@),
{
    let focus: usize = match initial_focus.options_menu {
        OptionsMenuElement::General => 0,
        OptionsMenuElement::Controls => 1,
        OptionsMenuElement::Audio => 2,
        OptionsMenuElement::Video => 3,
        OptionsMenuElement::Back => 4,
    };
    let r = vec![
        UiNode {
            navigation: UiNavigation {
                self_id: UiElement::OptionsMenu(OptionsMenuElement::General),
                up: UiElement::OptionsMenu(OptionsMenuElement::Back),
                down: UiElement::OptionsMenu(OptionsMenuElement::Controls),
                left: UiElement::Null,
                right: UiElement::Null,
            },
            focusable: UiFocusable { is_focused: focus == 0 },
        },
        UiNode {
            navigation: UiNavigation {
                self_id: UiElement::OptionsMenu(OptionsMenuElement::Controls),
                up: UiElement::OptionsMenu(OptionsMenuElement::General),
                down: UiElement::OptionsMenu(OptionsMenuElement::Audio),
                left: UiElement::Null,
                right: UiElement::Null,
            },
            focusable: UiFocusable { is_focused: focus == 1 },
        },
        UiNode {
            navigation: UiNavigation {
                self_id: UiElement::OptionsMenu(OptionsMenuElement::Audio),
                up: UiElement::OptionsMenu(OptionsMenuElement::Controls),
                down: UiElement::OptionsMenu(OptionsMenuElement::Video),
                left: UiElement::Null,
                right: UiElement::Null,
            },
            focusable: UiFocusable { is_focused: focus == 2 },
        },
        UiNode {
            navigation: UiNavigation {
                self_id: UiElement::OptionsMenu(OptionsMenuElement::Video),
                up: UiElement::OptionsMenu(OptionsMenuElement::Audio),
                down: UiElement::OptionsMenu(OptionsMenuElement::Back),
                left: UiElement::Null,
                right: UiElement::Null,
            },
            focusable: UiFocusable { is_focused: focus == 3 },
        },
        UiNode {
            navigation: UiNavigation {
                self_id: UiElement::OptionsMenu(OptionsMenuElement::Back),
                up: UiElement::OptionsMenu(OptionsMenuElement::Video),
                down: UiElement::OptionsMenu(OptionsMenuElement::General),
                left: UiElement::Null,
                right: UiElement::Null,
            },
            focusable: UiFocusable { is_focused: focus == 4 },
        },
    ];
    proof {
        assert(r@ =~= screen_nodes(options_menu_navigation(), focus as int));
        lemma_screen_nodes_single_focus(options_menu_navigation(), focus as int);
        reveal(well_formed_screen);
    }
    r
}

/// What selecting the button `navigation` does on the options menu, and the
/// button the screen will focus when it is next shown.
pub open spec fn options_menu_selected(navigation: UiNavigation, initial: InitialUiFocus) -> (
    UiSelection,
    InitialUiFocus,
) {
    match navigation.self_id {
        UiElement::OptionsMenu(OptionsMenuElement::General) => (
            requests(None, Some(OptionsState::General), None, false),
            InitialUiFocus { options_menu: OptionsMenuElement::General, ..initial },
        ),
        UiElement::OptionsMenu(OptionsMenuElement::Controls) => (
            requests(None, Some(OptionsState::Controls), None, false),
            InitialUiFocus { options_menu: OptionsMenuElement::Controls, ..initial },
        ),
        UiElement::OptionsMenu(OptionsMenuElement::Audio) => (
            requests(None, Some(OptionsState::Audio), None, false),
            InitialUiFocus { options_menu: OptionsMenuElement::Audio, ..initial },
        ),
        UiElement::OptionsMenu(OptionsMenuElement::Video) => (
            requests(None, Some(OptionsState::Video), None, false),
            InitialUiFocus { options_menu: OptionsMenuElement::Video, ..initial },
        ),
        UiElement::OptionsMenu(OptionsMenuElement::Back) => (
            requests(Some(AppState::Title), Some(OptionsState::Closed), None, false),
            InitialUiFocus { options_menu: OptionsMenuElement::General, ..initial },
        ),
        _ => (UiSelection::Unexpected(navigation), initial),
    }
}

/// On a fresh select input, carries out the focused button of the options menu.
pub fn handle_ui_selection(
    select_just_pressed: bool,
    nodes: &Vec<UiNode>,
    initial_focus: &mut InitialUiFocus,
) -> (r: UiSelection)
    ensures
        (r, *final(initial_focus)) == (match selected(select_just_pressed, nodes@) {
            Some(navigation) => options_menu_selected(navigation, *old(initial_focus)),
            None => (UiSelection::Idle, *old(initial_focus)),
        }),
{
    if !select_just_pressed {
        return UiSelection::Idle;
    }
    match focused_navigation(nodes) {
        None => UiSelection::Idle,
        Some(navigation) => match navigation.self_id {
            UiElement::OptionsMenu(element) => match element {
                OptionsMenuElement::General => {
                    initial_focus.options_menu = OptionsMenuElement::General;
                    UiSelection::Requests(UiRequests {
                        app_state: None,
                        options_state: Some(OptionsState::General),
                        profile_state: None,
                        exit: false,
                    })
                },
                OptionsMenuElement::Controls => {
                    initial_focus.options_menu = OptionsMenuElement::Controls;
                    UiSelection::Requests(UiRequests {
                        app_state: None,
                        options_state: Some(OptionsState::Controls),
                        profile_state: None,
                        exit: false,
                    })
                },
                OptionsMenuElement::Audio => {
                    initial_focus.options_menu = OptionsMenuElement::Audio;
                    UiSelection::Requests(UiRequests {
                        app_state: None,
                        options_state: Some(OptionsState::Audio),
                        profile_state: None,
                        exit: false,
                    })
                },
                OptionsMenuElement::Video => {
                    initial_focus.options_menu = OptionsMenuElement::Video;
                    UiSelection::Requests(UiRequests {
                        app_state: None,
                        options_state: Some(OptionsState::Video),
                        profile_state: None,
                        exit: false,
                    })
                },
                OptionsMenuElement::Back => {
                    initial_focus.options_menu = OptionsMenuElement::General;
                    UiSelection::Requests(UiRequests {
                        app_state: Some(AppState::Title),
                        options_state: Some(OptionsState::Closed),
                        profile_state: None,
                        exit: false,
                    })
                },
            },
            _ => UiSelection::Unexpected(navigation),
        },
    }
}

} // verus!
