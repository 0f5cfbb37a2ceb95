use vstd::prelude::*;

use crate::states::app_state::AppState;
use crate::ui::ui_manager::{
    focused_navigation, lemma_screen_nodes_single_focus, nav, requests, screen_nodes, selected,
    single_focus, well_formed_screen, InitialUiFocus, UiElement, UiFocusable, UiNavigation, UiNode,
    UiRequests, UiSelection,
};

verus! {

/// The buttons of the title screen.
#[derive(Clone, Copy, Debug, PartialEq, Eq, Hash, Structural)]
pub enum TitleElement {
    Play,
    Options,
    Credits,
    Quit,
}

/// The navigation records of the title screen's buttons, in spawn order.
pub open spec fn title_navigation() -> Seq<UiNavigation> {
    seq![
        nav(
            UiElement::Title(TitleElement::Play),
            UiElement::Title(TitleElement::Quit),
            UiElement::Title(TitleElement::Options),
            UiElement::Null,
            UiElement::Null,
        ),
        nav(
            UiElement::Title(TitleElement::Options),
            UiElement::Title(TitleElement::Play),
            UiElement::Title(TitleElement::Credits),
            UiElement::Null,
            UiElement::Null,
        ),
        nav(
            UiElement::Title(TitleElement::Credits),
            UiElement::Title(TitleElement::Options),
            UiElement::Title(TitleElement::Quit),
            UiElement::Null,
            UiElement::Null,
        ),
        nav(
            UiElement::Title(TitleElement::Quit),
            UiElement::Title(TitleElement::Credits),
            UiElement::Title(TitleElement::Play),
            UiElement::Null,
            UiElement::Null,
        ),
    ]
}

/// The spawn position of each button.
pub open spec fn title_position(element: TitleElement) -> int {
    match element {
        TitleElement::Play => 0,
        TitleElement::Options => 1,
        TitleElement::Credits => 2,
        TitleElement::Quit => 3,
    }
}

/// The buttons of the title screen, the remembered one focused.
pub fn spawn_title(initial_focus: &InitialUiFocus) -> (r: Vec<UiNode>)
    ensures
        r@ == screen_nodes(title_navigation(), title_position(initial_focus.title)),
        well_formed_screen(r@),
        single_focus(r@),
{
    let focus: usize = match initial_focus.title {
        TitleElement::Play => 0,
        TitleElement::Options => 1,
        TitleElement::Credits => 2,
        TitleElement::Quit => 3,
    };
    let r = vec![
        UiNode {
            navigation: UiNavigation {
                self_id: UiElement::Title(TitleElement::Play),
                up: UiElement::Title(TitleElement::Quit),
                down: UiElement::Title(TitleElement::Options),
                left: UiElement::Null,
                right: UiElement::Null,
            },
            focusable: UiFocusable { is_focused: focus == 0 },
        },
        UiNode {
            navigation: UiNavigation {
                self_id: UiElement::Title(TitleElement::Options),
                up: UiElement::Title(TitleElement::Play),
                down: UiElement::Title(TitleElement::Credits),
                left: UiElement::Null,
                right: UiElement::Null,
            },
            focusable: UiFocusable { is_focused: focus == 1 },
        },
        UiNode {
            navigation: UiNavigation {
                self_id: UiElement::Title(TitleElement::Credits),
                up: UiElement::Title(TitleElement::Options),
                down: UiElement::Title(TitleElement::Quit),
                left: UiElement::Null,
                right: UiElement::Null,
            },
            focusable: UiFocusable { is_focused: focus == 2 },
        },
        UiNode {
            navigation: UiNavigation {
                self_id: UiElement::Title(TitleElement::Quit),
                up: UiElement::Title(TitleElement::Credits),
                down: UiElement::Title(TitleElement::Play),
                left: UiElement::Null,
                right: UiElement::Null,
            },
            focusable: UiFocusable { is_focused: focus == 3 },
        },
    ];
    proof {
        assert(r@ =~= screen_nodes(title_navigation(), focus as int));
        lemma_screen_nodes_single_focus(title_navigation(), focus as int);
        reveal(well_formed_screen);
    }
    r
}

/// What selecting the button `navigation` does on the title screen, and the
/// button the screen will focus when it is next shown.
pub open spec fn title_selected(navigation: UiNavigation, initial: InitialUiFocus) -> (
    UiSelection,
    InitialUiFocus,
) {
    match navigation.self_id {
        UiElement::Title(TitleElement::Play) => (
            requests(Some(AppState::LoadSave), None, None, false),
            InitialUiFocus { title: TitleElement::Play, ..initial },
        ),
        UiElement::Title(TitleElement::Options) => (
            requests(Some(AppState::Options), None, None, false),
            InitialUiFocus { title: TitleElement::Options, ..initial },
        ),
        UiElement::Title(TitleElement::Credits) => (
            requests(Some(AppState::Credits), None, None, false),
            InitialUiFocus { title: TitleElement::Credits, ..initial },
        ),
        UiElement::Title(TitleElement::Quit) => (
            requests(None, None, None, true),
            initial,
        ),
        _ => (UiSelection::Unexpected(navigation), initial),
    }
}

/// On a fresh select input, carries out the focused button of the title screen.
pub fn handle_ui_selection(
    select_just_pressed: bool,
    nodes: &Vec<UiNode>,
    initial_focus: &mut InitialUiFocus,
) -> (r: UiSelection)
    ensures
        (r, *final(initial_focus)) == (match selected(select_just_pressed, nodes@) {
            Some(navigation) => title_selected(navigation, *old(initial_focus)),
            None => (UiSelection::Idle, *old(initial_focus)),
        }),
{
    if !select_just_pressed {
        return UiSelection::Idle;
    }
    match focused_navigation(nodes) {
        None => UiSelection::Idle,
        Some(navigation) => match navigation.self_id {
            UiElement::Title(element) => match element {
                TitleElement::Play => {
                    initial_focus.title = TitleElement::Play;
                    UiSelection::Requests(UiRequests {
                        app_state: Some(AppState::LoadSave),
                        options_state: None,
                        profile_state: None,
                        exit: false,
                    })
                },
                TitleElement::Options => {
                    initial_focus.title = TitleElement::Options;
                    UiSelection::Requests(UiRequests {
                        app_state: Some(AppState::Options),
                        options_state: None,
                        profile_state: None,
                        exit: false,
                    })
                },
                TitleElement::Credits => {
                    initial_focus.title = TitleElement::Credits;
                    UiSelection::Requests(UiRequests {
                        app_state: Some(AppState::Credits),
                        options_state: None,
                        profile_state: None,
                        exit: false,
                    })
                },
                TitleElement::Quit => {
                    UiSelection::Requests(UiRequests {
                        app_state: None,
                        options_state: None,
                        profile_state: None,
                        exit: true,
                    })
                },
            },
            _ => UiSelection::Unexpected(navigation),
        },
    }
}

} // verus!
