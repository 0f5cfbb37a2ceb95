use vstd::prelude::*;

use crate::states::options_state::OptionsState;
use crate::ui::ui_manager::{
    focused_navigation, lemma_screen_nodes_single_focus, nav, requests, screen_nodes, selected,
    single_focus, well_formed_screen, InitialUiFocus, UiElement, UiFocusable, UiNavigation, UiNode,
    UiRequests, UiSelection,
};

verus! {

/// The buttons of the general options screen.
#[derive(Clone, Copy, Debug, PartialEq, Eq, Hash, Structural)]
pub enum GeneralOptionsElement {
    Back,
}

/// The navigation records of the general options screen's buttons, in spawn order.
pub open spec fn options_general_navigation() -> Seq<UiNavigation> {
    seq![
        nav(
            UiElement::GeneralOptions(GeneralOptionsElement::Back),
            UiElement::Null,
            UiElement::Null,
            UiElement::Null,
            UiElement::Null,
        ),
    ]
}

/// The spawn position of each button.
pub open spec fn options_general_position(element: GeneralOptionsElement) -> int {
    match element {
        GeneralOptionsElement::Back => 0,
    }
}

/// The buttons of the general options screen, the remembered one focused.
pub fn spawn_gameplay_options(initial_focus: &InitialUiFocus) -> (r: Vec<UiNode>)
    ensures
        r@ == screen_nodes(options_general_navigation(), options_general_position(initial_focus.general_options)),
        well_formed_screen(r@),
        single_focus(r@),
{
    let focus: usize = match initial_focus.general_options {
        GeneralOptionsElement::Back => 0,
    };
    let r = vec![
        UiNode {
            navigation: UiNavigation {
                self_id: UiElement::GeneralOptions(GeneralOptionsElement::Back),
                up: UiElement::Null,
                down: UiElement::Null,
                left: UiElement::Null,
                right: UiElement::Null,
            },
            focusable: UiFocusable { is_focused: focus == 0 },
        },
    ];
    proof {
        assert(r@ =~= screen_nodes(options_general_navigation(), focus as int));
        lemma_screen_nodes_single_focus(options_general_navigation(), focus as int);
        reveal(well_formed_screen);
    }
    r
}

/// What selecting the button `navigation` does on the general options screen, and the
/// button the screen will focus when it is next shown.
pub open spec fn options_general_selected(navigation: UiNavigation, initial: InitialUiFocus) -> (
    UiSelection,
    InitialUiFocus,
) {
    match navigation.self_id {
        UiElement::GeneralOptions(GeneralOptionsElement::Back) => (
            requests(None, Some(OptionsState::Menu), None, false),
            InitialUiFocus { general_options: GeneralOptionsElement::Back, ..initial },
        ),
        _ => (UiSelection::Unexpected(navigation), initial),
    }
}

/// On a fresh select input, carries out the focused button of the general options screen.
pub fn handle_ui_selection(
    select_just_pressed: bool,
    nodes: &Vec<UiNode>,
    initial_focus: &mut InitialUiFocus,
) -> (r: UiSelection)
    ensures
        (r, *final(initial_focus)) == (match selected(select_just_pressed, nodes@) {
            Some(navigation) => options_general_selected(navigation, *old(initial_focus)),
            None => (UiSelection::Idle, *old(initial_focus)),
        }),
{
    if !select_just_pressed {
        return UiSelection::Idle;
    }
    match focused_navigation(nodes) {
        None => UiSelection::Idle,
        Some(navigation) => match navigation.self_id {
            UiElement::GeneralOptions(element) => match element {
                GeneralOptionsElement::Back => {
                    initial_focus.general_options = GeneralOptionsElement::Back;
                    UiSelection::Requests(UiRequests {
                        app_state: None,
                        options_state: Some(OptionsState::Menu),
                        profile_state: None,
                        exit: false,
                    })
                },
            },
            _ => UiSelection::Unexpected(navigation),
        },
    }
}

} // verus!
